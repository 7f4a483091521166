//! A320 trackpad on the left half.
//!
//! Publishes raw displacement in pad counts; all scaling lives in the pointer
//! modes. The bus, the motion line and the timers belong to the board: the driver
//! is told what they did and says what to do next.

use vstd::prelude::*;

use crate::bytes;
use crate::bytes::to_signed;
use crate::clock;
use crate::clock::{elapsed_ms, MAX_TICKS};
use crate::pointer_speed::{is_scrolling, PointerSettings};
use crate::pointing::PointingEvent;

verus! {

/// Bus address of the pad.
pub const A320_ADDR: u8 = 0x3B;

/// Register pointer that is written before a packet is read.
pub const MOTION_REG: u8 = 0x82;

/// Bytes of a packet: status, dx, dy.
pub const PACKET_LEN: usize = 3;

/// A read that takes longer has failed: a pad that holds the clock never ends it.
pub const READ_TIMEOUT_MS: u64 = 20;

/// Longest wait for the motion line. The read that follows it probes the bus even
/// when nobody touches the pad.
pub const MOTION_TIMEOUT_MS: u64 = 500;

/// Pause between two looks while the keyboard sleeps.
pub const SLEEP_SECS: u64 = 2;

/// Displacements up to this size are noise.
pub const DEADZONE: i16 = 1;

/// Gain while the pad drives the wheel.
pub const SCROLL_GAIN: i32 = 1;

/// Gain while the pad moves the cursor.
pub const CURSOR_GAIN: i32 = 1;

/// What is kept of a stroke is dropped after this much silence.
pub const WDT_TIMEOUT_MS: u64 = 200;

/// The pad counts as untouched after this much quiet.
pub const TOUCH_IDLE_MS: u64 = 50;

/// Pause before a report.
pub const REPORT_PAUSE_MS: u64 = 25;

/// Code of a read that timed out.
pub const ERR_TIMEOUT: u32 = 9;

/// Most that is ever kept of a stroke on one axis.
pub const RESIDUE_LIMIT: i32 = 0x0100_0000;

/// Counters of the pad chain, for finding faults. They wrap.
#[derive(Debug, Clone, Copy, PartialEq, Eq, Structural)]
pub struct PadStats {
    /// Motion edges.
    pub n_motion: u32,
    /// Reads that succeeded.
    pub n_ok: u32,
    /// Reads that failed.
    pub n_err: u32,
    /// Events published.
    pub n_pub: u32,
    /// Code of the last failure, 0 before the first.
    pub n_lerr: u32,
}

impl PadStats {
    /// All zero.
    pub fn new() -> (r: Self)
        ensures
            r == (PadStats { n_motion: 0, n_ok: 0, n_err: 0, n_pub: 0, n_lerr: 0 }),
    {
        PadStats { n_motion: 0, n_ok: 0, n_err: 0, n_pub: 0, n_lerr: 0 }
    }
}

/// Code of the last failure.
pub fn n_lerr(stats: &PadStats) -> (r: u32)
    ensures
        r == stats.n_lerr,
{
    stats.n_lerr
}

/// Motion edges so far.
pub fn n_motion(stats: &PadStats) -> (r: u32)
    ensures
        r == stats.n_motion,
{
    stats.n_motion
}

/// Reads that succeeded so far.
pub fn n_ok(stats: &PadStats) -> (r: u32)
    ensures
        r == stats.n_ok,
{
    stats.n_ok
}

/// Reads that failed so far.
pub fn n_err(stats: &PadStats) -> (r: u32)
    ensures
        r == stats.n_err,
{
    stats.n_err
}

/// Events published so far.
pub fn n_pub(stats: &PadStats) -> (r: u32)
    ensures
        r == stats.n_pub,
{
    stats.n_pub
}

/// How a bus transaction failed.
#[derive(Debug, Clone, Copy, PartialEq, Eq, Structural)]
pub enum BusError {
    /// Nobody answered the address.
    NoAckAddress,
    /// A data byte was not acknowledged, or it is not known which byte.
    NoAckData,
    Bus,
    ArbitrationLoss,
    Overrun,
    Other,
}

impl BusError {
    /// The code that the counters keep.
    pub open spec fn code(self) -> u32 {
        match self {
            BusError::NoAckAddress => 1,
            BusError::NoAckData => 2,
            BusError::Bus => 3,
            BusError::ArbitrationLoss => 4,
            BusError::Overrun => 5,
            BusError::Other => 6,
        }
    }
}

/// The code that the counters keep of a bus error.
pub fn err_kind(e: BusError) -> (r: u32)
    ensures
        r == e.code(),
{
    match e {
        BusError::NoAckAddress => 1,
        BusError::NoAckData => 2,
        BusError::Bus => 3,
        BusError::ArbitrationLoss => 4,
        BusError::Overrun => 5,
        BusError::Other => 6,
    }
}

/// What came of reading a packet.
#[derive(Debug, Clone, Copy)]
pub enum PacketRead {
    Data([u8; 3]),
    Failed(BusError),
    TimedOut,
}

/// The negative of a byte in two's complement.
pub open spec fn negated(b: u8) -> int {
    -bytes::signed(b)
}

impl PacketRead {
    /// The displacement in a packet. The pad counts y downwards. A failed read and
    /// a packet without displacement have none: both end a burst.
    pub open spec fn motion(self) -> Option<(i16, i16)> {
        match self {
            PacketRead::Data(buf) => if bytes::signed(buf[1]) == 0 && negated(buf[2]) == 0 {
                None
            } else {
                Some((bytes::signed(buf[1]) as i16, negated(buf[2]) as i16))
            },
            PacketRead::Failed(_) => None,
            PacketRead::TimedOut => None,
        }
    }

    /// The counters after this read.
    pub open spec fn counted(self, stats: PadStats) -> PadStats {
        match self {
            PacketRead::Data(_) => PadStats { n_ok: stats.n_ok.wrapping_add(1), ..stats },
            PacketRead::Failed(e) => PadStats {
                n_err: stats.n_err.wrapping_add(1),
                n_lerr: e.code(),
                ..stats
            },
            PacketRead::TimedOut => PadStats {
                n_err: stats.n_err.wrapping_add(1),
                n_lerr: ERR_TIMEOUT,
                ..stats
            },
        }
    }
}

/// Counts a read and takes the displacement out of it; `None` ends the burst.
pub fn read_packet(stats: &mut PadStats, read: PacketRead) -> (r: Option<(i16, i16)>)
    ensures
        *final(stats) == read.counted(*old(stats)),
        r == read.motion(),
{
    match read {
        PacketRead::Data(buf) => {
            stats.n_ok = stats.n_ok.wrapping_add(1);
            let dx: i16 = to_signed(buf[1]) as i16;
            let dy: i16 = -(to_signed(buf[2]) as i16);
            if dx == 0 && dy == 0 {
                return None;
            }
            Some((dx, dy))
        },
        PacketRead::Failed(e) => {
            stats.n_err = stats.n_err.wrapping_add(1);
            stats.n_lerr = err_kind(e);
            None
        },
        PacketRead::TimedOut => {
            stats.n_err = stats.n_err.wrapping_add(1);
            stats.n_lerr = ERR_TIMEOUT;
            None
        },
    }
}

/// A value brought into the range of a report.
pub open spec fn clamp16(v: int) -> i16 {
    if v < i16::MIN {
        i16::MIN
    } else if v > i16::MAX {
        i16::MAX
    } else {
        v as i16
    }
}

/// A value brought into the range of a report.
fn to_report(v: i32) -> (r: i16)
    ensures
        r == clamp16(v as int),
{
    if v < i16::MIN as i32 {
        i16::MIN
    } else if v > i16::MAX as i32 {
        i16::MAX
    } else {
        v as i16
    }
}

/// A number of counts brought into the range of what is kept.
pub open spec fn limited(v: int) -> i32 {
    if v < -RESIDUE_LIMIT {
        (-RESIDUE_LIMIT) as i32
    } else if v > RESIDUE_LIMIT {
        RESIDUE_LIMIT
    } else {
        v as i32
    }
}

/// A number of counts brought into the range of what is kept.
fn limit(v: i32) -> (r: i32)
    ensures
        r == limited(v as int),
{
    if v < -RESIDUE_LIMIT {
        -RESIDUE_LIMIT
    } else if v > RESIDUE_LIMIT {
        RESIDUE_LIMIT
    } else {
        v
    }
}

/// The packets read after one motion edge.
#[derive(Debug, Clone, Copy, PartialEq, Eq, Structural)]
pub struct Burst {
    /// Clock reading at the edge.
    pub now: u64,
    /// Sums of the displacements.
    pub x: i16,
    pub y: i16,
    /// A packet with displacement has been read.
    pub got: bool,
}

impl Burst {
    /// Before the first packet.
    pub open spec fn start(now: u64) -> Burst {
        Burst { now, x: 0, y: 0, got: false }
    }

    /// With one more displacement; the sums saturate.
    pub open spec fn plus(self, d: (i16, i16)) -> Burst {
        Burst {
            now: self.now,
            x: clamp16(self.x + d.0),
            y: clamp16(self.y + d.1),
            got: true,
        }
    }

    /// Adds the displacement of a packet.
    pub fn drain(&mut self, d: (i16, i16))
        ensures
            *final(self) == old(self).plus(d),
    {
        self.x = to_report(self.x as i32 + d.0 as i32);
        self.y = to_report(self.y as i32 + d.1 as i32);
        self.got = true;
    }
}

/// A displacement without noise.
pub open spec fn dead(v: int) -> int {
    if -DEADZONE <= v <= DEADZONE {
        0
    } else {
        v
    }
}

fn deadened(v: i16) -> (r: i16)
    ensures
        r == dead(v as int),
{
    if -DEADZONE <= v && v <= DEADZONE {
        0
    } else {
        v
    }
}

/// Gain of the pad in its present mode.
pub open spec fn gain(scrolling: bool) -> int {
    if scrolling {
        SCROLL_GAIN as int
    } else {
        CURSOR_GAIN as int
    }
}

/// Where the driver stands.
#[derive(Debug, Clone, Copy, PartialEq, Eq, Structural)]
pub enum Phase {
    /// At the top of a round.
    Idle,
    /// Waiting for the motion line.
    Waiting,
    /// Reading packets.
    Draining(Burst),
    /// Pausing before the report of this displacement.
    Pausing { x: i16, y: i16 },
}

/// How a wait for the motion line ended.
#[derive(Debug, Clone, Copy, PartialEq, Eq, Structural)]
pub enum MotionWait {
    Edge,
    Failed,
    TimedOut,
}

/// What the board did.
#[derive(Debug, Clone, Copy)]
pub enum PadEvent {
    /// A round begins.
    Ready { sleeping: bool },
    /// The wait for the motion line is over.
    Motion { wait: MotionWait, now: u64 },
    /// A read is over.
    Packet(PacketRead),
    /// The pause before a report is over.
    Paused,
}

/// What the board is to do next.
#[derive(Debug, Clone, Copy)]
pub enum PadAction {
    /// Sleep for [`SLEEP_SECS`], then begin a round.
    Sleep,
    /// Wait for a falling edge, at most [`MOTION_TIMEOUT_MS`].
    WaitMotion,
    /// Write [`MOTION_REG`] and read a packet, within [`READ_TIMEOUT_MS`].
    Read,
    /// Pause for [`REPORT_PAUSE_MS`].
    Pause,
    /// Begin a round.
    Again,
    /// Publish the event, then begin a round when the next one is asked for.
    Publish(PointingEvent),
}

/// A320 trackpad.
#[derive(Debug, Clone, Copy, PartialEq, Eq, Structural)]
pub struct A320 {
    /// Id of the pointing processor that handles the pad.
    pub device_id: u8,
    /// Counts carried over between reports. Gains are whole, so these are too.
    pub residue_x: i32,
    pub residue_y: i32,
    /// Clock reading at the last packet that moved.
    pub last_activity: u64,
    /// Clock reading at the last burst that was not empty.
    pub last_touch: u64,
    pub phase: Phase,
}

impl A320 {
    /// What is kept of a stroke is bounded, a pending report is what the kept
    /// counts give, and the time of a burst can be told.
    pub open spec fn wf(self) -> bool {
        &&& -RESIDUE_LIMIT <= self.residue_x <= RESIDUE_LIMIT || self.phase is Pausing
        &&& -RESIDUE_LIMIT <= self.residue_y <= RESIDUE_LIMIT || self.phase is Pausing
        &&& self.phase matches Phase::Pausing { x, y } ==> {
            &&& x == clamp16(self.residue_x as int)
            &&& y == clamp16(self.residue_y as int)
            &&& -RESIDUE_LIMIT - 32768 <= self.residue_x <= RESIDUE_LIMIT + 32768
            &&& -RESIDUE_LIMIT - 32768 <= self.residue_y <= RESIDUE_LIMIT + 32768
        }
        &&& self.phase matches Phase::Draining(burst) ==> burst.now <= MAX_TICKS
    }

    /// Whether an event answers what the driver is waiting for.
    pub open spec fn expects(self, event: PadEvent) -> bool {
        match event {
            PadEvent::Ready { .. } => self.phase is Idle,
            PadEvent::Motion { now, .. } => self.phase is Waiting && now <= MAX_TICKS,
            PadEvent::Packet(_) => self.phase is Draining,
            PadEvent::Paused => self.phase is Pausing,
        }
    }

    /// What a displacement adds to the kept counts: noise removed, gain applied, x
    /// reversed.
    pub open spec fn scaled_by(scrolling: bool, dx: i16, dy: i16) -> (int, int) {
        (-dead(dx as int) * gain(scrolling), dead(dy as int) * gain(scrolling))
    }

    pub fn new(rmk_id: u8, now: u64) -> (r: Self)
        ensures
            r == (A320 {
                device_id: rmk_id,
                residue_x: 0,
                residue_y: 0,
                last_activity: now,
                last_touch: now,
                phase: Phase::Idle,
            }),
            r.wf(),
    {
        A320 {
            device_id: rmk_id,
            residue_x: 0,
            residue_y: 0,
            last_activity: now,
            last_touch: now,
            phase: Phase::Idle,
        }
    }

    /// Deadzone, then gain by mode, then axis directions.
    pub fn scaled(&self, settings: &PointerSettings, dx: i16, dy: i16) -> (r: (i32, i32))
        ensures
            (r.0 as int, r.1 as int) == Self::scaled_by(
                settings.of(self.device_id).scrolling,
                dx,
                dy,
            ),
            -32768 <= r.0 <= 32768,
            -32768 <= r.1 <= 32768,
    {
        let g: i32 = if is_scrolling(settings, self.device_id) {
            SCROLL_GAIN
        } else {
            CURSOR_GAIN
        };
        (-(deadened(dx) as i32) * g, deadened(dy) as i32 * g)
    }

    /// The driver when the wait for the motion line is over: what was kept of a
    /// stroke that has been silent too long is dropped, and packets are read.
    pub open spec fn after_motion(self, now: u64) -> A320 {
        let stale = clock::ms_between(now, self.last_activity) > WDT_TIMEOUT_MS;
        A320 {
            residue_x: if stale {
                0
            } else {
                self.residue_x
            },
            residue_y: if stale {
                0
            } else {
                self.residue_y
            },
            last_activity: if stale {
                now
            } else {
                self.last_activity
            },
            phase: Phase::Draining(Burst::start(now)),
            ..self
        }
    }

    /// The driver at the end of a burst: an empty one drops what was kept if the
    /// pad has been quiet, any other adds to it and makes a report of it.
    pub open spec fn after_burst(self, burst: Burst, scrolling: bool) -> A320 {
        let (sx, sy) = Self::scaled_by(scrolling, burst.x, burst.y);
        if burst.got {
            A320 {
                residue_x: (self.residue_x + sx) as i32,
                residue_y: (self.residue_y + sy) as i32,
                last_activity: burst.now,
                last_touch: burst.now,
                phase: Phase::Pausing {
                    x: clamp16(self.residue_x + sx),
                    y: clamp16(self.residue_y + sy),
                },
                ..self
            }
        } else if clock::ms_between(burst.now, self.last_touch) > TOUCH_IDLE_MS {
            A320 { residue_x: 0, residue_y: 0, phase: Phase::Idle, ..self }
        } else {
            A320 { phase: Phase::Idle, ..self }
        }
    }

    /// The driver after the pause before the report of `x` and `y`: what was not
    /// reported is kept.
    pub open spec fn after_pause(self, x: i16, y: i16) -> A320 {
        A320 {
            residue_x: limited(self.residue_x - x),
            residue_y: limited(self.residue_y - y),
            phase: Phase::Idle,
            ..self
        }
    }

    /// The driver after an event.
    pub open spec fn after(self, scrolling: bool, event: PadEvent) -> A320 {
        match event {
            PadEvent::Ready { sleeping } => A320 {
                phase: if sleeping {
                    Phase::Idle
                } else {
                    Phase::Waiting
                },
                ..self
            },
            PadEvent::Motion { now, .. } => self.after_motion(now),
            PadEvent::Packet(read) => match read.motion() {
                Some(d) => A320 { phase: Phase::Draining(self.phase->Draining_0.plus(d)), ..self },
                None => self.after_burst(self.phase->Draining_0, scrolling),
            },
            PadEvent::Paused => self.after_pause(self.phase->x, self.phase->y),
        }
    }

    /// The counters after an event.
    pub open spec fn counted(self, stats: PadStats, event: PadEvent) -> PadStats {
        match event {
            PadEvent::Ready { .. } => stats,
            PadEvent::Motion { wait, .. } => if wait is Edge {
                PadStats { n_motion: stats.n_motion.wrapping_add(1), ..stats }
            } else {
                stats
            },
            PadEvent::Packet(read) => read.counted(stats),
            PadEvent::Paused => if self.phase->x == 0 && self.phase->y == 0 {
                stats
            } else {
                PadStats { n_pub: stats.n_pub.wrapping_add(1), ..stats }
            },
        }
    }

    /// Whether `action` is what follows on an event.
    pub open spec fn answers(self, event: PadEvent, action: PadAction) -> bool {
        match event {
            PadEvent::Ready { sleeping } => if sleeping {
                action is Sleep
            } else {
                action is WaitMotion
            },
            PadEvent::Motion { .. } => action is Read,
            PadEvent::Packet(read) => if read.motion() is Some {
                action is Read
            } else if self.phase->Draining_0.got {
                action is Pause
            } else {
                action is Again
            },
            PadEvent::Paused => if self.phase->x == 0 && self.phase->y == 0 {
                action is Again
            } else {
                action matches PadAction::Publish(e) && e.moves(
                    self.device_id,
                    self.phase->x,
                    self.phase->y,
                )
            },
        }
    }

    /// One step of reading a pointing event: takes what the board did, says what it
    /// is to do next.
    pub fn read_pointing_event(
        &mut self,
        stats: &mut PadStats,
        settings: &PointerSettings,
        event: PadEvent,
    ) -> (r: PadAction)
        requires
            old(self).wf(),
            old(self).expects(event),
        ensures
            final(self).wf(),
            *final(self) == old(self).after(settings.of(old(self).device_id).scrolling, event),
            *final(stats) == old(self).counted(*old(stats), event),
            old(self).answers(event, r),
    {
        match (self.phase, event) {
            (Phase::Idle, PadEvent::Ready { sleeping }) => {
                if sleeping {
                    return PadAction::Sleep;
                }
                self.phase = Phase::Waiting;
                PadAction::WaitMotion
            },
            (Phase::Waiting, PadEvent::Motion { wait, now }) => {
                match wait {
                    MotionWait::Edge => {
                        stats.n_motion = stats.n_motion.wrapping_add(1);
                    },
                    MotionWait::Failed => {},
                    MotionWait::TimedOut => {},
                }
                if elapsed_ms(now, self.last_activity) > WDT_TIMEOUT_MS {
                    self.residue_x = 0;
                    self.residue_y = 0;
                    self.last_activity = now;
                }
                self.phase = Phase::Draining(Burst { now, x: 0, y: 0, got: false });
                PadAction::Read
            },
            (Phase::Draining(burst), PadEvent::Packet(read)) => {
                let mut burst: Burst = burst;
                match read_packet(stats, read) {
                    Some(d) => {
                        burst.drain(d);
                        self.phase = Phase::Draining(burst);
                        PadAction::Read
                    },
                    None => {
                        if !burst.got {
                            if elapsed_ms(burst.now, self.last_touch) > TOUCH_IDLE_MS {
                                self.residue_x = 0;
                                self.residue_y = 0;
                            }
                            self.phase = Phase::Idle;
                            return PadAction::Again;
                        }
                        self.last_activity = burst.now;
                        self.last_touch = burst.now;
                        let (sx, sy): (i32, i32) = self.scaled(settings, burst.x, burst.y);
                        self.residue_x = self.residue_x + sx;
                        self.residue_y = self.residue_y + sy;
                        self.phase = Phase::Pausing {
                            x: to_report(self.residue_x),
                            y: to_report(self.residue_y),
                        };
                        PadAction::Pause
                    },
                }
            },
            (Phase::Pausing { x, y }, PadEvent::Paused) => {
                self.phase = Phase::Idle;
                if x == 0 && y == 0 {
                    return PadAction::Again;
                }
                self.residue_x = limit(self.residue_x - x as i32);
                self.residue_y = limit(self.residue_y - y as i32);
                stats.n_pub = stats.n_pub.wrapping_add(1);
                PadAction::Publish(PointingEvent::relative(self.device_id, x, y))
            },
            _ => {
                // No other pair is expected.
                assert(false);
                PadAction::Again
            },
        }
    }
}

/// Whether every action is answered by an event that the driver then expects, so
/// that board and driver never disagree on where they stand.
pub open spec fn reply_fits(pad: A320, action: PadAction) -> bool {
    match action {
        PadAction::Sleep => pad.phase is Idle,
        PadAction::WaitMotion => pad.phase is Waiting,
        PadAction::Read => pad.phase is Draining,
        PadAction::Pause => pad.phase is Pausing,
        PadAction::Again => pad.phase is Idle,
        PadAction::Publish(_) => pad.phase is Idle,
    }
}

/// After every step the driver expects the event that its own action brings about.
pub proof fn law_driver_and_board_stay_in_step(
    pad: A320,
    scrolling: bool,
    event: PadEvent,
    action: PadAction,
)
    requires
        pad.expects(event),
        pad.answers(event, action),
    ensures
        reply_fits(pad.after(scrolling, event), action),
{
}

/// While the keyboard sleeps the pad is left alone: no wait, no read, no change.
pub proof fn law_sleep_is_quiet(pad: A320, stats: PadStats, scrolling: bool, action: PadAction)
    requires
        pad.expects(PadEvent::Ready { sleeping: true }),
        pad.answers(PadEvent::Ready { sleeping: true }, action),
    ensures
        action is Sleep,
        pad.after(scrolling, PadEvent::Ready { sleeping: true }) == pad,
        pad.counted(stats, PadEvent::Ready { sleeping: true }) == stats,
{
}

/// Only displacements within the deadzone are noise; every other passes unchanged.
pub proof fn law_noise_is_tiny(v: i16)
    ensures
        dead(v as int) == 0 <==> -DEADZONE <= v <= DEADZONE,
        dead(v as int) != 0 ==> dead(v as int) == v,
{
}

/// With gains of one a displacement passes through.
proof fn lemma_scaled(scrolling: bool, dx: i16, dy: i16)
    ensures
        A320::scaled_by(scrolling, dx, dy) == (-dead(dx as int), dead(dy as int)),
        -32768 <= dead(dx as int) <= 32767,
        -32768 <= dead(dy as int) <= 32767,
{
    let g = gain(scrolling);
    assert(-dead(dx as int) * g == -dead(dx as int)) by (nonlinear_arith)
        requires
            g == 1,
    ;
    assert(dead(dy as int) * g == dead(dy as int)) by (nonlinear_arith)
        requires
            g == 1,
    ;
}

/// No count is lost or invented: what a burst reports and what is kept for later
/// add up to what was kept before and what the burst brought, as long as what is
/// kept is below its limit.
pub proof fn law_no_count_is_lost(pad: A320, scrolling: bool, read: PacketRead)
    requires
        pad.wf(),
        pad.phase is Draining,
        pad.phase->Draining_0.got,
        read.motion() is None,
        pad.residue_x < RESIDUE_LIMIT,
    ensures
        ({
            let burst = pad.phase->Draining_0;
            let (sx, sy) = A320::scaled_by(scrolling, burst.x, burst.y);
            let reporting = pad.after(scrolling, PadEvent::Packet(read));
            let done = reporting.after(scrolling, PadEvent::Paused);
            &&& reporting.phase->x + done.residue_x == pad.residue_x + sx
            &&& reporting.phase->y + done.residue_y == pad.residue_y + sy
        }),
{
    lemma_scaled(scrolling, pad.phase->Draining_0.x, pad.phase->Draining_0.y);
}

/// A pad that keeps nothing goes on keeping nothing: every report carries the
/// whole of its burst, whatever the board does. The one burst that does not fit
/// into a report is the longest to the left: reversed, it is one count too many.
pub proof fn law_reports_are_whole(pad: A320, scrolling: bool, event: PadEvent)
    requires
        pad.wf(),
        pad.expects(event),
        !(pad.phase is Pausing) ==> pad.residue_x == 0 && pad.residue_y == 0,
        pad.phase matches Phase::Pausing { x, y } ==> pad.residue_x == x && pad.residue_y == y,
        pad.phase matches Phase::Draining(burst) ==> burst.x != i16::MIN,
    ensures
        ({
            let next = pad.after(scrolling, event);
            &&& !(next.phase is Pausing) ==> next.residue_x == 0 && next.residue_y == 0
            &&& next.phase matches Phase::Pausing { x, y } ==> next.residue_x == x && next.residue_y
                == y
        }),
{
    if pad.phase is Draining {
        lemma_scaled(scrolling, pad.phase->Draining_0.x, pad.phase->Draining_0.y);
    }
}

/// What was kept of a stroke does not survive silence, so that the next stroke
/// does not start with a jump.
pub proof fn law_silence_drops_what_was_kept(pad: A320, scrolling: bool, wait: MotionWait, now: u64)
    requires
        pad.expects(PadEvent::Motion { wait, now }),
        clock::ms_between(now, pad.last_activity) > WDT_TIMEOUT_MS,
    ensures
        pad.after(scrolling, PadEvent::Motion { wait, now }).residue_x == 0,
        pad.after(scrolling, PadEvent::Motion { wait, now }).residue_y == 0,
{
}

/// The burst after reads at a motion edge, all of them with displacement.
pub open spec fn burst_of(now: u64, reads: Seq<PacketRead>) -> Burst
    decreases reads.len(),
{
    if reads.len() == 0 {
        Burst::start(now)
    } else {
        burst_of(now, reads.drop_last()).plus(reads.last().motion()->0)
    }
}

/// Plain sums of the displacements of reads.
pub open spec fn sums(reads: Seq<PacketRead>) -> (int, int)
    decreases reads.len(),
{
    if reads.len() == 0 {
        (0, 0)
    } else {
        let (x, y) = sums(reads.drop_last());
        (x + (reads.last().motion()->0).0, y + (reads.last().motion()->0).1)
    }
}

/// Reading a packet with displacement adds it to the burst.
pub proof fn law_packets_extend_the_burst(
    pad: A320,
    scrolling: bool,
    now: u64,
    reads: Seq<PacketRead>,
    read: PacketRead,
)
    requires
        pad.phase == Phase::Draining(burst_of(now, reads)),
        read.motion() is Some,
    ensures
        pad.after(scrolling, PadEvent::Packet(read)) == (A320 {
            phase: Phase::Draining(burst_of(now, reads.push(read))),
            ..pad
        }),
{
    assert(reads.push(read).drop_last() =~= reads);
}

/// A burst of up to 255 packets is summed without saturating.
pub proof fn law_bursts_are_summed(now: u64, reads: Seq<PacketRead>)
    requires
        reads.len() <= 255,
        forall|i: int| 0 <= i < reads.len() ==> (#[trigger] reads[i]).motion() is Some,
    ensures
        burst_of(now, reads).x == sums(reads).0,
        burst_of(now, reads).y == sums(reads).1,
        -128 * reads.len() <= sums(reads).0 <= 128 * reads.len(),
        -128 * reads.len() <= sums(reads).1 <= 128 * reads.len(),
        burst_of(now, reads).got <==> reads.len() > 0,
    decreases reads.len(),
{
    if reads.len() > 0 {
        let rest = reads.drop_last();
        assert forall|i: int| 0 <= i < rest.len() implies (#[trigger] rest[i]).motion() is Some by {
            assert(rest[i] == reads[i]);
        }
        law_bursts_are_summed(now, rest);
        let last = reads[reads.len() - 1];
        assert(last.motion() is Some);
    }
}

/// Each byte of displacement counts in two's complement, on its own axis: x as it
/// is, y reversed. Only a packet without any displacement, and a read that failed,
/// give none.
pub proof fn law_packets_give_their_bytes(
    stats: &mut PadStats,
    read: PacketRead,
    r: Option<(i16, i16)>,
)
    requires
        call_ensures(read_packet, (stats, read), r),
    ensures
        r is Some <==> (read matches PacketRead::Data(buf) && (buf[1] != 0 || buf[2] != 0)),
        r matches Some(d) ==> {
            &&& -128 <= d.0 <= 127 && (d.0 - read->Data_0[1]) % 256 == 0
            &&& -127 <= d.1 <= 128 && (d.1 + read->Data_0[2]) % 256 == 0
        },
{
}

/// A read is counted as a success or as a failure. A failure leaves its code, and
/// the code of a time-out is none of a bus error; a success leaves the code alone.
pub proof fn law_reads_are_counted(
    stats: &mut PadStats,
    read: PacketRead,
    code: u32,
    r: Option<(i16, i16)>,
)
    requires
        call_ensures(read_packet, (stats, read), r),
        read matches PacketRead::Failed(e) ==> call_ensures(err_kind, (e,), code),
    ensures
        final(stats).n_ok == if read is Data {
            old(stats).n_ok.wrapping_add(1)
        } else {
            old(stats).n_ok
        },
        final(stats).n_err == if read is Data {
            old(stats).n_err
        } else {
            old(stats).n_err.wrapping_add(1)
        },
        read is Data ==> final(stats).n_lerr == old(stats).n_lerr,
        read is TimedOut ==> final(stats).n_lerr == 9,
        read is Failed ==> final(stats).n_lerr == code,
        final(stats).n_motion == old(stats).n_motion,
        final(stats).n_pub == old(stats).n_pub,
{
}

/// The codes of bus errors run from one to six in the order of how far a
/// transaction got, so no two share one.
pub proof fn law_error_codes_are_distinct(e1: BusError, c1: u32, e2: BusError, c2: u32)
    requires
        call_ensures(err_kind, (e1,), c1),
        call_ensures(err_kind, (e2,), c2),
    ensures
        c1 == c2 <==> e1 == e2,
        1 <= c1 <= 6,
        c1 == 1 <==> e1 is NoAckAddress,
        c1 == 2 <==> e1 is NoAckData,
        c1 == 3 <==> e1 is Bus,
        c1 == 4 <==> e1 is ArbitrationLoss,
        c1 == 5 <==> e1 is Overrun,
{
}

/// A packet with displacement moves the sums of its burst by its own bytes, each
/// axis by itself and y reversed, as far as sixteen bits reach; nothing else of the
/// driver changes, and the next packet is read.
pub proof fn law_packet_adds_to_the_sums(
    pad: &mut A320,
    stats: &mut PadStats,
    settings: PointerSettings,
    buf: [u8; 3],
    dx: int,
    dy: int,
    r: PadAction,
)
    requires
        call_ensures(
            A320::read_pointing_event,
            (pad, stats, &settings, PadEvent::Packet(PacketRead::Data(buf))),
            r,
        ),
        old(pad).phase is Draining,
        -128 <= dx <= 127 && (dx - buf[1]) % 256 == 0,
        -128 <= dy <= 127 && (dy - buf[2]) % 256 == 0,
        dx != 0 || dy != 0,
    ensures
        r is Read,
        final(pad).phase is Draining,
        ({
            let before = old(pad).phase->Draining_0;
            let after = final(pad).phase->Draining_0;
            &&& after.got
            &&& after.now == before.now
            &&& -32768 <= before.x + dx <= 32767 ==> after.x == before.x + dx
            &&& before.x + dx > 32767 ==> after.x == 32767
            &&& before.x + dx < -32768 ==> after.x == -32768
            &&& -32768 <= before.y - dy <= 32767 ==> after.y == before.y - dy
            &&& before.y - dy > 32767 ==> after.y == 32767
            &&& before.y - dy < -32768 ==> after.y == -32768
        }),
        *final(pad) == (A320 { phase: final(pad).phase, ..*old(pad) }),
        final(stats).n_ok == old(stats).n_ok.wrapping_add(1),
        *final(stats) == (PadStats { n_ok: final(stats).n_ok, ..*old(stats) }),
{
}

/// The end of a burst, be it an empty packet, an error or a time-out, adds the sums
/// to what is kept: x reversed, y as it is, each axis by itself, a sum of one count
/// left out as noise. It does so in either mode of the pad. What is kept is what
/// will be reported, as far as a report reaches.
pub proof fn law_burst_is_kept(
    pad: &mut A320,
    stats: &mut PadStats,
    settings: PointerSettings,
    read: PacketRead,
    r: PadAction,
)
    requires
        call_ensures(
            A320::read_pointing_event,
            (pad, stats, &settings, PadEvent::Packet(read)),
            r,
        ),
        old(pad).wf(),
        old(pad).phase is Draining,
        old(pad).phase->Draining_0.got,
        read matches PacketRead::Data(buf) ==> buf[1] == 0 && buf[2] == 0,
    ensures
        r is Pause,
        ({
            let burst = old(pad).phase->Draining_0;
            &&& final(pad).residue_x == old(pad).residue_x - if -1 <= burst.x <= 1 {
                0
            } else {
                burst.x as int
            }
            &&& final(pad).residue_y == old(pad).residue_y + if -1 <= burst.y <= 1 {
                0
            } else {
                burst.y as int
            }
            &&& final(pad).last_activity == burst.now
            &&& final(pad).last_touch == burst.now
        }),
        final(pad).device_id == old(pad).device_id,
        final(pad).phase is Pausing,
        -32768 <= final(pad).residue_x <= 32767 ==> final(pad).phase->x == final(pad).residue_x,
        final(pad).residue_x > 32767 ==> final(pad).phase->x == 32767,
        final(pad).residue_x < -32768 ==> final(pad).phase->x == -32768,
        -32768 <= final(pad).residue_y <= 32767 ==> final(pad).phase->y == final(pad).residue_y,
        final(pad).residue_y > 32767 ==> final(pad).phase->y == 32767,
        final(pad).residue_y < -32768 ==> final(pad).phase->y == -32768,
{
    let burst = old(pad).phase->Draining_0;
    lemma_scaled(settings.of(old(pad).device_id).scrolling, burst.x, burst.y);
}

/// An edge that brings no displacement reports nothing. What was kept stays for
/// fifty milliseconds after the last touch and is dropped after that.
pub proof fn law_empty_burst_reports_nothing(
    pad: &mut A320,
    stats: &mut PadStats,
    settings: PointerSettings,
    read: PacketRead,
    r: PadAction,
)
    requires
        call_ensures(
            A320::read_pointing_event,
            (pad, stats, &settings, PadEvent::Packet(read)),
            r,
        ),
        old(pad).wf(),
        old(pad).phase is Draining,
        !old(pad).phase->Draining_0.got,
        read matches PacketRead::Data(buf) ==> buf[1] == 0 && buf[2] == 0,
    ensures
        r is Again,
        ({
            let quiet = old(pad).phase->Draining_0.now - old(pad).last_touch;
            &&& quiet * 1000 >= 51 * 32768 ==> final(pad).residue_x == 0 && final(pad).residue_y
                == 0
            &&& quiet * 1000 < 51 * 32768 ==> final(pad).residue_x == old(pad).residue_x && final(pad).residue_y == old(pad).residue_y
        }),
        *final(pad) == (A320 {
            residue_x: final(pad).residue_x,
            residue_y: final(pad).residue_y,
            phase: Phase::Idle,
            ..*old(pad)
        }),
{
}

/// Whatever a read brings, the pad counts it as the read itself is counted.
pub proof fn law_driver_counts_its_reads(
    pad: &mut A320,
    stats: &mut PadStats,
    alone: &mut PadStats,
    settings: PointerSettings,
    read: PacketRead,
    r: PadAction,
    d: Option<(i16, i16)>,
)
    requires
        call_ensures(
            A320::read_pointing_event,
            (pad, stats, &settings, PadEvent::Packet(read)),
            r,
        ),
        call_ensures(read_packet, (alone, read), d),
        *old(alone) == *old(stats),
    ensures
        *final(stats) == *final(alone),
{
}

/// When the pause ends, an event is published exactly if something is kept on at
/// least one axis. It moves its own device by what is kept, each axis by itself, as
/// far as a report reaches; the rest stays kept, below its limit. No count leaves
/// the driver but in an event, and each event is counted.
pub proof fn law_kept_counts_are_published(
    pad: &mut A320,
    stats: &mut PadStats,
    settings: PointerSettings,
    r: PadAction,
)
    requires
        call_ensures(A320::read_pointing_event, (pad, stats, &settings, PadEvent::Paused), r),
        old(pad).wf(),
        old(pad).phase is Pausing,
    ensures
        r is Publish <==> old(pad).residue_x != 0 || old(pad).residue_y != 0,
        !(r is Publish) ==> r is Again && *final(stats) == *old(stats),
        !(r is Publish) ==> final(pad).residue_x == 0 && final(pad).residue_y == 0,
        r matches PadAction::Publish(e) ==> {
            let (x, y, z) = (e.axes[0], e.axes[1], e.axes[2]);
            let (kept_x, kept_y) = (old(pad).residue_x, old(pad).residue_y);
            &&& e.device_id == old(pad).device_id
            &&& x.axis is X && x.typ is Rel
            &&& y.axis is Y && y.typ is Rel
            &&& z.axis is Z && z.typ is Rel && z.value == 0
            &&& -32768 <= kept_x <= 32767 ==> x.value == kept_x && final(pad).residue_x == 0
            &&& kept_x > 32767 ==> x.value == 32767
            &&& kept_x < -32768 ==> x.value == -32768
            &&& kept_x - x.value <= 0x0100_0000 ==> final(pad).residue_x == kept_x - x.value
            &&& kept_x - x.value > 0x0100_0000 ==> final(pad).residue_x == 0x0100_0000
            &&& -32768 <= kept_y <= 32767 ==> y.value == kept_y && final(pad).residue_y == 0
            &&& kept_y > 32767 ==> y.value == 32767
            &&& kept_y < -32768 ==> y.value == -32768
            &&& kept_y - y.value <= 0x0100_0000 ==> final(pad).residue_y == kept_y - y.value
            &&& kept_y - y.value > 0x0100_0000 ==> final(pad).residue_y == 0x0100_0000
            &&& final(stats).n_pub == old(stats).n_pub.wrapping_add(1)
            &&& *final(stats) == (PadStats { n_pub: final(stats).n_pub, ..*old(stats) })
        },
        *final(pad) == (A320 {
            residue_x: final(pad).residue_x,
            residue_y: final(pad).residue_y,
            phase: Phase::Idle,
            ..*old(pad)
        }),
{
}

/// A stroke of one packet on a pad that keeps nothing comes out whole, whichever
/// way it goes: the edge, the packet, the empty packet after it and the pause end in
/// an event that moves by the packet's own bytes, both reversed, a single count
/// left out on either axis. Only where nothing is left on both is there no event.
#[verifier::spinoff_prover]
#[verifier::rlimit(40)]
pub proof fn law_stroke_comes_out_whole(
    start: A320,
    pads: (&mut A320, &mut A320, &mut A320, &mut A320),
    stats: (&mut PadStats, &mut PadStats, &mut PadStats, &mut PadStats),
    settings: PointerSettings,
    wait: MotionWait,
    now: u64,
    buf: [u8; 3],
    empty: [u8; 3],
    dx: int,
    dy: int,
    rs: (PadAction, PadAction, PadAction, PadAction),
)
    requires
        call_ensures(
            A320::read_pointing_event,
            (pads.0, stats.0, &settings, PadEvent::Motion { wait, now }),
            rs.0,
        ),
        call_ensures(
            A320::read_pointing_event,
            (pads.1, stats.1, &settings, PadEvent::Packet(PacketRead::Data(buf))),
            rs.1,
        ),
        call_ensures(
            A320::read_pointing_event,
            (pads.2, stats.2, &settings, PadEvent::Packet(PacketRead::Data(empty))),
            rs.2,
        ),
        call_ensures(
            A320::read_pointing_event,
            (pads.3, stats.3, &settings, PadEvent::Paused),
            rs.3,
        ),
        *pads.0 == start,
        *pads.1 == *final(pads.0),
        *pads.2 == *final(pads.1),
        *pads.3 == *final(pads.2),
        start.wf(),
        start.expects(PadEvent::Motion { wait, now }),
        start.residue_x == 0,
        start.residue_y == 0,
        -128 <= dx <= 127 && (dx - buf[1]) % 256 == 0,
        -128 <= dy <= 127 && (dy - buf[2]) % 256 == 0,
        dx != 0 || dy != 0,
        empty[1] == 0 && empty[2] == 0,
    ensures
        ({
            let out_x = if -1 <= dx <= 1 {
                0
            } else {
                -dx
            };
            let out_y = if -1 <= dy <= 1 {
                0
            } else {
                -dy
            };
            &&& rs.3 is Publish <==> out_x != 0 || out_y != 0
            &&& rs.3 matches PadAction::Publish(e) ==> e.device_id == start.device_id
                && e.axes[0].value == out_x && e.axes[1].value == out_y && e.axes[2].value == 0
            &&& final(pads.3).residue_x == 0 && final(pads.3).residue_y == 0
        }),
{
    let drained = *pads.1;
    assert(drained.phase == Phase::Draining(Burst { now, x: 0, y: 0, got: false }));
    assert(drained.residue_x == 0 && drained.residue_y == 0);
    assert(bytes::signed(buf[1]) == dx && bytes::signed(buf[2]) == dy);
    let summed = *pads.2;
    assert(summed.phase == Phase::Draining(Burst { now, x: dx as i16, y: (-dy) as i16, got: true }));
    assert(summed.residue_x == 0 && summed.residue_y == 0);
    let burst = summed.phase->Draining_0;
    lemma_scaled(settings.of(summed.device_id).scrolling, burst.x, burst.y);
    let kept = *pads.3;
    assert(kept.phase == Phase::Pausing { x: -dead(dx) as i16, y: dead(-dy) as i16 });
}

/// The edge, an error of the line and the time-out all lead to a read; only the edge
/// is counted. What was kept does not outlive two hundred milliseconds of silence.
pub proof fn law_every_wait_leads_to_a_read(
    pad: &mut A320,
    stats: &mut PadStats,
    settings: PointerSettings,
    wait: MotionWait,
    now: u64,
    r: PadAction,
)
    requires
        call_ensures(
            A320::read_pointing_event,
            (pad, stats, &settings, PadEvent::Motion { wait, now }),
            r,
        ),
        old(pad).expects(PadEvent::Motion { wait, now }),
    ensures
        r is Read,
        final(pad).phase == Phase::Draining(Burst { now, x: 0, y: 0, got: false }),
        ({
            let silence = (now - old(pad).last_activity) * 1000;
            &&& silence >= 201 * 32768 ==> final(pad).residue_x == 0 && final(pad).residue_y == 0
                && final(pad).last_activity == now
            &&& silence < 201 * 32768 ==> final(pad).residue_x == old(pad).residue_x && final(pad).residue_y == old(pad).residue_y && final(pad).last_activity == old(pad).last_activity
        }),
        final(pad).last_touch == old(pad).last_touch,
        final(pad).device_id == old(pad).device_id,
        final(stats).n_motion == if wait is Edge {
            old(stats).n_motion.wrapping_add(1)
        } else {
            old(stats).n_motion
        },
        *final(stats) == (PadStats { n_motion: final(stats).n_motion, ..*old(stats) }),
{
}

/// A round begins with a wait for the motion line, unless the keyboard sleeps; either
/// way nothing is lost of what the driver keeps.
pub proof fn law_rounds_begin_with_a_wait(
    pad: &mut A320,
    stats: &mut PadStats,
    settings: PointerSettings,
    sleeping: bool,
    r: PadAction,
)
    requires
        call_ensures(
            A320::read_pointing_event,
            (pad, stats, &settings, PadEvent::Ready { sleeping }),
            r,
        ),
        old(pad).phase is Idle,
    ensures
        sleeping ==> r is Sleep && *final(pad) == *old(pad),
        !sleeping ==> r is WaitMotion && *final(pad) == (A320 {
            phase: Phase::Waiting,
            ..*old(pad)
        }),
        *final(stats) == *old(stats),
{
}

/// The counters that can be asked for are the ones that were counted.
pub proof fn law_counters_can_be_read(
    stats: PadStats,
    motion: u32,
    ok: u32,
    err: u32,
    published: u32,
    code: u32,
)
    requires
        call_ensures(n_motion, (&stats,), motion),
        call_ensures(n_ok, (&stats,), ok),
        call_ensures(n_err, (&stats,), err),
        call_ensures(n_pub, (&stats,), published),
        call_ensures(n_lerr, (&stats,), code),
    ensures
        stats == (PadStats { n_motion: motion, n_ok: ok, n_err: err, n_pub: published, n_lerr: code }),
{
}

/// Scaling keeps the axes apart and does not depend on the mode: x is reversed, y is
/// not, and a single count is nothing.
pub proof fn law_scaling_keeps_the_axes_apart(
    pad: A320,
    settings: PointerSettings,
    dx: i16,
    dy: i16,
    r: (i32, i32),
)
    requires
        call_ensures(A320::scaled, (&pad, &settings, dx, dy), r),
    ensures
        r.0 == if -1 <= dx <= 1 {
            0
        } else {
            -dx
        },
        r.1 == if -1 <= dy <= 1 {
            0
        } else {
            dy as int
        },
{
    lemma_scaled(settings.of(pad.device_id).scrolling, dx, dy);
}

/// A burst sums up each axis by itself, as far as sixteen bits reach.
pub proof fn law_bursts_keep_the_axes_apart(burst: &mut Burst, d: (i16, i16))
    requires
        call_ensures(Burst::drain, (burst, d), ()),
    ensures
        -32768 <= old(burst).x + d.0 <= 32767 ==> final(burst).x == old(burst).x + d.0,
        old(burst).x + d.0 > 32767 ==> final(burst).x == 32767,
        old(burst).x + d.0 < -32768 ==> final(burst).x == -32768,
        -32768 <= old(burst).y + d.1 <= 32767 ==> final(burst).y == old(burst).y + d.1,
        old(burst).y + d.1 > 32767 ==> final(burst).y == 32767,
        old(burst).y + d.1 < -32768 ==> final(burst).y == -32768,
        final(burst).got,
        final(burst).now == old(burst).now,
{
}

/// A new driver keeps nothing, stands at the top of a round and counts its silence
/// from now; nothing is counted before it runs.
pub proof fn law_new_driver_keeps_nothing(rmk_id: u8, now: u64, pad: A320, stats: PadStats)
    requires
        call_ensures(A320::new, (rmk_id, now), pad),
        call_ensures(PadStats::new, (), stats),
    ensures
        pad.device_id == rmk_id,
        pad.residue_x == 0 && pad.residue_y == 0,
        pad.last_activity == now && pad.last_touch == now,
        pad.phase is Idle,
        stats.n_motion == 0 && stats.n_ok == 0 && stats.n_err == 0 && stats.n_pub == 0
            && stats.n_lerr == 0,
{
}

/// The pad answers at 0x3B and is read through register 0x82. No wait is endless, and
/// the pause keeps it at forty reports a second; asleep it is left alone for seconds.
pub proof fn law_board_side_of_the_pad()
    ensures
        A320_ADDR == 0x3B,
        MOTION_REG == 0x82,
        PACKET_LEN == 3,
        READ_TIMEOUT_MS == 20,
        MOTION_TIMEOUT_MS == 500,
        REPORT_PAUSE_MS * 40 == 1000,
        SLEEP_SECS == 2,
{
}

} // verus!
