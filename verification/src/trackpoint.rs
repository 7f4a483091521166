//! Pointing stick on the right half.
//!
//! One falling edge on the motion line means one packet of seven bytes; the first
//! byte is a fixed header. Displacement is accelerated and reversed before it is
//! published. The acceleration curve is computed in floating point by the caller,
//! which gets the displacement and its speed from here and hands the result back.

use vstd::prelude::*;

use crate::bytes;
use crate::bytes::{negate_low16, to_signed, widen};
use crate::clock;
use crate::clock::{elapsed_ms, MAX_TICKS};
use crate::pointing::PointingEvent;
use crate::tp_diag;
use crate::tp_diag::TpStats;

verus! {

/// Device id of the stick.
pub const DEVICE_ID: u8 = 1;

/// Bus address of the stick.
pub const TP_ADDR: u8 = 0x15;

/// Bytes of a packet.
pub const PACKET_LEN: usize = 7;

/// First byte of every good packet.
pub const MAGIC: u8 = 0x50;

/// A read that takes longer has failed: the bridge holds the clock while it has
/// nothing to send.
pub const READ_TIMEOUT_MS: u64 = 20;

/// Longest wait for the motion line. Keeps the stick alive if it stops pulsing.
pub const FALLBACK_POLL_MS: u64 = 500;

/// Pause before a report.
pub const REPORT_PAUSE_MS: u64 = 5;

/// Pause between two looks while the keyboard sleeps.
pub const SLEEP_SECS: u64 = 2;

/// Read on a timer instead of on the motion line.
pub const POLL_MODE: bool = false;

/// Period of that timer.
pub const POLL_INTERVAL_MS: u64 = 10;

/// Displacements up to this size are drift.
pub const DRIFT_DEADZONE: i8 = 2;

/// No packet sent yet; no packed displacement has this value. What was sent last is
/// kept by the caller, from boot on, and outlives a driver.
pub const NOTHING_SENT: u32 = u32::MAX;

/// What came of reading a packet. A bus error and a timeout are the same here.
#[derive(Debug, Clone, Copy)]
pub enum PacketRead {
    Data([u8; 7]),
    Failed,
}

/// A displacement without drift.
pub open spec fn settled(v: int) -> int {
    if -DRIFT_DEADZONE <= v <= DRIFT_DEADZONE {
        0
    } else {
        v
    }
}

fn settle(v: i8) -> (r: i8)
    ensures
        r == settled(v as int),
{
    if -DRIFT_DEADZONE <= v && v <= DRIFT_DEADZONE {
        0
    } else {
        v
    }
}

/// Raw displacement bytes in one word.
pub open spec fn packed(buf: [u8; 7]) -> u32 {
    (buf[2] * 256 + buf[3]) as u32
}

impl PacketRead {
    /// A packet with the right header.
    pub open spec fn good(self) -> bool {
        self matches PacketRead::Data(buf) && buf[0] == MAGIC
    }

    /// The displacement of this packet, drift removed, if it is good and not the
    /// one sent before: the bridge repeats its last packet while it is idle.
    pub open spec fn motion(self, last_sent: u32) -> Option<(i8, i8)> {
        if self.good() && packed(self->Data_0) != last_sent {
            Some(
                (
                    settled(bytes::signed(self->Data_0[2])) as i8,
                    settled(bytes::signed(self->Data_0[3])) as i8,
                ),
            )
        } else {
            None
        }
    }

    /// Both are good and have the same displacement.
    pub open spec fn repeats(self, other: PacketRead) -> bool {
        &&& self.good()
        &&& other.good()
        &&& self->Data_0[2] == other->Data_0[2]
        &&& self->Data_0[3] == other->Data_0[3]
    }

    /// What is remembered as sent after this packet.
    pub open spec fn remembered(self, last_sent: u32) -> u32 {
        if self.good() {
            packed(self->Data_0)
        } else {
            last_sent
        }
    }

    /// The counters after this read.
    pub open spec fn counted(self, tp: TpStats) -> TpStats {
        match self {
            PacketRead::Failed => TpStats { n_err: tp.n_err.wrapping_add(1), ..tp },
            PacketRead::Data(buf) => {
                let read = TpStats {
                    n_read: tp.n_read.wrapping_add(1),
                    last_b0: buf[0] as u32,
                    last_b1: buf[1] as u32,
                    ..tp
                };
                if buf[0] != MAGIC {
                    TpStats {
                        n_bad: tp.n_bad.wrapping_add(1),
                        last_bad_b0: buf[0] as u32,
                        ..read
                    }
                } else {
                    TpStats {
                        last_dx: bytes::widened(bytes::signed(buf[2])),
                        last_dy: bytes::widened(bytes::signed(buf[3])),
                        ..read
                    }
                }
            },
        }
    }
}

/// Where the driver stands.
#[derive(Debug, Clone, Copy, PartialEq, Eq, Structural)]
pub enum Phase {
    /// At the top of a round.
    Idle,
    /// Waiting for the motion line or the tick.
    Waiting,
    /// Reading the packet of a wake-up at this clock reading.
    Reading { now: u64 },
    /// Waiting for the accelerated displacement.
    Accelerating,
    /// Pausing before the report of this displacement.
    Pausing { x: i16, y: i16 },
}

/// What the board did.
#[derive(Debug, Clone, Copy)]
pub enum NubEvent {
    /// A round begins.
    Ready { sleeping: bool },
    /// The motion line pulsed if `edge`, otherwise the tick came.
    Woken { edge: bool, now: u64 },
    /// A read is over.
    Packet(PacketRead),
    /// The accelerated displacement, truncated to whole counts.
    Accelerated { fx: i32, fy: i32 },
    /// The pause before a report is over.
    Paused,
}

/// What the board is to do next.
#[derive(Debug, Clone, Copy)]
pub enum NubAction {
    /// Sleep for [`SLEEP_SECS`], then begin a round.
    Sleep,
    /// Wait for [`POLL_INTERVAL_MS`].
    WaitTick,
    /// Wait for a falling edge, at most [`FALLBACK_POLL_MS`].
    WaitEdge,
    /// Read a packet, within [`READ_TIMEOUT_MS`].
    Read,
    /// Accelerate a displacement of `dist` counts that took `gap_ms`.
    Accelerate { dx: i8, dy: i8, dist: u16, gap_ms: u64 },
    /// Pause for [`REPORT_PAUSE_MS`].
    Pause,
    /// Begin a round.
    Again,
    /// Publish the event, then begin a round when the next one is asked for.
    Publish(PointingEvent),
}

/// Magnitude of a displacement.
pub open spec fn magnitude(v: int) -> int {
    if v < 0 {
        -v
    } else {
        v
    }
}

/// A value brought into the range of a mouse report.
pub open spec fn clamp8(v: int) -> int {
    if v < i8::MIN {
        i8::MIN as int
    } else if v > i8::MAX {
        i8::MAX as int
    } else {
        v
    }
}

fn to_mouse(v: i16) -> (r: i16)
    ensures
        r == clamp8(v as int),
{
    if v < i8::MIN as i16 {
        i8::MIN as i16
    } else if v > i8::MAX as i16 {
        i8::MAX as i16
    } else {
        v
    }
}

/// Pointing stick.
#[derive(Debug, Clone, Copy, PartialEq, Eq, Structural)]
pub struct TrackPoint {
    /// Id of the pointing processor that handles the stick.
    pub device_id: u8,
    /// Clock reading at the last packet with displacement.
    pub last_packet: u64,
    pub phase: Phase,
}

impl TrackPoint {
    /// The time of a wake-up can be told.
    pub open spec fn wf(self) -> bool {
        self.phase matches Phase::Reading { now } ==> now <= MAX_TICKS
    }

    pub fn new(rmk_id: u8, now: u64) -> (r: Self)
        ensures
            r == (TrackPoint {
                device_id: rmk_id,
                last_packet: now,
                phase: Phase::Idle,
            }),
            r.wf(),
    {
        TrackPoint {
            device_id: rmk_id,
            last_packet: now,
            phase: Phase::Idle,
        }
    }

    /// Counts a read and takes the displacement out of it, if it is not the one sent
    /// last.
    pub fn read_packet(last_sent: &mut u32, tp: &mut TpStats, read: PacketRead) -> (r: Option<
        (i8, i8),
    >)
        ensures
            *final(tp) == read.counted(*old(tp)),
            *final(last_sent) == read.remembered(*old(last_sent)),
            r == read.motion(*old(last_sent)),
    {
        let buf: [u8; 7] = match read {
            PacketRead::Data(buf) => buf,
            PacketRead::Failed => {
                tp.n_err = tp.n_err.wrapping_add(1);
                return None;
            },
        };
        tp.n_read = tp.n_read.wrapping_add(1);
        tp.last_b0 = buf[0] as u32;
        tp.last_b1 = buf[1] as u32;
        if buf[0] != MAGIC {
            tp.n_bad = tp.n_bad.wrapping_add(1);
            tp.last_bad_b0 = buf[0] as u32;
            return None;
        }
        let raw_x: i8 = to_signed(buf[2]);
        let raw_y: i8 = to_signed(buf[3]);
        let word: u32 = buf[2] as u32 * 256 + buf[3] as u32;
        tp.last_dx = widen(raw_x);
        tp.last_dy = widen(raw_y);
        if *last_sent == word {
            return None;
        }
        *last_sent = word;
        Some((settle(raw_x), settle(raw_y)))
    }

    /// Whether an event answers what the driver is waiting for.
    pub open spec fn expects(self, event: NubEvent) -> bool {
        match event {
            NubEvent::Ready { .. } => self.phase is Idle,
            NubEvent::Woken { now, .. } => self.phase is Waiting && now <= MAX_TICKS,
            NubEvent::Packet(_) => self.phase is Reading,
            NubEvent::Accelerated { .. } => self.phase is Accelerating,
            NubEvent::Paused => self.phase is Pausing,
        }
    }

    /// What is remembered as sent after an event.
    pub open spec fn remembered(self, last_sent: u32, event: NubEvent) -> u32 {
        match event {
            NubEvent::Packet(read) => read.remembered(last_sent),
            _ => last_sent,
        }
    }

    /// The driver after an event.
    pub open spec fn after(self, last_sent: u32, event: NubEvent) -> TrackPoint {
        match event {
            NubEvent::Ready { sleeping } => TrackPoint {
                phase: if sleeping {
                    Phase::Idle
                } else {
                    Phase::Waiting
                },
                ..self
            },
            NubEvent::Woken { now, .. } => TrackPoint { phase: Phase::Reading { now }, ..self },
            NubEvent::Packet(read) => if read.motion(last_sent) is Some {
                TrackPoint {
                    last_packet: self.phase->now,
                    phase: Phase::Accelerating,
                    ..self
                }
            } else {
                TrackPoint { phase: Phase::Idle, ..self }
            },
            NubEvent::Accelerated { fx, fy } => TrackPoint {
                phase: Phase::Pausing {
                    x: bytes::low16(-fx) as i16,
                    y: bytes::low16(-fy) as i16,
                },
                ..self
            },
            NubEvent::Paused => TrackPoint { phase: Phase::Idle, ..self },
        }
    }

    /// The counters after an event.
    pub open spec fn counted(self, tp: TpStats, event: NubEvent) -> TpStats {
        match event {
            NubEvent::Ready { .. } => tp,
            NubEvent::Woken { edge, .. } => if edge || POLL_MODE {
                TpStats { n_irq: tp.n_irq.wrapping_add(1), ..tp }
            } else {
                tp
            },
            NubEvent::Packet(read) => read.counted(tp),
            NubEvent::Accelerated { .. } => tp,
            NubEvent::Paused => if self.phase->x == 0 && self.phase->y == 0 {
                tp
            } else {
                TpStats { n_pub: tp.n_pub.wrapping_add(1), ..tp }
            },
        }
    }

    /// Whether `action` is what follows on an event.
    pub open spec fn answers(self, last_sent: u32, event: NubEvent, action: NubAction) -> bool {
        match event {
            NubEvent::Ready { sleeping } => if sleeping {
                action is Sleep
            } else if POLL_MODE {
                action is WaitTick
            } else {
                action is WaitEdge
            },
            NubEvent::Woken { .. } => action is Read,
            NubEvent::Packet(read) => match read.motion(last_sent) {
                Some((dx, dy)) => {
                    let gap = clock::ms_between(self.phase->now, self.last_packet);
                    action == NubAction::Accelerate {
                        dx,
                        dy,
                        dist: (magnitude(dx as int) + magnitude(dy as int)) as u16,
                        gap_ms: if gap < 1 {
                            1
                        } else {
                            gap as u64
                        },
                    }
                },
                None => action is Again,
            },
            NubEvent::Accelerated { .. } => action is Pause,
            NubEvent::Paused => if self.phase->x == 0 && self.phase->y == 0 {
                action is Again
            } else {
                action matches NubAction::Publish(e) && e.moves(
                    self.device_id,
                    clamp8(self.phase->x as int) as i16,
                    clamp8(self.phase->y as int) as i16,
                )
            },
        }
    }

    /// One step of reading a pointing event: takes what the board did, says what it
    /// is to do next.
    pub fn read_pointing_event(
        &mut self,
        last_sent: &mut u32,
        tp: &mut TpStats,
        event: NubEvent,
    ) -> (r: NubAction)
        requires
            old(self).wf(),
            old(self).expects(event),
        ensures
            final(self).wf(),
            *final(self) == old(self).after(*old(last_sent), event),
            *final(last_sent) == old(self).remembered(*old(last_sent), event),
            *final(tp) == old(self).counted(*old(tp), event),
            old(self).answers(*old(last_sent), event, r),
    {
        match (self.phase, event) {
            (Phase::Idle, NubEvent::Ready { sleeping }) => {
                if sleeping {
                    return NubAction::Sleep;
                }
                self.phase = Phase::Waiting;
                if POLL_MODE {
                    NubAction::WaitTick
                } else {
                    NubAction::WaitEdge
                }
            },
            (Phase::Waiting, NubEvent::Woken { edge, now }) => {
                if edge || POLL_MODE {
                    tp.n_irq = tp.n_irq.wrapping_add(1);
                }
                self.phase = Phase::Reading { now };
                NubAction::Read
            },
            (Phase::Reading { now }, NubEvent::Packet(read)) => {
                match Self::read_packet(last_sent, tp, read) {
                    Some((dx, dy)) => {
                        let gap: u64 = elapsed_ms(now, self.last_packet);
                        let gap_ms: u64 = if gap < 1 {
                            1
                        } else {
                            gap
                        };
                        self.last_packet = now;
                        self.phase = Phase::Accelerating;
                        NubAction::Accelerate { dx, dy, dist: distance(dx, dy), gap_ms }
                    },
                    None => {
                        self.phase = Phase::Idle;
                        NubAction::Again
                    },
                }
            },
            (Phase::Accelerating, NubEvent::Accelerated { fx, fy }) => {
                self.phase = Phase::Pausing { x: negate_low16(fx), y: negate_low16(fy) };
                NubAction::Pause
            },
            (Phase::Pausing { x, y }, NubEvent::Paused) => {
                self.phase = Phase::Idle;
                if x == 0 && y == 0 {
                    return NubAction::Again;
                }
                tp.n_pub = tp.n_pub.wrapping_add(1);
                NubAction::Publish(
                    PointingEvent::relative(self.device_id, to_mouse(x), to_mouse(y)),
                )
            },
            _ => {
                // No other pair is expected.
                assert(false);
                NubAction::Again
            },
        }
    }
}

/// Sum of the magnitudes of a displacement.
fn distance(dx: i8, dy: i8) -> (r: u16)
    ensures
        r == magnitude(dx as int) + magnitude(dy as int),
{
    let x: i16 = if dx < 0 {
        -(dx as i16)
    } else {
        dx as i16
    };
    let y: i16 = if dy < 0 {
        -(dy as i16)
    } else {
        dy as i16
    };
    (x + y) as u16
}

/// Whether the driver stands where the event that an action brings about is expected.
pub open spec fn reply_fits(nub: TrackPoint, action: NubAction) -> bool {
    match action {
        NubAction::Sleep => nub.phase is Idle,
        NubAction::WaitTick => nub.phase is Waiting,
        NubAction::WaitEdge => nub.phase is Waiting,
        NubAction::Read => nub.phase is Reading,
        NubAction::Accelerate { .. } => nub.phase is Accelerating,
        NubAction::Pause => nub.phase is Pausing,
        NubAction::Again => nub.phase is Idle,
        NubAction::Publish(_) => nub.phase is Idle,
    }
}

/// After every step the driver expects the event that its own action brings about.
pub proof fn law_driver_and_board_stay_in_step(
    nub: TrackPoint,
    last_sent: u32,
    event: NubEvent,
    action: NubAction,
)
    requires
        nub.expects(event),
        nub.answers(last_sent, event, action),
    ensures
        reply_fits(nub.after(last_sent, event), action),
{
}

/// While the keyboard sleeps the stick is left alone: no wait, no read, no change.
pub proof fn law_sleep_is_quiet(
    nub: TrackPoint,
    last_sent: u32,
    tp: TpStats,
    action: NubAction,
)
    requires
        nub.expects(NubEvent::Ready { sleeping: true }),
        nub.answers(last_sent, NubEvent::Ready { sleeping: true }, action),
    ensures
        action is Sleep,
        nub.after(last_sent, NubEvent::Ready { sleeping: true }) == nub,
        nub.remembered(last_sent, NubEvent::Ready { sleeping: true }) == last_sent,
        nub.counted(tp, NubEvent::Ready { sleeping: true }) == tp,
{
}

/// A line that never pulses is not counted, however often the tick comes: no count
/// means a dead line.
pub proof fn law_ticks_are_not_counted_as_edges(nub: TrackPoint, tp: TpStats, edge: bool, now: u64)
    requires
        nub.expects(NubEvent::Woken { edge, now }),
        !POLL_MODE,
    ensures
        nub.counted(tp, NubEvent::Woken { edge, now }).n_irq == if edge {
            tp.n_irq.wrapping_add(1)
        } else {
            tp.n_irq
        },
{
}

/// Only tiny displacements are drift; the hardest shove passes unchanged.
pub proof fn law_drift_is_tiny(v: i8)
    ensures
        settled(v as int) == 0 <==> magnitude(v as int) <= DRIFT_DEADZONE,
        settled(v as int) != 0 ==> settled(v as int) == v,
        settled(i8::MIN as int) == i8::MIN,
{
}

/// What is remembered as sent after a sequence of reads.
pub open spec fn remembered_after(last_sent: u32, reads: Seq<PacketRead>) -> u32
    decreases reads.len(),
{
    if reads.len() == 0 {
        last_sent
    } else {
        reads.last().remembered(remembered_after(last_sent, reads.drop_last()))
    }
}

/// Every read has failed, has a wrong header or repeats `first`.
pub open spec fn bring_nothing_new(reads: Seq<PacketRead>, first: PacketRead) -> bool {
    forall|i: int|
        0 <= i < reads.len() ==> !(#[trigger] reads[i]).good() || reads[i].repeats(first)
}

proof fn lemma_memory_stays(last_sent: u32, first: PacketRead, between: Seq<PacketRead>)
    requires
        first.good(),
        bring_nothing_new(between, first),
    ensures
        remembered_after(first.remembered(last_sent), between) == first.remembered(last_sent),
    decreases between.len(),
{
    if between.len() > 0 {
        let front = between.drop_last();
        assert forall|i: int| 0 <= i < front.len() implies !(#[trigger] front[i]).good()
            || front[i].repeats(first) by {
            assert(front[i] == between[i]);
        }
        lemma_memory_stays(last_sent, first, front);
        assert(between.last() == between[between.len() - 1]);
    }
}

/// A packet that repeats the displacement of the last good one is dropped, however
/// often it comes and however many failed reads and bad packets lie in between.
/// Nothing of all that changes what is remembered.
pub proof fn law_repeated_packets_are_dropped(
    last_sent: u32,
    first: PacketRead,
    between: Seq<PacketRead>,
    again: PacketRead,
)
    requires
        bring_nothing_new(between, first),
        again.repeats(first),
    ensures
        again.motion(remembered_after(first.remembered(last_sent), between)) is None,
        remembered_after(first.remembered(last_sent), between.push(again)) == first.remembered(
            last_sent,
        ),
        forall|i: int|
            0 <= i < between.len() ==> (#[trigger] between[i]).motion(
                remembered_after(first.remembered(last_sent), between.take(i)),
            ) is None,
{
    lemma_memory_stays(last_sent, first, between);
    assert(between.push(again).drop_last() =~= between);
    assert forall|i: int| 0 <= i < between.len() implies (#[trigger] between[i]).motion(
        remembered_after(first.remembered(last_sent), between.take(i)),
    ) is None by {
        lemma_memory_stays(last_sent, first, between.take(i));
    }
}

/// A good packet that differs from the last good one is never dropped, whatever
/// failed reads, bad packets and repeats lie in between; neither is the very first.
pub proof fn law_new_packets_are_not_dropped(
    last_sent: u32,
    first: PacketRead,
    between: Seq<PacketRead>,
    next: PacketRead,
)
    requires
        first.good(),
        bring_nothing_new(between, first),
        next.good(),
        !next.repeats(first),
    ensures
        next.motion(remembered_after(first.remembered(last_sent), between)) is Some,
        first.motion(NOTHING_SENT) is Some,
{
    lemma_memory_stays(last_sent, first, between);
}

/// A failed read and a packet with a wrong header have no effect but on the counters.
pub proof fn law_bad_packets_are_dropped(nub: TrackPoint, last_sent: u32, read: PacketRead)
    requires
        nub.phase is Reading,
        !read.good(),
    ensures
        nub.after(last_sent, NubEvent::Packet(read)) == (TrackPoint { phase: Phase::Idle, ..nub }),
        nub.remembered(last_sent, NubEvent::Packet(read)) == last_sent,
{
}

/// Each read is counted once, as completed or as failed.
pub proof fn law_reads_are_counted_once(tp: TpStats, read: PacketRead)
    requires
        tp.n_read < u32::MAX,
        tp.n_err < u32::MAX,
    ensures
        read.counted(tp).n_read + read.counted(tp).n_err == tp.n_read + tp.n_err + 1,
        read.counted(tp).n_irq == tp.n_irq,
        read.counted(tp).n_pub == tp.n_pub,
{
}

/// A report points against the accelerated displacement and never leaves the range
/// of a mouse report, so a hard shove cannot wrap round.
pub proof fn law_reports_are_reversed_and_clamped(
    nub: TrackPoint,
    last_sent: u32,
    fx: i32,
    fy: i32,
)
    requires
        -32767 <= fx <= 32767,
        -32767 <= fy <= 32767,
    ensures
        ({
            let pausing = nub.after(last_sent, NubEvent::Accelerated { fx, fy });
            &&& clamp8(pausing.phase->x as int) == clamp8(-fx)
            &&& clamp8(pausing.phase->y as int) == clamp8(-fy)
            &&& i8::MIN <= clamp8(-fx) <= i8::MAX
        }),
{
}

/// Each axis of a new good packet is its own byte in two's complement, unless that
/// is within two counts of zero, which is drift: what the other axis holds, and what
/// the other bytes of the packet are, makes no difference.
pub proof fn law_axes_are_taken_on_their_own(
    last_sent: &mut u32,
    tp: &mut TpStats,
    buf: [u8; 7],
    dx: int,
    dy: int,
    r: Option<(i8, i8)>,
)
    requires
        call_ensures(TrackPoint::read_packet, (last_sent, tp, PacketRead::Data(buf)), r),
        buf[0] == 0x50,
        -128 <= dx <= 127 && (dx - buf[2]) % 256 == 0,
        -128 <= dy <= 127 && (dy - buf[3]) % 256 == 0,
    ensures
        r is Some <==> *old(last_sent) != buf[2] * 256 + buf[3],
        r matches Some(d) ==> {
            &&& -2 <= dx <= 2 ==> d.0 == 0
            &&& !(-2 <= dx <= 2) ==> d.0 == dx
            &&& -2 <= dy <= 2 ==> d.1 == 0
            &&& !(-2 <= dy <= 2) ==> d.1 == dy
        },
        *final(last_sent) == buf[2] * 256 + buf[3],
{
}

/// A packet with another header, and a read that failed, give no displacement and are
/// not remembered.
pub proof fn law_only_good_packets_count(
    last_sent: &mut u32,
    tp: &mut TpStats,
    read: PacketRead,
    r: Option<(i8, i8)>,
)
    requires
        call_ensures(TrackPoint::read_packet, (last_sent, tp, read), r),
        read matches PacketRead::Data(buf) ==> buf[0] != 0x50,
    ensures
        r is None,
        *final(last_sent) == *old(last_sent),
{
}

/// Two good packets one after the other: the second is dropped exactly if both its
/// bytes of displacement are those of the first, whatever was sent before.
pub proof fn law_only_repeats_are_dropped(
    sent: (&mut u32, &mut u32),
    tp: (&mut TpStats, &mut TpStats),
    first: [u8; 7],
    second: [u8; 7],
    r1: Option<(i8, i8)>,
    r2: Option<(i8, i8)>,
)
    requires
        call_ensures(TrackPoint::read_packet, (sent.0, tp.0, PacketRead::Data(first)), r1),
        call_ensures(TrackPoint::read_packet, (sent.1, tp.1, PacketRead::Data(second)), r2),
        *sent.1 == *final(sent.0),
        first[0] == 0x50,
        second[0] == 0x50,
    ensures
        r2 is None <==> second[2] == first[2] && second[3] == first[3],
{
}

/// Every read leaves its trace: a failed one is counted as an error and nothing else
/// changes; a completed one is counted and leaves its first two bytes; a bad header
/// is counted and kept, and a good packet leaves its displacement, drift and all,
/// in the two's complement of 32 bits, even if it is dropped as a repeat.
pub proof fn law_reads_leave_their_trace(
    last_sent: &mut u32,
    tp: &mut TpStats,
    read: PacketRead,
    r: Option<(i8, i8)>,
)
    requires
        call_ensures(TrackPoint::read_packet, (last_sent, tp, read), r),
    ensures
        read is Failed ==> *final(tp) == (TpStats {
            n_err: old(tp).n_err.wrapping_add(1),
            ..*old(tp)
        }),
        read matches PacketRead::Data(buf) ==> {
            &&& final(tp).n_read == old(tp).n_read.wrapping_add(1)
            &&& final(tp).last_b0 == buf[0]
            &&& final(tp).last_b1 == buf[1]
            &&& final(tp).n_err == old(tp).n_err
            &&& final(tp).n_irq == old(tp).n_irq
            &&& final(tp).n_pub == old(tp).n_pub
            &&& buf[0] != 0x50 ==> final(tp).n_bad == old(tp).n_bad.wrapping_add(1) && final(
                tp).last_bad_b0 == buf[0] && final(tp).last_dx == old(tp).last_dx && final(
                tp).last_dy == old(tp).last_dy
            &&& buf[0] == 0x50 ==> final(tp).n_bad == old(tp).n_bad && final(tp).last_bad_b0
                == old(tp).last_bad_b0
            &&& buf[0] == 0x50 ==> final(tp).last_dx == if buf[2] < 128 {
                buf[2] as int
            } else {
                0xFFFF_FF00 + buf[2]
            }
            &&& buf[0] == 0x50 ==> final(tp).last_dy == if buf[3] < 128 {
                buf[3] as int
            } else {
                0xFFFF_FF00 + buf[3]
            }
        },
{
}

/// What is asked of the counters after a good packet is the raw displacement of that
/// packet, axis by axis.
pub proof fn law_last_displacement_can_be_read(
    last_sent: &mut u32,
    tp: &mut TpStats,
    buf: [u8; 7],
    r: Option<(i8, i8)>,
    dx: i8,
    dy: i8,
)
    requires
        call_ensures(TrackPoint::read_packet, (last_sent, tp, PacketRead::Data(buf)), r),
        buf[0] == 0x50,
        call_ensures(tp_diag::last_dx, (&*final(tp),), dx),
        call_ensures(tp_diag::last_dy, (&*final(tp),), dy),
    ensures
        (dx - buf[2]) % 256 == 0,
        (dy - buf[3]) % 256 == 0,
{
}

/// The driver takes a packet as the packet itself is taken: what is remembered and
/// counted is the same, a displacement goes on to be accelerated, and anything else
/// ends the round.
pub proof fn law_driver_takes_packets_as_they_are(
    nub: &mut TrackPoint,
    sent: (&mut u32, &mut u32),
    tp: (&mut TpStats, &mut TpStats),
    read: PacketRead,
    r: NubAction,
    d: Option<(i8, i8)>,
)
    requires
        call_ensures(
            TrackPoint::read_pointing_event,
            (nub, sent.0, tp.0, NubEvent::Packet(read)),
            r,
        ),
        call_ensures(TrackPoint::read_packet, (sent.1, tp.1, read), d),
        *sent.0 == *sent.1,
        *tp.0 == *tp.1,
        old(nub).wf(),
        old(nub).phase is Reading,
    ensures
        *final(sent.0) == *final(sent.1),
        *final(tp.0) == *final(tp.1),
        d is None ==> r is Again && *final(nub) == (TrackPoint { phase: Phase::Idle, ..*old(nub) }),
        d is Some ==> r is Accelerate && *final(nub) == (TrackPoint {
            phase: Phase::Accelerating,
            last_packet: old(nub).phase->now,
            ..*old(nub)
        }),
        d matches Some(m) ==> r->dx == m.0 && r->dy == m.1,
{
}

/// A displacement is handed on with its whole length, both axes added up without
/// their signs, and with the time since the last one: whole milliseconds, at least
/// one, counted from the wake-up to the wake-up before.
pub proof fn law_strokes_are_measured(
    nub: &mut TrackPoint,
    last_sent: &mut u32,
    tp: &mut TpStats,
    read: PacketRead,
    r: NubAction,
)
    requires
        call_ensures(
            TrackPoint::read_pointing_event,
            (nub, last_sent, tp, NubEvent::Packet(read)),
            r,
        ),
        old(nub).wf(),
        old(nub).phase is Reading,
        r is Accelerate,
    ensures
        r->dx >= 0 && r->dy >= 0 ==> r->dist == r->dx + r->dy,
        r->dx >= 0 && r->dy < 0 ==> r->dist == r->dx - r->dy,
        r->dx < 0 && r->dy >= 0 ==> r->dist == r->dy - r->dx,
        r->dx < 0 && r->dy < 0 ==> r->dist == -r->dx - r->dy,
        ({
            let ticks = old(nub).phase->now - old(nub).last_packet;
            &&& ticks * 1000 < 2 * 32768 ==> r->gap_ms == 1
            &&& ticks * 1000 >= 2 * 32768 ==> r->gap_ms * 32768 <= ticks * 1000 < (r->gap_ms + 1)
                * 32768
        }),
{
}

/// The accelerated displacement is what the pause is held for, reversed on both axes;
/// nothing is counted or remembered for it.
pub proof fn law_accelerated_strokes_are_reversed(
    nub: &mut TrackPoint,
    last_sent: &mut u32,
    tp: &mut TpStats,
    fx: i32,
    fy: i32,
    r: NubAction,
)
    requires
        call_ensures(
            TrackPoint::read_pointing_event,
            (nub, last_sent, tp, NubEvent::Accelerated { fx, fy }),
            r,
        ),
        old(nub).phase is Accelerating,
    ensures
        r is Pause,
        final(nub).phase is Pausing,
        (final(nub).phase->x + fx) % 65536 == 0,
        (final(nub).phase->y + fy) % 65536 == 0,
        -32767 <= fx <= 32768 ==> final(nub).phase->x == -fx,
        -32767 <= fy <= 32768 ==> final(nub).phase->y == -fy,
        *final(nub) == (TrackPoint { phase: final(nub).phase, ..*old(nub) }),
        *final(tp) == *old(tp),
        *final(last_sent) == *old(last_sent),
{
}

/// When the pause ends, an event is published exactly if the displacement is not zero
/// on at least one axis. It moves its own device by that displacement, each axis by
/// itself, as far as a mouse report reaches, and is counted.
pub proof fn law_strokes_are_published(
    nub: &mut TrackPoint,
    last_sent: &mut u32,
    tp: &mut TpStats,
    r: NubAction,
)
    requires
        call_ensures(
            TrackPoint::read_pointing_event,
            (nub, last_sent, tp, NubEvent::Paused),
            r,
        ),
        old(nub).phase is Pausing,
    ensures
        r is Publish <==> old(nub).phase->x != 0 || old(nub).phase->y != 0,
        !(r is Publish) ==> r is Again && *final(tp) == *old(tp),
        r matches NubAction::Publish(e) ==> {
            let (x, y, z) = (e.axes[0], e.axes[1], e.axes[2]);
            let (to_x, to_y) = (old(nub).phase->x, old(nub).phase->y);
            &&& e.device_id == old(nub).device_id
            &&& x.axis is X && x.typ is Rel
            &&& y.axis is Y && y.typ is Rel
            &&& z.axis is Z && z.typ is Rel && z.value == 0
            &&& -128 <= to_x <= 127 ==> x.value == to_x
            &&& to_x > 127 ==> x.value == 127
            &&& to_x < -128 ==> x.value == -128
            &&& -128 <= to_y <= 127 ==> y.value == to_y
            &&& to_y > 127 ==> y.value == 127
            &&& to_y < -128 ==> y.value == -128
            &&& *final(tp) == (TpStats { n_pub: old(tp).n_pub.wrapping_add(1), ..*old(tp) })
        },
        *final(nub) == (TrackPoint { phase: Phase::Idle, ..*old(nub) }),
        *final(last_sent) == *old(last_sent),
{
}

/// The two steps together: a displacement accelerated to `fx` and `fy` is published
/// reversed, and is dropped only if both are zero.
pub proof fn law_acceleration_comes_out_reversed(
    start: TrackPoint,
    nub: (&mut TrackPoint, &mut TrackPoint),
    sent: (&mut u32, &mut u32),
    tp: (&mut TpStats, &mut TpStats),
    fx: i32,
    fy: i32,
    r1: NubAction,
    r2: NubAction,
)
    requires
        call_ensures(
            TrackPoint::read_pointing_event,
            (nub.0, sent.0, tp.0, NubEvent::Accelerated { fx, fy }),
            r1,
        ),
        call_ensures(
            TrackPoint::read_pointing_event,
            (nub.1, sent.1, tp.1, NubEvent::Paused),
            r2,
        ),
        *nub.0 == start,
        *nub.1 == *final(nub.0),
        start.phase is Accelerating,
        -127 <= fx <= 128,
        -127 <= fy <= 128,
    ensures
        r2 is Publish <==> fx != 0 || fy != 0,
        r2 matches NubAction::Publish(e) ==> e.device_id == start.device_id && e.axes[0].value
            == -fx && e.axes[1].value == -fy && e.axes[2].value == 0,
{
}

/// The line and the tick both lead to a read at the time of the wake-up; only a pulse
/// of the line is counted.
pub proof fn law_every_wake_up_leads_to_a_read(
    nub: &mut TrackPoint,
    last_sent: &mut u32,
    tp: &mut TpStats,
    edge: bool,
    now: u64,
    r: NubAction,
)
    requires
        call_ensures(
            TrackPoint::read_pointing_event,
            (nub, last_sent, tp, NubEvent::Woken { edge, now }),
            r,
        ),
        old(nub).expects(NubEvent::Woken { edge, now }),
    ensures
        r is Read,
        *final(nub) == (TrackPoint { phase: Phase::Reading { now }, ..*old(nub) }),
        *final(tp) == (TpStats { n_irq: final(tp).n_irq, ..*old(tp) }),
        edge ==> final(tp).n_irq == old(tp).n_irq.wrapping_add(1),
        !edge ==> final(tp).n_irq == old(tp).n_irq,
        *final(last_sent) == *old(last_sent),
{
}

/// A round begins with a wait for the motion line, unless the keyboard sleeps.
pub proof fn law_rounds_begin_with_a_wait(
    nub: &mut TrackPoint,
    last_sent: &mut u32,
    tp: &mut TpStats,
    sleeping: bool,
    r: NubAction,
)
    requires
        call_ensures(
            TrackPoint::read_pointing_event,
            (nub, last_sent, tp, NubEvent::Ready { sleeping }),
            r,
        ),
        old(nub).phase is Idle,
    ensures
        sleeping ==> r is Sleep && *final(nub) == *old(nub),
        !sleeping ==> r is WaitEdge && *final(nub) == (TrackPoint {
            phase: Phase::Waiting,
            ..*old(nub)
        }),
        *final(tp) == *old(tp),
        *final(last_sent) == *old(last_sent),
{
}

/// A new driver stands at the top of a round and counts its first gap from now.
pub proof fn law_new_driver_starts_a_round(rmk_id: u8, now: u64, nub: TrackPoint)
    requires
        call_ensures(TrackPoint::new, (rmk_id, now), nub),
    ensures
        nub.device_id == rmk_id,
        nub.last_packet == now,
        nub.phase is Idle,
{
}

/// The stick answers at 0x15. No wait is endless, the pause keeps it at two hundred
/// reports a second and the timer at a hundred reads; asleep it is left alone for
/// seconds.
pub proof fn law_board_side_of_the_stick()
    ensures
        TP_ADDR == 0x15,
        PACKET_LEN == 7,
        READ_TIMEOUT_MS == 20,
        FALLBACK_POLL_MS == 500,
        REPORT_PAUSE_MS * 200 == 1000,
        POLL_INTERVAL_MS * 100 == 1000,
        SLEEP_SECS == 2,
        DEVICE_ID == 1,
{
}

} // verus!
