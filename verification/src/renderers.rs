//! Status screen for the two panels (72x144 portrait).
//!
//! The top row shows the link badge on the left and the battery on the right, the
//! middle an animation of nine frames, the bottom the name of the active layer.
//! A snapshot of everything that is drawn decides whether a pass repaints.

use vstd::prelude::*;
use vstd::string::*;

use crate::bytes;
use crate::clock;
use crate::clock::{uptime_ms, MAX_TICKS};
use crate::connection::BleState;
use crate::label;
use crate::label::{label_as_str, label_new, label_push, label_push_str, label_write_u8};
use crate::lpm009m360a;
use crate::lpm009m360a::{Lpm009m360a, FNV_OFFSET, FNV_PRIME};
use crate::text;
use crate::text::{draw_text, BITMAP_LEN, BITMAP_SIDE, BITMAP_STRIDE, TEXT_LIMIT};

verus! {

/// Screen names of layers 0 to 4.
pub const LAYER_NAMES: [&'static str; 5] = ["BASE", "RAISE", "LOWER", "FUNC", "MOUSE"];

/// Time between two frames of the animation.
pub const CAPY_INTERVAL_MS: u32 = 600_000;

/// Number of frames of the animation.
pub const CAPY_FRAMES: u8 = 9;

/// Frame width in pixels.
pub const CAPY_W: i32 = 70;

/// Frame height in pixels.
pub const CAPY_H: i32 = 120;

/// Bytes of one frame row.
pub const CAPY_STRIDE: usize = 9;

/// Bytes of one frame.
pub const CAPY_LEN: usize = 1080;

/// Marks an animation that has not started, and a battery level not yet shown.
pub const UNSEEN: u8 = 0xFF;

/// Minimum time between two small changes of the displayed battery level.
pub const BATTERY_DISPLAY_GAP_MS: u32 = 120_000;

/// Salt of the left panel's animation.
pub const LEFT_SALT: u32 = 0x85eb_ca6b;

/// Salt of the right panel's animation.
pub const RIGHT_SALT: u32 = 0x9e37_79b9;

/// Bluetooth rune, 9x14, most significant bit first, two bytes per row.
pub const BT_ICON: [u8; 28] = [
    0x3E, 0x00, 0x67, 0x00, 0xE3, 0x80, 0xE9, 0x80, 0x8C, 0x80, 0xC9, 0x80, 0xE3, 0x80, 0xE3, 0x80,
    0xC9, 0x80, 0x8C, 0x80, 0xE9, 0x80, 0xE3, 0x80, 0x67, 0x00, 0x3E, 0x00,
];

/// Width of the rune.
pub const BT_W: i32 = 9;

/// Height of the rune.
pub const BT_H: i32 = 14;

/// Top edge of the badge icon and anchor of the battery bar.
pub const ICON_Y: i32 = 2;

/// Baseline of the badge text and of the battery number.
pub const NUM_Y: i32 = 12;

/// The battery number ends here.
pub const NUM_RIGHT_EDGE: i32 = 70;

/// Baseline of the layer name.
pub const LAYER_Y: i32 = 134;

// --- clock --------------------------------------------------------------

/// Milliseconds since boot, counted in 32 bits: wraps after 49.7 days.
pub open spec fn ms32(now_ms: u64) -> u32 {
    (now_ms % 0x1_0000_0000) as u32
}

fn low_ms(now_ms: u64) -> (r: u32)
    ensures
        r == ms32(now_ms),
{
    assert(now_ms as u32 == now_ms % 0x1_0000_0000) by (bit_vector);
    now_ms as u32
}

/// The wrapped count tells real time: between two readings less than 49 days apart
/// the difference of the counts is the time that has passed, across a wrap too.
pub proof fn law_wrapped_count_tells_real_time(then_ms: u64, now_ms: u64)
    requires
        then_ms <= now_ms,
        now_ms - then_ms < 0x1_0000_0000,
    ensures
        ms32(now_ms).wrapping_sub(ms32(then_ms)) == now_ms - then_ms,
{
}

// --- animation ----------------------------------------------------------

/// Which frame is up, [`UNSEEN`] before the first pass, and since when.
#[derive(Debug, Clone, Copy, PartialEq, Eq, Structural)]
pub struct CapyClock {
    pub frame: u8,
    pub since: u32,
}

/// The frame an animation starts with: FNV-1a over the bytes of the two device
/// id words, one more round with the salt, reduced to the number of frames.
pub open spec fn boot_frame(ids: [u32; 2], salt: u32) -> u8 {
    ((lpm009m360a::fnv1a(bytes::word_bytes(ids[0]) + bytes::word_bytes(ids[1])) ^ salt).wrapping_mul(FNV_PRIME)
        % CAPY_FRAMES as u32) as u8
}

impl CapyClock {
    /// Only frames that exist are up.
    pub open spec fn wf(self) -> bool {
        self.frame == UNSEEN || self.frame < CAPY_FRAMES
    }

    /// The clock after a pass at `now_ms`: it starts on the boot frame, moves on
    /// by one frame when the interval has passed, and stays otherwise.
    pub open spec fn after(self, ids: [u32; 2], salt: u32, now_ms: u64) -> CapyClock {
        let now = ms32(now_ms);
        if self.frame == UNSEEN {
            CapyClock { frame: boot_frame(ids, salt), since: now }
        } else if now.wrapping_sub(self.since) >= CAPY_INTERVAL_MS {
            CapyClock { frame: ((self.frame + 1) % 9) as u8, since: now }
        } else {
            self
        }
    }

    /// An animation that has not started.
    pub fn new() -> (r: Self)
        ensures
            r.frame == UNSEEN,
            r.since == 0,
            r.wf(),
    {
        CapyClock { frame: UNSEEN, since: 0 }
    }
}

/// Hashes the four bytes of `w`, lowest first, into `h`.
fn hash_word(h: u32, w: u32, Ghost(seen): Ghost<Seq<u8>>) -> (r: u32)
    requires
        h == lpm009m360a::fnv1a(seen),
    ensures
        r == lpm009m360a::fnv1a(seen + bytes::word_bytes(w)),
{
    let b0: u32 = w & 0xFF;
    let b1: u32 = w >> 8 & 0xFF;
    let b2: u32 = w >> 16 & 0xFF;
    let b3: u32 = w >> 24;
    assert(w & 0xFF == w % 0x100) by (bit_vector);
    assert(w >> 8 & 0xFF == w / 0x100 % 0x100) by (bit_vector);
    assert(w >> 16 & 0xFF == w / 0x1_0000 % 0x100) by (bit_vector);
    assert(w >> 24 == w / 0x100_0000) by (bit_vector);
    let ghost bytes = bytes::word_bytes(w);
    let h1: u32 = (h ^ b0).wrapping_mul(FNV_PRIME);
    let h2: u32 = (h1 ^ b1).wrapping_mul(FNV_PRIME);
    let h3: u32 = (h2 ^ b2).wrapping_mul(FNV_PRIME);
    let h4: u32 = (h3 ^ b3).wrapping_mul(FNV_PRIME);
    proof {
        let s1 = seen.push(bytes[0]);
        let s2 = s1.push(bytes[1]);
        let s3 = s2.push(bytes[2]);
        let s4 = s3.push(bytes[3]);
        assert(s1.drop_last() =~= seen);
        assert(s2.drop_last() =~= s1);
        assert(s3.drop_last() =~= s2);
        assert(s4.drop_last() =~= s3);
        assert(s4 =~= seen + bytes);
        assert(h1 == lpm009m360a::fnv1a(s1));
        assert(h2 == lpm009m360a::fnv1a(s2));
        assert(h3 == lpm009m360a::fnv1a(s3));
        assert(h4 == lpm009m360a::fnv1a(s4));
    }
    h4
}

/// Frame to draw at `now_ms`. `ids` are the two device id words of the chip.
pub fn capy_frame(clock: &mut CapyClock, ids: [u32; 2], salt: u32, now_ms: u64) -> (r: usize)
    ensures
        *final(clock) == old(clock).after(ids, salt, now_ms),
        r == final(clock).frame,
        old(clock).wf() ==> final(clock).wf() && r < CAPY_FRAMES,
{
    let now: u32 = low_ms(now_ms);
    let f: u8 = clock.frame;
    if f == UNSEEN {
        let h: u32 = hash_word(FNV_OFFSET, ids[0], Ghost(Seq::empty()));
        assert(Seq::<u8>::empty() + bytes::word_bytes(ids[0]) =~= bytes::word_bytes(ids[0]));
        let h: u32 = hash_word(h, ids[1], Ghost(bytes::word_bytes(ids[0])));
        let idx: u32 = (h ^ salt).wrapping_mul(FNV_PRIME) % 9;
        clock.frame = idx as u8;
        clock.since = now;
        idx as usize
    } else if now.wrapping_sub(clock.since) >= CAPY_INTERVAL_MS {
        let nf: u8 = ((f as usize + 1) % 9) as u8;
        clock.frame = nf;
        clock.since = now;
        nf as usize
    } else {
        f as usize
    }
}

/// The clock after a pass at each of `times`, in order.
pub open spec fn after_passes(
    clock: CapyClock,
    ids: [u32; 2],
    salt: u32,
    times: Seq<u64>,
) -> CapyClock
    decreases times.len(),
{
    if times.len() == 0 {
        clock
    } else {
        after_passes(clock, ids, salt, times.drop_last()).after(ids, salt, times.last())
    }
}

/// Whether each of these passes comes at least an interval after the last switch.
pub open spec fn all_due(clock: CapyClock, ids: [u32; 2], salt: u32, times: Seq<u64>) -> bool
    decreases times.len(),
{
    times.len() == 0 || all_due(clock, ids, salt, times.drop_last()) && ms32(
        times.last(),
    ).wrapping_sub(after_passes(clock, ids, salt, times.drop_last()).since) >= CAPY_INTERVAL_MS
}

/// Frames cycle forward, one per interval and none left out: after `n` switches
/// the animation stands `n` frames further, so nine bring it back.
pub proof fn law_capy_cycles_forward(clock: CapyClock, ids: [u32; 2], salt: u32, times: Seq<u64>)
    requires
        clock.wf(),
        clock.frame != UNSEEN,
        all_due(clock, ids, salt, times),
    ensures
        after_passes(clock, ids, salt, times).frame == (clock.frame + times.len()) % 9,
        times.len() == 9 ==> after_passes(clock, ids, salt, times).frame == clock.frame,
    decreases times.len(),
{
    if times.len() > 0 {
        law_capy_cycles_forward(clock, ids, salt, times.drop_last());
    }
}

/// Passes within the interval leave the animation as it is.
pub proof fn law_capy_holds_a_frame(clock: CapyClock, ids: [u32; 2], salt: u32, now_ms: u64)
    requires
        clock.frame != UNSEEN,
        ms32(now_ms).wrapping_sub(clock.since) < CAPY_INTERVAL_MS,
    ensures
        clock.after(ids, salt, now_ms) == clock,
{
}

// --- battery ------------------------------------------------------------

/// Filter between the raw battery samples and the number on the panel.
#[derive(Debug, Clone, Copy, PartialEq, Eq, Structural)]
pub struct BatteryFilter {
    /// Level on the panel, [`UNSEEN`] before the first sample.
    pub shown: u8,
    /// Last raw sample, [`UNSEEN`] before the first.
    pub prev_raw: u8,
    /// Direction of the last one-digit move: 0 none, 1 up, 2 down.
    pub trend: u8,
    /// When a small change was last let through.
    pub last_upd_ms: u32,
}

/// Distance between two levels.
pub open spec fn level_gap(a: u8, b: u8) -> int {
    if a > b {
        a - b
    } else {
        b - a
    }
}

/// Direction of a move from sample `prev` to sample `raw`.
pub open spec fn direction(prev: u8, raw: u8) -> u8 {
    if raw > prev {
        1
    } else {
        2
    }
}

impl BatteryFilter {
    /// The last sample is never five digits or more from what is displayed: it
    /// would have been displayed itself. No direction is pending before the first.
    pub open spec fn wf(self) -> bool {
        if self.shown == UNSEEN {
            self.trend == 0
        } else {
            level_gap(self.prev_raw, self.shown) < 5
        }
    }

    /// Whether a sample may change the display: it is two digits or more away, or
    /// the second one-digit move in the same direction.
    pub open spec fn eligible(self, raw: u8) -> bool {
        level_gap(raw, self.shown) >= 2 || self.trend == direction(self.prev_raw, raw)
    }

    /// Whether a sample has to wait because the last small change is too recent.
    pub open spec fn too_soon(self, raw: u8, now_ms: u64) -> bool {
        level_gap(raw, self.shown) < 5 && ms32(now_ms).wrapping_sub(self.last_upd_ms)
            < BATTERY_DISPLAY_GAP_MS
    }

    /// The direction remembered after a sample.
    pub open spec fn trend_after(self, raw: u8) -> u8 {
        if level_gap(raw, self.shown) >= 2 {
            0
        } else if self.trend == direction(self.prev_raw, raw) {
            0
        } else {
            direction(self.prev_raw, raw)
        }
    }

    /// The filter after raw sample `raw` at `now_ms`.
    pub open spec fn after(self, raw: u8, now_ms: u64) -> BatteryFilter {
        if self.shown == UNSEEN {
            BatteryFilter { shown: raw, prev_raw: raw, last_upd_ms: ms32(now_ms), ..self }
        } else if raw == self.prev_raw {
            self
        } else if !self.eligible(raw) || self.too_soon(raw, now_ms) {
            BatteryFilter { prev_raw: raw, trend: self.trend_after(raw), ..self }
        } else {
            BatteryFilter {
                shown: raw,
                prev_raw: raw,
                trend: self.trend_after(raw),
                last_upd_ms: if level_gap(raw, self.shown) < 5 {
                    ms32(now_ms)
                } else {
                    self.last_upd_ms
                },
            }
        }
    }

    /// The filter after a reading, which may hold no sample.
    pub open spec fn after_reading(self, raw: Option<u8>, now_ms: u64) -> BatteryFilter {
        match raw {
            Some(r) => self.after(r, now_ms),
            None => self,
        }
    }

    /// A filter that has seen no sample.
    pub fn new() -> (r: Self)
        ensures
            r.shown == UNSEEN,
            r.prev_raw == UNSEEN,
            r.trend == 0,
            r.last_upd_ms == 0,
            r.wf(),
    {
        BatteryFilter { shown: UNSEEN, prev_raw: UNSEEN, trend: 0, last_upd_ms: 0 }
    }
}

/// What the panel shows of a reading once the filter stands at `filter`.
pub open spec fn displayed(filter: BatteryFilter, raw: Option<u8>) -> Option<u8> {
    match raw {
        Some(_) => Some(filter.shown),
        None => None,
    }
}

/// Battery level to display for raw sample `raw` at `now_ms`.
pub fn shown_battery(filter: &mut BatteryFilter, raw: Option<u8>, now_ms: u64) -> (r: Option<u8>)
    ensures
        *final(filter) == old(filter).after_reading(raw, now_ms),
        r == displayed(*final(filter), raw),
        old(filter).wf() ==> final(filter).wf(),
{
    let r: u8 = match raw {
        Some(r) => r,
        None => {
            return None;
        },
    };
    let shown: u8 = filter.shown;
    if shown == UNSEEN {
        filter.shown = r;
        filter.prev_raw = r;
        filter.last_upd_ms = low_ms(now_ms);
        return Some(r);
    }
    let prev: u8 = filter.prev_raw;
    if r == prev {
        return Some(shown);
    }
    filter.prev_raw = r;
    let delta: u8 = if r > shown {
        r - shown
    } else {
        shown - r
    };
    let trend_ok: bool = if delta >= 2 {
        filter.trend = 0;
        true
    } else {
        let dir: u8 = if r > prev {
            1
        } else {
            2
        };
        if filter.trend == dir {
            filter.trend = 0;
            true
        } else {
            filter.trend = dir;
            false
        }
    };
    if !trend_ok {
        return Some(shown);
    }
    if delta < 5 {
        let now: u32 = low_ms(now_ms);
        if now.wrapping_sub(filter.last_upd_ms) < BATTERY_DISPLAY_GAP_MS {
            return Some(shown);
        }
        filter.last_upd_ms = now;
    }
    filter.shown = r;
    Some(r)
}

/// A jump of five digits or more is displayed at once, whatever came before.
pub proof fn law_battery_jump_is_immediate(filter: BatteryFilter, raw: u8, now_ms: u64)
    requires
        filter.wf(),
        filter.shown != UNSEEN,
        level_gap(raw, filter.shown) >= 5,
    ensures
        filter.after(raw, now_ms).shown == raw,
        filter.after(raw, now_ms).wf(),
{
}

/// A new sample two digits or more away is displayed once the display gap has passed.
pub proof fn law_battery_two_digits_are_enough(filter: BatteryFilter, raw: u8, now_ms: u64)
    requires
        filter.shown != UNSEEN,
        raw != filter.prev_raw,
        level_gap(raw, filter.shown) >= 2,
        ms32(now_ms).wrapping_sub(filter.last_upd_ms) >= BATTERY_DISPLAY_GAP_MS,
    ensures
        filter.after(raw, now_ms).shown == raw,
{
}

/// Whether a sample is let through as a change of less than five digits.
pub open spec fn small_update(filter: BatteryFilter, raw: u8, now_ms: u64) -> bool {
    &&& filter.shown != UNSEEN
    &&& raw != filter.prev_raw
    &&& level_gap(raw, filter.shown) < 5
    &&& filter.eligible(raw)
    &&& !filter.too_soon(raw, now_ms)
}

/// The filter after samples, each with the time it was taken, in order.
pub open spec fn after_samples(filter: BatteryFilter, samples: Seq<(u8, u64)>) -> BatteryFilter
    decreases samples.len(),
{
    if samples.len() == 0 {
        filter
    } else {
        after_samples(filter, samples.drop_last()).after(samples.last().0, samples.last().1)
    }
}

/// Whether none of these samples is let through as a small change.
pub open spec fn quiet(filter: BatteryFilter, samples: Seq<(u8, u64)>) -> bool
    decreases samples.len(),
{
    samples.len() == 0 || quiet(filter, samples.drop_last()) && samples.last().0 != UNSEEN
        && !small_update(
        after_samples(filter, samples.drop_last()),
        samples.last().0,
        samples.last().1,
    )
}

proof fn lemma_quiet_keeps_the_gap(filter: BatteryFilter, samples: Seq<(u8, u64)>)
    requires
        filter.shown != UNSEEN,
        quiet(filter, samples),
    ensures
        after_samples(filter, samples).last_upd_ms == filter.last_upd_ms,
        after_samples(filter, samples).shown != UNSEEN,
    decreases samples.len(),
{
    if samples.len() > 0 {
        lemma_quiet_keeps_the_gap(filter, samples.drop_last());
    }
}

/// A displayed level that changes by less than five digits was let through as a
/// small update.
pub proof fn law_battery_small_change_is_a_small_update(
    filter: BatteryFilter,
    raw: u8,
    now_ms: u64,
)
    requires
        filter.shown != UNSEEN,
        filter.after(raw, now_ms).shown != filter.shown,
        level_gap(filter.after(raw, now_ms).shown, filter.shown) < 5,
    ensures
        small_update(filter, raw, now_ms),
{
}

/// Two small updates that follow one another, whatever other samples come in
/// between, are at least the display gap apart.
pub proof fn law_battery_small_updates_keep_the_gap(
    filter: BatteryFilter,
    raw1: u8,
    ms1: u64,
    between: Seq<(u8, u64)>,
    raw2: u8,
    ms2: u64,
)
    requires
        small_update(filter, raw1, ms1),
        raw1 != UNSEEN,
        quiet(filter.after(raw1, ms1), between),
        small_update(after_samples(filter.after(raw1, ms1), between), raw2, ms2),
    ensures
        ms32(ms2).wrapping_sub(ms32(ms1)) >= BATTERY_DISPLAY_GAP_MS,
{
    lemma_quiet_keeps_the_gap(filter.after(raw1, ms1), between);
}

/// Reading the same sample again tells nothing new: the filter stays as it is.
pub proof fn law_battery_reread_changes_nothing(
    filter: BatteryFilter,
    raw: u8,
    ms1: u64,
    ms2: u64,
)
    requires
        raw != UNSEEN,
    ensures
        filter.after(raw, ms1).after(raw, ms2) == filter.after(raw, ms1),
{
}

/// A move of one digit that reverses, or starts, a direction is not displayed.
pub proof fn law_battery_wobble_is_hidden(filter: BatteryFilter, raw: u8, now_ms: u64)
    requires
        filter.shown != UNSEEN,
        level_gap(raw, filter.shown) < 2,
        filter.trend != direction(filter.prev_raw, raw),
    ensures
        filter.after(raw, now_ms).shown == filter.shown,
{
}

/// One sample is never enough for a change of one digit: the sample before it was a
/// one-digit move too, and in the same direction.
pub proof fn law_battery_one_digit_takes_two_samples(
    filter: BatteryFilter,
    raw1: u8,
    ms1: u64,
    raw2: u8,
    ms2: u64,
)
    requires
        filter.wf(),
        raw1 != UNSEEN,
        filter.shown == UNSEEN || raw1 != filter.prev_raw,
        level_gap(raw2, filter.after(raw1, ms1).shown) < 2,
        filter.after(raw1, ms1).after(raw2, ms2).shown != filter.after(raw1, ms1).shown,
    ensures
        filter.shown != UNSEEN,
        level_gap(raw1, filter.shown) < 2,
        filter.after(raw1, ms1).shown == filter.shown,
        direction(filter.prev_raw, raw1) == direction(raw1, raw2),
{
}

/// Two one-digit samples in a row that move the same way are let through by the
/// second, once the display gap has passed, unless a move that way was pending.
pub proof fn law_battery_second_step_is_displayed(
    filter: BatteryFilter,
    raw1: u8,
    ms1: u64,
    raw2: u8,
    ms2: u64,
)
    requires
        filter.shown != UNSEEN,
        raw1 != filter.prev_raw,
        raw2 != raw1,
        level_gap(raw1, filter.shown) < 2,
        level_gap(raw2, filter.shown) < 2,
        filter.trend != direction(filter.prev_raw, raw1),
        direction(filter.prev_raw, raw1) == direction(raw1, raw2),
        ms32(ms2).wrapping_sub(filter.last_upd_ms) >= BATTERY_DISPLAY_GAP_MS,
    ensures
        filter.after(raw1, ms1).shown == filter.shown,
        filter.after(raw1, ms1).after(raw2, ms2).shown == raw2,
{
}

// --- drawing ------------------------------------------------------------

/// Whether `(px, py)` lies in the rectangle at `(x, y)` of `w` by `h` pixels.
pub open spec fn in_rect(x: int, y: int, w: int, h: int, px: int, py: int) -> bool {
    x <= px < x + w && y <= py < y + h
}

/// Bit `col` of row `row` in a bitmap with `stride` bytes per row, most
/// significant bit first.
pub open spec fn bitmap_bit(bits: Seq<u8>, stride: int, row: int, col: int) -> bool {
    bits[row * stride + col / 8] & (0x80u8 >> ((col % 8) as u8)) != 0
}

/// Whether a bitmap of `w` by `h` bits, put at `(x0, y0)` with every bit enlarged
/// to `scale` by `scale` pixels, lights `(px, py)`.
pub open spec fn stamped(
    bits: Seq<u8>,
    w: int,
    h: int,
    stride: int,
    scale: int,
    x0: int,
    y0: int,
    px: int,
    py: int,
) -> bool {
    in_rect(x0, y0, w * scale, h * scale, px, py) && bitmap_bit(
        bits,
        stride,
        (py - y0) / scale,
        (px - x0) / scale,
    )
}

/// Paints a rectangle; what lies outside the canvas is left out.
pub fn fill_rect(panel: &mut Lpm009m360a, x: i32, y: i32, w: i32, h: i32, on: bool)
    requires
        0 <= w,
        0 <= h,
        x + w <= i32::MAX,
        y + h <= i32::MAX,
    ensures
        final(panel).rot == old(panel).rot,
        final(panel).sent_hash == old(panel).sent_hash,
        forall|px: int, py: int| #[trigger]
            final(panel).rot.on_canvas(px, py) ==> final(panel).lit(px, py) == if in_rect(
                x as int,
                y as int,
                w as int,
                h as int,
                px,
                py,
            ) {
                on
            } else {
                old(panel).lit(px, py)
            },
{
    for row in 0..h
        invariant
            0 <= w,
            0 <= h,
            x + w <= i32::MAX,
            y + h <= i32::MAX,
            panel.rot == old(panel).rot,
            panel.sent_hash == old(panel).sent_hash,
            forall|px: int, py: int| #[trigger]
                panel.rot.on_canvas(px, py) ==> panel.lit(px, py) == if in_rect(
                    x as int,
                    y as int,
                    w as int,
                    row as int,
                    px,
                    py,
                ) {
                    on
                } else {
                    old(panel).lit(px, py)
                },
    {
        for col in 0..w
            invariant
                0 <= w,
                0 <= row < h,
                x + w <= i32::MAX,
                y + h <= i32::MAX,
                panel.rot == old(panel).rot,
                panel.sent_hash == old(panel).sent_hash,
                forall|px: int, py: int| #[trigger]
                    panel.rot.on_canvas(px, py) ==> panel.lit(px, py) == if in_rect(
                        x as int,
                        y as int,
                        w as int,
                        row as int,
                        px,
                        py,
                    ) || in_rect(x as int, y + row, col as int, 1, px, py) {
                        on
                    } else {
                        old(panel).lit(px, py)
                    },
        {
            panel.set_pixel(x + col, y + row, on);
        }
    }
}

/// A cell of the scaled grid is where division by the scale lands.
proof fn lemma_cell(scale: int, d: int, c: int)
    requires
        scale > 0,
        0 <= d,
    ensures
        d / scale == c <==> c * scale <= d < c * scale + scale,
{
    assert(d / scale == c <==> c * scale <= d < c * scale + scale) by (nonlinear_arith)
        requires
            scale > 0,
            0 <= d,
    ;
}

/// Which cells of a bitmap come before `(row, col)` in reading order.
spec fn cell_before(row: int, col: int, r: int, c: int) -> bool {
    r < row || (r == row && c < col)
}

/// Stamps a one-bit bitmap: set bits are lit, cleared ones leave the canvas alone. A
/// width or height below one draws nothing.
pub fn blit(
    panel: &mut Lpm009m360a,
    bits: &[u8],
    w: i32,
    h: i32,
    stride: usize,
    scale: i32,
    x0: i32,
    y0: i32,
)
    requires
        w <= stride * 8,
        h * stride <= bits@.len(),
        0 <= scale,
        x0 + w * scale <= i32::MAX,
        y0 + h * scale <= i32::MAX,
        w * scale <= i32::MAX,
        h * scale <= i32::MAX,
    ensures
        final(panel).rot == old(panel).rot,
        final(panel).sent_hash == old(panel).sent_hash,
        forall|px: int, py: int| #[trigger]
            final(panel).rot.on_canvas(px, py) ==> final(panel).lit(px, py) == (old(panel).lit(
                px,
                py,
            ) || stamped(
                bits@,
                w as int,
                h as int,
                stride as int,
                scale as int,
                x0 as int,
                y0 as int,
                px,
                py,
            )),
{
    if w <= 0 || h <= 0 || scale == 0 {
        assert(w * scale <= 0 || h * scale <= 0) by (nonlinear_arith)
            requires
                w <= 0 || h <= 0 || scale == 0,
                0 <= scale,
        ;
        return;
    }
    assert(bits@.len() == bits.len());
    for row in 0..h
        invariant
            0 <= w <= stride * 8,
            0 <= h,
            h * stride <= bits@.len() <= usize::MAX,
            0 < scale,
            x0 + w * scale <= i32::MAX,
            y0 + h * scale <= i32::MAX,
            w * scale <= i32::MAX,
            h * scale <= i32::MAX,
            panel.rot == old(panel).rot,
            panel.sent_hash == old(panel).sent_hash,
            forall|px: int, py: int| #[trigger]
                panel.rot.on_canvas(px, py) ==> panel.lit(px, py) == (old(panel).lit(px, py) || (
                stamped(
                    bits@,
                    w as int,
                    h as int,
                    stride as int,
                    scale as int,
                    x0 as int,
                    y0 as int,
                    px,
                    py,
                ) && (py - y0) / (scale as int) < row)),
    {
        for col in 0..w
            invariant
                0 <= w <= stride * 8,
                0 <= row < h,
                h * stride <= bits@.len() <= usize::MAX,
                0 < scale,
                x0 + w * scale <= i32::MAX,
                y0 + h * scale <= i32::MAX,
                w * scale <= i32::MAX,
                h * scale <= i32::MAX,
                panel.rot == old(panel).rot,
                panel.sent_hash == old(panel).sent_hash,
                forall|px: int, py: int| #[trigger]
                    panel.rot.on_canvas(px, py) ==> panel.lit(px, py) == (old(panel).lit(px, py)
                        || (stamped(
                        bits@,
                        w as int,
                        h as int,
                        stride as int,
                        scale as int,
                        x0 as int,
                        y0 as int,
                        px,
                        py,
                    ) && cell_before(
                        row as int,
                        col as int,
                        (py - y0) / (scale as int),
                        (px - x0) / (scale as int),
                    ))),
        {
            assert(row * stride + stride <= h * stride && 0 <= row * stride) by (nonlinear_arith)
                requires
                    0 <= row < h,
                    0 <= stride,
            ;
            assert(0 <= col * scale && col * scale + scale <= w * scale) by (nonlinear_arith)
                requires
                    0 <= col < w,
                    0 < scale,
            ;
            assert(0 <= row * scale && row * scale + scale <= h * scale) by (nonlinear_arith)
                requires
                    0 <= row < h,
                    0 < scale,
            ;
            let ghost before = *panel;
            let byte: u8 = bits[row as usize * stride + col as usize / 8];
            let lit: bool = byte & (0x80u8 >> ((col as usize % 8) as u8)) != 0;
            if lit {
                fill_rect(panel, x0 + col * scale, y0 + row * scale, scale, scale, true);
            }
            proof {
                assert(lit == bitmap_bit(bits@, stride as int, row as int, col as int));
                assert forall|px: int, py: int| #[trigger]
                    panel.rot.on_canvas(px, py) implies panel.lit(px, py) == (old(panel).lit(px, py)
                    || (stamped(
                    bits@,
                    w as int,
                    h as int,
                    stride as int,
                    scale as int,
                    x0 as int,
                    y0 as int,
                    px,
                    py,
                ) && cell_before(
                    row as int,
                    col + 1,
                    (py - y0) / (scale as int),
                    (px - x0) / (scale as int),
                ))) by {
                    assert(before.rot.on_canvas(px, py));
                    if px >= x0 && py >= y0 {
                        lemma_cell(scale as int, px - x0, col as int);
                        lemma_cell(scale as int, py - y0, row as int);
                    }
                }
            }
        }
        proof {
            assert forall|px: int, py: int| #[trigger]
                panel.rot.on_canvas(px, py) implies panel.lit(px, py) == (old(panel).lit(px, py)
                || (stamped(
                bits@,
                w as int,
                h as int,
                stride as int,
                scale as int,
                x0 as int,
                y0 as int,
                px,
                py,
            ) && (py - y0) / (scale as int) < row + 1)) by {
                if px >= x0 {
                    lemma_cell(scale as int, px - x0, (px - x0) / (scale as int));
                    let c = (px - x0) / (scale as int);
                    if px - x0 < w * scale && c >= w {
                        assert(c * scale >= w * scale) by (nonlinear_arith)
                            requires
                                c >= w,
                                scale > 0,
                        ;
                    }
                }
            }
        }
    }
    proof {
        assert forall|px: int, py: int| #[trigger]
            panel.rot.on_canvas(px, py) implies panel.lit(px, py) == (old(panel).lit(px, py)
            || stamped(
            bits@,
            w as int,
            h as int,
            stride as int,
            scale as int,
            x0 as int,
            y0 as int,
            px,
            py,
        )) by {
            if py >= y0 {
                lemma_cell(scale as int, py - y0, (py - y0) / (scale as int));
                let r = (py - y0) / (scale as int);
                if py - y0 < h * scale && r >= h {
                    assert(r * scale >= h * scale) by (nonlinear_arith)
                        requires
                            r >= h,
                            scale > 0,
                    ;
                }
            }
        }
    }
}

/// Whether text at `(x, y)` lights `(px, py)`.
pub open spec fn glyphs(chars: Seq<char>, x: int, y: int, big: bool, px: int, py: int) -> bool {
    stamped(
        text::text_bitmap(chars, x as i32, y as i32, big),
        BITMAP_SIDE as int,
        BITMAP_SIDE as int,
        BITMAP_STRIDE as int,
        1,
        0,
        0,
        px,
        py,
    )
}

/// Whether the animation frame `bits` lights `(px, py)`.
pub open spec fn capy_lights(bits: Seq<u8>, px: int, py: int) -> bool {
    stamped(bits, CAPY_W as int, CAPY_H as int, CAPY_STRIDE as int, 1, 1, 11, px, py)
}

/// Whether the Bluetooth rune lights `(px, py)`.
pub open spec fn rune_lights(px: int, py: int) -> bool {
    stamped(BT_ICON@, BT_W as int, BT_H as int, 2, 1, 2, ICON_Y as int, px, py)
}

/// Draws one frame of the animation, centred on the canvas.
pub fn draw_capy(panel: &mut Lpm009m360a, frames: &[[u8; 1080]; 9], frame: usize)
    requires
        frame < CAPY_FRAMES,
    ensures
        final(panel).rot == old(panel).rot,
        final(panel).sent_hash == old(panel).sent_hash,
        forall|px: int, py: int| #[trigger]
            final(panel).rot.on_canvas(px, py) ==> final(panel).lit(px, py) == (old(panel).lit(
                px,
                py,
            ) || capy_lights(frames@[frame as int]@, px, py)),
{
    blit(panel, frames[frame].as_slice(), CAPY_W, CAPY_H, CAPY_STRIDE, 1, 1, 11);
}

/// Draws text in the 6x13 font, or the 9x18 one if `big`.
pub fn txt(panel: &mut Lpm009m360a, s: &str, x: i32, y: i32, big: bool)
    requires
        s@.len() <= TEXT_LIMIT,
        -TEXT_LIMIT <= x <= TEXT_LIMIT,
        -TEXT_LIMIT <= y <= TEXT_LIMIT,
    ensures
        final(panel).rot == old(panel).rot,
        final(panel).sent_hash == old(panel).sent_hash,
        forall|px: int, py: int| #[trigger]
            final(panel).rot.on_canvas(px, py) ==> final(panel).lit(px, py) == (old(panel).lit(
                px,
                py,
            ) || glyphs(s@, x as int, y as int, big, px, py)),
{
    let bits: [u8; BITMAP_LEN] = draw_text(s, x, y, big);
    blit(
        panel,
        bits.as_slice(),
        BITMAP_SIDE as i32,
        BITMAP_SIDE as i32,
        BITMAP_STRIDE,
        1,
        0,
        0,
    );
}

// --- screen -------------------------------------------------------------

/// What is known of the battery.
#[derive(Debug, Clone, Copy, PartialEq, Eq, Structural)]
pub enum BatteryStatus {
    Unavailable,
    Available { level: Option<u8> },
}

/// What a pass draws from.
#[derive(Debug, Clone, Copy, PartialEq, Eq, Structural)]
pub struct RenderContext {
    /// The half is linked to the receiver.
    pub central_connected: bool,
    /// The receiver's radio leg to the host.
    pub ble_state: BleState,
    /// The receiver's host profile.
    pub profile: u8,
    pub battery: BatteryStatus,
    /// Active layer.
    pub layer: u8,
}

impl RenderContext {
    /// The raw battery sample, if there is one.
    pub open spec fn sample(self) -> Option<u8> {
        match self.battery {
            BatteryStatus::Available { level } => level,
            BatteryStatus::Unavailable => None,
        }
    }

    /// Text beside the rune: a dash without the link, the profile with the link up
    /// and the receiver on its radio leg, nothing otherwise.
    pub open spec fn badge(self) -> Seq<char> {
        if !self.central_connected {
            seq!['-']
        } else if self.ble_state is Connected {
            label::decimal(self.profile as int)
        } else {
            Seq::empty()
        }
    }

    /// Text of the bottom row.
    pub open spec fn layer_text(self) -> Seq<char> {
        if self.layer < 5 {
            LAYER_NAMES[self.layer as int]@
        } else {
            "?"@
        }
    }

    /// The raw battery sample, if there is one.
    pub fn raw_level(&self) -> (r: Option<u8>)
        ensures
            r == self.sample(),
    {
        match self.battery {
            BatteryStatus::Available { level } => level,
            BatteryStatus::Unavailable => None,
        }
    }

    /// Text beside the rune.
    pub fn badge_label(&self) -> (r: heapless::String<8>)
        ensures
            label::label_chars(r) == self.badge(),
            self.badge().len() <= 3,
    {
        let mut s: heapless::String<8> = label_new();
        proof {
            label::lemma_decimal_of_a_byte(self.profile as int);
            assert(Seq::<char>::empty().push('-') =~= seq!['-']);
            label::lemma_short_ascii_fits(seq!['-']);
            assert(Seq::<char>::empty() + label::decimal(self.profile as int) =~= label::decimal(
                self.profile as int,
            ));
            label::lemma_short_ascii_fits(label::decimal(self.profile as int));
        }
        if !self.central_connected {
            label_push(&mut s, '-');
        } else {
            match self.ble_state {
                BleState::Connected => {
                    label_write_u8(&mut s, self.profile);
                },
                _ => {},
            }
        }
        s
    }

    /// Text of the bottom row.
    pub fn layer_name(&self) -> (r: &'static str)
        ensures
            r@ == self.layer_text(),
            1 <= r@.len() <= 5,
    {
        proof {
            reveal_strlit("BASE");
            reveal_strlit("RAISE");
            reveal_strlit("LOWER");
            reveal_strlit("FUNC");
            reveal_strlit("MOUSE");
            reveal_strlit("?");
        }
        if self.layer < 5 {
            LAYER_NAMES[self.layer as usize]
        } else {
            "?"
        }
    }
}

/// The battery number: two dashes while there is no level.
pub open spec fn number_text(level: Option<u8>) -> Seq<char> {
    match level {
        Some(l) => label::decimal(l as int),
        None => seq!['-', '-'],
    }
}

/// The battery number.
pub fn number_label(level: Option<u8>) -> (r: heapless::String<8>)
    ensures
        label::label_chars(r) == number_text(level),
        1 <= number_text(level).len() <= 3,
{
    let mut s: heapless::String<8> = label_new();
    match level {
        Some(l) => {
            proof {
                label::lemma_decimal_of_a_byte(l as int);
                assert(Seq::<char>::empty() + label::decimal(l as int) =~= label::decimal(
                    l as int,
                ));
                label::lemma_short_ascii_fits(label::decimal(l as int));
            }
            label_write_u8(&mut s, l);
        },
        None => {
            proof {
                reveal_strlit("--");
                assert(Seq::<char>::empty() + "--"@ =~= seq!['-', '-']);
                label::lemma_short_ascii_fits(seq!['-', '-']);
            }
            label_push_str(&mut s, "--");
        },
    }
    s
}

/// Left edge of the battery number, which ends at [`NUM_RIGHT_EDGE`].
pub open spec fn number_x(level: Option<u8>) -> int {
    NUM_RIGHT_EDGE - number_text(level).len() * 6
}

/// Left edge of the battery bar.
pub open spec fn bar_x(level: Option<u8>) -> int {
    number_x(level) - 25
}

/// Width of the charge inside the bar.
pub open spec fn charge_width(level: u8) -> int {
    if level * 18 / 100 < 1 {
        1
    } else if level * 18 / 100 > 18 {
        18
    } else {
        level * 18 / 100
    }
}

/// What the battery bar shows at `(px, py)` over a canvas that showed `under`: a
/// frame, hollow inside, the charge if the level is known, and the cap.
pub open spec fn bar_lit(level: Option<u8>, px: int, py: int, under: bool) -> bool {
    let x = bar_x(level);
    if in_rect(x + 22, 6, 2, 5, px, py) {
        true
    } else if level is Some && in_rect(x + 2, 5, charge_width(level->0), 7, px, py) {
        true
    } else if in_rect(x + 1, 4, 20, 9, px, py) {
        false
    } else if in_rect(x, 3, 22, 11, px, py) {
        true
    } else {
        under
    }
}

/// Draws the battery bar and its number.
pub fn draw_battery(panel: &mut Lpm009m360a, level: Option<u8>)
    ensures
        final(panel).rot == old(panel).rot,
        final(panel).sent_hash == old(panel).sent_hash,
        forall|px: int, py: int| #[trigger]
            final(panel).rot.on_canvas(px, py) ==> final(panel).lit(px, py) == (bar_lit(
                level,
                px,
                py,
                old(panel).lit(px, py),
            ) || glyphs(number_text(level), number_x(level), NUM_Y as int, false, px, py)),
{
    let number: heapless::String<8> = number_label(level);
    let s: &str = label_as_str(&number);
    let digits: i32 = s.unicode_len() as i32;
    let num_x: i32 = NUM_RIGHT_EDGE - digits * 6;
    let bar: i32 = num_x - 3 - 22;
    fill_rect(panel, bar, ICON_Y + 1, 22, 11, true);
    fill_rect(panel, bar + 1, ICON_Y + 2, 20, 9, false);
    match level {
        Some(l) => {
            let part: i32 = l as i32 * 18 / 100;
            let w: i32 = if part < 1 {
                1
            } else if part > 18 {
                18
            } else {
                part
            };
            fill_rect(panel, bar + 2, ICON_Y + 3, w, 7, true);
        },
        None => {},
    }
    fill_rect(panel, bar + 22, ICON_Y + 4, 2, 5, true);
    txt(panel, s, num_x, NUM_Y, false);
}

/// What the screen shows at `(px, py)`: the animation, the badge, the battery over
/// both, and the layer name.
pub open spec fn screen_lit(
    ctx: RenderContext,
    level: Option<u8>,
    bits: Seq<u8>,
    px: int,
    py: int,
) -> bool {
    let under = capy_lights(bits, px, py) || rune_lights(px, py) || glyphs(
        ctx.badge(),
        BT_W + 4,
        NUM_Y as int,
        false,
        px,
        py,
    );
    ||| bar_lit(level, px, py, under)
    ||| glyphs(number_text(level), number_x(level), NUM_Y as int, false, px, py)
    ||| glyphs(
        ctx.layer_text(),
        (72 - ctx.layer_text().len() * 9) / 2,
        LAYER_Y as int,
        true,
        px,
        py,
    )
}

/// Paints the whole screen.
pub fn render_ui(
    panel: &mut Lpm009m360a,
    filter: &mut BatteryFilter,
    ctx: &RenderContext,
    frames: &[[u8; 1080]; 9],
    frame: usize,
    now_ms: u64,
)
    requires
        frame < CAPY_FRAMES,
    ensures
        *final(filter) == old(filter).after_reading(ctx.sample(), now_ms),
        final(panel).rot == old(panel).rot,
        final(panel).sent_hash == old(panel).sent_hash,
        forall|px: int, py: int| #[trigger]
            final(panel).rot.on_canvas(px, py) ==> final(panel).lit(px, py) == screen_lit(
                *ctx,
                displayed(*final(filter), ctx.sample()),
                frames@[frame as int]@,
                px,
                py,
            ),
{
    panel.fill_all(false);
    draw_capy(panel, frames, frame);
    blit(panel, BT_ICON.as_slice(), BT_W, BT_H, 2, 1, 2, ICON_Y);
    let badge: heapless::String<8> = ctx.badge_label();
    txt(panel, label_as_str(&badge), BT_W + 4, NUM_Y, false);
    let level: Option<u8> = shown_battery(filter, ctx.raw_level(), now_ms);
    draw_battery(panel, level);
    let name: &str = ctx.layer_name();
    let w: i32 = name.unicode_len() as i32 * 9;
    txt(panel, name, (72 - w) / 2, LAYER_Y, true);
}

/// Everything that a pass draws. What the screen does not show (modifiers, typing
/// speed, the last key) is not part of it, so a change there costs no repaint.
#[derive(Debug, Clone, Copy, PartialEq, Eq, Structural)]
pub struct UiSnap {
    pub frame: usize,
    /// The half is linked to the receiver.
    pub link_up: bool,
    /// 0 inactive, 1 advertising, 2 connected.
    pub ble_state: u8,
    pub profile: u8,
    pub level: Option<u8>,
    pub layer: u8,
}

/// What the screen keeps between passes.
#[derive(Debug, Clone, Copy, PartialEq, Eq, Structural)]
pub struct UiState {
    pub capy: CapyClock,
    pub battery: BatteryFilter,
}

impl UiState {
    /// Nothing shown yet.
    pub fn new() -> (r: Self)
        ensures
            r.capy == (CapyClock { frame: UNSEEN, since: 0 }),
            r.capy.wf(),
            r.battery == (BatteryFilter {
                shown: UNSEEN,
                prev_raw: UNSEEN,
                trend: 0,
                last_upd_ms: 0,
            }),
    {
        UiState { capy: CapyClock::new(), battery: BatteryFilter::new() }
    }
}

/// Number of a radio state in the snapshot.
pub open spec fn ble_code(s: BleState) -> u8 {
    match s {
        BleState::Inactive => 0,
        BleState::Advertising => 1,
        BleState::Connected => 2,
    }
}

/// The snapshot of a pass at `now_ms` from `state`.
pub open spec fn snapshot(
    state: UiState,
    ctx: RenderContext,
    ids: [u32; 2],
    salt: u32,
    now_ms: u64,
) -> UiSnap {
    UiSnap {
        frame: state.capy.after(ids, salt, now_ms).frame as usize,
        link_up: ctx.central_connected,
        ble_state: ble_code(ctx.ble_state),
        profile: ctx.profile,
        level: displayed(state.battery.after_reading(ctx.sample(), now_ms), ctx.sample()),
        layer: ctx.layer,
    }
}

/// Takes the snapshot of a pass; the animation and the battery filter move on.
pub fn make_snap(
    state: &mut UiState,
    ctx: &RenderContext,
    ids: [u32; 2],
    salt: u32,
    now_ms: u64,
) -> (r: UiSnap)
    ensures
        r == snapshot(*old(state), *ctx, ids, salt, now_ms),
        final(state).capy == old(state).capy.after(ids, salt, now_ms),
        final(state).battery == old(state).battery.after_reading(ctx.sample(), now_ms),
        old(state).capy.wf() ==> final(state).capy.wf() && r.frame < CAPY_FRAMES,
{
    let frame: usize = capy_frame(&mut state.capy, ids, salt, now_ms);
    let level: Option<u8> = shown_battery(&mut state.battery, ctx.raw_level(), now_ms);
    UiSnap {
        frame,
        link_up: ctx.central_connected,
        ble_state: match ctx.ble_state {
            BleState::Inactive => 0,
            BleState::Advertising => 1,
            BleState::Connected => 2,
        },
        profile: ctx.profile,
        level,
        layer: ctx.layer,
    }
}

/// The snapshot and the drawing that follows it read the filter one after the
/// other, at times `ms1` and `ms2`: both show the same level.
pub proof fn law_snapshot_and_drawing_agree(
    filter: BatteryFilter,
    raw: Option<u8>,
    ms1: u64,
    ms2: u64,
)
    ensures
        displayed(filter.after_reading(raw, ms1).after_reading(raw, ms2), raw) == displayed(
            filter.after_reading(raw, ms1),
            raw,
        ),
{
}

/// How a pass changes what a screen keeps: `drawn` exactly if the snapshot is not
/// that of the last pass.
pub open spec fn pass(
    snap_before: Option<UiSnap>,
    snap_after: Option<UiSnap>,
    before: UiState,
    after: UiState,
    ctx: RenderContext,
    ids: [u32; 2],
    salt: u32,
    now_ms: u64,
    drawn: bool,
) -> bool {
    let snap = snapshot(before, ctx, ids, salt, now_ms);
    let once = before.battery.after_reading(ctx.sample(), now_ms);
    &&& snap_after == Some(snap)
    &&& drawn == (snap_before != Some(snap))
    &&& after.capy == before.capy.after(ids, salt, now_ms)
    &&& after.battery == if drawn {
        once.after_reading(ctx.sample(), now_ms)
    } else {
        once
    }
}

/// Whether a panel shows the screen of a context and its snapshot.
pub open spec fn shows(
    panel: Lpm009m360a,
    ctx: RenderContext,
    snap: UiSnap,
    frames: Seq<[u8; 1080]>,
) -> bool {
    forall|px: int, py: int| #[trigger]
        panel.rot.on_canvas(px, py) ==> panel.lit(px, py) == screen_lit(
            ctx,
            snap.level,
            frames[snap.frame as int]@,
            px,
            py,
        )
}

/// A pass that draws nothing leaves nothing stale: contexts with the same snapshot
/// have the same screen, so what the panel shows is right for both.
pub proof fn law_equal_snapshots_show_the_same(
    panel: Lpm009m360a,
    frames: Seq<[u8; 1080]>,
    state1: UiState,
    ctx1: RenderContext,
    ms1: u64,
    state2: UiState,
    ctx2: RenderContext,
    ms2: u64,
    ids: [u32; 2],
    salt: u32,
)
    requires
        snapshot(state1, ctx1, ids, salt, ms1) == snapshot(state2, ctx2, ids, salt, ms2),
        shows(panel, ctx1, snapshot(state1, ctx1, ids, salt, ms1), frames),
    ensures
        shows(panel, ctx2, snapshot(state2, ctx2, ids, salt, ms2), frames),
{
    assert(ble_code(ctx1.ble_state) == ble_code(ctx2.ble_state));
    assert(ctx1.badge() == ctx2.badge());
    assert(ctx1.layer_text() == ctx2.layer_text());
}

/// The animation never leaves its nine frames, from the first pass on.
pub proof fn law_snapshot_frame_exists(
    state: UiState,
    ctx: RenderContext,
    ids: [u32; 2],
    salt: u32,
    now_ms: u64,
)
    requires
        state.capy.wf(),
    ensures
        snapshot(state, ctx, ids, salt, now_ms).frame < CAPY_FRAMES,
        state.capy.after(ids, salt, now_ms).wf(),
{
}

/// The battery number ends two pixels short of the canvas edge whatever its
/// length, and the bar's cap ends one pixel before it, so both move together.
pub proof fn law_battery_is_right_aligned(level: Option<u8>)
    ensures
        number_x(level) + 6 * number_text(level).len() == 70,
        bar_x(level) + 22 + 2 == number_x(level) - 1,
{
}

/// The charge stays inside the bar's frame, is never empty, and grows with the level.
pub proof fn law_charge_fits_the_bar(low: u8, high: u8)
    requires
        low <= high,
    ensures
        1 <= charge_width(low) <= charge_width(high) <= 18,
        charge_width(100) == 18,
{
}

/// Panel on the left half.
pub struct LeftScreen {
    /// What the panel shows, `None` before the first pass.
    pub snap: Option<UiSnap>,
}

impl LeftScreen {
    /// Draws a pass, unless nothing that the screen shows has changed since the
    /// last one. `now` is the clock reading. Returns whether it drew.
    pub fn render(
        &mut self,
        state: &mut UiState,
        ctx: &RenderContext,
        ids: [u32; 2],
        frames: &[[u8; 1080]; 9],
        panel: &mut Lpm009m360a,
        now: u64,
    ) -> (r: bool)
        requires
            old(state).capy.wf(),
            now <= MAX_TICKS,
        ensures
            final(state).capy.wf(),
            pass(
                old(self).snap,
                final(self).snap,
                *old(state),
                *final(state),
                *ctx,
                ids,
                LEFT_SALT,
                clock::ms_since_boot(now) as u64,
                r,
            ),
            !r ==> *final(panel) == *old(panel),
            r ==> shows(*final(panel), *ctx, final(self).snap->0, frames@),
            final(panel).rot == old(panel).rot,
            final(panel).sent_hash == old(panel).sent_hash,
    {
        let now_ms: u64 = uptime_ms(now);
        let snap: UiSnap = make_snap(state, ctx, ids, LEFT_SALT, now_ms);
        match self.snap {
            Some(shown) => {
                if shown == snap {
                    return false;
                }
            },
            None => {},
        }
        self.snap = Some(snap);
        proof {
            law_snapshot_and_drawing_agree(old(state).battery, ctx.sample(), now_ms, now_ms);
        }
        render_ui(panel, &mut state.battery, ctx, frames, snap.frame, now_ms);
        true
    }
}

/// Panel on the right half.
pub struct RightScreen {
    /// What the panel shows, `None` before the first pass.
    pub snap: Option<UiSnap>,
}

impl RightScreen {
    /// Draws a pass, unless nothing that the screen shows has changed since the
    /// last one. `now` is the clock reading. Returns whether it drew.
    pub fn render(
        &mut self,
        state: &mut UiState,
        ctx: &RenderContext,
        ids: [u32; 2],
        frames: &[[u8; 1080]; 9],
        panel: &mut Lpm009m360a,
        now: u64,
    ) -> (r: bool)
        requires
            old(state).capy.wf(),
            now <= MAX_TICKS,
        ensures
            final(state).capy.wf(),
            pass(
                old(self).snap,
                final(self).snap,
                *old(state),
                *final(state),
                *ctx,
                ids,
                RIGHT_SALT,
                clock::ms_since_boot(now) as u64,
                r,
            ),
            !r ==> *final(panel) == *old(panel),
            r ==> shows(*final(panel), *ctx, final(self).snap->0, frames@),
            final(panel).rot == old(panel).rot,
            final(panel).sent_hash == old(panel).sent_hash,
    {
        let now_ms: u64 = uptime_ms(now);
        let snap: UiSnap = make_snap(state, ctx, ids, RIGHT_SALT, now_ms);
        match self.snap {
            Some(shown) => {
                if shown == snap {
                    return false;
                }
            },
            None => {},
        }
        self.snap = Some(snap);
        proof {
            law_snapshot_and_drawing_agree(old(state).battery, ctx.sample(), now_ms, now_ms);
        }
        render_ui(panel, &mut state.battery, ctx, frames, snap.frame, now_ms);
        true
    }
}

// --- what the operations come to ------------------------------------------

/// The level that a screen shows of a battery once its filter stands at `filter`.
pub open spec fn level_on_screen(battery: BatteryStatus, filter: BatteryFilter) -> Option<u8> {
    if battery matches BatteryStatus::Available { level } && level is Some {
        Some(filter.shown)
    } else {
        None
    }
}

/// Whether a snapshot is one of this context: everything in it that does not come
/// from the animation and the battery filter.
pub open spec fn is_of(snap: UiSnap, ctx: RenderContext) -> bool {
    &&& snap.link_up == ctx.central_connected
    &&& snap.ble_state == 0 <==> ctx.ble_state is Inactive
    &&& snap.ble_state == 1 <==> ctx.ble_state is Advertising
    &&& snap.ble_state == 2 <==> ctx.ble_state is Connected
    &&& snap.profile == ctx.profile
    &&& snap.layer == ctx.layer
}

/// Nothing stays stale on the left panel: if it showed the screen of the last pass,
/// it shows that of the present context after this one, drawn or not, pixel for
/// pixel what painting the present context anew would show. `stale` is a panel
/// painted for the last context, `fresh` one painted for the present.
pub proof fn law_left_panel_shows_the_present(
    screen: &mut LeftScreen,
    state: &mut UiState,
    before: RenderContext,
    ctx: RenderContext,
    ids: [u32; 2],
    frames: [[u8; 1080]; 9],
    panel: &mut Lpm009m360a,
    now: u64,
    r: bool,
    stale: &mut Lpm009m360a,
    stale_filter: &mut BatteryFilter,
    stale_ms: u64,
    fresh: &mut Lpm009m360a,
    fresh_filter: &mut BatteryFilter,
    fresh_ms: u64,
)
    requires
        call_ensures(LeftScreen::render, (screen, state, &ctx, ids, &frames, panel, now), r),
        old(state).capy.wf(),
        old(screen).snap matches Some(snap) ==> {
            &&& is_of(snap, before)
            &&& snap.frame < 9
            &&& call_ensures(
                render_ui,
                (stale, stale_filter, &before, &frames, snap.frame, stale_ms),
                (),
            )
            &&& snap.level == level_on_screen(before.battery, *final(stale_filter))
            &&& old(panel).rot == final(stale).rot
            &&& forall|px: int, py: int| #[trigger]
                old(panel).rot.on_canvas(px, py) ==> old(panel).lit(px, py) == final(stale).lit(
                    px,
                    py,
                )
        },
        call_ensures(
            render_ui,
            (fresh, fresh_filter, &ctx, &frames, final(screen).snap->0.frame, fresh_ms),
            (),
        ),
        final(screen).snap->0.level == level_on_screen(ctx.battery, *final(fresh_filter)),
        final(fresh).rot == old(panel).rot,
    ensures
        final(screen).snap is Some,
        is_of(final(screen).snap->0, ctx),
        final(screen).snap->0.frame < 9,
        final(panel).rot == old(panel).rot,
        final(panel).sent_hash == old(panel).sent_hash,
        forall|px: int, py: int| #[trigger]
            final(panel).rot.on_canvas(px, py) ==> final(panel).lit(px, py) == final(fresh).lit(
                px,
                py,
            ),
        old(screen).snap is None ==> r,
        r <==> old(screen).snap != final(screen).snap,
{
    assert forall|px: int, py: int| #[trigger] final(panel).rot.on_canvas(px, py) implies final(panel).lit(px, py) == final(fresh).lit(px, py) by {
        assert(final(fresh).rot.on_canvas(px, py));
        assert(old(panel).rot.on_canvas(px, py));
        if !r {
            assert(final(stale).rot.on_canvas(px, py));
            assert(before.badge() == ctx.badge());
            assert(before.layer_text() == ctx.layer_text());
        }
    }
}

/// Nothing stays stale on the right panel either.
pub proof fn law_right_panel_shows_the_present(
    screen: &mut RightScreen,
    state: &mut UiState,
    before: RenderContext,
    ctx: RenderContext,
    ids: [u32; 2],
    frames: [[u8; 1080]; 9],
    panel: &mut Lpm009m360a,
    now: u64,
    r: bool,
    stale: &mut Lpm009m360a,
    stale_filter: &mut BatteryFilter,
    stale_ms: u64,
    fresh: &mut Lpm009m360a,
    fresh_filter: &mut BatteryFilter,
    fresh_ms: u64,
)
    requires
        call_ensures(RightScreen::render, (screen, state, &ctx, ids, &frames, panel, now), r),
        old(state).capy.wf(),
        old(screen).snap matches Some(snap) ==> {
            &&& is_of(snap, before)
            &&& snap.frame < 9
            &&& call_ensures(
                render_ui,
                (stale, stale_filter, &before, &frames, snap.frame, stale_ms),
                (),
            )
            &&& snap.level == level_on_screen(before.battery, *final(stale_filter))
            &&& old(panel).rot == final(stale).rot
            &&& forall|px: int, py: int| #[trigger]
                old(panel).rot.on_canvas(px, py) ==> old(panel).lit(px, py) == final(stale).lit(
                    px,
                    py,
                )
        },
        call_ensures(
            render_ui,
            (fresh, fresh_filter, &ctx, &frames, final(screen).snap->0.frame, fresh_ms),
            (),
        ),
        final(screen).snap->0.level == level_on_screen(ctx.battery, *final(fresh_filter)),
        final(fresh).rot == old(panel).rot,
    ensures
        final(screen).snap is Some,
        is_of(final(screen).snap->0, ctx),
        final(screen).snap->0.frame < 9,
        final(panel).rot == old(panel).rot,
        final(panel).sent_hash == old(panel).sent_hash,
        forall|px: int, py: int| #[trigger]
            final(panel).rot.on_canvas(px, py) ==> final(panel).lit(px, py) == final(fresh).lit(
                px,
                py,
            ),
        old(screen).snap is None ==> r,
        r <==> old(screen).snap != final(screen).snap,
{
    assert forall|px: int, py: int| #[trigger] final(panel).rot.on_canvas(px, py) implies final(panel).lit(px, py) == final(fresh).lit(px, py) by {
        assert(final(fresh).rot.on_canvas(px, py));
        assert(old(panel).rot.on_canvas(px, py));
        if !r {
            assert(final(stale).rot.on_canvas(px, py));
            assert(before.badge() == ctx.badge());
            assert(before.layer_text() == ctx.layer_text());
        }
    }
}

/// A pass of the left half moves its own animation and battery filter on by the time
/// that has passed and remembers what they came to, with all of the context that it
/// shows. It draws exactly if that is not what it remembered, and leaves the panel
/// alone otherwise. The halves differ in the salt of their animation alone.
pub proof fn law_left_pass_moves_on(
    screen: &mut LeftScreen,
    state: &mut UiState,
    ctx: RenderContext,
    ids: [u32; 2],
    frames: [[u8; 1080]; 9],
    panel: &mut Lpm009m360a,
    now: u64,
    r: bool,
    ms: u64,
    clock: &mut CapyClock,
    filter: &mut BatteryFilter,
    frame: usize,
    level: Option<u8>,
)
    requires
        call_ensures(LeftScreen::render, (screen, state, &ctx, ids, &frames, panel, now), r),
        now <= MAX_TICKS,
        ms * 32768 <= now * 1000 < (ms + 1) * 32768,
        *old(clock) == old(state).capy,
        *old(filter) == old(state).battery,
        call_ensures(capy_frame, (clock, ids, 0x85eb_ca6bu32, ms), frame),
        call_ensures(
            shown_battery,
            (
                filter,
                match ctx.battery {
                    BatteryStatus::Available { level } => level,
                    BatteryStatus::Unavailable => None,
                },
                ms,
            ),
            level,
        ),
    ensures
        final(screen).snap is Some,
        final(screen).snap->0.frame == frame,
        final(screen).snap->0.level == level,
        is_of(final(screen).snap->0, ctx),
        r <==> old(screen).snap != final(screen).snap,
        final(state).capy == *final(clock),
        ctx.battery != (BatteryStatus::Available { level: Some(0xFF) }) ==> final(state).battery
            == *final(filter),
        !r ==> *final(panel) == *old(panel),
{
    law_snapshot_and_drawing_agree(old(state).battery, ctx.sample(), ms, ms);
}

/// A pass of the right half does the same under its own salt.
pub proof fn law_right_pass_moves_on(
    screen: &mut RightScreen,
    state: &mut UiState,
    ctx: RenderContext,
    ids: [u32; 2],
    frames: [[u8; 1080]; 9],
    panel: &mut Lpm009m360a,
    now: u64,
    r: bool,
    ms: u64,
    clock: &mut CapyClock,
    filter: &mut BatteryFilter,
    frame: usize,
    level: Option<u8>,
)
    requires
        call_ensures(RightScreen::render, (screen, state, &ctx, ids, &frames, panel, now), r),
        now <= MAX_TICKS,
        ms * 32768 <= now * 1000 < (ms + 1) * 32768,
        *old(clock) == old(state).capy,
        *old(filter) == old(state).battery,
        call_ensures(capy_frame, (clock, ids, 0x9e37_79b9u32, ms), frame),
        call_ensures(
            shown_battery,
            (
                filter,
                match ctx.battery {
                    BatteryStatus::Available { level } => level,
                    BatteryStatus::Unavailable => None,
                },
                ms,
            ),
            level,
        ),
    ensures
        final(screen).snap is Some,
        final(screen).snap->0.frame == frame,
        final(screen).snap->0.level == level,
        is_of(final(screen).snap->0, ctx),
        r <==> old(screen).snap != final(screen).snap,
        final(state).capy == *final(clock),
        ctx.battery != (BatteryStatus::Available { level: Some(0xFF) }) ==> final(state).battery
            == *final(filter),
        !r ==> *final(panel) == *old(panel),
{
    law_snapshot_and_drawing_agree(old(state).battery, ctx.sample(), ms, ms);
}

/// A snapshot holds what the animation and the battery filter come to at that time,
/// and all of the context that the screen shows; both move on by it.
pub proof fn law_snapshots_hold_what_is_shown(
    state: &mut UiState,
    ctx: RenderContext,
    ids: [u32; 2],
    salt: u32,
    now_ms: u64,
    snap: UiSnap,
    clock: &mut CapyClock,
    filter: &mut BatteryFilter,
    frame: usize,
    level: Option<u8>,
)
    requires
        call_ensures(make_snap, (state, &ctx, ids, salt, now_ms), snap),
        *old(clock) == old(state).capy,
        *old(filter) == old(state).battery,
        call_ensures(capy_frame, (clock, ids, salt, now_ms), frame),
        call_ensures(
            shown_battery,
            (
                filter,
                match ctx.battery {
                    BatteryStatus::Available { level } => level,
                    BatteryStatus::Unavailable => None,
                },
                now_ms,
            ),
            level,
        ),
    ensures
        is_of(snap, ctx),
        snap.frame == frame,
        snap.level == level,
        final(state).capy == *final(clock),
        final(state).battery == *final(filter),
{
}

/// An animation that is up since `then_ms` stays for ten minutes and is followed by
/// the next of its nine frames, the last by the first; a pass shows the frame that
/// is up after it. The count of milliseconds may wrap in between.
pub proof fn law_frames_stay_ten_minutes(
    clock: &mut CapyClock,
    ids: [u32; 2],
    salt: u32,
    then_ms: u64,
    now_ms: u64,
    r: usize,
)
    requires
        call_ensures(capy_frame, (clock, ids, salt, now_ms), r),
        old(clock).frame < 9,
        then_ms <= now_ms < then_ms + 0x1_0000_0000,
        old(clock).since == then_ms % 0x1_0000_0000,
    ensures
        r == final(clock).frame,
        now_ms - then_ms < 600_000 ==> *final(clock) == *old(clock),
        now_ms - then_ms >= 600_000 ==> final(clock).since == now_ms % 0x1_0000_0000,
        now_ms - then_ms >= 600_000 && old(clock).frame < 8 ==> final(clock).frame == old(
            clock).frame + 1,
        now_ms - then_ms >= 600_000 && old(clock).frame == 8 ==> final(clock).frame == 0,
{
    law_wrapped_count_tells_real_time(then_ms, now_ms);
}

proof fn lemma_bytes_of_a_word(w: u32, b0: u8, b1: u8, b2: u8, b3: u8)
    requires
        w == b0 + 0x100 * b1 + 0x1_0000 * b2 + 0x100_0000 * b3,
    ensures
        bytes::word_bytes(w) == seq![b0, b1, b2, b3],
{
    let above1 = b1 + 0x100 * b2 + 0x1_0000 * b3;
    let above2 = b2 + 0x100 * b3;
    assert(w == b0 + 0x100 * above1 && above1 == b1 + 0x100 * above2);
    assert(w % 0x100 == b0 && w / 0x100 == above1);
    assert(above1 % 0x100 == b1 && above1 / 0x100 == above2);
    assert(w / 0x1_0000 == above2);
    assert(above2 % 0x100 == b2 && above2 / 0x100 == b3);
    assert(w / 0x100_0000 == b3);
    assert(bytes::word_bytes(w) =~= seq![b0, b1, b2, b3]);
}

/// An animation starts at once, on a frame that hangs on every byte of both id words
/// and on the salt: the FNV-1a hash of the bytes, lowest first, then one more round
/// with the salt.
pub proof fn law_animation_starts_on_its_own_frame(
    clock: &mut CapyClock,
    ids: [u32; 2],
    salt: u32,
    now_ms: u64,
    bytes: Seq<u8>,
    r: usize,
)
    requires
        call_ensures(capy_frame, (clock, ids, salt, now_ms), r),
        old(clock).frame == 0xFF,
        bytes.len() == 8,
        ids[0] == bytes[0] + 0x100 * bytes[1] + 0x1_0000 * bytes[2] + 0x100_0000 * bytes[3],
        ids[1] == bytes[4] + 0x100 * bytes[5] + 0x1_0000 * bytes[6] + 0x100_0000 * bytes[7],
    ensures
        r == (lpm009m360a::fnv1a(bytes) ^ salt).wrapping_mul(0x0100_0193) % 9,
        final(clock).frame == r,
        final(clock).since == now_ms % 0x1_0000_0000,
{
    lemma_bytes_of_a_word(ids[0], bytes[0], bytes[1], bytes[2], bytes[3]);
    lemma_bytes_of_a_word(ids[1], bytes[4], bytes[5], bytes[6], bytes[7]);
    assert(bytes::word_bytes(ids[0]) + bytes::word_bytes(ids[1]) =~= bytes);
}

/// Without a sample there is no level, and the filter stays as it is. The first
/// sample is shown as it is. A sample that is read again shows what is up already.
pub proof fn law_battery_without_news(
    filter: &mut BatteryFilter,
    raw: Option<u8>,
    now_ms: u64,
    r: Option<u8>,
)
    requires
        call_ensures(shown_battery, (filter, raw, now_ms), r),
    ensures
        r is Some <==> raw is Some,
        r matches Some(level) ==> level == final(filter).shown,
        raw is None ==> *final(filter) == *old(filter),
        raw is Some && old(filter).shown == 0xFF ==> {
            &&& r == raw
            &&& final(filter).prev_raw == raw->0
            &&& final(filter).trend == old(filter).trend
            &&& final(filter).last_upd_ms == now_ms % 0x1_0000_0000
        },
        raw is Some && old(filter).shown != 0xFF && raw->0 == old(filter).prev_raw ==> *final(
            filter) == *old(filter),
{
}

/// A new sample, five digits or more from what is up, is shown at once. Two to four
/// digits away it is shown unless a small change was let through in the last two
/// minutes. Either way no direction is pending after it.
pub proof fn law_battery_follows_large_moves(
    filter: &mut BatteryFilter,
    raw: u8,
    then_ms: u64,
    now_ms: u64,
    r: Option<u8>,
)
    requires
        call_ensures(shown_battery, (filter, Some(raw), now_ms), r),
        old(filter).shown != 0xFF,
        raw != old(filter).prev_raw,
        raw >= old(filter).shown + 2 || raw + 2 <= old(filter).shown,
        then_ms <= now_ms < then_ms + 0x1_0000_0000,
        old(filter).last_upd_ms == then_ms % 0x1_0000_0000,
    ensures
        ({
            let far = raw >= old(filter).shown + 5 || raw + 5 <= old(filter).shown;
            &&& r == if far || now_ms - then_ms >= 120_000 {
                Some(raw)
            } else {
                Some(old(filter).shown)
            }
            &&& far || now_ms - then_ms < 120_000 ==> final(filter).last_upd_ms == old(
                filter).last_upd_ms
            &&& !far && now_ms - then_ms >= 120_000 ==> final(filter).last_upd_ms == now_ms
                % 0x1_0000_0000
        }),
        final(filter).shown == r->0,
        final(filter).prev_raw == raw,
        final(filter).trend == 0,
{
    law_wrapped_count_tells_real_time(then_ms, now_ms);
}

/// A new sample within one digit of what is up only counts as the second of two moves
/// in one direction, up being 1 and down 2; the first leaves its direction pending.
/// The second is shown unless a small change was let through in the last two minutes,
/// and nothing is pending after it.
pub proof fn law_battery_takes_two_small_moves(
    filter: &mut BatteryFilter,
    raw: u8,
    then_ms: u64,
    now_ms: u64,
    r: Option<u8>,
)
    requires
        call_ensures(shown_battery, (filter, Some(raw), now_ms), r),
        old(filter).shown != 0xFF,
        raw != old(filter).prev_raw,
        raw <= old(filter).shown + 1 && old(filter).shown <= raw + 1,
        then_ms <= now_ms < then_ms + 0x1_0000_0000,
        old(filter).last_upd_ms == then_ms % 0x1_0000_0000,
    ensures
        ({
            let second = if raw > old(filter).prev_raw {
                old(filter).trend == 1
            } else {
                old(filter).trend == 2
            };
            &&& r == if second && now_ms - then_ms >= 120_000 {
                Some(raw)
            } else {
                Some(old(filter).shown)
            }
            &&& second ==> final(filter).trend == 0
            &&& !second && raw > old(filter).prev_raw ==> final(filter).trend == 1
            &&& !second && raw < old(filter).prev_raw ==> final(filter).trend == 2
            &&& second && now_ms - then_ms >= 120_000 ==> final(filter).last_upd_ms == now_ms
                % 0x1_0000_0000
            &&& !(second && now_ms - then_ms >= 120_000) ==> final(filter).last_upd_ms == old(
                filter).last_upd_ms
        }),
        final(filter).shown == r->0,
        final(filter).prev_raw == raw,
{
    law_wrapped_count_tells_real_time(then_ms, now_ms);
}

/// The badge: a dash while the half has no link to the receiver, whatever else holds;
/// with the link up, the number of the receiver's profile while its radio leg is
/// connected, and nothing otherwise.
pub proof fn law_badge_tells_the_link(ctx: RenderContext, s: heapless::String<8>)
    requires
        call_ensures(RenderContext::badge_label, (&ctx,), s),
    ensures
        !ctx.central_connected ==> label::label_chars(s) == seq!['-'],
        ctx.central_connected && ctx.ble_state is Connected ==> label::label_chars(s)
            == label::decimal(ctx.profile as int),
        ctx.central_connected && !(ctx.ble_state is Connected) ==> label::label_chars(s).len() == 0,
{
}

/// Every layer of the keymap goes by its own name; any other by a question mark.
pub proof fn law_layers_go_by_their_names(ctx: RenderContext, s: &'static str)
    requires
        call_ensures(RenderContext::layer_name, (&ctx,), s),
    ensures
        ctx.layer == 0 ==> s@ == seq!['B', 'A', 'S', 'E'],
        ctx.layer == 1 ==> s@ == seq!['R', 'A', 'I', 'S', 'E'],
        ctx.layer == 2 ==> s@ == seq!['L', 'O', 'W', 'E', 'R'],
        ctx.layer == 3 ==> s@ == seq!['F', 'U', 'N', 'C'],
        ctx.layer == 4 ==> s@ == seq!['M', 'O', 'U', 'S', 'E'],
        ctx.layer > 4 ==> s@ == seq!['?'],
{
    reveal_strlit("BASE");
    reveal_strlit("RAISE");
    reveal_strlit("LOWER");
    reveal_strlit("FUNC");
    reveal_strlit("MOUSE");
    reveal_strlit("?");
    assert("BASE"@ =~= seq!['B', 'A', 'S', 'E']);
    assert("RAISE"@ =~= seq!['R', 'A', 'I', 'S', 'E']);
    assert("LOWER"@ =~= seq!['L', 'O', 'W', 'E', 'R']);
    assert("FUNC"@ =~= seq!['F', 'U', 'N', 'C']);
    assert("MOUSE"@ =~= seq!['M', 'O', 'U', 'S', 'E']);
    assert("?"@ =~= seq!['?']);
}

/// The battery number is the level in decimal, and two dashes without one. The
/// sample of a context is the level of its battery, if that is known.
pub proof fn law_number_is_the_level(
    level: Option<u8>,
    s: heapless::String<8>,
    ctx: RenderContext,
    raw: Option<u8>,
)
    requires
        call_ensures(number_label, (level,), s),
        call_ensures(RenderContext::raw_level, (&ctx,), raw),
    ensures
        level matches Some(l) ==> label::label_chars(s) == label::decimal(l as int),
        level is None ==> label::label_chars(s) == seq!['-', '-'],
        ctx.battery matches BatteryStatus::Available { level } ==> raw == level,
        ctx.battery is Unavailable ==> raw is None,
{
}

/// A rectangle is painted wherever the canvas has it, and nowhere else.
pub proof fn law_rectangles_are_painted(
    panel: &mut Lpm009m360a,
    x: i32,
    y: i32,
    w: i32,
    h: i32,
    on: bool,
    px: int,
    py: int,
)
    requires
        call_ensures(fill_rect, (panel, x, y, w, h, on), ()),
        old(panel).rot.on_canvas(px, py),
    ensures
        x <= px < x + w && y <= py < y + h ==> final(panel).lit(px, py) == on,
        !(x <= px < x + w && y <= py < y + h) ==> final(panel).lit(px, py) == old(panel).lit(px, py),
        final(panel).rot == old(panel).rot,
        final(panel).sent_hash == old(panel).sent_hash,
{
    assert(final(panel).rot.on_canvas(px, py));
}

/// Every bit of a bitmap becomes a square of its own: a set one is lit, a cleared one
/// leaves the canvas alone. Outside the squares nothing changes.
pub proof fn law_bits_become_squares(
    panel: &mut Lpm009m360a,
    bits: &[u8],
    w: i32,
    h: i32,
    stride: usize,
    scale: i32,
    x0: i32,
    y0: i32,
    row: int,
    col: int,
    px: int,
    py: int,
)
    requires
        call_ensures(blit, (panel, bits, w, h, stride, scale, x0, y0), ()),
        old(panel).rot.on_canvas(px, py),
    ensures
        0 <= row < h && 0 <= col < w && scale > 0 && x0 + col * scale <= px < x0 + col * scale + scale && y0
            + row * scale <= py < y0 + row * scale + scale ==> final(panel).lit(px, py) == (old(
            panel).lit(px, py) || bits@[row * stride + col / 8] & (0x80u8 >> ((col % 8) as u8))
            != 0),
        px < x0 || px >= x0 + w * scale || py < y0 || py >= y0 + h * scale ==> final(panel).lit(
            px,
            py,
        ) == old(panel).lit(px, py),
        final(panel).rot == old(panel).rot,
        final(panel).sent_hash == old(panel).sent_hash,
{
    assert(final(panel).rot.on_canvas(px, py));
    if 0 <= row < h && 0 <= col < w && scale > 0 && x0 + col * scale <= px < x0 + col * scale + scale && y0 + row
        * scale <= py < y0 + row * scale + scale {
        assert(0 <= col * scale && col * scale + scale <= w * scale) by (nonlinear_arith)
            requires
                0 <= col < w,
                0 < scale,
        ;
        assert(0 <= row * scale && row * scale + scale <= h * scale) by (nonlinear_arith)
            requires
                0 <= row < h,
                0 < scale,
        ;
        lemma_cell(scale as int, px - x0, col);
        lemma_cell(scale as int, py - y0, row);
    }
}

/// Whether text at `(x, y)` inks `(px, py)`.
pub open spec fn ink(chars: Seq<char>, x: int, y: int, big: bool, px: int, py: int) -> bool {
    text::text_bitmap(chars, x as i32, y as i32, big)[py * 18 + px / 8] & (0x80u8 >> ((px
        % 8) as u8)) != 0
}

/// Text is put where it is told, in the font it is told, over what is there.
pub proof fn law_text_is_inked(
    panel: &mut Lpm009m360a,
    s: &str,
    x: i32,
    y: i32,
    big: bool,
    px: int,
    py: int,
)
    requires
        call_ensures(txt, (panel, s, x, y, big), ()),
        old(panel).rot.on_canvas(px, py),
    ensures
        final(panel).lit(px, py) == (old(panel).lit(px, py) || ink(
            s@,
            x as int,
            y as int,
            big,
            px,
            py,
        )),
        final(panel).rot == old(panel).rot,
        final(panel).sent_hash == old(panel).sent_hash,
{
    assert(final(panel).rot.on_canvas(px, py));
}

/// A frame of the animation is put one pixel from the left and eleven from the top,
/// over what is there.
pub proof fn law_frames_are_stamped(
    panel: &mut Lpm009m360a,
    frames: [[u8; 1080]; 9],
    frame: usize,
    px: int,
    py: int,
)
    requires
        call_ensures(draw_capy, (panel, &frames, frame), ()),
        frame < 9,
        old(panel).rot.on_canvas(px, py),
    ensures
        1 <= px < 71 && 11 <= py < 131 ==> final(panel).lit(px, py) == (old(panel).lit(px, py)
            || frames[frame as int][(py - 11) * 9 + (px - 1) / 8] & (0x80u8 >> (((px - 1)
            % 8) as u8)) != 0),
        !(1 <= px < 71 && 11 <= py < 131) ==> final(panel).lit(px, py) == old(panel).lit(px, py),
        final(panel).rot == old(panel).rot,
        final(panel).sent_hash == old(panel).sent_hash,
{
    assert(final(panel).rot.on_canvas(px, py));
}

/// Number of characters of the battery number.
pub open spec fn digits(level: Option<u8>) -> int {
    match level {
        Some(l) => if l < 10 {
            1
        } else if l < 100 {
            2
        } else {
            3
        },
        None => 2,
    }
}

/// The battery: a number that ends at 70 in columns of six, three pixels before it a
/// bar of 22 by 11 with a cap of two by five. The bar is hollow but for the charge,
/// eighteen pixels at a hundred percent and in proportion below, never less than one.
pub proof fn law_battery_is_drawn_in_proportion(
    panel: &mut Lpm009m360a,
    level: Option<u8>,
    number: Seq<char>,
    px: int,
    py: int,
)
    requires
        call_ensures(draw_battery, (panel, level), ()),
        old(panel).rot.on_canvas(px, py),
        number == match level {
            Some(l) => label::decimal(l as int),
            None => seq!['-', '-'],
        },
    ensures
        ({
            let x = 70 - 6 * digits(level);
            let inked = ink(number, x, 12, false, px, py);
            let cap = x - 3 <= px < x - 1 && 6 <= py < 11;
            let bar = x - 25 <= px < x - 3 && 3 <= py < 14;
            let hollow = x - 24 <= px < x - 4 && 4 <= py < 13;
            let charge = level is Some && x - 23 <= px < x - 5 && 5 <= py < 12 && (px == x - 23
                || 100 * (px - (x - 23) + 1) <= 18 * level->0);
            final(panel).lit(px, py) == (inked || cap || charge || (bar && !hollow) || (!bar && old(
                panel).lit(px, py)))
        }),
        final(panel).rot == old(panel).rot,
        final(panel).sent_hash == old(panel).sent_hash,
{
    assert(final(panel).rot.on_canvas(px, py));
    match level {
        Some(l) => {
            label::lemma_decimal_of_a_byte(l as int);
        },
        None => {},
    }
    assert(number == number_text(level));
    assert(number.len() == digits(level));
}

/// The whole screen: over the animation and the rune the badge beside it, then the
/// battery in its corner, which hides what is under its bar, and the layer's name
/// centred at the bottom. Nothing of what was on the panel before shows through.
pub proof fn law_screen_is_put_together(
    panel: &mut Lpm009m360a,
    filter: &mut BatteryFilter,
    ctx: RenderContext,
    frames: [[u8; 1080]; 9],
    frame: usize,
    now_ms: u64,
    badge: heapless::String<8>,
    name: &'static str,
    alone: &mut BatteryFilter,
    level: Option<u8>,
    blank: &mut Lpm009m360a,
    px: int,
    py: int,
)
    requires
        call_ensures(render_ui, (panel, filter, &ctx, &frames, frame, now_ms), ()),
        frame < 9,
        old(panel).rot.on_canvas(px, py),
        call_ensures(RenderContext::badge_label, (&ctx,), badge),
        call_ensures(RenderContext::layer_name, (&ctx,), name),
        *old(alone) == *old(filter),
        call_ensures(
            shown_battery,
            (
                alone,
                match ctx.battery {
                    BatteryStatus::Available { level } => level,
                    BatteryStatus::Unavailable => None,
                },
                now_ms,
            ),
            level,
        ),
        old(blank).rot == old(panel).rot,
        old(blank).lit(px, py) == {
            ||| 1 <= px < 71 && 11 <= py < 131 && frames[frame as int][(py - 11) * 9 + (px - 1) / 8]
                & (0x80u8 >> (((px - 1) % 8) as u8)) != 0
            ||| 2 <= px < 11 && 2 <= py < 16 && BT_ICON[(py - 2) * 2 + (px - 2) / 8] & (0x80u8 >> (
            ((px - 2) % 8) as u8)) != 0
            ||| ink(label::label_chars(badge), 13, 12, false, px, py)
        },
        call_ensures(draw_battery, (blank, level), ()),
    ensures
        final(panel).lit(px, py) == (final(blank).lit(px, py) || ink(
            name@,
            (72 - 9 * name@.len()) / 2,
            134,
            true,
            px,
            py,
        )),
        *final(filter) == *final(alone),
        final(panel).rot == old(panel).rot,
        final(panel).sent_hash == old(panel).sent_hash,
{
    assert(final(panel).rot.on_canvas(px, py));
    assert(final(blank).rot.on_canvas(px, py));
}

/// A new screen has shown nothing: its first pass starts the animation, and the first
/// sample that comes is the level it shows.
pub proof fn law_new_screen_has_shown_nothing(
    state: UiState,
    clock: &mut CapyClock,
    ids: [u32; 2],
    salt: u32,
    now_ms: u64,
    frame: usize,
    filter: &mut BatteryFilter,
    raw: Option<u8>,
    level: Option<u8>,
)
    requires
        call_ensures(UiState::new, (), state),
        *old(clock) == state.capy,
        call_ensures(capy_frame, (clock, ids, salt, now_ms), frame),
        *old(filter) == state.battery,
        call_ensures(shown_battery, (filter, raw, now_ms), level),
    ensures
        frame < 9,
        final(clock).since == now_ms % 0x1_0000_0000,
        level == raw,
        raw is Some ==> final(filter).trend == 0,
{
}

} // verus!
