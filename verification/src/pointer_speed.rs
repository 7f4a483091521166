//! Pointer settings that can change at run time, shared by the scroll keys and the
//! tier cells.
//!
//! A mode event carries the whole mode, so changing a scale and switching between
//! cursor and wheel are the same operation. Whether a device is scrolling is
//! therefore kept beside its scales: whoever republishes a mode reads it first.

use vstd::prelude::*;

use crate::pointing::{PointingMode, PointingProcessorEvent, ScrollConfig, SniperConfig};

verus! {

/// Device id of the trackpad.
pub const PAD_ID: u8 = 0;

/// Device id of the pointing stick.
pub const NUB_ID: u8 = 1;

/// Trackpad tier at boot.
pub const PAD_CURSOR0: u8 = 2;

/// Pointing stick tier at boot.
pub const NUB_CURSOR0: u8 = 3;

/// Trackpad speeds as (multiplier, divisor); the index is the tier minus one.
pub const SPEED_TIERS: [(u8, u8); 8] = [
    (1, 4),
    (1, 3),
    (4, 9),
    (3, 5),
    (4, 5),
    (11, 10),
    (3, 2),
    (2, 1),
];

/// Pointing stick speeds as (multiplier, divisor). A thumb presses directly, so
/// this curve lies below that of the trackpad.
pub const NUB_SPEED_TIERS: [(u8, u8); 8] = [
    (1, 5),
    (3, 10),
    (2, 5),
    (1, 2),
    (3, 5),
    (7, 10),
    (4, 5),
    (1, 1),
];

/// Wheel divisor of the pointing stick at boot.
pub const NUB_SCROLL0: u8 = 17;

/// Wheel divisor of the trackpad at boot.
pub const PAD_SCROLL0: u8 = 34;

/// Wheel divisors; the index is the tier minus one, larger scrolls slower.
pub const SCROLL_TIERS: [u8; 8] = [120, 55, 30, 24, 19, 15, 12, 9];

/// Settings of one pointer.
#[derive(Debug, Clone, Copy, PartialEq, Eq, Structural)]
pub struct DeviceSettings {
    /// Speed tier, 1 to 8.
    pub cursor: u8,
    /// Wheel divisor.
    pub scroll: u8,
    /// The pointer drives the wheel.
    pub scrolling: bool,
}

/// Settings of both pointers.
#[derive(Debug, Clone, Copy, PartialEq, Eq, Structural)]
pub struct PointerSettings {
    pub pad: DeviceSettings,
    pub nub: DeviceSettings,
}

impl DeviceSettings {
    /// The tier is in the tables, and the divisor divides.
    pub open spec fn wf(self) -> bool {
        1 <= self.cursor <= 8 && self.scroll != 0
    }
}

impl PointerSettings {
    /// Both pointers hold usable values.
    pub open spec fn wf(self) -> bool {
        self.pad.wf() && self.nub.wf()
    }

    /// The settings of a device. Every id but that of the trackpad is the stick's.
    pub open spec fn of(self, device_id: u8) -> DeviceSettings {
        if device_id == PAD_ID {
            self.pad
        } else {
            self.nub
        }
    }

    /// These settings with those of one device replaced.
    pub open spec fn with(self, device_id: u8, d: DeviceSettings) -> PointerSettings {
        if device_id == PAD_ID {
            PointerSettings { pad: d, ..self }
        } else {
            PointerSettings { nub: d, ..self }
        }
    }

    /// The settings at boot.
    pub fn new() -> (r: Self)
        ensures
            r.pad == (DeviceSettings {
                cursor: PAD_CURSOR0,
                scroll: PAD_SCROLL0,
                scrolling: false,
            }),
            r.nub == (DeviceSettings {
                cursor: NUB_CURSOR0,
                scroll: NUB_SCROLL0,
                scrolling: false,
            }),
            r.wf(),
    {
        PointerSettings {
            pad: DeviceSettings { cursor: PAD_CURSOR0, scroll: PAD_SCROLL0, scrolling: false },
            nub: DeviceSettings { cursor: NUB_CURSOR0, scroll: NUB_SCROLL0, scrolling: false },
        }
    }
}

fn cursor_slot(settings: &mut PointerSettings, device_id: u8) -> (r: &mut u8)
    ensures
        *r == old(settings).of(device_id).cursor,
        *final(settings) == old(settings).with(
            device_id,
            (DeviceSettings { cursor: *final(r), ..old(settings).of(device_id) }),
        ),
{
    if device_id == PAD_ID {
        &mut settings.pad.cursor
    } else {
        &mut settings.nub.cursor
    }
}

fn scroll_slot(settings: &mut PointerSettings, device_id: u8) -> (r: &mut u8)
    ensures
        *r == old(settings).of(device_id).scroll,
        *final(settings) == old(settings).with(
            device_id,
            (DeviceSettings { scroll: *final(r), ..old(settings).of(device_id) }),
        ),
{
    if device_id == PAD_ID {
        &mut settings.pad.scroll
    } else {
        &mut settings.nub.scroll
    }
}

fn scrolling_slot(settings: &mut PointerSettings, device_id: u8) -> (r: &mut bool)
    ensures
        *r == old(settings).of(device_id).scrolling,
        *final(settings) == old(settings).with(
            device_id,
            (DeviceSettings { scrolling: *final(r), ..old(settings).of(device_id) }),
        ),
{
    if device_id == PAD_ID {
        &mut settings.pad.scrolling
    } else {
        &mut settings.nub.scrolling
    }
}

/// Speed tier of a device.
pub fn cursor_mult(settings: &PointerSettings, device_id: u8) -> (r: u8)
    ensures
        r == settings.of(device_id).cursor,
{
    if device_id == PAD_ID {
        settings.pad.cursor
    } else {
        settings.nub.cursor
    }
}

/// Wheel divisor of a device.
pub fn scroll_div(settings: &PointerSettings, device_id: u8) -> (r: u8)
    ensures
        r == settings.of(device_id).scroll,
{
    if device_id == PAD_ID {
        settings.pad.scroll
    } else {
        settings.nub.scroll
    }
}

/// Whether a device drives the wheel.
pub fn is_scrolling(settings: &PointerSettings, device_id: u8) -> (r: bool)
    ensures
        r == settings.of(device_id).scrolling,
{
    if device_id == PAD_ID {
        settings.pad.scrolling
    } else {
        settings.nub.scrolling
    }
}

/// Records whether a device drives the wheel.
pub fn set_scrolling(settings: &mut PointerSettings, device_id: u8, on: bool)
    ensures
        *final(settings) == old(settings).with(
            device_id,
            (DeviceSettings { scrolling: on, ..old(settings).of(device_id) }),
        ),
        old(settings).wf() ==> final(settings).wf(),
{
    *scrolling_slot(settings, device_id) = on;
}

/// Sets a device's speed tier. `false` means that the tier is not in 1 to 8, and
/// nothing has changed.
pub fn set_cursor_tier(settings: &mut PointerSettings, device_id: u8, tier: u8) -> (r: bool)
    ensures
        r == (1 <= tier <= 8),
        *final(settings) == if r {
            old(settings).with(
                device_id,
                DeviceSettings { cursor: tier, ..old(settings).of(device_id) },
            )
        } else {
            *old(settings)
        },
        old(settings).wf() ==> final(settings).wf(),
{
    if !(1 <= tier && tier <= 8) {
        return false;
    }
    *cursor_slot(settings, device_id) = tier;
    true
}

/// Sets a device's wheel divisor from a tier. `false` means that the tier is not
/// in 1 to 8, and nothing has changed.
pub fn set_scroll_tier(settings: &mut PointerSettings, device_id: u8, tier: u8) -> (r: bool)
    ensures
        r == (1 <= tier <= 8),
        *final(settings) == if r {
            old(settings).with(
                device_id,
                DeviceSettings {
                    scroll: SCROLL_TIERS[tier - 1],
                    ..old(settings).of(device_id)
                },
            )
        } else {
            *old(settings)
        },
        old(settings).wf() ==> final(settings).wf(),
{
    if !(1 <= tier && tier <= 8) {
        return false;
    }
    *scroll_slot(settings, device_id) = SCROLL_TIERS[(tier - 1) as usize];
    true
}

/// The speed of a tier as (multiplier, divisor). A tier that is not in the table
/// passes motion through.
pub open spec fn speed(device_id: u8, tier: u8) -> (u8, u8) {
    if tier == 0 || tier > 8 {
        (1, 1)
    } else if device_id == PAD_ID {
        SPEED_TIERS[tier - 1]
    } else {
        NUB_SPEED_TIERS[tier - 1]
    }
}

/// The mode of a device whose tier is `tier` and that moves the cursor.
pub open spec fn cursor_mode_of(device_id: u8, d: DeviceSettings) -> PointingMode {
    PointingMode::Sniper(
        SniperConfig {
            multiplier: speed(device_id, d.cursor).0,
            divisor: speed(device_id, d.cursor).1,
            invert_x: device_id == PAD_ID,
            invert_y: false,
        },
    )
}

/// The mode of a device that drives the wheel.
pub open spec fn scroll_mode_of(d: DeviceSettings) -> PointingMode {
    PointingMode::Scroll(
        ScrollConfig {
            multiplier_x: 1,
            divisor_x: d.scroll,
            multiplier_y: 1,
            divisor_y: d.scroll,
            invert_x: false,
            invert_y: false,
        },
    )
}

/// Cursor mode of a device, from its tier. The divisor gives speeds below one;
/// only the trackpad is mounted with its x axis reversed.
pub fn cursor_mode(settings: &PointerSettings, device_id: u8) -> (r: PointingMode)
    ensures
        r == cursor_mode_of(device_id, settings.of(device_id)),
{
    let tier: u8 = cursor_mult(settings, device_id);
    let (multiplier, divisor): (u8, u8) = if tier == 0 || tier > 8 {
        (1, 1)
    } else if device_id == PAD_ID {
        SPEED_TIERS[(tier - 1) as usize]
    } else {
        NUB_SPEED_TIERS[(tier - 1) as usize]
    };
    PointingMode::Sniper(
        SniperConfig { multiplier, divisor, invert_x: device_id == PAD_ID, invert_y: false },
    )
}

/// Scroll mode of a device, from its divisor.
pub fn scroll_mode(settings: &PointerSettings, device_id: u8) -> (r: PointingMode)
    ensures
        r == scroll_mode_of(settings.of(device_id)),
{
    PointingMode::Scroll(
        ScrollConfig {
            multiplier_x: 1,
            divisor_x: scroll_div(settings, device_id),
            multiplier_y: 1,
            divisor_y: scroll_div(settings, device_id),
            invert_x: false,
            invert_y: false,
        },
    )
}

/// Puts a device into cursor mode; the event is to be published.
pub fn go_cursor(settings: &mut PointerSettings, device_id: u8) -> (r: PointingProcessorEvent)
    ensures
        *final(settings) == old(settings).with(
            device_id,
            (DeviceSettings { scrolling: false, ..old(settings).of(device_id) }),
        ),
        old(settings).wf() ==> final(settings).wf(),
        r.device_id == device_id,
        r.mode == cursor_mode_of(device_id, old(settings).of(device_id)),
{
    set_scrolling(settings, device_id, false);
    PointingProcessorEvent { device_id, mode: cursor_mode(settings, device_id) }
}

/// Puts a device into scroll mode; the event is to be published.
pub fn go_scroll(settings: &mut PointerSettings, device_id: u8) -> (r: PointingProcessorEvent)
    ensures
        *final(settings) == old(settings).with(
            device_id,
            (DeviceSettings { scrolling: true, ..old(settings).of(device_id) }),
        ),
        old(settings).wf() ==> final(settings).wf(),
        r.device_id == device_id,
        r.mode == scroll_mode_of(old(settings).of(device_id)),
{
    set_scrolling(settings, device_id, true);
    PointingProcessorEvent { device_id, mode: scroll_mode(settings, device_id) }
}

/// A mode divides by something: no event built from usable settings, nor from any
/// tier whatever, has a divisor of zero.
pub proof fn law_divisors_are_not_zero(device_id: u8, d: DeviceSettings)
    ensures
        speed(device_id, d.cursor).1 != 0,
        d.wf() ==> scroll_mode_of(d)->Scroll_0.divisor_x != 0 && scroll_mode_of(
            d,
        )->Scroll_0.divisor_y != 0,
{
}

/// A change of one device's settings leaves the other's alone.
pub proof fn law_devices_are_independent(
    settings: PointerSettings,
    changed: u8,
    d: DeviceSettings,
    other: u8,
)
    requires
        (changed == PAD_ID) != (other == PAD_ID),
    ensures
        settings.with(changed, d).of(other) == settings.of(other),
        settings.with(changed, d).of(changed) == d,
{
}

/// Speed of a tier in units of 1/180, which every entry of both tables is a
/// multiple of.
spec fn rate(device_id: u8, tier: u8) -> int {
    if device_id == PAD_ID {
        seq![45int, 60, 80, 108, 144, 198, 270, 360][tier - 1]
    } else {
        seq![36int, 54, 72, 90, 108, 126, 144, 180][tier - 1]
    }
}

proof fn lemma_rate(device_id: u8, tier: u8)
    requires
        1 <= tier <= 8,
    ensures
        180 * speed(device_id, tier).0 == rate(device_id, tier) * speed(device_id, tier).1,
        speed(device_id, tier).1 > 0,
{
    let (m, d) = speed(device_id, tier);
    let q = rate(device_id, tier);
    assert(180 * m == q * d) by (nonlinear_arith)
        requires
            (m == 1 && d == 4 && q == 45) || (m == 1 && d == 3 && q == 60) || (m == 4 && d == 9
                && q == 80) || (m == 3 && d == 5 && q == 108) || (m == 4 && d == 5 && q == 144)
                || (m == 11 && d == 10 && q == 198) || (m == 3 && d == 2 && q == 270) || (m == 2
                && d == 1 && q == 360) || (m == 1 && d == 5 && q == 36) || (m == 3 && d == 10
                && q == 54) || (m == 2 && d == 5 && q == 72) || (m == 1 && d == 2 && q == 90) || (m
                == 7 && d == 10 && q == 126) || (m == 1 && d == 1 && q == 180),
    ;
}

proof fn lemma_rates_order_fractions(m1: int, d1: int, q1: int, m2: int, d2: int, q2: int)
    requires
        180 * m1 == q1 * d1,
        180 * m2 == q2 * d2,
        d1 > 0,
        d2 > 0,
        q1 < q2,
    ensures
        m1 * d2 < m2 * d1,
{
    assert(m1 * d2 < m2 * d1) by (nonlinear_arith)
        requires
            180 * m1 == q1 * d1,
            180 * m2 == q2 * d2,
            d1 > 0,
            d2 > 0,
            q1 < q2,
    {
        assert(180 * (m1 * d2) == q1 * (d1 * d2));
        assert(180 * (m2 * d1) == q2 * (d1 * d2));
        assert(d1 * d2 > 0);
    }
}

/// A higher tier is faster, on both devices, and scrolls faster too.
pub proof fn law_tiers_ascend(device_id: u8, low: u8, high: u8)
    requires
        1 <= low < high <= 8,
    ensures
        speed(device_id, low).0 * speed(device_id, high).1 < speed(device_id, high).0 * speed(
            device_id,
            low,
        ).1,
        SCROLL_TIERS[low - 1] > SCROLL_TIERS[high - 1] > 0,
{
    let (m1, d1) = speed(device_id, low);
    let (m2, d2) = speed(device_id, high);
    lemma_rate(device_id, low);
    lemma_rate(device_id, high);
    lemma_rates_order_fractions(
        m1 as int,
        d1 as int,
        rate(device_id, low),
        m2 as int,
        d2 as int,
        rate(device_id, high),
    );
}

/// At the same tier the pointing stick is slower than the trackpad.
pub proof fn law_nub_curve_lies_below_the_pad_curve(tier: u8)
    requires
        1 <= tier <= 8,
    ensures
        speed(NUB_ID, tier).0 * speed(PAD_ID, tier).1 < speed(PAD_ID, tier).0 * speed(
            NUB_ID,
            tier,
        ).1,
{
    let (m1, d1) = speed(NUB_ID, tier);
    let (m2, d2) = speed(PAD_ID, tier);
    lemma_rate(NUB_ID, tier);
    lemma_rate(PAD_ID, tier);
    lemma_rates_order_fractions(
        m1 as int,
        d1 as int,
        rate(NUB_ID, tier),
        m2 as int,
        d2 as int,
        rate(PAD_ID, tier),
    );
}

/// The cursor mode of a device is that of its own tier: the tier's entry in its own
/// table, no scaling for a tier that is in no table, x reversed on the trackpad
/// alone. Nothing else of the settings matters.
pub proof fn law_cursor_mode_is_that_of_the_own_tier(
    settings: PointerSettings,
    device_id: u8,
    r: PointingMode,
)
    requires
        call_ensures(cursor_mode, (&settings, device_id), r),
    ensures
        r is Sniper,
        ({
            let c = r->Sniper_0;
            let tier = if device_id == 0 {
                settings.pad.cursor
            } else {
                settings.nub.cursor
            };
            &&& device_id == 0 && 1 <= tier <= 8 ==> (c.multiplier, c.divisor) == SPEED_TIERS[tier
                - 1]
            &&& device_id != 0 && 1 <= tier <= 8 ==> (c.multiplier, c.divisor)
                == NUB_SPEED_TIERS[tier - 1]
            &&& !(1 <= tier <= 8) ==> c.multiplier == 1 && c.divisor == 1
            &&& c.invert_x <==> device_id == 0
            &&& !c.invert_y
        }),
{
}

/// The scroll mode of a device divides both axes by its own wheel divisor and does
/// nothing else to them.
pub proof fn law_scroll_mode_is_that_of_the_own_divisor(
    settings: PointerSettings,
    device_id: u8,
    r: PointingMode,
)
    requires
        call_ensures(scroll_mode, (&settings, device_id), r),
    ensures
        r is Scroll,
        ({
            let c = r->Scroll_0;
            &&& c.multiplier_x == 1 && c.multiplier_y == 1
            &&& c.divisor_x == c.divisor_y
            &&& device_id == 0 ==> c.divisor_x == settings.pad.scroll
            &&& device_id != 0 ==> c.divisor_x == settings.nub.scroll
            &&& !c.invert_x && !c.invert_y
        }),
{
}

/// Putting a device into a mode publishes that mode to this very device and records
/// it for this device: neither the scales nor the other device change.
pub proof fn law_going_into_a_mode(
    settings: (&mut PointerSettings, &mut PointerSettings),
    start: PointerSettings,
    device_id: u8,
    to_cursor: PointingProcessorEvent,
    to_scroll: PointingProcessorEvent,
    cursor: PointingMode,
    scroll: PointingMode,
)
    requires
        *settings.0 == start,
        *settings.1 == start,
        call_ensures(go_cursor, (settings.0, device_id), to_cursor),
        call_ensures(go_scroll, (settings.1, device_id), to_scroll),
        call_ensures(cursor_mode, (&start, device_id), cursor),
        call_ensures(scroll_mode, (&start, device_id), scroll),
    ensures
        to_cursor.device_id == device_id,
        to_cursor.mode == cursor,
        to_scroll.device_id == device_id,
        to_scroll.mode == scroll,
        device_id == 0 ==> *final(settings.0) == (PointerSettings {
            pad: DeviceSettings { scrolling: false, ..start.pad },
            nub: start.nub,
        }),
        device_id != 0 ==> *final(settings.0) == (PointerSettings {
            pad: start.pad,
            nub: DeviceSettings { scrolling: false, ..start.nub },
        }),
        device_id == 0 ==> *final(settings.1) == (PointerSettings {
            pad: DeviceSettings { scrolling: true, ..start.pad },
            nub: start.nub,
        }),
        device_id != 0 ==> *final(settings.1) == (PointerSettings {
            pad: start.pad,
            nub: DeviceSettings { scrolling: true, ..start.nub },
        }),
{
}

/// What is set for a device is what is read of it: a speed tier as it is, a wheel
/// tier as its divisor. A tier outside one to eight is refused and changes nothing.
pub proof fn law_tiers_that_are_set_can_be_read(
    settings: (&mut PointerSettings, &mut PointerSettings),
    start: PointerSettings,
    device_id: u8,
    tier: u8,
    took_cursor: bool,
    took_scroll: bool,
    cursor: u8,
    divisor: u8,
)
    requires
        *settings.0 == start,
        *settings.1 == start,
        call_ensures(set_cursor_tier, (settings.0, device_id, tier), took_cursor),
        call_ensures(set_scroll_tier, (settings.1, device_id, tier), took_scroll),
        call_ensures(cursor_mult, (&*final(settings.0), device_id), cursor),
        call_ensures(scroll_div, (&*final(settings.1), device_id), divisor),
    ensures
        took_cursor <==> 1 <= tier <= 8,
        took_scroll <==> 1 <= tier <= 8,
        took_cursor ==> cursor == tier,
        took_scroll ==> divisor == SCROLL_TIERS[tier - 1],
        !took_cursor ==> *final(settings.0) == start,
        !took_scroll ==> *final(settings.1) == start,
        device_id == 0 ==> *final(settings.0) == (PointerSettings {
            pad: DeviceSettings { cursor: final(settings.0).pad.cursor, ..start.pad },
            nub: start.nub,
        }),
        device_id != 0 ==> *final(settings.0) == (PointerSettings {
            pad: start.pad,
            nub: DeviceSettings { cursor: final(settings.0).nub.cursor, ..start.nub },
        }),
        device_id == 0 ==> *final(settings.1) == (PointerSettings {
            pad: DeviceSettings { scroll: final(settings.1).pad.scroll, ..start.pad },
            nub: start.nub,
        }),
        device_id != 0 ==> *final(settings.1) == (PointerSettings {
            pad: start.pad,
            nub: DeviceSettings { scroll: final(settings.1).nub.scroll, ..start.nub },
        }),
{
}

/// Each of the three settings of a device is read on its own: the trackpad's under
/// its id, the stick's under any other.
pub proof fn law_settings_are_read_per_device(
    settings: PointerSettings,
    device_id: u8,
    cursor: u8,
    divisor: u8,
    scrolling: bool,
)
    requires
        call_ensures(cursor_mult, (&settings, device_id), cursor),
        call_ensures(scroll_div, (&settings, device_id), divisor),
        call_ensures(is_scrolling, (&settings, device_id), scrolling),
    ensures
        device_id == 0 ==> settings.pad == (DeviceSettings { cursor, scroll: divisor, scrolling }),
        device_id != 0 ==> settings.nub == (DeviceSettings { cursor, scroll: divisor, scrolling }),
{
}

/// Recording the mode of one device leaves its scales and the other device alone.
pub proof fn law_recording_a_mode(settings: &mut PointerSettings, device_id: u8, on: bool)
    requires
        call_ensures(set_scrolling, (settings, device_id, on), ()),
    ensures
        device_id == 0 ==> *final(settings) == (PointerSettings {
            pad: DeviceSettings { scrolling: on, ..old(settings).pad },
            nub: old(settings).nub,
        }),
        device_id != 0 ==> *final(settings) == (PointerSettings {
            pad: old(settings).pad,
            nub: DeviceSettings { scrolling: on, ..old(settings).nub },
        }),
{
}

/// Both pointers start on the cursor, the trackpad at a third of its counts and the
/// stick at two fifths, and the wheel of the trackpad half as fast as the stick's.
pub proof fn law_boot_settings(settings: PointerSettings, pad: PointingMode, nub: PointingMode)
    requires
        call_ensures(PointerSettings::new, (), settings),
        call_ensures(cursor_mode, (&settings, 0u8), pad),
        call_ensures(cursor_mode, (&settings, 1u8), nub),
    ensures
        !settings.pad.scrolling && !settings.nub.scrolling,
        pad->Sniper_0.divisor == 3 * pad->Sniper_0.multiplier,
        2 * nub->Sniper_0.divisor == 5 * nub->Sniper_0.multiplier,
        settings.pad.scroll == 2 * settings.nub.scroll,
        settings.nub.scroll == 17,
{
}

/// What the tiers come to: the trackpad runs from a quarter of its counts to double,
/// the stick from a fifth to all of them.
pub proof fn law_speeds_of_the_tiers(
    settings: PointerSettings,
    pad: PointingMode,
    nub: PointingMode,
)
    requires
        call_ensures(cursor_mode, (&settings, 0u8), pad),
        call_ensures(cursor_mode, (&settings, 1u8), nub),
    ensures
        ({
            let (m, d) = (pad->Sniper_0.multiplier, pad->Sniper_0.divisor);
            let tier = settings.pad.cursor;
            &&& tier == 1 ==> 4 * m == d
            &&& tier == 2 ==> 3 * m == d
            &&& tier == 3 ==> 9 * m == 4 * d
            &&& tier == 4 ==> 5 * m == 3 * d
            &&& tier == 5 ==> 5 * m == 4 * d
            &&& tier == 6 ==> 10 * m == 11 * d
            &&& tier == 7 ==> 2 * m == 3 * d
            &&& tier == 8 ==> m == 2 * d
        }),
        ({
            let (m, d) = (nub->Sniper_0.multiplier, nub->Sniper_0.divisor);
            let tier = settings.nub.cursor;
            &&& tier == 1 ==> 5 * m == d
            &&& tier == 2 ==> 10 * m == 3 * d
            &&& tier == 3 ==> 5 * m == 2 * d
            &&& tier == 4 ==> 2 * m == d
            &&& tier == 5 ==> 5 * m == 3 * d
            &&& tier == 6 ==> 10 * m == 7 * d
            &&& tier == 7 ==> 5 * m == 4 * d
            &&& tier == 8 ==> m == d
        }),
        pad->Sniper_0.divisor > 0,
        nub->Sniper_0.divisor > 0,
{
}

/// The wheel divisors of the tiers.
pub proof fn law_wheel_divisors(
    settings: &mut PointerSettings,
    device_id: u8,
    tier: u8,
    r: bool,
    d: u8,
)
    requires
        call_ensures(set_scroll_tier, (settings, device_id, tier), r),
        call_ensures(scroll_div, (&*final(settings), device_id), d),
    ensures
        tier == 1 ==> d == 120,
        tier == 2 ==> d == 55,
        tier == 3 ==> d == 30,
        tier == 4 ==> d == 24,
        tier == 5 ==> d == 19,
        tier == 6 ==> d == 15,
        tier == 7 ==> d == 12,
        tier == 8 ==> d == 9,
{
}

} // verus!
