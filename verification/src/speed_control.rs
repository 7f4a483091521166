//! Speed tiers read from four cells of the base layer.
//!
//! The key bound to a cell is its tier. The cells are read on every keyboard event
//! and take effect when they change, so an edit of the keymap works from the next
//! key on, and a cell bound to some other key leaves the tier alone.

use vstd::prelude::*;

use crate::keymap;
use crate::keymap::{tier_of, KeyAction};
use crate::pointer_speed;
use crate::pointer_speed::{
    go_cursor, go_scroll, is_scrolling, set_cursor_tier, set_scroll_tier, DeviceSettings,
    PointerSettings, NUB_ID, PAD_ID, SCROLL_TIERS,
};
use crate::pointing::{PointingMode, PointingProcessorEvent};

verus! {

/// Copies the tier cells into the pointer settings.
#[derive(Debug, Clone, Copy)]
pub struct SpeedController {
    /// Tier last read from each cell, 0 before the first read.
    pub cells: [u8; 4],
}

/// The device that a cell belongs to: the first two are the trackpad's.
pub open spec fn cell_device(i: int) -> u8 {
    if i < 2 {
        PAD_ID
    } else {
        NUB_ID
    }
}

/// Whether a cell holds a wheel tier rather than a speed tier.
pub open spec fn cell_is_wheel(i: int) -> bool {
    i % 2 == 1
}

/// Whether a cell holds a tier, and not the one last read from it.
pub open spec fn changed(cells: Seq<u8>, actions: Seq<KeyAction>, i: int) -> bool {
    keymap::tier(actions[i]) is Some && keymap::tier(actions[i])->0 != cells[i]
}

/// What has been read from cell `i` after a look at it.
pub open spec fn cell_after(cells: Seq<u8>, actions: Seq<KeyAction>, i: int) -> u8 {
    if changed(cells, actions, i) {
        keymap::tier(actions[i])->0
    } else {
        cells[i]
    }
}

/// The settings of one device after a look at the first `n` cells, its own being
/// `i` and `i + 1`.
pub open spec fn device_after(
    d: DeviceSettings,
    cells: Seq<u8>,
    actions: Seq<KeyAction>,
    i: int,
    n: int,
) -> DeviceSettings {
    DeviceSettings {
        cursor: if i < n && changed(cells, actions, i) {
            keymap::tier(actions[i])->0
        } else {
            d.cursor
        },
        scroll: if i + 1 < n && changed(cells, actions, i + 1) {
            SCROLL_TIERS[keymap::tier(actions[i + 1])->0 - 1]
        } else {
            d.scroll
        },
        scrolling: d.scrolling,
    }
}

/// The settings after a look at the first `n` cells.
pub open spec fn settings_after(
    s: PointerSettings,
    cells: Seq<u8>,
    actions: Seq<KeyAction>,
    n: int,
) -> PointerSettings {
    PointerSettings {
        pad: device_after(s.pad, cells, actions, 0, n),
        nub: device_after(s.nub, cells, actions, 2, n),
    }
}

/// The event that cell `i` brings about: a changed speed is published to a device
/// that moves the cursor, a changed wheel divisor to one that scrolls.
pub open spec fn cell_event(
    s: PointerSettings,
    cells: Seq<u8>,
    actions: Seq<KeyAction>,
    i: int,
) -> Option<PointingProcessorEvent> {
    let id = cell_device(i);
    let after = settings_after(s, cells, actions, 4).of(id);
    if changed(cells, actions, i) && s.of(id).scrolling == cell_is_wheel(i) {
        Some(
            PointingProcessorEvent {
                device_id: id,
                mode: if cell_is_wheel(i) {
                    pointer_speed::scroll_mode_of(after)
                } else {
                    pointer_speed::cursor_mode_of(id, after)
                },
            },
        )
    } else {
        None
    }
}

impl SpeedController {
    pub fn new() -> (r: Self)
        ensures
            r.cells@ == seq![0u8, 0, 0, 0],
    {
        let r = SpeedController { cells: [0, 0, 0, 0] };
        assert(r.cells@ =~= seq![0u8, 0, 0, 0]);
        r
    }

    /// Takes the tiers over from the actions of the four cells. The events, one for
    /// each cell at most, are to be published in order. A new speed of a device that scrolls waits until it stops; a
    /// scroll in progress goes on.
    pub fn refresh_cells(
        &mut self,
        settings: &mut PointerSettings,
        actions: &[KeyAction; 4],
    ) -> (r: [Option<PointingProcessorEvent>; 4])
        ensures
            forall|i: int|
                0 <= i < 4 ==> #[trigger] final(self).cells@[i] == cell_after(
                    old(self).cells@,
                    actions@,
                    i,
                ),
            *final(settings) == settings_after(*old(settings), old(self).cells@, actions@, 4),
            forall|i: int|
                0 <= i < 4 ==> #[trigger] r@[i] == cell_event(
                    *old(settings),
                    old(self).cells@,
                    actions@,
                    i,
                ),
            old(settings).wf() ==> final(settings).wf(),
    {
        let mut out: [Option<PointingProcessorEvent>; 4] = [None, None, None, None];
        let ghost s0 = *settings;
        let ghost cells0 = self.cells@;
        assert(settings_after(s0, cells0, actions@, 0) == s0);
        for idx in 0..4usize
            invariant
                cells0.len() == 4,
                forall|i: int|
                    0 <= i < 4 ==> #[trigger] self.cells@[i] == if i < idx {
                        cell_after(cells0, actions@, i)
                    } else {
                        cells0[i]
                    },
                *settings == settings_after(s0, cells0, actions@, idx as int),
                forall|i: int|
                    0 <= i < 4 ==> #[trigger] out@[i] == if i < idx {
                        cell_event(s0, cells0, actions@, i)
                    } else {
                        None
                    },
                s0.wf() ==> settings.wf(),
        {
            match tier_of(actions[idx]) {
                Some(tier) => {
                    if self.cells[idx] != tier {
                        self.cells[idx] = tier;
                        let device_id: u8 = if idx < 2 {
                            PAD_ID
                        } else {
                            NUB_ID
                        };
                        if idx % 2 == 1 {
                            set_scroll_tier(settings, device_id, tier);
                            if is_scrolling(settings, device_id) {
                                out[idx] = Some(go_scroll(settings, device_id));
                            }
                        } else {
                            set_cursor_tier(settings, device_id, tier);
                            if !is_scrolling(settings, device_id) {
                                out[idx] = Some(go_cursor(settings, device_id));
                            }
                        }
                    }
                },
                None => {},
            }
        }
        out
    }

    /// Any keyboard event makes the cells be read anew.
    pub fn on_keyboard_event(
        &mut self,
        settings: &mut PointerSettings,
        actions: &[KeyAction; 4],
    ) -> (r: [Option<PointingProcessorEvent>; 4])
        ensures
            forall|i: int|
                0 <= i < 4 ==> #[trigger] final(self).cells@[i] == cell_after(
                    old(self).cells@,
                    actions@,
                    i,
                ),
            *final(settings) == settings_after(*old(settings), old(self).cells@, actions@, 4),
            forall|i: int|
                0 <= i < 4 ==> #[trigger] r@[i] == cell_event(
                    *old(settings),
                    old(self).cells@,
                    actions@,
                    i,
                ),
            old(settings).wf() ==> final(settings).wf(),
    {
        self.refresh_cells(settings, actions)
    }
}

/// The cells after a look at all four.
pub open spec fn cells_after(cells: Seq<u8>, actions: Seq<KeyAction>) -> Seq<u8> {
    Seq::new(4, |i: int| cell_after(cells, actions, i))
}

/// A cell that has been bound to another tier takes effect with the next look at it,
/// and on its own device and scale only.
pub proof fn law_changed_cell_takes_effect(
    s: PointerSettings,
    cells: Seq<u8>,
    actions: Seq<KeyAction>,
    i: int,
)
    requires
        0 <= i < 4,
        changed(cells, actions, i),
        forall|j: int| 0 <= j < 4 && j != i ==> !changed(cells, actions, j),
    ensures
        ({
            let id = cell_device(i);
            let tier = keymap::tier(actions[i])->0;
            settings_after(s, cells, actions, 4) == s.with(
                id,
                if cell_is_wheel(i) {
                    DeviceSettings { scroll: SCROLL_TIERS[tier - 1], ..s.of(id) }
                } else {
                    DeviceSettings { cursor: tier, ..s.of(id) }
                },
            )
        }),
{
    assert(i == 0 || !changed(cells, actions, 0));
    assert(i == 1 || !changed(cells, actions, 1));
    assert(i == 2 || !changed(cells, actions, 2));
    assert(i == 3 || !changed(cells, actions, 3));
}

/// Reading the same cells again changes nothing and publishes nothing.
pub proof fn law_refresh_is_idempotent(
    s: PointerSettings,
    cells: Seq<u8>,
    actions: Seq<KeyAction>,
)
    requires
        cells.len() == 4,
        actions.len() == 4,
    ensures
        cells_after(cells_after(cells, actions), actions) == cells_after(cells, actions),
        settings_after(
            settings_after(s, cells, actions, 4),
            cells_after(cells, actions),
            actions,
            4,
        ) == settings_after(s, cells, actions, 4),
        forall|i: int|
            0 <= i < 4 ==> #[trigger] cell_event(
                settings_after(s, cells, actions, 4),
                cells_after(cells, actions),
                actions,
                i,
            ) is None,
{
    let again = cells_after(cells, actions);
    assert forall|i: int| 0 <= i < 4 implies !changed(again, actions, i) by {
        assert(again[i] == cell_after(cells, actions, i));
    }
    assert(cells_after(again, actions) =~= again);
}

/// Cells bound to keys that are no tiers leave everything alone.
pub proof fn law_other_keys_leave_the_tiers_alone(
    s: PointerSettings,
    cells: Seq<u8>,
    actions: Seq<KeyAction>,
)
    requires
        cells.len() == 4,
        actions.len() == 4,
        forall|i: int| 0 <= i < 4 ==> keymap::tier(#[trigger] actions[i]) is None,
    ensures
        cells_after(cells, actions) == cells,
        settings_after(s, cells, actions, 4) == s,
        forall|i: int| 0 <= i < 4 ==> #[trigger] cell_event(s, cells, actions, i) is None,
{
    assert forall|i: int| 0 <= i < 4 implies !changed(cells, actions, i) by {
        assert(keymap::tier(actions[i]) is None);
    }
    assert(cells_after(cells, actions) =~= cells);
}

/// A look at the cells never starts or stops a scroll: who scrolls goes on
/// scrolling, and every event carries the mode that its device is in.
pub proof fn law_refresh_keeps_the_modes(
    s: PointerSettings,
    cells: Seq<u8>,
    actions: Seq<KeyAction>,
    i: int,
)
    requires
        0 <= i < 4,
    ensures
        settings_after(s, cells, actions, 4).pad.scrolling == s.pad.scrolling,
        settings_after(s, cells, actions, 4).nub.scrolling == s.nub.scrolling,
        cell_event(s, cells, actions, i) matches Some(e) ==> (e.mode is Scroll <==> s.of(
            e.device_id,
        ).scrolling),
{
}

/// With the default keymap the first look takes the presets: tier five for both
/// speeds, a wheel divisor of 30 for the trackpad and of 19 for the stick.
pub proof fn law_first_refresh_takes_the_default_tiers(s: PointerSettings, actions: Seq<KeyAction>)
    requires
        actions.len() == 4,
        forall|i: int|
            0 <= i < 4 ==> #[trigger] actions[i] == keymap::default_action(
                0,
                keymap::TIER_CELLS[i].0 as int,
                keymap::TIER_CELLS[i].1 as int,
            ),
    ensures
        ({
            let after = settings_after(s, seq![0u8, 0, 0, 0], actions, 4);
            &&& after.pad.cursor == 5
            &&& after.pad.scroll == 30
            &&& after.nub.cursor == 5
            &&& after.nub.scroll == 19
        }),
{
    keymap::law_tier_cells_hold_the_presets(0, 1);
    keymap::law_tier_cells_hold_the_presets(1, 1);
    keymap::law_tier_cells_hold_the_presets(2, 1);
    keymap::law_tier_cells_hold_the_presets(3, 1);
    assert(keymap::tier(actions[0]) == Some(5u8));
    assert(keymap::tier(actions[1]) == Some(3u8));
    assert(keymap::tier(actions[2]) == Some(5u8));
    assert(keymap::tier(actions[3]) == Some(5u8));
}

/// A change of scale never goes unheard: whenever a look at the cells changes the
/// scale that a device uses in the mode it is in, whatever was read from the cells
/// before, an event tells that device the mode of its new settings.
pub proof fn law_new_scales_are_published(
    c: &mut SpeedController,
    settings: &mut PointerSettings,
    actions: [KeyAction; 4],
    r: [Option<PointingProcessorEvent>; 4],
)
    requires
        call_ensures(SpeedController::refresh_cells, (c, settings, &actions), r),
    ensures
        !old(settings).pad.scrolling && final(settings).pad.cursor != old(settings).pad.cursor ==> {
            &&& r[0] is Some && r[0]->0.device_id == 0 && r[0]->0.mode is Sniper
            &&& (r[0]->0.mode->Sniper_0.multiplier, r[0]->0.mode->Sniper_0.divisor)
                == pointer_speed::SPEED_TIERS[final(settings).pad.cursor - 1]
        },
        !old(settings).nub.scrolling && final(settings).nub.cursor != old(settings).nub.cursor ==> {
            &&& r[2] is Some && r[2]->0.device_id == 1 && r[2]->0.mode is Sniper
            &&& (r[2]->0.mode->Sniper_0.multiplier, r[2]->0.mode->Sniper_0.divisor)
                == pointer_speed::NUB_SPEED_TIERS[final(settings).nub.cursor - 1]
        },
        old(settings).pad.scrolling && final(settings).pad.scroll != old(settings).pad.scroll ==> {
            &&& r[1] is Some && r[1]->0.device_id == 0 && r[1]->0.mode is Scroll
            &&& r[1]->0.mode->Scroll_0.divisor_x == final(settings).pad.scroll
            &&& r[1]->0.mode->Scroll_0.divisor_y == final(settings).pad.scroll
        },
        old(settings).nub.scrolling && final(settings).nub.scroll != old(settings).nub.scroll ==> {
            &&& r[3] is Some && r[3]->0.device_id == 1 && r[3]->0.mode is Scroll
            &&& r[3]->0.mode->Scroll_0.divisor_x == final(settings).nub.scroll
            &&& r[3]->0.mode->Scroll_0.divisor_y == final(settings).nub.scroll
        },
{
    assert(r@[0] == r[0] && r@[1] == r[1] && r@[2] == r[2] && r@[3] == r[3]);
}

/// A cell whose key is another tier than the one last read from it sets the scale of
/// its own, from this look on; any other cell leaves its scale alone. The first two
/// cells are the trackpad's, the other two the stick's; the first of each pair is the
/// speed, the second the wheel. What was read is remembered, and nobody starts or
/// stops scrolling.
pub proof fn law_rebound_cells_set_their_scales(
    c: &mut SpeedController,
    settings: &mut PointerSettings,
    actions: [KeyAction; 4],
    tiers: [Option<u8>; 4],
    r: [Option<PointingProcessorEvent>; 4],
)
    requires
        call_ensures(SpeedController::refresh_cells, (c, settings, &actions), r),
        call_ensures(tier_of, (actions[0],), tiers[0]),
        call_ensures(tier_of, (actions[1],), tiers[1]),
        call_ensures(tier_of, (actions[2],), tiers[2]),
        call_ensures(tier_of, (actions[3],), tiers[3]),
    ensures
        final(settings).pad.cursor == if tiers[0] is Some && tiers[0]->0 != old(c).cells[0] {
            tiers[0]->0
        } else {
            old(settings).pad.cursor
        },
        final(settings).pad.scroll == if tiers[1] is Some && tiers[1]->0 != old(c).cells[1] {
            SCROLL_TIERS[tiers[1]->0 - 1]
        } else {
            old(settings).pad.scroll
        },
        final(settings).nub.cursor == if tiers[2] is Some && tiers[2]->0 != old(c).cells[2] {
            tiers[2]->0
        } else {
            old(settings).nub.cursor
        },
        final(settings).nub.scroll == if tiers[3] is Some && tiers[3]->0 != old(c).cells[3] {
            SCROLL_TIERS[tiers[3]->0 - 1]
        } else {
            old(settings).nub.scroll
        },
        final(settings).pad.scrolling == old(settings).pad.scrolling,
        final(settings).nub.scrolling == old(settings).nub.scrolling,
        forall|i: int|
            0 <= i < 4 ==> #[trigger] final(c).cells[i] == if tiers[i] is Some {
                tiers[i]->0
            } else {
                old(c).cells[i]
            },
{
    assert forall|i: int| 0 <= i < 4 implies #[trigger] final(c).cells[i] == if tiers[i] is Some {
        tiers[i]->0
    } else {
        old(c).cells[i]
    } by {
        assert(final(c).cells@[i] == final(c).cells[i]);
        assert(i == 0 || i == 1 || i == 2 || i == 3);
    }
}

/// An event comes exactly from a cell that was bound to another tier, a speed while
/// its device moves the cursor and a wheel tier while it scrolls. It is addressed to
/// the cell's own device and carries the whole mode of that device's new settings.
pub proof fn law_events_come_from_rebound_cells(
    c: &mut SpeedController,
    settings: &mut PointerSettings,
    actions: [KeyAction; 4],
    tiers: [Option<u8>; 4],
    r: [Option<PointingProcessorEvent>; 4],
    modes: [PointingMode; 4],
)
    requires
        call_ensures(SpeedController::refresh_cells, (c, settings, &actions), r),
        call_ensures(tier_of, (actions[0],), tiers[0]),
        call_ensures(tier_of, (actions[1],), tiers[1]),
        call_ensures(tier_of, (actions[2],), tiers[2]),
        call_ensures(tier_of, (actions[3],), tiers[3]),
        call_ensures(pointer_speed::cursor_mode, (&*final(settings), 0u8), modes[0]),
        call_ensures(pointer_speed::scroll_mode, (&*final(settings), 0u8), modes[1]),
        call_ensures(pointer_speed::cursor_mode, (&*final(settings), 1u8), modes[2]),
        call_ensures(pointer_speed::scroll_mode, (&*final(settings), 1u8), modes[3]),
    ensures
        r[0] is Some <==> tiers[0] is Some && tiers[0]->0 != old(c).cells[0] && !old(
            settings).pad.scrolling,
        r[1] is Some <==> tiers[1] is Some && tiers[1]->0 != old(c).cells[1] && old(
            settings).pad.scrolling,
        r[2] is Some <==> tiers[2] is Some && tiers[2]->0 != old(c).cells[2] && !old(
            settings).nub.scrolling,
        r[3] is Some <==> tiers[3] is Some && tiers[3]->0 != old(c).cells[3] && old(
            settings).nub.scrolling,
        r[0] is Some ==> r[0]->0.device_id == 0 && r[0]->0.mode == modes[0],
        r[1] is Some ==> r[1]->0.device_id == 0 && r[1]->0.mode == modes[1],
        r[2] is Some ==> r[2]->0.device_id == 1 && r[2]->0.mode == modes[2],
        r[3] is Some ==> r[3]->0.device_id == 1 && r[3]->0.mode == modes[3],
{
    assert(r@[0] == r[0] && r@[1] == r[1] && r@[2] == r[2] && r@[3] == r[3]);
}

/// Every keyboard event is a look at the cells: it does all that a look does, and
/// nothing else.
pub proof fn law_every_key_is_a_look(
    c: (&mut SpeedController, &mut SpeedController),
    settings: (&mut PointerSettings, &mut PointerSettings),
    actions: [KeyAction; 4],
    r1: [Option<PointingProcessorEvent>; 4],
    r2: [Option<PointingProcessorEvent>; 4],
)
    requires
        call_ensures(SpeedController::on_keyboard_event, (c.0, settings.0, &actions), r1),
        call_ensures(SpeedController::refresh_cells, (c.1, settings.1, &actions), r2),
        c.0.cells@ == c.1.cells@,
        *settings.0 == *settings.1,
    ensures
        *final(settings.0) == *final(settings.1),
        final(c.0).cells@ == final(c.1).cells@,
        r1@ == r2@,
{
    assert(final(c.0).cells@ =~= final(c.1).cells@);
    assert(r1@ =~= r2@);
}

/// A new controller has read nothing, so its first look takes every tier.
pub proof fn law_first_look_takes_every_tier(c: SpeedController, action: KeyAction, t: Option<u8>)
    requires
        call_ensures(SpeedController::new, (), c),
        call_ensures(tier_of, (action,), t),
    ensures
        forall|i: int| 0 <= i < 4 ==> t != Some(#[trigger] c.cells[i]),
{
    assert forall|i: int| 0 <= i < 4 implies t != Some(#[trigger] c.cells[i]) by {
        assert(c.cells[i] == c.cells@[i]);
    }
}

} // verus!
