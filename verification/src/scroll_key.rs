//! Scroll keys: while a thumb key is held, the pointer of that hand drives the wheel.
//!
//! The layer is checked when the key goes down and not again: wheel motion does not
//! keep the mouse layer up, so a scroll that started there runs until release.

use vstd::prelude::*;

use crate::keymap;
use crate::pointer_speed;
use crate::pointer_speed::{
    go_cursor, go_scroll, is_scrolling, DeviceSettings, PointerSettings, NUB_ID, PAD_ID,
};
use crate::pointing::PointingProcessorEvent;
use crate::trackpoint;

verus! {

/// Device id of the pointing stick.
pub const TRACKPOINT_ID: u8 = NUB_ID;

/// The only layer on which the scroll keys work.
pub const MOUSE_LAYER: u8 = 4;

/// Row and column of the left scroll key, which drives the trackpad.
pub const PAD_SCROLL_KEY: (u8, u8) = (3, 4);

/// Row and column of the right scroll key, which drives the pointing stick.
pub const NUB_SCROLL_KEY: (u8, u8) = (9, 1);

/// Where a keyboard event comes from.
#[derive(Debug, Clone, Copy, PartialEq, Eq, Structural)]
pub enum KeyboardEventPos {
    Key { row: u8, col: u8 },
    RotaryEncoder { id: u8 },
}

/// A key going down or up.
#[derive(Debug, Clone, Copy, PartialEq, Eq, Structural)]
pub struct KeyboardEvent {
    pub pos: KeyboardEventPos,
    pub pressed: bool,
}

impl KeyboardEvent {
    /// The pointer whose scroll key this event is about.
    pub open spec fn device(self) -> Option<u8> {
        match self.pos {
            KeyboardEventPos::Key { row, col } => if (row, col) == PAD_SCROLL_KEY {
                Some(PAD_ID)
            } else if (row, col) == NUB_SCROLL_KEY {
                Some(NUB_ID)
            } else {
                None
            },
            KeyboardEventPos::RotaryEncoder { .. } => None,
        }
    }

    /// Whether this event starts a scroll.
    pub open spec fn arms(self, active_layer: u8) -> bool {
        self.device() is Some && self.pressed && active_layer == MOUSE_LAYER
    }

    /// Whether this event ends a scroll.
    pub open spec fn disarms(self, s: PointerSettings) -> bool {
        self.device() is Some && !self.pressed && s.of(self.device()->0).scrolling
    }
}

/// The settings after a keyboard event.
pub open spec fn settings_after(
    s: PointerSettings,
    event: KeyboardEvent,
    active_layer: u8,
) -> PointerSettings {
    if event.arms(active_layer) || event.disarms(s) {
        let id = event.device()->0;
        s.with(id, DeviceSettings { scrolling: event.pressed, ..s.of(id) })
    } else {
        s
    }
}

/// The event that follows on a keyboard event.
pub open spec fn published(
    s: PointerSettings,
    event: KeyboardEvent,
    active_layer: u8,
) -> Option<PointingProcessorEvent> {
    let id = event.device()->0;
    if event.arms(active_layer) {
        Some(
            PointingProcessorEvent { device_id: id, mode: pointer_speed::scroll_mode_of(s.of(id)) },
        )
    } else if event.disarms(s) {
        Some(
            PointingProcessorEvent {
                device_id: id,
                mode: pointer_speed::cursor_mode_of(id, s.of(id)),
            },
        )
    } else {
        None
    }
}

/// Watches the two scroll keys.
#[derive(Debug, Clone, Copy)]
pub struct ScrollKeyController {}

impl ScrollKeyController {
    pub fn new() -> (r: Self)
        ensures
            r == (ScrollKeyController {  }),
    {
        ScrollKeyController {  }
    }

    /// Starts or ends a scroll; the event, if any, is to be published.
    pub fn on_keyboard_event(
        &mut self,
        settings: &mut PointerSettings,
        event: KeyboardEvent,
        active_layer: u8,
    ) -> (r: Option<PointingProcessorEvent>)
        ensures
            *final(settings) == settings_after(*old(settings), event, active_layer),
            r == published(*old(settings), event, active_layer),
            old(settings).wf() ==> final(settings).wf(),
    {
        let (row, col): (u8, u8) = match event.pos {
            KeyboardEventPos::Key { row, col } => (row, col),
            KeyboardEventPos::RotaryEncoder { .. } => {
                return None;
            },
        };
        let device_id: u8 = if row == PAD_SCROLL_KEY.0 && col == PAD_SCROLL_KEY.1 {
            PAD_ID
        } else if row == NUB_SCROLL_KEY.0 && col == NUB_SCROLL_KEY.1 {
            NUB_ID
        } else {
            return None;
        };
        if event.pressed {
            if active_layer == MOUSE_LAYER {
                return Some(go_scroll(settings, device_id));
            }
            None
        } else if is_scrolling(settings, device_id) {
            Some(go_cursor(settings, device_id))
        } else {
            None
        }
    }
}

/// Holding a scroll key on the mouse layer and letting go of it, on whatever layer,
/// leaves the settings as they were and the pointer on its cursor.
pub proof fn law_release_undoes_press(
    s: PointerSettings,
    press: KeyboardEvent,
    release: KeyboardEvent,
    layer: u8,
)
    requires
        press.arms(MOUSE_LAYER),
        release.pos == press.pos,
        !release.pressed,
        !s.of(press.device()->0).scrolling,
    ensures
        settings_after(settings_after(s, press, MOUSE_LAYER), release, layer) == s,
        published(settings_after(s, press, MOUSE_LAYER), release, layer) == Some(
            PointingProcessorEvent {
                device_id: press.device()->0,
                mode: pointer_speed::cursor_mode_of(press.device()->0, s.of(press.device()->0)),
            },
        ),
{
}

/// A scroll runs until its key is released: no other key, and no layer, ends it.
pub proof fn law_scroll_runs_until_release(
    s: PointerSettings,
    event: KeyboardEvent,
    layer: u8,
    id: u8,
)
    requires
        id == PAD_ID || id == NUB_ID,
        s.of(id).scrolling,
        event.pressed || event.device() != Some(id),
    ensures
        settings_after(s, event, layer).of(id).scrolling,
{
}

/// A tap on another layer changes nothing and publishes nothing.
pub proof fn law_other_layers_do_not_scroll(
    s: PointerSettings,
    press: KeyboardEvent,
    release: KeyboardEvent,
    layer1: u8,
    layer2: u8,
)
    requires
        press.pressed,
        !release.pressed,
        release.pos == press.pos,
        layer1 != MOUSE_LAYER,
        press.device() is Some ==> !s.of(press.device()->0).scrolling,
    ensures
        settings_after(s, press, layer1) == s,
        published(s, press, layer1) is None,
        settings_after(s, release, layer2) == s,
        published(s, release, layer2) is None,
{
}

/// A scroll key touches its own pointer only.
pub proof fn law_other_hand_is_undisturbed(
    s: PointerSettings,
    event: KeyboardEvent,
    layer: u8,
    other: u8,
)
    requires
        event.device() is Some,
        (event.device()->0 == PAD_ID) != (other == PAD_ID),
    ensures
        settings_after(s, event, layer).of(other) == s.of(other),
{
}

/// Keys that are no scroll keys, and encoders, have no effect.
pub proof fn law_other_keys_have_no_effect(s: PointerSettings, event: KeyboardEvent, layer: u8)
    requires
        event.device() is None,
    ensures
        settings_after(s, event, layer) == s,
        published(s, event, layer) is None,
{
}

/// The scroll keys type nothing on the mouse layer, in the default keymap.
pub proof fn law_scroll_keys_type_nothing()
    ensures
        keymap::default_action(
            MOUSE_LAYER as int,
            PAD_SCROLL_KEY.0 as int,
            PAD_SCROLL_KEY.1 as int,
        ) is No,
        keymap::default_action(
            MOUSE_LAYER as int,
            NUB_SCROLL_KEY.0 as int,
            NUB_SCROLL_KEY.1 as int,
        ) is No,
{
}

/// The stick reports under the id that its scroll key and its settings go by.
pub proof fn law_stick_ids_agree()
    ensures
        trackpoint::DEVICE_ID == TRACKPOINT_ID,
        TRACKPOINT_ID == NUB_ID,
        NUB_ID != PAD_ID,
{
}

/// A scroll key that goes down on the mouse layer turns the pointer of its own hand
/// to the wheel: the left key the trackpad, the right key the stick. The event is
/// addressed to that device and divides both axes by that device's own divisor.
pub proof fn law_press_scrolls_at_the_own_scale(
    c: &mut ScrollKeyController,
    settings: &mut PointerSettings,
    left: bool,
    r: Option<PointingProcessorEvent>,
)
    requires
        call_ensures(
            ScrollKeyController::on_keyboard_event,
            (
                c,
                settings,
                (KeyboardEvent {
                    pos: if left {
                        KeyboardEventPos::Key { row: 3, col: 4 }
                    } else {
                        KeyboardEventPos::Key { row: 9, col: 1 }
                    },
                    pressed: true,
                }),
                4u8,
            ),
            r,
        ),
    ensures
        r is Some,
        ({
            let scale = r->0.mode->Scroll_0;
            let own = if left {
                old(settings).pad.scroll
            } else {
                old(settings).nub.scroll
            };
            &&& r->0.device_id == if left {
                0
            } else {
                1int
            }
            &&& r->0.mode is Scroll
            &&& scale.divisor_x == own && scale.divisor_y == own
            &&& scale.multiplier_x == 1 && scale.multiplier_y == 1
            &&& !scale.invert_x && !scale.invert_y
        }),
        left ==> *final(settings) == (PointerSettings {
            pad: DeviceSettings { scrolling: true, ..old(settings).pad },
            nub: old(settings).nub,
        }),
        !left ==> *final(settings) == (PointerSettings {
            pad: old(settings).pad,
            nub: DeviceSettings { scrolling: true, ..old(settings).nub },
        }),
{
}

/// A scroll key that is let go while its pointer drives the wheel puts that pointer
/// back on the cursor, at the speed of its own tier, on whatever layer.
pub proof fn law_release_moves_at_the_own_speed(
    c: &mut ScrollKeyController,
    settings: &mut PointerSettings,
    left: bool,
    layer: u8,
    r: Option<PointingProcessorEvent>,
)
    requires
        call_ensures(
            ScrollKeyController::on_keyboard_event,
            (
                c,
                settings,
                (KeyboardEvent {
                    pos: if left {
                        KeyboardEventPos::Key { row: 3, col: 4 }
                    } else {
                        KeyboardEventPos::Key { row: 9, col: 1 }
                    },
                    pressed: false,
                }),
                layer,
            ),
            r,
        ),
    ensures
        r is Some <==> if left {
            old(settings).pad.scrolling
        } else {
            old(settings).nub.scrolling
        },
        r matches Some(e) ==> {
            let speed = e.mode->Sniper_0;
            let tier = if left {
                old(settings).pad.cursor
            } else {
                old(settings).nub.cursor
            };
            &&& e.device_id == if left {
                0
            } else {
                1int
            }
            &&& e.mode is Sniper
            &&& left && 1 <= tier <= 8 ==> (speed.multiplier, speed.divisor)
                == pointer_speed::SPEED_TIERS[tier - 1]
            &&& !left && 1 <= tier <= 8 ==> (speed.multiplier, speed.divisor)
                == pointer_speed::NUB_SPEED_TIERS[tier - 1]
            &&& !(1 <= tier <= 8) ==> speed.multiplier == 1 && speed.divisor == 1
            &&& speed.invert_x == left
            &&& !speed.invert_y
        },
        left ==> *final(settings) == (PointerSettings {
            pad: DeviceSettings { scrolling: false, ..old(settings).pad },
            nub: old(settings).nub,
        }),
        !left ==> *final(settings) == (PointerSettings {
            pad: old(settings).pad,
            nub: DeviceSettings { scrolling: false, ..old(settings).nub },
        }),
{
}

/// Nothing else has an effect: no other key, no encoder, and no scroll key that goes
/// down on another layer.
pub proof fn law_only_scroll_keys_on_the_mouse_layer_work(
    c: &mut ScrollKeyController,
    settings: &mut PointerSettings,
    event: KeyboardEvent,
    layer: u8,
    r: Option<PointingProcessorEvent>,
)
    requires
        call_ensures(
            ScrollKeyController::on_keyboard_event,
            (c, settings, event, layer),
            r,
        ),
        event.pos == (KeyboardEventPos::Key { row: 3, col: 4 }) || event.pos == (
        KeyboardEventPos::Key { row: 9, col: 1 }) ==> event.pressed && layer != 4,
    ensures
        r is None,
        *final(settings) == *old(settings),
{
}

/// The hands do not interfere: what a key event publishes depends on the settings of
/// the device that it is addressed to and on nothing of the other.
pub proof fn law_event_depends_on_its_own_device(
    c: (&mut ScrollKeyController, &mut ScrollKeyController),
    settings: (&mut PointerSettings, &mut PointerSettings),
    event: KeyboardEvent,
    layer: u8,
    r1: Option<PointingProcessorEvent>,
    r2: Option<PointingProcessorEvent>,
)
    requires
        call_ensures(
            ScrollKeyController::on_keyboard_event,
            (c.0, settings.0, event, layer),
            r1,
        ),
        call_ensures(
            ScrollKeyController::on_keyboard_event,
            (c.1, settings.1, event, layer),
            r2,
        ),
        event.pos == (KeyboardEventPos::Key { row: 3, col: 4 }) ==> settings.0.pad
            == settings.1.pad,
        event.pos == (KeyboardEventPos::Key { row: 9, col: 1 }) ==> settings.0.nub
            == settings.1.nub,
    ensures
        r1 == r2,
{
}

} // verus!
