use keypoint::keymap::{
    alt, ctrl, get_default_encoder_map, get_default_keymap, k, shifted, tier_of, KeyAction, KeyCode,
    COL, NUM_ENCODER, NUM_LAYER, ROW, TIER_CELLS,
};
use keypoint::pointer_speed::{PointerSettings, NUB_ID, PAD_ID};
use keypoint::pointing::PointingMode;
use keypoint::scroll_key::{
    KeyboardEvent, KeyboardEventPos, ScrollKeyController, MOUSE_LAYER, NUB_SCROLL_KEY,
    PAD_SCROLL_KEY, TRACKPOINT_ID,
};
use keypoint::speed_control::SpeedController;

#[test]
fn the_map_has_its_shape() {
    let map = get_default_keymap();
    assert_eq!((map.len(), map[0].len(), map[0][0].len()), (NUM_LAYER, ROW, COL));
    let encoders = get_default_encoder_map();
    assert_eq!((encoders.len(), encoders[0].len()), (NUM_LAYER, NUM_ENCODER));
}

#[test]
fn base_layer_cells() {
    let base = get_default_keymap()[0];
    assert_eq!(base[0][0], k(KeyCode::Escape));
    assert_eq!(base[0][5], k(KeyCode::T));
    assert_eq!(base[3][3], KeyAction::LayerTap(2, KeyCode::Space));
    assert_eq!(base[3][4], KeyAction::LayerTap(1, KeyCode::Space));
    assert_eq!(base[3][5], KeyAction::Momentary(3));
    assert_eq!(base[5][6], k(KeyCode::MouseBtn1));
    assert_eq!(base[5][7], k(KeyCode::Calculator));
    assert_eq!((base[11][6], base[11][7]), (KeyAction::No, k(KeyCode::AudioMute)));
    assert_eq!(base[6][0], k(KeyCode::Y));
    assert_eq!(base[9][2], KeyAction::Momentary(2));
    assert_eq!(base[9][5], k(KeyCode::Right));
}

#[test]
fn other_layer_cells() {
    let map = get_default_keymap();
    assert_eq!(map[1][0][0], KeyAction::Transparent);
    assert_eq!(map[1][1][2], shifted(KeyCode::Quote));
    assert_eq!(map[1][3][1], ctrl(KeyCode::Home));
    assert_eq!(map[1][3][4], KeyAction::Toggle(1));
    assert_eq!(map[1][9][2], k(KeyCode::KpDot));
    assert_eq!(map[2][0][0], shifted(KeyCode::Grave));
    assert_eq!(map[2][2][5], alt(KeyCode::F4));
    assert_eq!((map[2][5][6], map[2][5][7]), (KeyAction::No, KeyAction::Transparent));
    assert_eq!(map[2][6][4], ctrl(KeyCode::P));
    assert_eq!(map[2][9][4], k(KeyCode::PageDown));
    assert_eq!(map[3][0][4], k(KeyCode::MouseWheelUp));
    assert_eq!(map[3][3][3], KeyAction::User(0));
    assert_eq!(map[3][3][4], KeyAction::User(1));
    assert_eq!(map[3][5][7], KeyAction::User(5));
    assert_eq!(map[3][6..10], map[1][6..10]);
}

#[test]
fn mouse_layer_has_both_buttons_on_both_hands() {
    let map = get_default_keymap();
    let mouse = map[MOUSE_LAYER as usize];
    assert_eq!((mouse[3][5], mouse[9][0]), (k(KeyCode::MouseBtn1), k(KeyCode::MouseBtn1)));
    assert_eq!((mouse[3][3], mouse[9][2]), (k(KeyCode::MouseBtn2), k(KeyCode::MouseBtn2)));
    assert_eq!(mouse[5][7], k(KeyCode::MouseBtn3));
    assert_eq!(mouse[5][6], k(KeyCode::MouseBtn1));
    assert_eq!(mouse[11], [KeyAction::No; 8]);
    for (row, col) in [PAD_SCROLL_KEY, NUB_SCROLL_KEY] {
        assert_eq!(mouse[row as usize][col as usize], KeyAction::No);
    }
    for row in [0, 1, 2, 6, 7, 8] {
        assert_eq!(mouse[row], map[0][row]);
    }
    assert!(mouse.iter().flatten().all(|a| *a != KeyAction::Transparent));
}

#[test]
fn no_key_leads_to_the_mouse_layer() {
    for action in get_default_keymap().iter().flatten().flatten() {
        match action {
            KeyAction::Momentary(n) | KeyAction::Toggle(n) | KeyAction::LayerTap(n, _) => {
                assert!(*n < MOUSE_LAYER);
            }
            _ => {}
        }
    }
}

#[test]
fn cells_without_switch_are_empty() {
    for (n, layer) in get_default_keymap().iter().enumerate() {
        assert!(layer[4].iter().all(|a| *a == KeyAction::No));
        assert!(layer[10].iter().all(|a| *a == KeyAction::No));
        for (row, cells) in layer.iter().enumerate() {
            if row != 5 {
                assert_eq!(cells[6], KeyAction::No);
                assert_eq!(cells[7] == KeyAction::No, (n, row) != (0, 11));
            }
        }
    }
}

#[test]
fn encoders_turn_pages_and_volume() {
    let map = get_default_encoder_map();
    assert_eq!(map[0][0].clockwise, k(KeyCode::PageUp));
    assert_eq!(map[0][0].counter_clockwise, k(KeyCode::PageDown));
    assert_eq!(map[0][1].clockwise, k(KeyCode::KbVolumeDown));
    assert_eq!(map[0][1].counter_clockwise, k(KeyCode::KbVolumeUp));
    for layer in &map[1..] {
        assert_eq!(*layer, map[0]);
    }
}

const TIERS: [KeyCode; 8] = [
    KeyCode::Kp1,
    KeyCode::Kp2,
    KeyCode::Kp3,
    KeyCode::Kp4,
    KeyCode::Kp5,
    KeyCode::Kp6,
    KeyCode::Kp7,
    KeyCode::Kp8,
];

#[test]
fn keypad_keys_are_tiers() {
    for (i, code) in TIERS.iter().enumerate() {
        assert_eq!(tier_of(k(*code)), Some(i as u8 + 1));
        assert_eq!(tier_of(shifted(*code)), None);
    }
    assert_eq!(tier_of(k(KeyCode::Kc5)), None);
    assert_eq!(tier_of(KeyAction::No), None);
    assert_eq!(tier_of(KeyAction::LayerTap(1, KeyCode::Kp5)), None);
    assert_eq!(tier_of(KeyAction::Other), None);
}

fn default_cells() -> [KeyAction; 4] {
    let base = get_default_keymap()[0];
    TIER_CELLS.map(|(row, col)| base[row as usize][col as usize])
}

#[test]
fn the_first_refresh_takes_the_presets() {
    assert_eq!(default_cells().map(tier_of), [Some(5), Some(3), Some(5), Some(5)]);
    let mut c = SpeedController::new();
    let mut s = PointerSettings::new();
    let events = c.on_keyboard_event(&mut s, &default_cells());
    assert_eq!((s.pad.cursor, s.pad.scroll, s.nub.cursor, s.nub.scroll), (5, 30, 5, 19));
    assert_eq!(c.cells, [5, 3, 5, 5]);
    assert_eq!((events[1], events[3]), (None, None));
    let (pad, nub) = (events[0].unwrap(), events[2].unwrap());
    assert_eq!((pad.device_id, nub.device_id), (PAD_ID, NUB_ID));
    match (pad.mode, nub.mode) {
        (PointingMode::Sniper(p), PointingMode::Sniper(n)) => {
            assert_eq!((p.multiplier, p.divisor, p.invert_x), (4, 5, true));
            assert_eq!((n.multiplier, n.divisor, n.invert_x), (3, 5, false));
        }
        _ => panic!("not on the cursor"),
    }
}

#[test]
fn refreshing_twice_changes_nothing() {
    let mut c = SpeedController::new();
    let mut s = PointerSettings::new();
    c.refresh_cells(&mut s, &default_cells());
    let before = s;
    assert_eq!(c.refresh_cells(&mut s, &default_cells()), [None; 4]);
    assert_eq!(s, before);
}

#[test]
fn other_keys_leave_the_tiers_alone() {
    let mut c = SpeedController::new();
    let mut s = PointerSettings::new();
    let keys = [k(KeyCode::A), KeyAction::No, k(KeyCode::Kc5), KeyAction::Transparent];
    assert_eq!(c.refresh_cells(&mut s, &keys), [None; 4]);
    assert_eq!(s, PointerSettings::new());
    assert_eq!(c.cells, [0; 4]);
}

#[test]
fn a_scroll_in_progress_goes_on() {
    let mut c = SpeedController::new();
    let mut s = PointerSettings::new();
    s.nub.scrolling = true;
    let cells = [k(KeyCode::Kp1), k(KeyCode::Kp2), k(KeyCode::Kp3), k(KeyCode::Kp4)];
    let events = c.refresh_cells(&mut s, &cells);
    assert!(s.nub.scrolling && !s.pad.scrolling);
    assert_eq!((s.pad.cursor, s.pad.scroll, s.nub.cursor, s.nub.scroll), (1, 55, 3, 24));
    assert_eq!((events[1], events[2]), (None, None));
    assert_eq!(events[0].unwrap().device_id, PAD_ID);
    assert_eq!(events[3].unwrap().device_id, NUB_ID);
    match events[3].unwrap().mode {
        PointingMode::Scroll(w) => assert_eq!((w.divisor_x, w.divisor_y), (24, 24)),
        _ => panic!("the scroll was ended"),
    }
}

#[test]
fn a_changed_cell_takes_effect_alone() {
    let mut c = SpeedController::new();
    let mut s = PointerSettings::new();
    c.refresh_cells(&mut s, &default_cells());
    for (i, want) in [(5u8, 9u8), (5, 9)].iter().enumerate() {
        let mut cells = default_cells();
        let wheel = i * 2 + 1;
        cells[wheel] = k(KeyCode::Kp8);
        let mut controller = c;
        let mut settings = s;
        assert_eq!(controller.refresh_cells(&mut settings, &cells), [None; 4]);
        let changed = if wheel == 1 { settings.pad } else { settings.nub };
        let other = if wheel == 1 { settings.nub } else { settings.pad };
        assert_eq!((changed.cursor, changed.scroll), *want);
        assert_eq!((other.cursor, other.scroll), (5, if wheel == 1 { 19 } else { 30 }));
        assert_eq!(controller.cells[wheel], 8);
    }
}

fn key(pos: (u8, u8), pressed: bool) -> KeyboardEvent {
    KeyboardEvent { pos: KeyboardEventPos::Key { row: pos.0, col: pos.1 }, pressed }
}

#[test]
fn scroll_keys_drive_their_pointer() {
    for (pos, id) in [(PAD_SCROLL_KEY, PAD_ID), (NUB_SCROLL_KEY, NUB_ID)] {
        let mut c = ScrollKeyController::new();
        let mut s = PointerSettings::new();
        let e = c.on_keyboard_event(&mut s, key(pos, true), MOUSE_LAYER).unwrap();
        assert_eq!(e.device_id, id);
        assert!(matches!(e.mode, PointingMode::Scroll(_)));
        assert_eq!((s.pad.scrolling, s.nub.scrolling), (id == PAD_ID, id == NUB_ID));
        let e = c.on_keyboard_event(&mut s, key(pos, false), 0).unwrap();
        assert_eq!(e.device_id, id);
        assert!(matches!(e.mode, PointingMode::Sniper(_)));
        assert_eq!(s, PointerSettings::new());
    }
    assert_eq!(TRACKPOINT_ID, NUB_ID);
    assert_eq!(TRACKPOINT_ID, keypoint::trackpoint::DEVICE_ID);
}

#[test]
fn a_scroll_runs_until_its_key_is_released() {
    let mut c = ScrollKeyController::new();
    let mut s = PointerSettings::new();
    c.on_keyboard_event(&mut s, key(NUB_SCROLL_KEY, true), MOUSE_LAYER);
    for event in [key((0, 0), true), key((0, 0), false), key(PAD_SCROLL_KEY, true), key(PAD_SCROLL_KEY, false)] {
        assert!(c.on_keyboard_event(&mut s, event, 0).is_none());
        assert!(s.nub.scrolling && !s.pad.scrolling);
    }
    assert!(c.on_keyboard_event(&mut s, key(NUB_SCROLL_KEY, false), 2).is_some());
    assert!(!s.nub.scrolling);
}

#[test]
fn scroll_keys_do_nothing_on_other_layers() {
    let mut c = ScrollKeyController::new();
    let mut s = PointerSettings::new();
    for layer in [0, 1, 2, 3, 5] {
        assert!(c.on_keyboard_event(&mut s, key(PAD_SCROLL_KEY, true), layer).is_none());
        assert!(c.on_keyboard_event(&mut s, key(PAD_SCROLL_KEY, false), layer).is_none());
    }
    assert_eq!(s, PointerSettings::new());
}

#[test]
fn other_keys_and_encoders_do_not_scroll() {
    let mut c = ScrollKeyController::new();
    let mut s = PointerSettings::new();
    assert!(c.on_keyboard_event(&mut s, key((4, 3), true), MOUSE_LAYER).is_none());
    let turn = KeyboardEvent { pos: KeyboardEventPos::RotaryEncoder { id: 0 }, pressed: true };
    assert!(c.on_keyboard_event(&mut s, turn, MOUSE_LAYER).is_none());
    assert_eq!(s, PointerSettings::new());
}
