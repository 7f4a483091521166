//! The default keymap: five layers of twelve rows by eight columns.
//!
//! The halves are stacked: rows 0 to 5 are the left hand, rows 6 to 11 the right.
//! Each hand has four rows of six keys; of the other cells only a few have a
//! switch, and four of them hold the speed tiers of the pointers.

use vstd::prelude::*;

verus! {

/// Columns of the matrix.
pub const COL: usize = 8;

/// Rows of the matrix, both hands.
pub const ROW: usize = 12;

/// Layers: base, raise, lower, function, mouse.
pub const NUM_LAYER: usize = 5;

/// Rotary encoders.
pub const NUM_ENCODER: usize = 2;

/// Keys that the keymap uses.
#[derive(Debug, Clone, Copy, PartialEq, Eq, Structural)]
pub enum KeyCode {
    A,
    B,
    C,
    D,
    E,
    F,
    G,
    H,
    I,
    J,
    K,
    L,
    M,
    N,
    O,
    P,
    Q,
    R,
    S,
    T,
    U,
    V,
    W,
    X,
    Y,
    Z,
    Kc0,
    Kc1,
    Kc2,
    Kc3,
    Kc4,
    Kc5,
    Kc6,
    Kc7,
    Kc8,
    Kc9,
    Kp1,
    Kp2,
    Kp3,
    Kp4,
    Kp5,
    Kp6,
    Kp7,
    Kp8,
    F1,
    F2,
    F3,
    F4,
    F5,
    F6,
    F7,
    F8,
    F9,
    F10,
    F11,
    F12,
    AudioMute,
    Backslash,
    Backspace,
    Calculator,
    CapsLock,
    Comma,
    Delete,
    Dot,
    Down,
    End,
    Enter,
    Equal,
    Escape,
    Grave,
    Home,
    KbVolumeDown,
    KbVolumeUp,
    KpAsterisk,
    KpDot,
    KpMinus,
    KpPlus,
    KpSlash,
    LAlt,
    LCtrl,
    LGui,
    LShift,
    Left,
    LeftBracket,
    Minus,
    MouseBtn1,
    MouseBtn2,
    MouseBtn3,
    MouseWheelDown,
    MouseWheelLeft,
    MouseWheelRight,
    MouseWheelUp,
    NumLock,
    PageDown,
    PageUp,
    Pause,
    PrintScreen,
    Quote,
    Right,
    RightBracket,
    Semicolon,
    Slash,
    Space,
    Tab,
    Up,
}

/// A modifier that is sent along with a key.
#[derive(Debug, Clone, Copy, PartialEq, Eq, Structural)]
pub enum Modifier {
    Ctrl,
    Shift,
    Alt,
}

/// What a key does.
#[derive(Debug, Clone, Copy, PartialEq, Eq, Structural)]
pub enum KeyAction {
    /// Nothing.
    No,
    /// What the layer below does.
    Transparent,
    /// Sends a key.
    Key(KeyCode),
    /// Sends a key with a modifier held.
    With(Modifier, KeyCode),
    /// Sends a key when tapped, activates a layer while held.
    LayerTap(u8, KeyCode),
    /// Activates a layer while held.
    Momentary(u8),
    /// Switches a layer on or off.
    Toggle(u8),
    /// A function of the firmware.
    User(u8),
    /// Anything else that a key can be bound to at run time.
    Other,
}

/// What the two directions of an encoder do.
#[derive(Debug, Clone, Copy, PartialEq, Eq, Structural)]
pub struct EncoderAction {
    pub clockwise: KeyAction,
    pub counter_clockwise: KeyAction,
}

/// Sends a key.
#[verifier::allow_in_spec]
pub fn k(code: KeyCode) -> KeyAction
    returns
        KeyAction::Key(code),
{
    KeyAction::Key(code)
}

/// Sends a key with Shift.
#[verifier::allow_in_spec]
pub fn shifted(code: KeyCode) -> KeyAction
    returns
        KeyAction::With(Modifier::Shift, code),
{
    KeyAction::With(Modifier::Shift, code)
}

/// Sends a key with Ctrl.
#[verifier::allow_in_spec]
pub fn ctrl(code: KeyCode) -> KeyAction
    returns
        KeyAction::With(Modifier::Ctrl, code),
{
    KeyAction::With(Modifier::Ctrl, code)
}

/// Sends a key with Alt.
#[verifier::allow_in_spec]
pub fn alt(code: KeyCode) -> KeyAction
    returns
        KeyAction::With(Modifier::Alt, code),
{
    KeyAction::With(Modifier::Alt, code)
}

/// The four rows of six keys of the left hand.
pub open spec fn left_hand(layer: int) -> Seq<Seq<KeyAction>> {
    if layer == 0 {
        seq![
            seq![
                k(KeyCode::Escape),
                k(KeyCode::Q),
                k(KeyCode::W),
                k(KeyCode::E),
                k(KeyCode::R),
                k(KeyCode::T),
            ],
            seq![
                k(KeyCode::Tab),
                k(KeyCode::A),
                k(KeyCode::S),
                k(KeyCode::D),
                k(KeyCode::F),
                k(KeyCode::G),
            ],
            seq![
                k(KeyCode::LShift),
                k(KeyCode::Z),
                k(KeyCode::X),
                k(KeyCode::C),
                k(KeyCode::V),
                k(KeyCode::B),
            ],
            seq![
                k(KeyCode::LCtrl),
                k(KeyCode::LGui),
                k(KeyCode::LAlt),
                KeyAction::LayerTap(2, KeyCode::Space),
                KeyAction::LayerTap(1, KeyCode::Space),
                KeyAction::Momentary(3),
            ],
        ]
    } else if layer == 1 {
        seq![
            seq![
                KeyAction::Transparent,
                k(KeyCode::Kc1),
                k(KeyCode::Kc2),
                k(KeyCode::Kc3),
                k(KeyCode::Kc4),
                k(KeyCode::Kc5),
            ],
            seq![
                KeyAction::Transparent,
                k(KeyCode::Quote),
                shifted(KeyCode::Quote),
                k(KeyCode::Minus),
                k(KeyCode::Equal),
                k(KeyCode::Enter),
            ],
            seq![
                KeyAction::Transparent,
                k(KeyCode::Home),
                k(KeyCode::End),
                shifted(KeyCode::Minus),
                shifted(KeyCode::Equal),
                k(KeyCode::Backslash),
            ],
            seq![
                KeyAction::Transparent,
                ctrl(KeyCode::Home),
                ctrl(KeyCode::End),
                k(KeyCode::Calculator),
                KeyAction::Toggle(1),
                KeyAction::Toggle(1),
            ],
        ]
    } else if layer == 2 {
        seq![
            seq![
                shifted(KeyCode::Grave),
                shifted(KeyCode::Kc1),
                shifted(KeyCode::Kc2),
                shifted(KeyCode::Kc3),
                shifted(KeyCode::Kc4),
                shifted(KeyCode::Kc5),
            ],
            seq![
                k(KeyCode::Grave),
                shifted(KeyCode::Kc6),
                shifted(KeyCode::Kc7),
                shifted(KeyCode::Kc8),
                shifted(KeyCode::Kc9),
                shifted(KeyCode::Kc0),
            ],
            seq![
                KeyAction::No,
                k(KeyCode::Home),
                k(KeyCode::End),
                ctrl(KeyCode::PageUp),
                ctrl(KeyCode::PageDown),
                alt(KeyCode::F4),
            ],
            seq![
                KeyAction::No,
                ctrl(KeyCode::Home),
                ctrl(KeyCode::End),
                KeyAction::No,
                KeyAction::No,
                KeyAction::No,
            ],
        ]
    } else {
        seq![
            seq![
                k(KeyCode::F1),
                k(KeyCode::F2),
                k(KeyCode::F3),
                ctrl(KeyCode::PageUp),
                k(KeyCode::MouseWheelUp),
                ctrl(KeyCode::PageDown),
            ],
            seq![
                k(KeyCode::F4),
                k(KeyCode::F5),
                k(KeyCode::F6),
                k(KeyCode::MouseWheelLeft),
                k(KeyCode::MouseWheelDown),
                k(KeyCode::MouseWheelRight),
            ],
            seq![
                k(KeyCode::F7),
                k(KeyCode::F8),
                k(KeyCode::F9),
                KeyAction::No,
                k(KeyCode::F2),
                k(KeyCode::F5),
            ],
            seq![
                k(KeyCode::F10),
                k(KeyCode::F11),
                k(KeyCode::F12),
                KeyAction::User(0),
                KeyAction::User(1),
                KeyAction::No,
            ],
        ]
    }
}

/// The four rows of six keys of the right hand. The function layer repeats the
/// number block of the raise layer.
pub open spec fn right_hand(layer: int) -> Seq<Seq<KeyAction>> {
    if layer == 0 {
        seq![
            seq![
                k(KeyCode::Y),
                k(KeyCode::U),
                k(KeyCode::I),
                k(KeyCode::O),
                k(KeyCode::P),
                k(KeyCode::Backspace),
            ],
            seq![
                k(KeyCode::H),
                k(KeyCode::J),
                k(KeyCode::K),
                k(KeyCode::L),
                k(KeyCode::Semicolon),
                k(KeyCode::Enter),
            ],
            seq![
                k(KeyCode::N),
                k(KeyCode::M),
                k(KeyCode::Comma),
                k(KeyCode::Dot),
                k(KeyCode::Up),
                k(KeyCode::Delete),
            ],
            seq![
                k(KeyCode::Slash),
                k(KeyCode::Space),
                KeyAction::Momentary(2),
                k(KeyCode::Left),
                k(KeyCode::Down),
                k(KeyCode::Right),
            ],
        ]
    } else if layer == 2 {
        seq![
            seq![
                k(KeyCode::NumLock),
                k(KeyCode::CapsLock),
                k(KeyCode::Pause),
                k(KeyCode::PrintScreen),
                ctrl(KeyCode::P),
                KeyAction::No,
            ],
            seq![
                KeyAction::No,
                k(KeyCode::LeftBracket),
                k(KeyCode::RightBracket),
                shifted(KeyCode::LeftBracket),
                shifted(KeyCode::RightBracket),
                KeyAction::No,
            ],
            seq![
                KeyAction::No,
                shifted(KeyCode::Kc9),
                shifted(KeyCode::Kc0),
                ctrl(KeyCode::PageUp),
                k(KeyCode::PageUp),
                ctrl(KeyCode::PageDown),
            ],
            seq![
                KeyAction::No,
                KeyAction::No,
                KeyAction::No,
                k(KeyCode::Home),
                k(KeyCode::PageDown),
                k(KeyCode::End),
            ],
        ]
    } else {
        seq![
            seq![
                k(KeyCode::Kc7),
                k(KeyCode::Kc8),
                k(KeyCode::Kc9),
                k(KeyCode::KpPlus),
                k(KeyCode::KpAsterisk),
                KeyAction::Transparent,
            ],
            seq![
                k(KeyCode::Kc4),
                k(KeyCode::Kc5),
                k(KeyCode::Kc6),
                k(KeyCode::KpMinus),
                k(KeyCode::KpSlash),
                KeyAction::Transparent,
            ],
            seq![
                k(KeyCode::Kc1),
                k(KeyCode::Kc2),
                k(KeyCode::Kc3),
                k(KeyCode::Comma),
                KeyAction::Transparent,
                KeyAction::Transparent,
            ],
            seq![
                k(KeyCode::Kc0),
                k(KeyCode::Kc0),
                k(KeyCode::KpDot),
                KeyAction::Transparent,
                KeyAction::Transparent,
                KeyAction::Transparent,
            ],
        ]
    }
}

/// The cells outside the two blocks of keys.
pub open spec fn outer_cell(layer: int, row: int, col: int) -> KeyAction {
    if layer == 0 && row == 5 && col == 1 {
        k(KeyCode::Kp3)
    } else if layer == 0 && (row == 5 || row == 11) && col < 2 {
        k(KeyCode::Kp5)
    } else if layer == 0 && row == 5 && col == 6 {
        k(KeyCode::MouseBtn1)
    } else if layer == 0 && row == 5 && col == 7 {
        k(KeyCode::Calculator)
    } else if layer == 0 && row == 11 && col == 7 {
        k(KeyCode::AudioMute)
    } else if layer == 2 && row == 5 && col == 7 {
        KeyAction::Transparent
    } else if layer == 3 && row == 5 && col == 7 {
        KeyAction::User(5)
    } else {
        KeyAction::No
    }
}

/// The mouse layer where it differs from the base layer: buttons under both
/// thumbs, nothing on the scroll keys, on the mute key and on the cells that hold
/// tiers.
pub open spec fn mouse_cell(row: int, col: int) -> Option<KeyAction> {
    if (row == 3 && col == 5) || (row == 9 && col == 0) {
        Some(k(KeyCode::MouseBtn1))
    } else if (row == 3 && col == 3) || (row == 9 && col == 2) {
        Some(k(KeyCode::MouseBtn2))
    } else if row == 5 && col == 7 {
        Some(k(KeyCode::MouseBtn3))
    } else if (row == 3 && col == 4) || (row == 9 && col == 1) {
        Some(KeyAction::No)
    } else if row == 11 && col == 7 {
        Some(KeyAction::No)
    } else if (row == 5 || row == 11) && col < 2 {
        Some(KeyAction::No)
    } else {
        None
    }
}

/// What the key at `(row, col)` does on `layer` by default, the mouse layer aside.
pub open spec fn typing_action(layer: int, row: int, col: int) -> KeyAction {
    if row < 4 && col < 6 {
        left_hand(layer)[row][col]
    } else if 6 <= row < 10 && col < 6 {
        right_hand(layer)[row - 6][col]
    } else {
        outer_cell(layer, row, col)
    }
}

/// What the key at `(row, col)` does on `layer` by default.
pub open spec fn default_action(layer: int, row: int, col: int) -> KeyAction {
    if layer < 4 {
        typing_action(layer, row, col)
    } else {
        match mouse_cell(row, col) {
            Some(action) => action,
            None => typing_action(0, row, col),
        }
    }
}

/// Whether `rows` is the default of a layer.
pub open spec fn is_default_layer(rows: [[KeyAction; 8]; 12], layer: int) -> bool {
    forall|row: int, col: int|
        0 <= row < 12 && 0 <= col < 8 ==> #[trigger] rows[row][col] == default_action(
            layer,
            row,
            col,
        )
}

/// The base layer.
fn base_layer() -> (r: [[KeyAction; 8]; 12])
    ensures
        is_default_layer(r, 0),
{
    let no = KeyAction::No;
    let r = [
        [
            k(KeyCode::Escape),
            k(KeyCode::Q),
            k(KeyCode::W),
            k(KeyCode::E),
            k(KeyCode::R),
            k(KeyCode::T),
            no,
            no,
        ],
        [
            k(KeyCode::Tab),
            k(KeyCode::A),
            k(KeyCode::S),
            k(KeyCode::D),
            k(KeyCode::F),
            k(KeyCode::G),
            no,
            no,
        ],
        [
            k(KeyCode::LShift),
            k(KeyCode::Z),
            k(KeyCode::X),
            k(KeyCode::C),
            k(KeyCode::V),
            k(KeyCode::B),
            no,
            no,
        ],
        [
            k(KeyCode::LCtrl),
            k(KeyCode::LGui),
            k(KeyCode::LAlt),
            KeyAction::LayerTap(2, KeyCode::Space),
            KeyAction::LayerTap(1, KeyCode::Space),
            KeyAction::Momentary(3),
            no,
            no,
        ],
        [no, no, no, no, no, no, no, no],
        [
            k(KeyCode::Kp5),
            k(KeyCode::Kp3),
            no,
            no,
            no,
            no,
            k(KeyCode::MouseBtn1),
            k(KeyCode::Calculator),
        ],
        [
            k(KeyCode::Y),
            k(KeyCode::U),
            k(KeyCode::I),
            k(KeyCode::O),
            k(KeyCode::P),
            k(KeyCode::Backspace),
            no,
            no,
        ],
        [
            k(KeyCode::H),
            k(KeyCode::J),
            k(KeyCode::K),
            k(KeyCode::L),
            k(KeyCode::Semicolon),
            k(KeyCode::Enter),
            no,
            no,
        ],
        [
            k(KeyCode::N),
            k(KeyCode::M),
            k(KeyCode::Comma),
            k(KeyCode::Dot),
            k(KeyCode::Up),
            k(KeyCode::Delete),
            no,
            no,
        ],
        [
            k(KeyCode::Slash),
            k(KeyCode::Space),
            KeyAction::Momentary(2),
            k(KeyCode::Left),
            k(KeyCode::Down),
            k(KeyCode::Right),
            no,
            no,
        ],
        [no, no, no, no, no, no, no, no],
        [k(KeyCode::Kp5), k(KeyCode::Kp5), no, no, no, no, no, k(KeyCode::AudioMute)],
    ];
    r
}

/// The raise layer.
fn raise_layer() -> (r: [[KeyAction; 8]; 12])
    ensures
        is_default_layer(r, 1),
{
    let no = KeyAction::No;
    let tr = KeyAction::Transparent;
    let r = [
        [
            tr,
            k(KeyCode::Kc1),
            k(KeyCode::Kc2),
            k(KeyCode::Kc3),
            k(KeyCode::Kc4),
            k(KeyCode::Kc5),
            no,
            no,
        ],
        [
            tr,
            k(KeyCode::Quote),
            shifted(KeyCode::Quote),
            k(KeyCode::Minus),
            k(KeyCode::Equal),
            k(KeyCode::Enter),
            no,
            no,
        ],
        [
            tr,
            k(KeyCode::Home),
            k(KeyCode::End),
            shifted(KeyCode::Minus),
            shifted(KeyCode::Equal),
            k(KeyCode::Backslash),
            no,
            no,
        ],
        [
            tr,
            ctrl(KeyCode::Home),
            ctrl(KeyCode::End),
            k(KeyCode::Calculator),
            KeyAction::Toggle(1),
            KeyAction::Toggle(1),
            no,
            no,
        ],
        [no, no, no, no, no, no, no, no],
        [no, no, no, no, no, no, no, no],
        [
            k(KeyCode::Kc7),
            k(KeyCode::Kc8),
            k(KeyCode::Kc9),
            k(KeyCode::KpPlus),
            k(KeyCode::KpAsterisk),
            tr,
            no,
            no,
        ],
        [
            k(KeyCode::Kc4),
            k(KeyCode::Kc5),
            k(KeyCode::Kc6),
            k(KeyCode::KpMinus),
            k(KeyCode::KpSlash),
            tr,
            no,
            no,
        ],
        [k(KeyCode::Kc1), k(KeyCode::Kc2), k(KeyCode::Kc3), k(KeyCode::Comma), tr, tr, no, no],
        [k(KeyCode::Kc0), k(KeyCode::Kc0), k(KeyCode::KpDot), tr, tr, tr, no, no],
        [no, no, no, no, no, no, no, no],
        [no, no, no, no, no, no, no, no],
    ];
    r
}

/// The lower layer.
fn lower_layer() -> (r: [[KeyAction; 8]; 12])
    ensures
        is_default_layer(r, 2),
{
    let no = KeyAction::No;
    let tr = KeyAction::Transparent;
    let r = [
        [
            shifted(KeyCode::Grave),
            shifted(KeyCode::Kc1),
            shifted(KeyCode::Kc2),
            shifted(KeyCode::Kc3),
            shifted(KeyCode::Kc4),
            shifted(KeyCode::Kc5),
            no,
            no,
        ],
        [
            k(KeyCode::Grave),
            shifted(KeyCode::Kc6),
            shifted(KeyCode::Kc7),
            shifted(KeyCode::Kc8),
            shifted(KeyCode::Kc9),
            shifted(KeyCode::Kc0),
            no,
            no,
        ],
        [
            no,
            k(KeyCode::Home),
            k(KeyCode::End),
            ctrl(KeyCode::PageUp),
            ctrl(KeyCode::PageDown),
            alt(KeyCode::F4),
            no,
            no,
        ],
        [no, ctrl(KeyCode::Home), ctrl(KeyCode::End), no, no, no, no, no],
        [no, no, no, no, no, no, no, no],
        [no, no, no, no, no, no, no, tr],
        [
            k(KeyCode::NumLock),
            k(KeyCode::CapsLock),
            k(KeyCode::Pause),
            k(KeyCode::PrintScreen),
            ctrl(KeyCode::P),
            no,
            no,
            no,
        ],
        [
            no,
            k(KeyCode::LeftBracket),
            k(KeyCode::RightBracket),
            shifted(KeyCode::LeftBracket),
            shifted(KeyCode::RightBracket),
            no,
            no,
            no,
        ],
        [
            no,
            shifted(KeyCode::Kc9),
            shifted(KeyCode::Kc0),
            ctrl(KeyCode::PageUp),
            k(KeyCode::PageUp),
            ctrl(KeyCode::PageDown),
            no,
            no,
        ],
        [no, no, no, k(KeyCode::Home), k(KeyCode::PageDown), k(KeyCode::End), no, no],
        [no, no, no, no, no, no, no, no],
        [no, no, no, no, no, no, no, no],
    ];
    r
}

/// The function layer.
fn function_layer() -> (r: [[KeyAction; 8]; 12])
    ensures
        is_default_layer(r, 3),
{
    let no = KeyAction::No;
    let tr = KeyAction::Transparent;
    let r = [
        [
            k(KeyCode::F1),
            k(KeyCode::F2),
            k(KeyCode::F3),
            ctrl(KeyCode::PageUp),
            k(KeyCode::MouseWheelUp),
            ctrl(KeyCode::PageDown),
            no,
            no,
        ],
        [
            k(KeyCode::F4),
            k(KeyCode::F5),
            k(KeyCode::F6),
            k(KeyCode::MouseWheelLeft),
            k(KeyCode::MouseWheelDown),
            k(KeyCode::MouseWheelRight),
            no,
            no,
        ],
        [
            k(KeyCode::F7),
            k(KeyCode::F8),
            k(KeyCode::F9),
            no,
            k(KeyCode::F2),
            k(KeyCode::F5),
            no,
            no,
        ],
        [
            k(KeyCode::F10),
            k(KeyCode::F11),
            k(KeyCode::F12),
            KeyAction::User(0),
            KeyAction::User(1),
            no,
            no,
            no,
        ],
        [no, no, no, no, no, no, no, no],
        [no, no, no, no, no, no, no, KeyAction::User(5)],
        [
            k(KeyCode::Kc7),
            k(KeyCode::Kc8),
            k(KeyCode::Kc9),
            k(KeyCode::KpPlus),
            k(KeyCode::KpAsterisk),
            tr,
            no,
            no,
        ],
        [
            k(KeyCode::Kc4),
            k(KeyCode::Kc5),
            k(KeyCode::Kc6),
            k(KeyCode::KpMinus),
            k(KeyCode::KpSlash),
            tr,
            no,
            no,
        ],
        [k(KeyCode::Kc1), k(KeyCode::Kc2), k(KeyCode::Kc3), k(KeyCode::Comma), tr, tr, no, no],
        [k(KeyCode::Kc0), k(KeyCode::Kc0), k(KeyCode::KpDot), tr, tr, tr, no, no],
        [no, no, no, no, no, no, no, no],
        [no, no, no, no, no, no, no, no],
    ];
    r
}

/// The mouse layer.
fn mouse_layer() -> (r: [[KeyAction; 8]; 12])
    ensures
        is_default_layer(r, 4),
{
    let no = KeyAction::No;
    let r = [
        [
            k(KeyCode::Escape),
            k(KeyCode::Q),
            k(KeyCode::W),
            k(KeyCode::E),
            k(KeyCode::R),
            k(KeyCode::T),
            no,
            no,
        ],
        [
            k(KeyCode::Tab),
            k(KeyCode::A),
            k(KeyCode::S),
            k(KeyCode::D),
            k(KeyCode::F),
            k(KeyCode::G),
            no,
            no,
        ],
        [
            k(KeyCode::LShift),
            k(KeyCode::Z),
            k(KeyCode::X),
            k(KeyCode::C),
            k(KeyCode::V),
            k(KeyCode::B),
            no,
            no,
        ],
        [
            k(KeyCode::LCtrl),
            k(KeyCode::LGui),
            k(KeyCode::LAlt),
            k(KeyCode::MouseBtn2),
            no,
            k(KeyCode::MouseBtn1),
            no,
            no,
        ],
        [no, no, no, no, no, no, no, no],
        [no, no, no, no, no, no, k(KeyCode::MouseBtn1), k(KeyCode::MouseBtn3)],
        [
            k(KeyCode::Y),
            k(KeyCode::U),
            k(KeyCode::I),
            k(KeyCode::O),
            k(KeyCode::P),
            k(KeyCode::Backspace),
            no,
            no,
        ],
        [
            k(KeyCode::H),
            k(KeyCode::J),
            k(KeyCode::K),
            k(KeyCode::L),
            k(KeyCode::Semicolon),
            k(KeyCode::Enter),
            no,
            no,
        ],
        [
            k(KeyCode::N),
            k(KeyCode::M),
            k(KeyCode::Comma),
            k(KeyCode::Dot),
            k(KeyCode::Up),
            k(KeyCode::Delete),
            no,
            no,
        ],
        [
            k(KeyCode::MouseBtn1),
            no,
            k(KeyCode::MouseBtn2),
            k(KeyCode::Left),
            k(KeyCode::Down),
            k(KeyCode::Right),
            no,
            no,
        ],
        [no, no, no, no, no, no, no, no],
        [no, no, no, no, no, no, no, no],
    ];
    r
}

/// The keymap at first boot.
pub fn get_default_keymap() -> (r: [[[KeyAction; 8]; 12]; 5])
    ensures
        forall|layer: int| 0 <= layer < 5 ==> is_default_layer(#[trigger] r[layer], layer),
{
    [base_layer(), raise_layer(), lower_layer(), function_layer(), mouse_layer()]
}

/// What an encoder does on a layer by default: the left one turns pages, the right
/// one sets the volume, whatever the layer.
pub open spec fn default_encoder(layer: int, encoder: int) -> EncoderAction {
    if encoder == 0 {
        EncoderAction {
            clockwise: k(KeyCode::PageUp),
            counter_clockwise: k(KeyCode::PageDown),
        }
    } else {
        EncoderAction {
            clockwise: k(KeyCode::KbVolumeDown),
            counter_clockwise: k(KeyCode::KbVolumeUp),
        }
    }
}

/// The encoder map at first boot.
pub fn get_default_encoder_map() -> (r: [[EncoderAction; 2]; 5])
    ensures
        forall|layer: int, encoder: int|
            0 <= layer < 5 && 0 <= encoder < 2 ==> #[trigger] r[layer][encoder] == default_encoder(
                layer,
                encoder,
            ),
{
    let pages = EncoderAction {
        clockwise: k(KeyCode::PageUp),
        counter_clockwise: k(KeyCode::PageDown),
    };
    let volume = EncoderAction {
        clockwise: k(KeyCode::KbVolumeDown),
        counter_clockwise: k(KeyCode::KbVolumeUp),
    };
    [[pages, volume], [pages, volume], [pages, volume], [pages, volume], [pages, volume]]
}

/// The four cells that hold tiers: left speed, left wheel, right speed, right
/// wheel. There is no switch behind them.
pub const TIER_CELLS: [(u8, u8); 4] = [(5, 0), (5, 1), (11, 0), (11, 1)];

/// The tier that a cell's action stands for: keypad keys 1 to 8 are tiers, nothing
/// else is.
pub open spec fn tier(action: KeyAction) -> Option<u8> {
    match action {
        KeyAction::Key(KeyCode::Kp1) => Some(1),
        KeyAction::Key(KeyCode::Kp2) => Some(2),
        KeyAction::Key(KeyCode::Kp3) => Some(3),
        KeyAction::Key(KeyCode::Kp4) => Some(4),
        KeyAction::Key(KeyCode::Kp5) => Some(5),
        KeyAction::Key(KeyCode::Kp6) => Some(6),
        KeyAction::Key(KeyCode::Kp7) => Some(7),
        KeyAction::Key(KeyCode::Kp8) => Some(8),
        _ => None,
    }
}

/// Reads a cell's action as a tier. `None` leaves the current tier in place.
pub fn tier_of(action: KeyAction) -> (r: Option<u8>)
    ensures
        r == tier(action),
        r matches Some(t) ==> 1 <= t <= 8,
{
    let tiers = [
        k(KeyCode::Kp1),
        k(KeyCode::Kp2),
        k(KeyCode::Kp3),
        k(KeyCode::Kp4),
        k(KeyCode::Kp5),
        k(KeyCode::Kp6),
        k(KeyCode::Kp7),
        k(KeyCode::Kp8),
    ];
    for i in 0..8usize
        invariant
            tiers@ == seq![
                k(KeyCode::Kp1),
                k(KeyCode::Kp2),
                k(KeyCode::Kp3),
                k(KeyCode::Kp4),
                k(KeyCode::Kp5),
                k(KeyCode::Kp6),
                k(KeyCode::Kp7),
                k(KeyCode::Kp8),
            ],
            forall|j: int| 0 <= j < i ==> #[trigger] tiers@[j] != action,
    {
        if tiers[i] == action {
            return Some(i as u8 + 1);
        }
    }
    assert(tiers@[0] != action && tiers@[1] != action && tiers@[2] != action && tiers@[3] != action
        && tiers@[4] != action && tiers@[5] != action && tiers@[6] != action && tiers@[7]
        != action);
    None
}

/// Whether `(row, col)` is on the matrix.
pub open spec fn on_matrix(row: int, col: int) -> bool {
    0 <= row < ROW && 0 <= col < COL
}

/// The tier that a cell holds at first boot: five, but three for the wheel of the
/// trackpad.
pub open spec fn preset(i: int) -> u8 {
    if i == 1 {
        3
    } else {
        5
    }
}

/// The four cells hold their presets, and none of them does anything on another
/// layer.
pub proof fn law_tier_cells_hold_the_presets(i: int, layer: int)
    requires
        0 <= i < 4,
        1 <= layer < 5,
    ensures
        tier(default_action(0, TIER_CELLS[i].0 as int, TIER_CELLS[i].1 as int)) == Some(preset(i)),
        default_action(layer, TIER_CELLS[i].0 as int, TIER_CELLS[i].1 as int) is No,
{
}

/// The knobs keep their meaning on every layer.
pub proof fn law_knobs_keep_their_meaning(layer: int, encoder: int)
    requires
        0 <= layer < 5,
        0 <= encoder < 2,
    ensures
        default_encoder(layer, encoder) == default_encoder(0, encoder),
{
}

/// Different tiers are different keys.
pub proof fn law_tiers_are_distinct(a: KeyAction, b: KeyAction)
    requires
        tier(a) is Some,
        tier(a) == tier(b),
    ensures
        a == b,
{
}

/// The mouse layer is complete: nothing on it falls through to the layers below.
pub proof fn law_mouse_layer_is_complete(row: int, col: int)
    requires
        on_matrix(row, col),
    ensures
        !(default_action(4, row, col) is Transparent),
{
}

/// No key leads to the mouse layer; it comes up by pointer motion only. The layers
/// that keys do lead to exist.
pub proof fn law_no_key_leads_to_the_mouse_layer(layer: int, row: int, col: int)
    requires
        0 <= layer < 5,
        on_matrix(row, col),
    ensures
        match default_action(layer, row, col) {
            KeyAction::LayerTap(n, _) => n < 4,
            KeyAction::Momentary(n) => n < 4,
            KeyAction::Toggle(n) => n < 4,
            _ => true,
        },
{
}

/// Typing on the mouse layer is typing on the base layer, but for the thumbs and
/// the outer cells: each hand has both buttons there.
pub proof fn law_mouse_layer_types_like_the_base_layer(row: int, col: int)
    requires
        on_matrix(row, col),
        row < 3 || 6 <= row < 9,
    ensures
        default_action(4, row, col) == default_action(0, row, col),
        default_action(4, 3, 5) == k(KeyCode::MouseBtn1),
        default_action(4, 9, 0) == k(KeyCode::MouseBtn1),
        default_action(4, 3, 3) == k(KeyCode::MouseBtn2),
        default_action(4, 9, 2) == k(KeyCode::MouseBtn2),
        default_action(4, 5, 7) == k(KeyCode::MouseBtn3),
{
}

/// Two rows do nothing, and neither do the last two columns of all rows but the two
/// with the outer keys. Of those, the one on the right hand has a single key, and
/// that on the base layer only.
pub proof fn law_empty_cells_do_nothing(layer: int, row: int, col: int)
    requires
        0 <= layer < 5,
        on_matrix(row, col),
        row == 4 || row == 10 || (col >= 6 && row != 5),
        !(layer == 0 && row == 11 && col == 7),
    ensures
        default_action(layer, row, col) is No,
{
}

/// The keypad keys one to eight, sent without a modifier, are tiers one to eight;
/// nothing else that a cell can be bound to is a tier.
pub proof fn law_tiers_are_the_keypad_keys(action: KeyAction, r: Option<u8>)
    requires
        call_ensures(tier_of, (action,), r),
    ensures
        r == Some(1u8) <==> action == KeyAction::Key(KeyCode::Kp1),
        r == Some(2u8) <==> action == KeyAction::Key(KeyCode::Kp2),
        r == Some(3u8) <==> action == KeyAction::Key(KeyCode::Kp3),
        r == Some(4u8) <==> action == KeyAction::Key(KeyCode::Kp4),
        r == Some(5u8) <==> action == KeyAction::Key(KeyCode::Kp5),
        r == Some(6u8) <==> action == KeyAction::Key(KeyCode::Kp6),
        r == Some(7u8) <==> action == KeyAction::Key(KeyCode::Kp7),
        r == Some(8u8) <==> action == KeyAction::Key(KeyCode::Kp8),
        r matches Some(t) ==> 1 <= t <= 8,
{
}

/// The base layer, key by key: letters and punctuation as on a typewriter, modifiers on the left edge, space and the
/// layer keys under the thumbs, arrows on the lower right.
pub proof fn law_base_layer_key_by_key(map: [[[KeyAction; 8]; 12]; 5])
    requires
        call_ensures(get_default_keymap, (), map),
    ensures
        map[0][0][0] == k(KeyCode::Escape),
        map[0][0][1] == k(KeyCode::Q),
        map[0][0][2] == k(KeyCode::W),
        map[0][0][3] == k(KeyCode::E),
        map[0][0][4] == k(KeyCode::R),
        map[0][0][5] == k(KeyCode::T),
        map[0][0][6] is No,
        map[0][0][7] is No,
        map[0][1][0] == k(KeyCode::Tab),
        map[0][1][1] == k(KeyCode::A),
        map[0][1][2] == k(KeyCode::S),
        map[0][1][3] == k(KeyCode::D),
        map[0][1][4] == k(KeyCode::F),
        map[0][1][5] == k(KeyCode::G),
        map[0][1][6] is No,
        map[0][1][7] is No,
        map[0][2][0] == k(KeyCode::LShift),
        map[0][2][1] == k(KeyCode::Z),
        map[0][2][2] == k(KeyCode::X),
        map[0][2][3] == k(KeyCode::C),
        map[0][2][4] == k(KeyCode::V),
        map[0][2][5] == k(KeyCode::B),
        map[0][2][6] is No,
        map[0][2][7] is No,
        map[0][3][0] == k(KeyCode::LCtrl),
        map[0][3][1] == k(KeyCode::LGui),
        map[0][3][2] == k(KeyCode::LAlt),
        map[0][3][3] == KeyAction::LayerTap(2, KeyCode::Space),
        map[0][3][4] == KeyAction::LayerTap(1, KeyCode::Space),
        map[0][3][5] == KeyAction::Momentary(3),
        map[0][3][6] is No,
        map[0][3][7] is No,
        forall|col: int| 0 <= col < 8 ==> (#[trigger] map[0][4][col]) is No,
        map[0][5][0] == k(KeyCode::Kp5),
        map[0][5][1] == k(KeyCode::Kp3),
        map[0][5][2] is No,
        map[0][5][3] is No,
        map[0][5][4] is No,
        map[0][5][5] is No,
        map[0][5][6] == k(KeyCode::MouseBtn1),
        map[0][5][7] == k(KeyCode::Calculator),
        map[0][6][0] == k(KeyCode::Y),
        map[0][6][1] == k(KeyCode::U),
        map[0][6][2] == k(KeyCode::I),
        map[0][6][3] == k(KeyCode::O),
        map[0][6][4] == k(KeyCode::P),
        map[0][6][5] == k(KeyCode::Backspace),
        map[0][6][6] is No,
        map[0][6][7] is No,
        map[0][7][0] == k(KeyCode::H),
        map[0][7][1] == k(KeyCode::J),
        map[0][7][2] == k(KeyCode::K),
        map[0][7][3] == k(KeyCode::L),
        map[0][7][4] == k(KeyCode::Semicolon),
        map[0][7][5] == k(KeyCode::Enter),
        map[0][7][6] is No,
        map[0][7][7] is No,
        map[0][8][0] == k(KeyCode::N),
        map[0][8][1] == k(KeyCode::M),
        map[0][8][2] == k(KeyCode::Comma),
        map[0][8][3] == k(KeyCode::Dot),
        map[0][8][4] == k(KeyCode::Up),
        map[0][8][5] == k(KeyCode::Delete),
        map[0][8][6] is No,
        map[0][8][7] is No,
        map[0][9][0] == k(KeyCode::Slash),
        map[0][9][1] == k(KeyCode::Space),
        map[0][9][2] == KeyAction::Momentary(2),
        map[0][9][3] == k(KeyCode::Left),
        map[0][9][4] == k(KeyCode::Down),
        map[0][9][5] == k(KeyCode::Right),
        map[0][9][6] is No,
        map[0][9][7] is No,
        forall|col: int| 0 <= col < 8 ==> (#[trigger] map[0][10][col]) is No,
        map[0][11][0] == k(KeyCode::Kp5),
        map[0][11][1] == k(KeyCode::Kp5),
        map[0][11][2] is No,
        map[0][11][3] is No,
        map[0][11][4] is No,
        map[0][11][5] is No,
        map[0][11][6] is No,
        map[0][11][7] == k(KeyCode::AudioMute),
{
    assert(is_default_layer(map[0], 0));
}

/// The raise layer, key by key: digits on the left and in a block on the right, with the signs of arithmetic beside it.
pub proof fn law_raise_layer_key_by_key(map: [[[KeyAction; 8]; 12]; 5])
    requires
        call_ensures(get_default_keymap, (), map),
    ensures
        map[1][0][0] is Transparent,
        map[1][0][1] == k(KeyCode::Kc1),
        map[1][0][2] == k(KeyCode::Kc2),
        map[1][0][3] == k(KeyCode::Kc3),
        map[1][0][4] == k(KeyCode::Kc4),
        map[1][0][5] == k(KeyCode::Kc5),
        map[1][0][6] is No,
        map[1][0][7] is No,
        map[1][1][0] is Transparent,
        map[1][1][1] == k(KeyCode::Quote),
        map[1][1][2] == shifted(KeyCode::Quote),
        map[1][1][3] == k(KeyCode::Minus),
        map[1][1][4] == k(KeyCode::Equal),
        map[1][1][5] == k(KeyCode::Enter),
        map[1][1][6] is No,
        map[1][1][7] is No,
        map[1][2][0] is Transparent,
        map[1][2][1] == k(KeyCode::Home),
        map[1][2][2] == k(KeyCode::End),
        map[1][2][3] == shifted(KeyCode::Minus),
        map[1][2][4] == shifted(KeyCode::Equal),
        map[1][2][5] == k(KeyCode::Backslash),
        map[1][2][6] is No,
        map[1][2][7] is No,
        map[1][3][0] is Transparent,
        map[1][3][1] == ctrl(KeyCode::Home),
        map[1][3][2] == ctrl(KeyCode::End),
        map[1][3][3] == k(KeyCode::Calculator),
        map[1][3][4] == KeyAction::Toggle(1),
        map[1][3][5] == KeyAction::Toggle(1),
        map[1][3][6] is No,
        map[1][3][7] is No,
        forall|col: int| 0 <= col < 8 ==> (#[trigger] map[1][4][col]) is No,
        forall|col: int| 0 <= col < 8 ==> (#[trigger] map[1][5][col]) is No,
        map[1][6][0] == k(KeyCode::Kc7),
        map[1][6][1] == k(KeyCode::Kc8),
        map[1][6][2] == k(KeyCode::Kc9),
        map[1][6][3] == k(KeyCode::KpPlus),
        map[1][6][4] == k(KeyCode::KpAsterisk),
        map[1][6][5] is Transparent,
        map[1][6][6] is No,
        map[1][6][7] is No,
        map[1][7][0] == k(KeyCode::Kc4),
        map[1][7][1] == k(KeyCode::Kc5),
        map[1][7][2] == k(KeyCode::Kc6),
        map[1][7][3] == k(KeyCode::KpMinus),
        map[1][7][4] == k(KeyCode::KpSlash),
        map[1][7][5] is Transparent,
        map[1][7][6] is No,
        map[1][7][7] is No,
        map[1][8][0] == k(KeyCode::Kc1),
        map[1][8][1] == k(KeyCode::Kc2),
        map[1][8][2] == k(KeyCode::Kc3),
        map[1][8][3] == k(KeyCode::Comma),
        map[1][8][4] is Transparent,
        map[1][8][5] is Transparent,
        map[1][8][6] is No,
        map[1][8][7] is No,
        map[1][9][0] == k(KeyCode::Kc0),
        map[1][9][1] == k(KeyCode::Kc0),
        map[1][9][2] == k(KeyCode::KpDot),
        map[1][9][3] is Transparent,
        map[1][9][4] is Transparent,
        map[1][9][5] is Transparent,
        map[1][9][6] is No,
        map[1][9][7] is No,
        forall|col: int| 0 <= col < 8 ==> (#[trigger] map[1][10][col]) is No,
        forall|col: int| 0 <= col < 8 ==> (#[trigger] map[1][11][col]) is No,
{
    assert(is_default_layer(map[1], 1));
}

/// The lower layer, key by key: the shifted digits on the left, brackets and navigation on the right.
pub proof fn law_lower_layer_key_by_key(map: [[[KeyAction; 8]; 12]; 5])
    requires
        call_ensures(get_default_keymap, (), map),
    ensures
        map[2][0][0] == shifted(KeyCode::Grave),
        map[2][0][1] == shifted(KeyCode::Kc1),
        map[2][0][2] == shifted(KeyCode::Kc2),
        map[2][0][3] == shifted(KeyCode::Kc3),
        map[2][0][4] == shifted(KeyCode::Kc4),
        map[2][0][5] == shifted(KeyCode::Kc5),
        map[2][0][6] is No,
        map[2][0][7] is No,
        map[2][1][0] == k(KeyCode::Grave),
        map[2][1][1] == shifted(KeyCode::Kc6),
        map[2][1][2] == shifted(KeyCode::Kc7),
        map[2][1][3] == shifted(KeyCode::Kc8),
        map[2][1][4] == shifted(KeyCode::Kc9),
        map[2][1][5] == shifted(KeyCode::Kc0),
        map[2][1][6] is No,
        map[2][1][7] is No,
        map[2][2][0] is No,
        map[2][2][1] == k(KeyCode::Home),
        map[2][2][2] == k(KeyCode::End),
        map[2][2][3] == ctrl(KeyCode::PageUp),
        map[2][2][4] == ctrl(KeyCode::PageDown),
        map[2][2][5] == alt(KeyCode::F4),
        map[2][2][6] is No,
        map[2][2][7] is No,
        map[2][3][0] is No,
        map[2][3][1] == ctrl(KeyCode::Home),
        map[2][3][2] == ctrl(KeyCode::End),
        map[2][3][3] is No,
        map[2][3][4] is No,
        map[2][3][5] is No,
        map[2][3][6] is No,
        map[2][3][7] is No,
        forall|col: int| 0 <= col < 8 ==> (#[trigger] map[2][4][col]) is No,
        map[2][5][0] is No,
        map[2][5][1] is No,
        map[2][5][2] is No,
        map[2][5][3] is No,
        map[2][5][4] is No,
        map[2][5][5] is No,
        map[2][5][6] is No,
        map[2][5][7] is Transparent,
        map[2][6][0] == k(KeyCode::NumLock),
        map[2][6][1] == k(KeyCode::CapsLock),
        map[2][6][2] == k(KeyCode::Pause),
        map[2][6][3] == k(KeyCode::PrintScreen),
        map[2][6][4] == ctrl(KeyCode::P),
        map[2][6][5] is No,
        map[2][6][6] is No,
        map[2][6][7] is No,
        map[2][7][0] is No,
        map[2][7][1] == k(KeyCode::LeftBracket),
        map[2][7][2] == k(KeyCode::RightBracket),
        map[2][7][3] == shifted(KeyCode::LeftBracket),
        map[2][7][4] == shifted(KeyCode::RightBracket),
        map[2][7][5] is No,
        map[2][7][6] is No,
        map[2][7][7] is No,
        map[2][8][0] is No,
        map[2][8][1] == shifted(KeyCode::Kc9),
        map[2][8][2] == shifted(KeyCode::Kc0),
        map[2][8][3] == ctrl(KeyCode::PageUp),
        map[2][8][4] == k(KeyCode::PageUp),
        map[2][8][5] == ctrl(KeyCode::PageDown),
        map[2][8][6] is No,
        map[2][8][7] is No,
        map[2][9][0] is No,
        map[2][9][1] is No,
        map[2][9][2] is No,
        map[2][9][3] == k(KeyCode::Home),
        map[2][9][4] == k(KeyCode::PageDown),
        map[2][9][5] == k(KeyCode::End),
        map[2][9][6] is No,
        map[2][9][7] is No,
        forall|col: int| 0 <= col < 8 ==> (#[trigger] map[2][10][col]) is No,
        forall|col: int| 0 <= col < 8 ==> (#[trigger] map[2][11][col]) is No,
{
    assert(is_default_layer(map[2], 2));
}

/// The function layer, key by key: twelve function keys on the left beside the wheel, the number block of the raise layer
/// on the right.
pub proof fn law_function_layer_key_by_key(map: [[[KeyAction; 8]; 12]; 5])
    requires
        call_ensures(get_default_keymap, (), map),
    ensures
        map[3][0][0] == k(KeyCode::F1),
        map[3][0][1] == k(KeyCode::F2),
        map[3][0][2] == k(KeyCode::F3),
        map[3][0][3] == ctrl(KeyCode::PageUp),
        map[3][0][4] == k(KeyCode::MouseWheelUp),
        map[3][0][5] == ctrl(KeyCode::PageDown),
        map[3][0][6] is No,
        map[3][0][7] is No,
        map[3][1][0] == k(KeyCode::F4),
        map[3][1][1] == k(KeyCode::F5),
        map[3][1][2] == k(KeyCode::F6),
        map[3][1][3] == k(KeyCode::MouseWheelLeft),
        map[3][1][4] == k(KeyCode::MouseWheelDown),
        map[3][1][5] == k(KeyCode::MouseWheelRight),
        map[3][1][6] is No,
        map[3][1][7] is No,
        map[3][2][0] == k(KeyCode::F7),
        map[3][2][1] == k(KeyCode::F8),
        map[3][2][2] == k(KeyCode::F9),
        map[3][2][3] is No,
        map[3][2][4] == k(KeyCode::F2),
        map[3][2][5] == k(KeyCode::F5),
        map[3][2][6] is No,
        map[3][2][7] is No,
        map[3][3][0] == k(KeyCode::F10),
        map[3][3][1] == k(KeyCode::F11),
        map[3][3][2] == k(KeyCode::F12),
        map[3][3][3] == KeyAction::User(0),
        map[3][3][4] == KeyAction::User(1),
        map[3][3][5] is No,
        map[3][3][6] is No,
        map[3][3][7] is No,
        forall|col: int| 0 <= col < 8 ==> (#[trigger] map[3][4][col]) is No,
        map[3][5][0] is No,
        map[3][5][1] is No,
        map[3][5][2] is No,
        map[3][5][3] is No,
        map[3][5][4] is No,
        map[3][5][5] is No,
        map[3][5][6] is No,
        map[3][5][7] == KeyAction::User(5),
        map[3][6][0] == k(KeyCode::Kc7),
        map[3][6][1] == k(KeyCode::Kc8),
        map[3][6][2] == k(KeyCode::Kc9),
        map[3][6][3] == k(KeyCode::KpPlus),
        map[3][6][4] == k(KeyCode::KpAsterisk),
        map[3][6][5] is Transparent,
        map[3][6][6] is No,
        map[3][6][7] is No,
        map[3][7][0] == k(KeyCode::Kc4),
        map[3][7][1] == k(KeyCode::Kc5),
        map[3][7][2] == k(KeyCode::Kc6),
        map[3][7][3] == k(KeyCode::KpMinus),
        map[3][7][4] == k(KeyCode::KpSlash),
        map[3][7][5] is Transparent,
        map[3][7][6] is No,
        map[3][7][7] is No,
        map[3][8][0] == k(KeyCode::Kc1),
        map[3][8][1] == k(KeyCode::Kc2),
        map[3][8][2] == k(KeyCode::Kc3),
        map[3][8][3] == k(KeyCode::Comma),
        map[3][8][4] is Transparent,
        map[3][8][5] is Transparent,
        map[3][8][6] is No,
        map[3][8][7] is No,
        map[3][9][0] == k(KeyCode::Kc0),
        map[3][9][1] == k(KeyCode::Kc0),
        map[3][9][2] == k(KeyCode::KpDot),
        map[3][9][3] is Transparent,
        map[3][9][4] is Transparent,
        map[3][9][5] is Transparent,
        map[3][9][6] is No,
        map[3][9][7] is No,
        forall|col: int| 0 <= col < 8 ==> (#[trigger] map[3][10][col]) is No,
        forall|col: int| 0 <= col < 8 ==> (#[trigger] map[3][11][col]) is No,
{
    assert(is_default_layer(map[3], 3));
}

/// The mouse layer, key by key: the base layer, with mouse buttons under both thumbs.
pub proof fn law_mouse_layer_key_by_key(map: [[[KeyAction; 8]; 12]; 5])
    requires
        call_ensures(get_default_keymap, (), map),
    ensures
        map[4][0][0] == k(KeyCode::Escape),
        map[4][0][1] == k(KeyCode::Q),
        map[4][0][2] == k(KeyCode::W),
        map[4][0][3] == k(KeyCode::E),
        map[4][0][4] == k(KeyCode::R),
        map[4][0][5] == k(KeyCode::T),
        map[4][0][6] is No,
        map[4][0][7] is No,
        map[4][1][0] == k(KeyCode::Tab),
        map[4][1][1] == k(KeyCode::A),
        map[4][1][2] == k(KeyCode::S),
        map[4][1][3] == k(KeyCode::D),
        map[4][1][4] == k(KeyCode::F),
        map[4][1][5] == k(KeyCode::G),
        map[4][1][6] is No,
        map[4][1][7] is No,
        map[4][2][0] == k(KeyCode::LShift),
        map[4][2][1] == k(KeyCode::Z),
        map[4][2][2] == k(KeyCode::X),
        map[4][2][3] == k(KeyCode::C),
        map[4][2][4] == k(KeyCode::V),
        map[4][2][5] == k(KeyCode::B),
        map[4][2][6] is No,
        map[4][2][7] is No,
        map[4][3][0] == k(KeyCode::LCtrl),
        map[4][3][1] == k(KeyCode::LGui),
        map[4][3][2] == k(KeyCode::LAlt),
        map[4][3][3] == k(KeyCode::MouseBtn2),
        map[4][3][4] is No,
        map[4][3][5] == k(KeyCode::MouseBtn1),
        map[4][3][6] is No,
        map[4][3][7] is No,
        forall|col: int| 0 <= col < 8 ==> (#[trigger] map[4][4][col]) is No,
        map[4][5][0] is No,
        map[4][5][1] is No,
        map[4][5][2] is No,
        map[4][5][3] is No,
        map[4][5][4] is No,
        map[4][5][5] is No,
        map[4][5][6] == k(KeyCode::MouseBtn1),
        map[4][5][7] == k(KeyCode::MouseBtn3),
        map[4][6][0] == k(KeyCode::Y),
        map[4][6][1] == k(KeyCode::U),
        map[4][6][2] == k(KeyCode::I),
        map[4][6][3] == k(KeyCode::O),
        map[4][6][4] == k(KeyCode::P),
        map[4][6][5] == k(KeyCode::Backspace),
        map[4][6][6] is No,
        map[4][6][7] is No,
        map[4][7][0] == k(KeyCode::H),
        map[4][7][1] == k(KeyCode::J),
        map[4][7][2] == k(KeyCode::K),
        map[4][7][3] == k(KeyCode::L),
        map[4][7][4] == k(KeyCode::Semicolon),
        map[4][7][5] == k(KeyCode::Enter),
        map[4][7][6] is No,
        map[4][7][7] is No,
        map[4][8][0] == k(KeyCode::N),
        map[4][8][1] == k(KeyCode::M),
        map[4][8][2] == k(KeyCode::Comma),
        map[4][8][3] == k(KeyCode::Dot),
        map[4][8][4] == k(KeyCode::Up),
        map[4][8][5] == k(KeyCode::Delete),
        map[4][8][6] is No,
        map[4][8][7] is No,
        map[4][9][0] == k(KeyCode::MouseBtn1),
        map[4][9][1] is No,
        map[4][9][2] == k(KeyCode::MouseBtn2),
        map[4][9][3] == k(KeyCode::Left),
        map[4][9][4] == k(KeyCode::Down),
        map[4][9][5] == k(KeyCode::Right),
        map[4][9][6] is No,
        map[4][9][7] is No,
        forall|col: int| 0 <= col < 8 ==> (#[trigger] map[4][10][col]) is No,
        forall|col: int| 0 <= col < 8 ==> (#[trigger] map[4][11][col]) is No,
{
    assert(is_default_layer(map[4], 4));
}

/// The encoders, direction by direction: on every layer the left one turns pages and
/// the right one sets the volume.
pub proof fn law_encoders_on_every_layer(map: [[EncoderAction; 2]; 5], layer: int)
    requires
        call_ensures(get_default_encoder_map, (), map),
        0 <= layer < 5,
    ensures
        map[layer][0].clockwise == k(KeyCode::PageUp),
        map[layer][0].counter_clockwise == k(KeyCode::PageDown),
        map[layer][1].clockwise == k(KeyCode::KbVolumeDown),
        map[layer][1].counter_clockwise == k(KeyCode::KbVolumeUp),
{
}

} // verus!
