//! Logic of a wireless split keyboard with a trackpad, a pointing stick and two
//! memory-in-pixel panels.

pub mod board;
pub mod bytes;
pub mod clock;
pub mod connection;
pub mod keymap;
pub mod label;
pub mod lpm009m360a;
pub mod motion_pin;
pub mod pointer_speed;
pub mod pointing;
pub mod renderers;
pub mod scroll_key;
pub mod sleep_watch;
pub mod speed_control;
pub mod status_led;
pub mod text;
pub mod tp_diag;
pub mod trackpad;
pub mod trackpoint;
pub mod usb_diag;
