//! Text as `embedded_graphics` renders it, as a bitmap that covers every canvas.

use embedded_graphics::framebuffer::Framebuffer;
use embedded_graphics::geometry::Point;
use embedded_graphics::mono_font::ascii::{FONT_6X13, FONT_9X18};
use embedded_graphics::mono_font::MonoTextStyle;
use embedded_graphics::pixelcolor::raw::{BigEndian, RawU1};
use embedded_graphics::pixelcolor::BinaryColor;
use embedded_graphics::text::Text;
use embedded_graphics::Drawable;
use vstd::prelude::*;

verus! {

/// Side of the square bitmap. No canvas is wider or higher.
pub const BITMAP_SIDE: usize = 144;

/// Bytes of one bitmap row.
pub const BITMAP_STRIDE: usize = 18;

/// Bytes of a whole bitmap.
pub const BITMAP_LEN: usize = 2592;

/// Longest text, and largest coordinate, that is drawn: positions inside a text
/// stay far within 32 bits.
pub const TEXT_LIMIT: i32 = 1_000_000;

/// What drawing `text` sets: rows of eighteen bytes, most significant bit first,
/// a set bit for each pixel that the glyphs light. `x` is the left edge, `y` the
/// baseline; the font is 9x18 if `big` and 6x13 otherwise.
pub uninterp spec fn text_bitmap(text: Seq<char>, x: i32, y: i32, big: bool) -> Seq<u8>;

/// `embedded_graphics::text::Text::draw` with a transparent background, onto an
/// `embedded_graphics::framebuffer::Framebuffer` of 144x144 pixels that is clear
/// before. The bitmap is a function of the arguments, and is clear where there
/// is no text. Which pixels a glyph lights is left unsaid: that is the font.
#[verifier::external_body]
pub(crate) fn draw_text(text: &str, x: i32, y: i32, big: bool) -> (r: [u8; BITMAP_LEN])
    requires
        text@.len() <= TEXT_LIMIT,
        -TEXT_LIMIT <= x <= TEXT_LIMIT,
        -TEXT_LIMIT <= y <= TEXT_LIMIT,
    ensures
        r@ == text_bitmap(text@, x, y, big),
        text@.len() == 0 ==> forall|i: int| 0 <= i < BITMAP_LEN ==> #[trigger] r@[i] == 0,
{
    let mut fb = Framebuffer::<BinaryColor, RawU1, BigEndian, 144, 144, 2592>::new();
    let font = match big {
        true => &FONT_9X18,
        false => &FONT_6X13,
    };
    Text::new(text, Point::new(x, y), MonoTextStyle::new(font, BinaryColor::On)).draw(&mut fb).ok();
    *fb.data()
}

} // verus!
