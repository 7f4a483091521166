//! Short text for the panel and the diagnostics, held in a fixed-capacity
//! `heapless::String`.

use core::fmt::Write;

use vstd::prelude::*;
use vstd::utf8::*;

verus! {

/// Capacity in bytes of the strings used here.
pub const LABEL_CAPACITY: usize = 8;

/// `heapless::String`, a string that lives in an array of `N` bytes.
#[verifier::external_type_specification]
#[verifier::external_body]
pub struct ExHeaplessString<const N: usize>(heapless::String<N>);

/// The characters that a label holds.
pub uninterp spec fn label_chars(s: heapless::String<8>) -> Seq<char>;

/// Whether text with these characters fits into a label.
pub open spec fn fits(chars: Seq<char>) -> bool {
    encode_utf8(chars).len() <= LABEL_CAPACITY
}

/// The character for decimal digit `d`.
pub open spec fn digit(d: int) -> char {
    (48 + d) as char
}

/// `n` in decimal, without leading zeros.
pub open spec fn decimal(n: int) -> Seq<char>
    decreases n,
{
    if n < 10 {
        seq![digit(n)]
    } else {
        decimal(n / 10).push(digit(n % 10))
    }
}

/// `heapless::String::new`: the new string is empty.
#[verifier::external_body]
pub(crate) fn label_new() -> (r: heapless::String<8>)
    ensures
        label_chars(r) == Seq::<char>::empty(),
{
    heapless::String::new()
}

/// `heapless::String::push`: appends the character when its encoding still fits,
/// and otherwise leaves the string as it is.
#[verifier::external_body]
pub(crate) fn label_push(s: &mut heapless::String<8>, c: char)
    ensures
        fits(label_chars(*old(s)).push(c)) ==> label_chars(*final(s)) == label_chars(*old(s)).push(
            c,
        ),
        !fits(label_chars(*old(s)).push(c)) ==> label_chars(*final(s)) == label_chars(*old(s)),
{
    s.push(c).ok();
}

/// `heapless::String::push_str`: appends the text when all of it fits, and
/// otherwise leaves the string as it is.
#[verifier::external_body]
pub(crate) fn label_push_str(s: &mut heapless::String<8>, text: &str)
    ensures
        fits(label_chars(*old(s)) + text@) ==> label_chars(*final(s)) == label_chars(*old(s))
            + text@,
        !fits(label_chars(*old(s)) + text@) ==> label_chars(*final(s)) == label_chars(*old(s)),
{
    s.push_str(text).ok();
}

/// `write!` of a `u8` into a `heapless::String`, through the string's
/// `core::fmt::Write`: appends the decimal digits when they fit. What a string
/// without room for them holds afterwards is left unsaid: that rests on how the
/// formatter divides its output.
#[verifier::external_body]
pub(crate) fn label_write_u8(s: &mut heapless::String<8>, n: u8)
    ensures
        fits(label_chars(*old(s)) + decimal(n as int)) ==> label_chars(*final(s)) == label_chars(
            *old(s),
        ) + decimal(n as int),
{
    write!(s, "{}", n).ok();
}

/// `heapless::String::as_str`: the whole text.
#[verifier::external_body]
pub(crate) fn label_as_str(s: &heapless::String<8>) -> (r: &str)
    ensures
        r@ == label_chars(*s),
{
    s.as_str()
}

/// A byte has one to three decimal digits, all of them ASCII.
pub(crate) proof fn lemma_decimal_of_a_byte(n: int)
    requires
        0 <= n < 256,
    ensures
        1 <= decimal(n).len() <= 3,
        decimal(n).len() == if n < 10 {
            1nat
        } else if n < 100 {
            2nat
        } else {
            3nat
        },
        is_ascii_chars(decimal(n)),
{
    reveal_with_fuel(decimal, 3);
}

/// ASCII text of up to eight characters fits.
pub(crate) proof fn lemma_short_ascii_fits(chars: Seq<char>)
    requires
        chars.len() <= LABEL_CAPACITY,
        is_ascii_chars(chars),
    ensures
        fits(chars),
{
    is_ascii_chars_encode_utf8(chars);
}

} // verus!
