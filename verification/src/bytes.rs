//! Bytes of words, and signed values in unsigned storage.

use vstd::prelude::*;

verus! {

/// A byte in two's complement.
pub open spec fn signed(b: u8) -> int {
    if b < 128 {
        b as int
    } else {
        b - 256
    }
}

/// A byte in two's complement.
pub fn to_signed(b: u8) -> (r: i8)
    ensures
        r == signed(b),
{
    if b < 128 {
        b as i8
    } else {
        (b as i16 - 256) as i8
    }
}

/// A signed byte in the two's complement of 32 bits.
pub open spec fn widened(v: int) -> u32 {
    if v < 0 {
        (0x1_0000_0000 + v) as u32
    } else {
        v as u32
    }
}

/// A signed byte in the two's complement of 32 bits.
pub fn widen(v: i8) -> (r: u32)
    ensures
        r == widened(v as int),
{
    if v < 0 {
        (0x1_0000_0000i64 + v as i64) as u32
    } else {
        v as u32
    }
}

/// The low sixteen bits of an integer, in two's complement.
pub open spec fn low16(v: int) -> int {
    (v + 32768) % 65536 - 32768
}

/// The low sixteen bits of the negative of `v`.
pub fn negate_low16(v: i32) -> (r: i16)
    ensures
        r == low16(-v),
{
    let n: i64 = 0x1_0000_8000 - v as i64;
    (n % 65536 - 32768) as i16
}

/// The four bytes of a word, lowest first.
pub open spec fn word_bytes(w: u32) -> Seq<u8> {
    seq![
        (w % 0x100) as u8,
        (w / 0x100 % 0x100) as u8,
        (w / 0x1_0000 % 0x100) as u8,
        (w / 0x100_0000) as u8,
    ]
}

/// Storage keeps every value: each of these differs from what went in by a multiple of
/// the range, and the range has each value once.
pub proof fn law_storage_keeps_the_value(
    b: u8,
    signed_byte: i8,
    v: i8,
    word: u32,
    n: i32,
    negative: i16,
)
    requires
        call_ensures(to_signed, (b,), signed_byte),
        call_ensures(widen, (v,), word),
        call_ensures(negate_low16, (n,), negative),
    ensures
        (signed_byte - b) % 0x100 == 0,
        (word - v) % 0x1_0000_0000 == 0,
        (negative + n) % 0x1_0000 == 0,
        -32767 <= n <= 32768 ==> negative == -n,
{
}

} // verus!
