//! The radio address of a board.

use vstd::prelude::*;

use crate::bytes;

verus! {

/// The address of a chip with these device id words: the low six bytes of both,
/// lowest first, with the top two bits set.
pub open spec fn address(ids: [u32; 2]) -> Seq<u8> {
    bytes::word_bytes(ids[0]) + seq![
        bytes::word_bytes(ids[1])[0],
        bytes::word_bytes(ids[1])[1] | 0xC0,
    ]
}

/// Static random address from the two device id words of the chip.
pub fn ble_addr(ids: [u32; 2]) -> (r: [u8; 6])
    ensures
        r@ == address(ids),
{
    let lo: u32 = ids[0];
    let hi: u32 = ids[1];
    let r = [
        (lo % 0x100) as u8,
        (lo / 0x100 % 0x100) as u8,
        (lo / 0x1_0000 % 0x100) as u8,
        (lo / 0x100_0000) as u8,
        (hi % 0x100) as u8,
        (hi / 0x100 % 0x100) as u8 | 0xC0,
    ];
    assert(r@ =~= address(ids));
    r
}

/// The two top bits, which mark an address as static random, are always set.
pub proof fn law_address_is_static_random(ids: [u32; 2])
    ensures
        address(ids).len() == 6,
        address(ids)[5] & 0xC0 == 0xC0,
{
    let b = bytes::word_bytes(ids[1])[1];
    assert((b | 0xC0) & 0xC0 == 0xC0) by (bit_vector);
}

proof fn lemma_words_from_address(ids: [u32; 2])
    ensures
        ids[0] == address(ids)[0] + 0x100 * address(ids)[1] + 0x1_0000 * address(ids)[2]
            + 0x100_0000 * address(ids)[3],
        ids[1] % 0x4000 == address(ids)[4] + 0x100 * (address(ids)[5] % 0x40),
{
    let lo = ids[0];
    let hi = ids[1];
    assert(lo == lo % 0x100 + 0x100 * (lo / 0x100 % 0x100) + 0x1_0000 * (lo / 0x1_0000 % 0x100)
        + 0x100_0000 * (lo / 0x100_0000)) by (bit_vector);
    assert(hi % 0x4000 == hi % 0x100 + 0x100 * (hi / 0x100 % 0x100 % 0x40)) by (bit_vector);
    assert(lo / 0x100_0000 < 0x100) by (bit_vector);
    let b = bytes::word_bytes(hi)[1];
    assert((b | 0xC0) % 0x40 == b % 0x40) by (bit_vector);
    assert(address(ids)[0] == bytes::word_bytes(lo)[0]);
    assert(address(ids)[1] == bytes::word_bytes(lo)[1]);
    assert(address(ids)[2] == bytes::word_bytes(lo)[2]);
    assert(address(ids)[3] == bytes::word_bytes(lo)[3]);
    assert(address(ids)[4] == bytes::word_bytes(hi)[0]);
    assert(address(ids)[5] == b | 0xC0);
}

/// Chips whose ids differ in the low 46 bits have different addresses.
pub proof fn law_addresses_tell_chips_apart(a: [u32; 2], b: [u32; 2])
    requires
        address(a) == address(b),
    ensures
        a[0] == b[0],
        a[1] % 0x4000 == b[1] % 0x4000,
{
    lemma_words_from_address(a);
    lemma_words_from_address(b);
}

/// The address is the id, lowest byte first: its bytes add up to the first word and to
/// the low fourteen bits of the second, under the two bits that are always set.
pub proof fn law_address_is_the_id(ids: [u32; 2], r: [u8; 6])
    requires
        call_ensures(ble_addr, (ids,), r),
    ensures
        ids[0] == r[0] + 0x100 * r[1] + 0x1_0000 * r[2] + 0x100_0000 * r[3],
        ids[1] % 0x4000 == r[4] + 0x100 * (r[5] - 0xC0),
        r[5] >= 0xC0,
{
    lemma_words_from_address(ids);
    assert forall|i: int| 0 <= i < 6 implies #[trigger] r[i] == address(ids)[i] by {
        assert(r@[i] == r[i]);
    }
    let b = bytes::word_bytes(ids[1])[1];
    assert((b | 0xC0) >= 0xC0 && (b | 0xC0) % 0x40 == (b | 0xC0) - 0xC0) by (bit_vector);
}

} // verus!
