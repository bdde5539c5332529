//! Range facts about bit fields, shared by the boards.
use vstd::prelude::*;

verus! {

/// Ranges of the fields that the boards take from a 16-bit address.
pub proof fn lemma_addr_fields(a: u16)
    by (bit_vector)
    ensures
        a & 0x1FFF < 0x2000,
        a & 0x0FFF < 0x1000,
        a & 0x3FF < 0x400,
        (a & 0x1FFF) >> 10 < 8,
        (a & 0x0FFF) >> 10 < 4,
        (a >> 10) & 7 < 8,
        ((a >> 10) & 7) ^ 4 < 8,
        (a >> 11) & 0x03 < 4,
        (a >> 13) & 3 < 4,
        a & 0x0007 < 8,
        a & 0x0003 < 4,
        (a & 0x04) >> 2 < 2,
        a & 0x0F < 16,
        (a >> 4) & 0x01 <= 1,
{
}

/// Ranges of the fields that the boards take from a register byte.
pub proof fn lemma_byte_fields(v: u8)
    by (bit_vector)
    ensures
        v & 0x01 <= 1,
        v & 0x03 <= 3,
        v & 0x07 <= 7,
        v & 0x0F <= 15,
        v & 0x1F <= 31,
        (v >> 6) & 0x03 <= 3,
        (v & 0x40) >> 6 <= 1,
        v <= 7 ==> v & 0x07 == v,
        v <= 15 ==> v & 0x0F == v,
        v <= 1 ==> v & 0x01 == v,
{
}

/// Ranges of fields of a machine word.
pub proof fn lemma_usize_fields(x: usize)
    by (bit_vector)
    ensures
        (x >> 13) & 0x03 <= 3,
        x & 0x03 <= 3,
        (x & 0x03) << 4 <= 0x30,
        (x >> 13) & 0x01 <= 1,
        x & 0x0E <= 0x0E,
        x & 0x0C <= 0x0C,
        x & !1usize <= x,
{
}

/// A 16-bit value is rebuilt from its low and high bytes.
pub proof fn lemma_u16_bytes(l: u16)
    by (bit_vector)
    ensures
        ((l & 0xFF) as u8 as u16) | (((l >> 8) as u8 as u16) << 8) == l,
        ((l & 0xFF) as u8 as u16) | ((((l >> 8) & 0xFF) as u8 as u16) << 8) == l,
{
}

/// Two flags packed into bits 0 and 1 of a byte are read back unchanged.
pub open spec fn flag_byte(e: bool, p: bool) -> u8 {
    (if e { 1u8 } else { 0u8 }) | ((if p { 1u8 } else { 0u8 }) << 1)
}

pub proof fn lemma_flag_byte(e: bool, p: bool)
    ensures
        (flag_byte(e, p) & 0x01 != 0) == e,
        (flag_byte(e, p) & 0x02 != 0) == p,
{
    let f = flag_byte(e, p);
    assert((f & 0x01 != 0) == e && (f & 0x02 != 0) == p) by (bit_vector)
        requires f == (if e { 1u8 } else { 0u8 }) | ((if p { 1u8 } else { 0u8 }) << 1);
}

} // verus!
