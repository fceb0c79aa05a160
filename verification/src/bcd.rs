//! Packed binary-coded-decimal codec.
//!
//! Every counting register of the chip family stores a 0-99 value with the
//! tens digit in the high nibble and the units digit in the low nibble.

use vstd::prelude::*;

verus! {

/// Packed BCD encoding of a decimal value: tens digit in the high nibble,
/// units digit in the low nibble.
pub open spec fn bcd_encode(dec: u8) -> u8 {
    ((dec / 10) << 4) | (dec % 10)
}

/// Decimal value of a packed BCD byte: ten times the high nibble plus the
/// low nibble. Defined on every byte, mirroring raw register content; only
/// a byte whose nibbles are both decimal digits decodes to what
/// [`bcd_encode`] would have produced it from.
pub open spec fn bcd_decode(bcd: u8) -> u8 {
    ((bcd >> 4) * 10 + (bcd & 0xF)) as u8
}

/// Transforms a decimal number to packed BCD format
pub fn decimal_to_packed_bcd(dec: u8) -> (r: u8)
    requires
        dec <= 99,
    ensures
        r == bcd_encode(dec),
{
    ((dec / 10) << 4) | (dec % 10)
}

/// Transforms a number in packed BCD format to decimal
pub fn packed_bcd_to_decimal(bcd: u8) -> (r: u8)
    ensures
        r == bcd_decode(bcd),
{
    proof {
        assert((bcd >> 4) * 10 + (bcd & 0xF) < 256) by (bit_vector);
    }
    (bcd >> 4) * 10 + (bcd & 0xF)
}

/// Encoding a decimal value 0-99 as packed BCD and decoding the result
/// reproduces the value.
pub proof fn lemma_bcd_roundtrip(n: u8)
    by (bit_vector)
    requires
        n <= 99,
    ensures
        bcd_decode(bcd_encode(n)) == n,
{
}

} // verus!
