use vstd::prelude::*;
use bit_field::BitField;

verus! {

/// Relies on `BitField::get_bit` of bit_field for `u8`: whether bit `bit`
/// (0 is the least significant) is set. It panics for `bit >= 8`.
#[verifier::external_body]
pub(crate) fn u8_get_bit(v: u8, bit: usize) -> (r: bool)
    requires
        bit < 8,
    ensures
        r == (v & (1u8 << bit as u8) != 0),
{
    v.get_bit(bit)
}

/// Relies on `BitField::set_bit` of bit_field for `u8`: sets bit `bit` to
/// one when `value` holds and to zero when it does not, and keeps the other
/// bits. It panics for `bit >= 8`.
#[verifier::external_body]
pub(crate) fn u8_set_bit(v: u8, bit: usize, value: bool) -> (r: u8)
    requires
        bit < 8,
    ensures
        r == (if value {
            v | (1u8 << bit as u8)
        } else {
            v & !(1u8 << bit as u8)
        }),
{
    let mut x = v;
    x.set_bit(bit, value);
    x
}

/// The mask of bits `lo..=hi` of a byte, as `BitField::set_bits` builds it.
pub open spec fn u8_field_mask(lo: u8, hi: u8) -> u8 {
    ((0xFFu8 << (7 - hi) as u8) >> (7 - hi) as u8) >> lo << lo
}

/// Relies on `BitField::set_bits` of bit_field for `u8` on the range
/// `lo..=hi`: the bits of the range take the low bits of `value`, the other
/// bits are kept. It panics when the range leaves the byte or `value` does
/// not fit in the range.
#[verifier::external_body]
pub(crate) fn u8_set_bits(v: u8, lo: usize, hi: usize, value: u8) -> (r: u8)
    requires
        lo <= hi < 8,
        (value << (7 - (hi - lo)) as u8) >> (7 - (hi - lo)) as u8 == value,
    ensures
        r == (v & !u8_field_mask(lo as u8, hi as u8)) | (value << lo as u8),
{
    let mut x = v;
    x.set_bits(lo..=hi, value);
    x
}

/// Relies on `BitField::get_bits` of bit_field for `i32` on the range
/// `lo..=hi`: the word shifted left and then right, arithmetically, to drop
/// the bits above `hi`, then right by `lo`. It panics when the range leaves
/// the word.
#[verifier::external_body]
pub(crate) fn i32_get_bits(v: i32, lo: usize, hi: usize) -> (r: i32)
    requires
        lo <= hi < 32,
    ensures
        r == ((v << (31 - hi) as i32) >> (31 - hi) as i32) >> lo as i32,
{
    v.get_bits(lo..=hi)
}

} // verus!
