//! Bit-level updates of a 16-bit word, carried out by the `bit_field` crate.

use bit_field::BitField;
use vstd::prelude::*;

verus! {

/// The word `word` with bit `bit` set to `value`.
pub open spec fn with_bit(word: u16, bit: u16, value: bool) -> u16 {
    if value {
        word | (1u16 << bit)
    } else {
        word & !(1u16 << bit)
    }
}

/// The bits `start..end` of a 16-bit word, as a mask.
pub open spec fn range_mask(start: u16, end: u16) -> u16 {
    (((!0u16 << ((16 - end) as u16)) >> ((16 - end) as u16)) >> start) << start
}

/// Whether `value` has no bit set at or above position `end - start`.
pub open spec fn fits_range(start: u16, end: u16, value: u16) -> bool {
    if start == end {
        value == 0
    } else {
        ((value << ((16 - (end - start)) as u16)) >> ((16 - (end - start)) as u16)) == value
    }
}

/// The word `word` with its bits `start..end` replaced by `value`.
pub open spec fn with_bits(word: u16, start: u16, end: u16, value: u16) -> u16 {
    if start == end {
        word
    } else {
        (word & !range_mask(start, end)) | (value << start)
    }
}

/// Calls `BitField::set_bit` of `bit_field` on a `u16`. The crate sets the
/// bit with `|= 1 << bit` or clears it with `&= !(1 << bit)`, and panics
/// unless `bit` is below 16.
#[verifier::external_body]
pub(crate) fn set_bit(word: &mut u16, bit: usize, value: bool)
    requires
        bit < 16,
    ensures
        *final(word) == with_bit(*old(word), bit as u16, value),
{
    word.set_bit(bit, value);
}

/// Calls `BitField::set_bits` of `bit_field` on a `u16` with the range
/// `start..end`. The crate clears the bits of the range and ors in `value`
/// shifted to `start`; it panics unless the range lies within the word and
/// `value` fits into it.
#[verifier::external_body]
pub(crate) fn set_bits(word: &mut u16, start: usize, end: usize, value: u16)
    requires
        start < 16,
        end <= 16,
        start <= end,
        fits_range(start as u16, end as u16, value),
    ensures
        *final(word) == with_bits(*old(word), start as u16, end as u16, value),
{
    word.set_bits(start..end, value);
}

/// Whether bit `bit` of `word` is set.
pub open spec fn bit_at(word: u16, bit: u16) -> bool {
    word & (1u16 << bit) != 0
}

/// The bits `start..end` of `word`, moved down to bit 0.
pub open spec fn bits_at(word: u16, start: u16, end: u16) -> u16 {
    if start == end {
        0
    } else {
        ((word << ((16 - end) as u16)) >> ((16 - end) as u16)) >> start
    }
}

/// Calls `BitField::get_bit` of `bit_field` on a `u16`. The crate tests the
/// word against `1 << bit`, and panics unless `bit` is below 16.
#[verifier::external_body]
pub(crate) fn get_bit(word: u16, bit: usize) -> (value: bool)
    requires
        bit < 16,
    ensures
        value == bit_at(word, bit as u16),
{
    word.get_bit(bit)
}

/// Calls `BitField::get_bits` of `bit_field` on a `u16` with the range
/// `start..end`. The crate shifts the bits above the range out at the top,
/// then those below it out at the bottom; it panics unless the range lies
/// within the word.
#[verifier::external_body]
pub(crate) fn get_bits(word: u16, start: usize, end: usize) -> (value: u16)
    requires
        start < 16,
        end <= 16,
        start <= end,
    ensures
        value == bits_at(word, start as u16, end as u16),
{
    word.get_bits(start..end)
}

} // verus!
