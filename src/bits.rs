//! Sub-ranges and single bits of fixed-width words, as `bit_field` provides
//! them, with their meaning stated over shifts and masks.
use bit_field::BitField;
use vstd::prelude::*;

verus! {

/// The `width` low bits of a 32-bit word set, the others clear.
pub open spec fn low_mask32(width: u32) -> u32 {
    if width >= 32 {
        0xffff_ffffu32
    } else {
        ((1u32 << width) - 1) as u32
    }
}

/// The masks of the field widths that the registers use.
pub proof fn lemma_low_mask32_values()
    by (bit_vector)
    ensures
        low_mask32(1) == 1,
        low_mask32(2) == 3,
        low_mask32(3) == 7,
        low_mask32(4) == 0xf,
        low_mask32(8) == 0xff,
{
}

/// A field read from a word fits in the field's width.
pub proof fn lemma_bits32_fits(word: u32, start: u32, end: u32)
    by (bit_vector)
    requires
        start < end <= 32,
    ensures
        bits32(word, start, end) <= low_mask32((end - start) as u32),
{
}

/// A field written into a word reads back as the value written.
pub proof fn lemma_bits32_of_with_bits32(word: u32, start: u32, end: u32, value: u32)
    by (bit_vector)
    requires
        start < end <= 32,
        value <= low_mask32((end - start) as u32),
    ensures
        bits32(with_bits32(word, start, end, value), start, end) == value,
{
}

/// A bit written into a word reads back as the value written.
pub proof fn lemma_bit32_of_with_bit32(word: u32, index: u32, value: bool)
    by (bit_vector)
    requires
        index < 32,
    ensures
        bit32(with_bit32(word, index, value), index) == value,
{
}

/// Bits `start..end` of `word`, moved down to bit 0.
pub open spec fn bits32(word: u32, start: u32, end: u32) -> u32 {
    (word >> start) & low_mask32((end - start) as u32)
}

/// `word` with bits `start..end` replaced by `value`.
pub open spec fn with_bits32(word: u32, start: u32, end: u32, value: u32) -> u32 {
    (word & !(low_mask32((end - start) as u32) << start)) | (value << start)
}

/// Bit `index` of `word`.
pub open spec fn bit32(word: u32, index: u32) -> bool {
    word & (1u32 << index) != 0
}

/// `word` with bit `index` set to `value`.
pub open spec fn with_bit32(word: u32, index: u32, value: bool) -> u32 {
    if value {
        word | (1u32 << index)
    } else {
        word & !(1u32 << index)
    }
}

/// Bits `start..end` of a 64-bit `word`, moved down to bit 0.
pub open spec fn bits64(word: u64, start: u64, end: u64) -> u64 {
    (word >> start) & (if end - start >= 64 {
        0xffff_ffff_ffff_ffffu64
    } else {
        ((1u64 << (end - start) as u64) - 1) as u64
    })
}

/// Bit `index` of a 64-bit `word`.
pub open spec fn bit64(word: u64, index: u64) -> bool {
    word & (1u64 << index) != 0
}

/// Relies on `BitField::get_bits` for `u32`: for `start < end <= 32` it
/// shifts bits `end..32` out at the top, then bits `0..start` out at the bottom.
#[verifier::external_body]
pub(crate) fn get_bits_u32(word: u32, start: u32, end: u32) -> (r: u32)
    requires
        start < end <= 32,
    ensures
        r == bits32(word, start, end),
{
    word.get_bits(start as usize..end as usize)
}

/// Relies on `BitField::set_bits` for `u32`: for `start < end <= 32` and a
/// `value` that fits in `end - start` bits, it clears bits `start..end` and
/// ors in `value << start`.
#[verifier::external_body]
pub(crate) fn set_bits_u32(word: u32, start: u32, end: u32, value: u32) -> (r: u32)
    requires
        start < end <= 32,
        value <= low_mask32((end - start) as u32),
    ensures
        r == with_bits32(word, start, end, value),
{
    let mut w = word;
    w.set_bits(start as usize..end as usize, value);
    w
}

/// Relies on `BitField::get_bit` for `u32`: `word & (1 << index) != 0`.
#[verifier::external_body]
pub(crate) fn get_bit_u32(word: u32, index: u32) -> (r: bool)
    requires
        index < 32,
    ensures
        r == bit32(word, index),
{
    word.get_bit(index as usize)
}

/// Relies on `BitField::set_bit` for `u32`: ors in `1 << index` for `true`,
/// ands with its complement for `false`.
#[verifier::external_body]
pub(crate) fn set_bit_u32(word: u32, index: u32, value: bool) -> (r: u32)
    requires
        index < 32,
    ensures
        r == with_bit32(word, index, value),
{
    let mut w = word;
    w.set_bit(index as usize, value);
    w
}

/// Relies on `BitField::get_bits` for `u64`, as for `u32` on 64 bits.
#[verifier::external_body]
pub(crate) fn get_bits_u64(word: u64, start: u64, end: u64) -> (r: u64)
    requires
        start < end <= 64,
    ensures
        r == bits64(word, start, end),
{
    word.get_bits(start as usize..end as usize)
}

/// Relies on `BitField::get_bit` for `u64`: `word & (1 << index) != 0`.
#[verifier::external_body]
pub(crate) fn get_bit_u64(word: u64, index: u64) -> (r: bool)
    requires
        index < 64,
    ensures
        r == bit64(word, index),
{
    word.get_bit(index as usize)
}

} // verus!
