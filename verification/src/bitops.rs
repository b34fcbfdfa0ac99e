//! Reading and writing ranges of bits in device registers.
//!
//! A range is given by the positions of its lowest bit (`from`) and of its
//! highest bit (`to`), both included.

use bit_field::BitField;
use vstd::prelude::*;

verus! {

/// Whether bit `bit` of `value` is set.
pub open spec fn bit_of(value: u32, bit: u32) -> bool {
    value & (1u32 << bit) != 0
}

/// Bits `start..end` of `value`, moved down to bit 0; nothing for an empty
/// range.
pub open spec fn bits_of(value: u32, start: u32, end: u32) -> u32 {
    if start == end {
        0
    } else {
        ((value << ((32 - end) as u32)) >> ((32 - end) as u32)) >> start
    }
}

/// `value` with bit `bit` set if `on` holds, and cleared if not.
pub open spec fn with_bit(value: u32, bit: u32, on: bool) -> u32 {
    if on {
        value | (1u32 << bit)
    } else {
        value & !(1u32 << bit)
    }
}

/// `BitField::get_bit` of the crate bit_field, on a 32-bit word: whether the
/// bit at position `bit`, counted from the lowest, is set. It panics for a
/// position of 32 or more.
#[verifier::external_body]
pub(crate) fn get_bit(value: u32, bit: usize) -> (r: bool)
    requires
        bit < 32,
    ensures
        r == bit_of(value, bit as u32),
{
    value.get_bit(bit)
}

/// `BitField::get_bits` of the crate bit_field, on a 32-bit word and the
/// range `start..end`: the bits of the range, moved down to bit 0, which it
/// gets by shifting the higher bits out at the top and the lower ones out
/// at the bottom. It panics unless `start < 32`, `end <= 32` and
/// `start <= end`.
#[verifier::external_body]
pub(crate) fn get_bits(value: u32, start: usize, end: usize) -> (r: u32)
    requires
        start < 32,
        end <= 32,
        start <= end,
    ensures
        r == bits_of(value, start as u32, end as u32),
{
    value.get_bits(start..end)
}

/// `BitField::set_bit` of the crate bit_field, on a 32-bit word: the word
/// with the bit at position `bit` set to `on` and all others as they were.
/// It panics for a position of 32 or more.
#[verifier::external_body]
pub(crate) fn set_bit(value: u32, bit: usize, on: bool) -> (r: u32)
    requires
        bit < 32,
    ensures
        r == with_bit(value, bit as u32, on),
{
    let mut word: u32 = value;
    word.set_bit(bit, on);
    word
}

/// A range of bits taken by `bits_of` is the field that `field_of` reads
/// between the first and the last bit of the range.
pub proof fn lemma_bits_of_is_field(value: u32, start: u32, end: u32)
    by (bit_vector)
    requires
        start < end,
        end <= 32,
    ensures
        bits_of(value, start, end) == field_of(value, start, (end - 1) as u32),
{
}

/// The 32-bit word whose set bits are exactly the positions `from..=to`.
pub open spec fn range_mask(from: u32, to: u32) -> u32 {
    (u32::MAX >> ((31 - to) as u32)) & (u32::MAX << from)
}

/// The 32-bit word whose `to - from + 1` lowest bits are set.
pub open spec fn width_mask(from: u32, to: u32) -> u32 {
    u32::MAX >> ((31 - (to - from)) as u32)
}

/// The value held in bits `from..=to` of `r`, moved down to bit 0.
pub open spec fn field_of(r: u32, from: u32, to: u32) -> u32 {
    (r & range_mask(from, to)) >> from
}

/// `r` with bits `from..=to` replaced by the lowest bits of `bits`.
pub open spec fn with_field(r: u32, from: u32, to: u32, bits: u32) -> u32 {
    (r & !range_mask(from, to)) | ((bits << from) & range_mask(from, to))
}

/// Returns bits `from..=to` of a 32-bit register value.
pub fn bits_get(r: u32, from: usize, to: usize) -> (v: u32)
    requires
        from <= to,
        to <= 31,
    ensures
        v == field_of(r, from as u32, to as u32),
{
    let f: u32 = from as u32;
    let t: u32 = to as u32;
    let mask: u32 = if t == 31 {
        u32::MAX
    } else {
        assert((1u32 << ((t + 1) as u32)) >= 1) by (bit_vector)
            requires
                t < 31,
        ;
        (1u32 << (t + 1)) - 1
    };
    assert(((r & mask) >> f) == field_of(r, f, t)) by (bit_vector)
        requires
            f <= t,
            t <= 31,
            mask == (if t == 31 { u32::MAX } else { ((1u32 << ((t + 1) as u32)) - 1) as u32 }),
    ;
    (r & mask) >> f
}

/// Replaces bits `from..=to` of a 32-bit register value by the lowest bits of
/// `bits`. Bits of `bits` above the width of the range are ignored, and every
/// bit of the register outside the range keeps its value.
pub fn bits_set(r: &mut u32, from: usize, to: usize, bits: u32)
    requires
        from <= to,
        to <= 31,
    ensures
        *final(r) == with_field(*old(r), from as u32, to as u32, bits),
{
    let f: u32 = from as u32;
    let t: u32 = to as u32;
    let mask: u32 = (u32::MAX >> (31 - t)) & (u32::MAX << f);
    let current: u32 = *r;
    *r = (current & !mask) | ((bits << f) & mask);
}

/// The 16-bit word whose set bits are exactly the positions `from..=to`.
pub open spec fn range_mask_16(from: u16, to: u16) -> u16 {
    (u16::MAX >> ((15 - to) as u16)) & (u16::MAX << from)
}

/// The 16-bit word whose `to - from + 1` lowest bits are set.
pub open spec fn width_mask_16(from: u16, to: u16) -> u16 {
    u16::MAX >> ((15 - (to - from)) as u16)
}

/// The value held in bits `from..=to` of `r`, moved down to bit 0.
pub open spec fn field_of_16(r: u16, from: u16, to: u16) -> u16 {
    (r & range_mask_16(from, to)) >> from
}

/// `r` with bits `from..=to` replaced by the lowest bits of `bits`.
pub open spec fn with_field_16(r: u16, from: u16, to: u16, bits: u16) -> u16 {
    (r & !range_mask_16(from, to)) | ((bits << from) & range_mask_16(from, to))
}

/// Replaces bits `from..=to` of a 16-bit register value by the lowest bits of
/// `bits`, leaving every bit outside the range as it was.
pub fn bits_set_16(r: &mut u16, from: usize, to: usize, bits: u16)
    requires
        from <= to,
        to <= 15,
    ensures
        *final(r) == with_field_16(*old(r), from as u16, to as u16, bits),
{
    let f: u16 = from as u16;
    let t: u16 = to as u16;
    let mask: u16 = (u16::MAX >> (15 - t)) & (u16::MAX << f);
    let current: u16 = *r;
    *r = (current & !mask) | ((bits << f) & mask);
}

/// Writing a bit range and reading it back gives the written value, cut to
/// the width of the range; a value that fits in the range comes back as it
/// was written.
pub proof fn lemma_set_then_get(r: u32, from: u32, to: u32, bits: u32)
    by (bit_vector)
    requires
        from <= to,
        to <= 31,
    ensures
        field_of(with_field(r, from, to, bits), from, to) == bits & width_mask(from, to),
        bits <= width_mask(from, to) ==> field_of(with_field(r, from, to, bits), from, to) == bits,
{
}

/// Writing a bit range changes no bit outside the range.
pub proof fn lemma_set_keeps_other_bits(r: u32, from: u32, to: u32, bits: u32)
    by (bit_vector)
    requires
        from <= to,
        to <= 31,
    ensures
        with_field(r, from, to, bits) & !range_mask(from, to) == r & !range_mask(from, to),
        forall|i: u32|
            i < 32 && !(from <= i <= to) ==> (#[trigger] (with_field(r, from, to, bits) >> i)) & 1
                == (r >> i) & 1,
{
}

/// A bit range read from a register never exceeds the width of the range,
/// and writing back what was read leaves the register unchanged.
pub proof fn lemma_get_then_set(r: u32, from: u32, to: u32)
    by (bit_vector)
    requires
        from <= to,
        to <= 31,
    ensures
        field_of(r, from, to) <= width_mask(from, to),
        with_field(r, from, to, field_of(r, from, to)) == r,
{
}

/// The 16-bit form of the round trip: the written value comes back cut to
/// the width of the range, and no bit outside the range changes.
pub proof fn lemma_set_then_get_16(r: u16, from: u16, to: u16, bits: u16)
    by (bit_vector)
    requires
        from <= to,
        to <= 15,
    ensures
        field_of_16(with_field_16(r, from, to, bits), from, to) == bits & width_mask_16(from, to),
        bits <= width_mask_16(from, to) ==> field_of_16(with_field_16(r, from, to, bits), from, to)
            == bits,
        with_field_16(r, from, to, bits) & !range_mask_16(from, to) == r & !range_mask_16(from, to),
{
}

} // verus!
