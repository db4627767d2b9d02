use vstd::prelude::*;

verus! {

/// Value of the bit group `mask` of byte `b`, moved down by `shift`.
pub open spec fn field_of(b: u8, mask: u8, shift: u8) -> u8 {
    ((b & mask) >> shift) as u8
}

/// Byte `b` with the bit group `mask` replaced by `v` moved up by `shift`;
/// bits of `v` that do not fit the group are dropped.
pub open spec fn merged(b: u8, mask: u8, shift: u8, v: u8) -> u8 {
    ((b & !mask) | (((v << shift) as u8) & mask)) as u8
}

/// Extracts the bit group `mask` of `b`, moved down by `shift`.
pub fn extract_bits(b: u8, mask: u8, shift: u8) -> (r: u8)
    requires
        shift < 8,
    ensures
        r == field_of(b, mask, shift),
{
    (b & mask) >> shift
}

/// Replaces the bit group `mask` of `b` by `v` moved up by `shift`.
pub fn merge_bits(b: u8, mask: u8, shift: u8, v: u8) -> (r: u8)
    requires
        shift < 8,
    ensures
        r == merged(b, mask, shift, v),
{
    (b & !mask) | ((v << shift) & mask)
}

/// Merging `v` into a group and reading the group back gives `v` cut to
/// the group's width.
pub proof fn lemma_merge_then_extract(b: u8, mask: u8, shift: u8, v: u8)
    requires
        shift < 8,
    ensures
        field_of(merged(b, mask, shift, v), mask, shift) == v & (mask >> shift),
{
    assert(((((b & !mask) | (((v << shift) as u8) & mask)) as u8 & mask) >> shift) as u8
        == v & (mask >> shift)) by (bit_vector)
        requires
            shift < 8,
    ;
}

/// Merging into one group leaves every bit outside it as it was.
pub proof fn lemma_merge_keeps_other_bits(b: u8, mask: u8, shift: u8, v: u8, other: u8)
    requires
        mask & other == 0,
    ensures
        merged(b, mask, shift, v) & other == b & other,
{
    assert(((b & !mask) | (((v << shift) as u8) & mask)) as u8 & other == b & other)
        by (bit_vector)
        requires
            mask & other == 0,
    ;
}

} // verus!
