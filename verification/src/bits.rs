//! Bit fields inside a 32-bit register word.
use vstd::prelude::*;

verus! {

/// The value of the field of `mask` (a run of low bits) placed at bit `lo` of `word`.
pub open spec fn field(word: u32, lo: u32, mask: u32) -> u32 {
    (word >> lo) & mask
}

/// `word` with the field of `mask` at bit `lo` replaced by `value` (cut to the mask).
pub open spec fn with_field(word: u32, lo: u32, mask: u32, value: u32) -> u32 {
    (word & !(mask << lo)) | ((value & mask) << lo)
}

/// Replaces the field of `mask` at bit `lo` of `word` by `value`.
pub fn set_field(word: u32, lo: u32, mask: u32, value: u32) -> (r: u32)
    requires
        lo < 32,
    ensures
        r == with_field(word, lo, mask, value),
{
    (word & !(mask << lo)) | ((value & mask) << lo)
}

} // verus!
