//! Clamping of shading values into a displayable channel range.

use vstd::prelude::*;

verus! {

/// `v` clamped to the interval `[lo, hi]`: the nearer bound when `v` lies
/// outside, `v` itself when it lies inside. When `lo > hi`, `lo` wins, as in
/// `max(min(v, hi), lo)`.
pub open spec fn clamp(v: int, hi: int, lo: int) -> int {
    vstd::math::max(vstd::math::min(v, hi), lo)
}

/// Clamps a shading value into `[min_c, max_c]` (upper bound first, then the
/// lower bound, so the lower bound wins when the two cross), keeping a lit
/// surface from going fully black and a large value from wrapping.
pub fn check_overflow(color: u8, max_c: u8, min_c: u8) -> (r: u8)
    ensures
        r as int == clamp(color as int, max_c as int, min_c as int),
{
    let m: u8 = if color < max_c {
        color
    } else {
        max_c
    };
    if m < min_c {
        min_c
    } else {
        m
    }
}

/// Clamping is idempotent, and its result lies in `[lo, hi]`, whenever the
/// bounds are ordered.
pub proof fn lemma_clamp_idempotent(v: int, hi: int, lo: int)
    requires
        lo <= hi,
    ensures
        clamp(clamp(v, hi, lo), hi, lo) == clamp(v, hi, lo),
        lo <= clamp(v, hi, lo) <= hi,
{
}

} // verus!
