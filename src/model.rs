//! What every generated bounded integer over `[lo, hi]` holds and returns,
//! as values, whatever its layout.

use vstd::prelude::*;

verus! {

/// `v` clamped into `[lo, hi]`.
pub open spec fn clamp(v: int, lo: int, hi: int) -> int {
    if v < lo {
        lo
    } else if v > hi {
        hi
    } else {
        v
    }
}

/// `in_range(v)` of a bounded integer over `[lo, hi]`.
pub open spec fn bounded_in_range(lo: int, hi: int, v: int) -> bool {
    lo <= v <= hi
}

/// The value held by `new(v)`, if any.
pub open spec fn bounded_new(lo: int, hi: int, v: int) -> Option<int> {
    if bounded_in_range(lo, hi, v) {
        Some(v)
    } else {
        None
    }
}

/// The value held by `new_saturating(v)`.
pub open spec fn bounded_saturating(lo: int, hi: int, v: int) -> int {
    clamp(v, lo, hi)
}

/// For every range `lo <= hi`: `new(v)` is present exactly when
/// `in_range(v)`, and then holds `v`.
pub proof fn lemma_new_iff_in_range(lo: int, hi: int, v: int)
    requires
        lo <= hi,
    ensures
        bounded_new(lo, hi, v).is_some() == bounded_in_range(lo, hi, v),
        bounded_new(lo, hi, v) matches Some(x) ==> x == v,
{
}

/// For every range `lo <= hi`: `new_saturating` lands in the range and is
/// idempotent.
pub proof fn lemma_saturating_idempotent(lo: int, hi: int, v: int)
    requires
        lo <= hi,
    ensures
        bounded_in_range(lo, hi, bounded_saturating(lo, hi, v)),
        bounded_saturating(lo, hi, bounded_saturating(lo, hi, v)) == bounded_saturating(lo, hi, v),
{
}

/// For every range: checked addition and multiplication, which check the
/// exact result with `new`, do not depend on the order of the operands.
pub proof fn lemma_checked_commutes(lo: int, hi: int, a: int, b: int)
    ensures
        bounded_new(lo, hi, a + b) == bounded_new(lo, hi, b + a),
        bounded_new(lo, hi, a * b) == bounded_new(lo, hi, b * a),
{
    assert(a * b == b * a) by (nonlinear_arith);
}

} // verus!
