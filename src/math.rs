use vstd::prelude::*;

verus! {

/// The exact quotient `floor(a * b / d)` as a mathematical integer.
pub open spec fn floor_mul_div(a: int, b: int, d: int) -> int {
    (a * b) / d
}

/// What `mul_div` returns: the floored quotient when the denominator is
/// non-zero and the quotient fits in 64 bits, `None` otherwise.
pub open spec fn mul_div_result(a: u64, b: u64, d: u64) -> Option<u64> {
    if d == 0 || floor_mul_div(a as int, b as int, d as int) > u64::MAX {
        None
    } else {
        Some(floor_mul_div(a as int, b as int, d as int) as u64)
    }
}

/// `floor(a * b / denominator)` computed with a 128-bit intermediate, so the
/// product itself never overflows; `None` on a zero denominator or when the
/// quotient does not fit in a `u64`.
pub fn mul_div(a: u64, b: u64, denominator: u64) -> (r: Option<u64>)
    ensures
        r == mul_div_result(a, b, denominator),
{
    if denominator == 0 {
        return None;
    }
    assert((a as int) * (b as int) <= (u64::MAX as int) * (u64::MAX as int)) by (nonlinear_arith)
        requires
            0 <= a <= u64::MAX,
            0 <= b <= u64::MAX,
    ;
    let product: u128 = (a as u128) * (b as u128);
    let quotient: u128 = product / (denominator as u128);
    if quotient > u64::MAX as u128 {
        None
    } else {
        Some(quotient as u64)
    }
}

/// Laws of `mul_div` for a non-zero denominator: the result does not depend
/// on the order of the two factors, it never rounds up (`q * d <= a * b`, and
/// `q` is the largest such value), and it is `None` exactly when the true
/// quotient does not fit in 64 bits.
pub proof fn mul_div_laws(a: u64, b: u64, d: u64)
    requires
        d > 0,
    ensures
        mul_div_result(a, b, d) == mul_div_result(b, a, d),
        mul_div_result(a, b, d) is None <==> (a as int) * (b as int) / (d as int) > u64::MAX,
        mul_div_result(a, b, d) matches Some(q) ==> (q as int) * (d as int) <= (a as int) * (
        b as int) < (q as int + 1) * (d as int),
{
    assert((a as int) * (b as int) == (b as int) * (a as int)) by (nonlinear_arith);
    let p = (a as int) * (b as int);
    let q = p / (d as int);
    assert(q * (d as int) <= p < (q + 1) * (d as int)) by (nonlinear_arith)
        requires
            d > 0,
            q == p / (d as int),
    ;
}

/// The floored quotient never exceeds `a` when `b <= d`.
pub proof fn lemma_mul_div_at_most(a: int, b: int, d: int)
    requires
        0 <= a,
        0 <= b <= d,
        0 < d,
    ensures
        0 <= floor_mul_div(a, b, d) <= a,
{
    assert(0 <= a * b <= a * d) by (nonlinear_arith)
        requires
            0 <= a,
            0 <= b <= d,
    ;
    vstd::arithmetic::div_mod::lemma_div_is_ordered(a * b, a * d, d);
    assert(a * d == d * a) by (nonlinear_arith);
    vstd::arithmetic::div_mod::lemma_div_multiples_vanish(a, d);
    vstd::arithmetic::div_mod::lemma_div_pos_is_pos(a * b, d);
}

/// The floored quotient grows with the second factor.
pub proof fn lemma_mul_div_monotone(a: int, b1: int, b2: int, d: int)
    requires
        0 <= a,
        0 <= b1 <= b2,
        0 < d,
    ensures
        floor_mul_div(a, b1, d) <= floor_mul_div(a, b2, d),
{
    assert(a * b1 <= a * b2) by (nonlinear_arith)
        requires
            0 <= a,
            b1 <= b2,
    ;
    vstd::arithmetic::div_mod::lemma_div_is_ordered(a * b1, a * b2, d);
}

} // verus!
