//! Facts about products and floor division used by the share conversions.
use vstd::arithmetic::div_mod::{lemma_div_by_multiple, lemma_div_is_ordered, lemma_fundamental_div_mod};
use vstd::arithmetic::mul::{lemma_mul_inequality, lemma_mul_is_commutative, lemma_mul_upper_bound};
use vstd::prelude::*;

verus! {

/// Scaling `y` by a fraction `x / c` that is at most one stays within `[0, y]`.
pub proof fn lemma_scaled_down(x: int, y: int, c: int)
    requires
        0 <= x <= c,
        0 <= y,
        0 < c,
    ensures
        0 <= x * y / c <= y,
{
    lemma_mul_inequality(x, c, y);
    lemma_mul_inequality(0, x, y);
    lemma_mul_is_commutative(c, y);
    lemma_div_is_ordered(x * y, y * c, c);
    lemma_div_by_multiple(y, c);
    lemma_div_is_ordered(0, x * y, c);
}

/// Scaling `x` by a fraction `y / c` that is at least one gives at least `x`.
pub proof fn lemma_scaled_up(x: int, y: int, c: int)
    requires
        0 <= x,
        c <= y,
        0 < c,
    ensures
        x <= x * y / c,
{
    lemma_mul_inequality(c, y, x);
    lemma_mul_is_commutative(c, x);
    lemma_mul_is_commutative(y, x);
    lemma_div_is_ordered(x * c, x * y, c);
    lemma_div_by_multiple(x, c);
}

/// Floor division is monotone in the fraction: `n1 / d1 <= n2 / d2` as
/// fractions implies it for the quotients.
pub proof fn lemma_floor_monotone(n1: int, d1: int, n2: int, d2: int)
    requires
        0 <= n1,
        0 < d1,
        0 < d2,
        n1 * d2 <= n2 * d1,
    ensures
        n1 / d1 <= n2 / d2,
{
    let q = n1 / d1;
    lemma_fundamental_div_mod(n1, d1);
    assert(0 <= n1 % d1);
    assert(q * d1 <= n1) by (nonlinear_arith)
        requires
            n1 == d1 * q + n1 % d1,
            0 <= n1 % d1,
    ;
    assert(q * d2 <= n2) by (nonlinear_arith)
        requires
            q * d1 <= n1,
            n1 * d2 <= n2 * d1,
            0 < d1,
            0 < d2,
    ;
    lemma_div_is_ordered(q * d2, n2, d2);
    lemma_div_by_multiple(q, d2);
}

/// The order of fractions with positive denominators is transitive.
pub proof fn lemma_fraction_le_trans(n1: int, d1: int, n2: int, d2: int, n3: int, d3: int)
    requires
        0 < d1,
        0 < d2,
        0 < d3,
        n1 * d2 <= n2 * d1,
        n2 * d3 <= n3 * d2,
    ensures
        n1 * d3 <= n3 * d1,
{
    assert(n1 * d3 * d2 <= n3 * d1 * d2) by (nonlinear_arith)
        requires
            n1 * d2 <= n2 * d1,
            n2 * d3 <= n3 * d2,
            0 < d1,
            0 < d3,
    ;
    assert(n1 * d3 <= n3 * d1) by (nonlinear_arith)
        requires
            n1 * d3 * d2 <= n3 * d1 * d2,
            0 < d2,
    ;
}

/// The product of two `u64` values fits in a `u128`.
pub proof fn lemma_u64_product_fits(x: u64, y: u64)
    ensures
        0 <= x * y <= u128::MAX,
{
    lemma_mul_upper_bound(x as int, u64::MAX as int, y as int, u64::MAX as int);
    lemma_mul_inequality(0, x as int, y as int);
    assert(0xffff_ffff_ffff_ffffint * 0xffff_ffff_ffff_ffffint <= 0xffff_ffff_ffff_ffff_ffff_ffff_ffff_ffffint) by (nonlinear_arith);
}

} // verus!
