//! Truncating (round-toward-zero) integer division and remainder.
//!
//! Rust's `/` and `%` on signed integers truncate toward zero, while the
//! `/` and `%` of specifications are Euclidean.  The component magnitudes
//! of a duration breakdown are defined by the truncating forms, so they
//! are given spec functions of their own here, together with the facts
//! the rest of the crate needs about them.

use vstd::prelude::*;

verus! {

/// Quotient of `a / b` rounded toward zero (for `b > 0`).
pub open spec fn tdiv(a: int, b: int) -> int {
    if a >= 0 {
        a / b
    } else {
        -((-a) / b)
    }
}

/// Remainder of `a / b` under truncating division: it carries the sign
/// of `a` and satisfies `a == b * tdiv(a, b) + tmod(a, b)`.
pub open spec fn tmod(a: int, b: int) -> int {
    if a >= 0 {
        a % b
    } else {
        -((-a) % b)
    }
}

/// `tdiv` and `tmod` decompose the dividend, and the remainder is
/// bounded by the divisor and carries the dividend's sign.
pub proof fn lemma_tdiv_tmod(a: int, b: int)
    requires
        b > 0,
    ensures
        a == b * tdiv(a, b) + tmod(a, b),
        -b < tmod(a, b) < b,
        a >= 0 ==> tmod(a, b) >= 0 && tdiv(a, b) >= 0,
        a <= 0 ==> tmod(a, b) <= 0 && tdiv(a, b) <= 0,
{
    if a >= 0 {
        vstd::arithmetic::div_mod::lemma_fundamental_div_mod(a, b);
        vstd::arithmetic::div_mod::lemma_mod_bound(a, b);
        vstd::arithmetic::div_mod::lemma_div_pos_is_pos(a, b);
    } else {
        vstd::arithmetic::div_mod::lemma_fundamental_div_mod(-a, b);
        vstd::arithmetic::div_mod::lemma_mod_bound(-a, b);
        vstd::arithmetic::div_mod::lemma_div_pos_is_pos(-a, b);
        assert(a == b * tdiv(a, b) + tmod(a, b)) by {
            assert(-a == b * ((-a) / b) + ((-a) % b));
            assert(b * -((-a) / b) == -(b * ((-a) / b))) by (nonlinear_arith);
        }
    }
}

/// A quotient is bounded whenever its dividend is: if `|a| < (k + 1) * b`
/// then `|tdiv(a, b)| <= k`.
pub proof fn lemma_tdiv_bound(a: int, b: int, k: int)
    requires
        b > 0,
        k >= 0,
        -((k + 1) * b) < a < (k + 1) * b,
    ensures
        -k <= tdiv(a, b) <= k,
{
    let m = if a >= 0 {
        a
    } else {
        -a
    };
    assert(m < b * (k + 1)) by (nonlinear_arith)
        requires
            m < (k + 1) * b,
    ;
    vstd::arithmetic::div_mod::lemma_multiply_divide_lt(m, b, k + 1);
    vstd::arithmetic::div_mod::lemma_div_pos_is_pos(m, b);
}

/// Recomposing a quotient with an in-range remainder of matching sign
/// and dividing again gives the two back.  This is the arithmetic heart
/// of the round-trip guarantee of the duration adapters.
pub proof fn lemma_recompose_tdiv_tmod(q: int, r: int, b: int)
    requires
        b > 0,
        -b < r < b,
        q > 0 ==> r >= 0,
        q < 0 ==> r <= 0,
    ensures
        tdiv(q * b + r, b) == q,
        tmod(q * b + r, b) == r,
{
    let a = q * b + r;
    if q >= 0 && r >= 0 {
        assert(a >= 0) by (nonlinear_arith)
            requires
                q >= 0,
                r >= 0,
                b > 0,
                a == q * b + r,
        ;
        vstd::arithmetic::div_mod::lemma_fundamental_div_mod_converse(a, b, q, r);
    } else {
        // The remaining case: q <= 0 and r <= 0, not both zero.
        assert(q <= 0 && r <= 0);
        assert(-a == (-q) * b + (-r)) by (nonlinear_arith)
            requires
                a == q * b + r,
        ;
        assert(-a > 0) by (nonlinear_arith)
            requires
                q <= 0,
                r <= 0,
                !(q >= 0 && r >= 0) ==> (q < 0 || r < 0),
                q < 0 || r < 0,
                b > 0,
                -a == (-q) * b + (-r),
        ;
        vstd::arithmetic::div_mod::lemma_fundamental_div_mod_converse(-a, b, -q, -r);
    }
}

} // verus!
