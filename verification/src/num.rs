//! Integer helpers.

use vstd::prelude::*;

verus! {

/// `a / b` rounded towards zero.
pub open spec fn truncated(a: int, b: int) -> int {
    if a >= 0 {
        a / b
    } else {
        -((-a) / b)
    }
}

/// `x` brought into `lo..=hi`.
pub open spec fn limited(x: int, lo: int, hi: int) -> int {
    if x < lo {
        lo
    } else if x > hi {
        hi
    } else {
        x
    }
}

/// `x` brought into `lo..=hi`.
pub fn limit(x: i128, lo: i128, hi: i128) -> (r: i128)
    requires
        lo <= hi,
    ensures
        r == limited(x as int, lo as int, hi as int),
        lo <= r <= hi,
{
    if x < lo {
        lo
    } else if x > hi {
        hi
    } else {
        x
    }
}

/// `a / b` rounded down.
pub fn floor_div(a: i128, b: i128) -> (r: i128)
    requires
        b > 1,
    ensures
        r == a as int / b as int,
{
    if a >= 0 {
        a / b
    } else {
        let n: i128 = -(a + 1);
        let q: i128 = n / b;
        proof {
            let r = n as int % b as int;
            vstd::arithmetic::div_mod::lemma_fundamental_div_mod(n as int, b as int);
            assert(b * (-q - 1) == -(b * q) - b) by (nonlinear_arith);
            vstd::arithmetic::div_mod::lemma_fundamental_div_mod_converse(a as int, b as int, -q - 1, b - r - 1);
        }
        -q - 1
    }
}

/// `a / b` rounded towards zero.
pub fn truncated_div(a: i128, b: i128) -> (r: i128)
    requires
        b > 1,
        a > i128::MIN,
    ensures
        r == truncated(a as int, b as int),
{
    if a >= 0 {
        a / b
    } else {
        -((-a) / b)
    }
}

/// Rounding towards zero loses less than one divisor, and never changes side.
pub proof fn rounding_towards_zero_loses_less_than_one(a: int, b: int)
    requires
        b > 0,
    ensures
        a >= 0 ==> 0 <= truncated(a, b) && truncated(a, b) * b <= a < (truncated(a, b) + 1) * b,
        a <= 0 ==> truncated(a, b) <= 0 && (truncated(a, b) - 1) * b < a <= truncated(a, b) * b,
{
    let n = if a >= 0 {
        a
    } else {
        -a
    };
    let q = n / b;
    vstd::arithmetic::div_mod::lemma_fundamental_div_mod(n, b);
    vstd::arithmetic::div_mod::lemma_div_pos_is_pos(n, b);
    assert(q * b <= n < (q + 1) * b) by (nonlinear_arith)
        requires
            n == b * q + n % b,
            0 <= n % b < b,
    ;
    if a < 0 {
        assert((-q) * b == -(q * b)) by (nonlinear_arith);
        assert((-q - 1) * b == -((q + 1) * b)) by (nonlinear_arith);
    }
}

/// What is brought into a range is in it, stays where it was if it was there
/// already, and is at the nearer end otherwise.
pub proof fn limiting_moves_no_further_than_it_must(x: int, lo: int, hi: int)
    requires
        lo <= hi,
    ensures
        lo <= limited(x, lo, hi) <= hi,
        lo <= x <= hi ==> limited(x, lo, hi) == x,
        x < lo ==> limited(x, lo, hi) == lo,
        x > hi ==> limited(x, lo, hi) == hi,
{
}

} // verus!
