//! Rounding division.
use vstd::prelude::*;

verus! {

/// `a / b` rounded up.
pub open spec fn ceil_div(a: int, b: int) -> int {
    (a + b - 1) / b
}

/// The rounded-up quotient is the least number whose multiple reaches `a`.
pub proof fn ceil_div_is_least_cover(a: int, b: int)
    requires
        a >= 0,
        b > 0,
    ensures
        ceil_div(a, b) >= 0,
        a <= ceil_div(a, b) * b,
        ceil_div(a, b) * b < a + b,
        a > 0 ==> (ceil_div(a, b) - 1) * b < a,
        ceil_div(a, b) == (if a % b == 0 {
            a / b
        } else {
            a / b + 1
        }),
        ceil_div(a, b) <= a,
        a > 0 ==> ceil_div(a, b) >= 1,
{
    vstd::arithmetic::div_mod::lemma_fundamental_div_mod(a, b);
    vstd::arithmetic::div_mod::lemma_fundamental_div_mod(a + b - 1, b);
    let q = a / b;
    let r = a % b;
    let q2 = (a + b - 1) / b;
    let r2 = (a + b - 1) % b;
    assert(0 <= r < b && 0 <= r2 < b) by (nonlinear_arith)
        requires
            b > 0,
            r == a % b,
            r2 == (a + b - 1) % b,
    ;
    assert(q2 * b < a + b && a <= q2 * b) by (nonlinear_arith)
        requires
            a + b - 1 == b * q2 + r2,
            0 <= r2 < b,
    ;
    assert((q2 - 1) * b == q2 * b - b) by (nonlinear_arith);
    assert(q2 >= 0) by (nonlinear_arith)
        requires
            a <= q2 * b,
            a >= 0,
            b > 0,
    ;
    if a > 0 {
        assert(q2 >= 1) by (nonlinear_arith)
            requires
                a <= q2 * b,
                a > 0,
                b > 0,
        ;
    }
    if r == 0 {
        assert(q2 == q) by (nonlinear_arith)
            requires
                a == b * q + r,
                r == 0,
                a <= q2 * b,
                q2 * b < a + b,
                b > 0,
        ;
    } else {
        assert(q2 == q + 1) by (nonlinear_arith)
            requires
                a == b * q + r,
                0 < r < b,
                a <= q2 * b,
                q2 * b < a + b,
                b > 0,
        ;
    }
    assert(q2 <= a) by (nonlinear_arith)
        requires
            q2 * b < a + b,
            b > 0,
            a >= 0,
            q2 >= 0,
    ;
}

pub fn div_ceil_u32(a: u32, b: u32) -> (r: u32)
    requires
        b != 0,
    ensures
        r == ceil_div(a as int, b as int),
{
    proof {
        ceil_div_is_least_cover(a as int, b as int);
    }
    let q: u32 = a / b;
    if a % b == 0 {
        q
    } else {
        q + 1
    }
}

pub fn div_ceil_u128(a: u128, b: u128) -> (r: u128)
    requires
        b != 0,
    ensures
        r == ceil_div(a as int, b as int),
{
    proof {
        ceil_div_is_least_cover(a as int, b as int);
    }
    let q: u128 = a / b;
    if a % b == 0 {
        q
    } else {
        q + 1
    }
}

pub fn div_ceil_usize(a: usize, b: usize) -> (r: usize)
    requires
        b != 0,
    ensures
        r == ceil_div(a as int, b as int),
{
    proof {
        ceil_div_is_least_cover(a as int, b as int);
    }
    let q: usize = a / b;
    if a % b == 0 {
        q
    } else {
        q + 1
    }
}

} // verus!
