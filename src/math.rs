use crate::error::ObricError;
use num::integer::Roots;
use vstd::arithmetic::power::pow;
use vstd::prelude::*;

verus! {

/// Distance between two unsigned magnitudes.
pub open spec fn dist(a: int, b: int) -> int {
    if a > b {
        a - b
    } else {
        b - a
    }
}

/// `r` is the floor of the square root of `n`.
pub open spec fn is_floor_sqrt(r: int, n: int) -> bool {
    0 <= r && r * r <= n && n < (r + 1) * (r + 1)
}

/// The floor of the square root of `n`, built up one integer at a time.
pub open spec fn floor_sqrt(n: nat) -> nat
    decreases n,
{
    if n == 0 {
        0
    } else {
        let r = floor_sqrt((n - 1) as nat);
        if (r + 1) * (r + 1) <= n {
            (r + 1) as nat
        } else {
            r
        }
    }
}

/// `floor_sqrt` meets its defining bracket.
pub proof fn lemma_floor_sqrt_bracket(n: nat)
    ensures
        is_floor_sqrt(floor_sqrt(n) as int, n as int),
    decreases n,
{
    if n > 0 {
        lemma_floor_sqrt_bracket((n - 1) as nat);
        let r = floor_sqrt((n - 1) as nat) as int;
        if (r + 1) * (r + 1) <= n {
            assert((r + 2) * (r + 2) > n) by (nonlinear_arith)
                requires
                    r >= 0,
                    n - 1 < (r + 1) * (r + 1),
            ;
        }
    }
}

/// Only one integer meets the floor-square-root bracket of `n`.
pub proof fn lemma_floor_sqrt_unique(r: int, s: int, n: int)
    requires
        is_floor_sqrt(r, n),
        is_floor_sqrt(s, n),
    ensures
        r == s,
{
    if r < s {
        assert((r + 1) * (r + 1) <= s * s) by (nonlinear_arith)
            requires
                0 <= r + 1 <= s,
        ;
    } else if s < r {
        assert((s + 1) * (s + 1) <= r * r) by (nonlinear_arith)
            requires
                0 <= s + 1 <= r,
        ;
    }
}

/// Relies on `num::integer::Roots::sqrt` for `u128`, documented to return the
/// truncated principal square root `r`, with `r * r <= n < (r + 1) * (r + 1)`.
#[verifier::external_body]
fn roots_sqrt(n: u128) -> (r: u128)
    ensures
        is_floor_sqrt(r as int, n as int),
{
    n.sqrt()
}

/// The floor of the square root of `n`.
pub fn sqrt_floor(n: u128) -> (r: u128)
    ensures
        r as nat == floor_sqrt(n as nat),
{
    let r: u128 = roots_sqrt(n);
    proof {
        lemma_floor_sqrt_bracket(n as nat);
        lemma_floor_sqrt_unique(r as int, floor_sqrt(n as nat) as int, n as int);
    }
    r
}

/// Relies on `num::pow` (exponentiation by squaring) for `u64`: it returns
/// `base` to the power `exp`. Every intermediate square is at most the result,
/// so no multiplication overflows while the result fits.
#[verifier::external_body]
fn num_pow(base: u64, exp: usize) -> (r: u64)
    requires
        pow(base as int, exp as nat) <= u64::MAX,
    ensures
        r as int == pow(base as int, exp as nat),
{
    num::pow(base, exp)
}

/// The factor `10^exp` as a `u64`, or `None` where it does not fit.
pub fn ten_pow(exp: usize) -> (r: Option<u64>)
    ensures
        match r {
            Some(v) => v as int == pow(10, exp as nat),
            None => pow(10, exp as nat) > u64::MAX,
        },
{
    proof {
        reveal_with_fuel(pow, 21);
        assert(pow(10, 19) == 10_000_000_000_000_000_000int);
        assert(pow(10, 20) == 100_000_000_000_000_000_000int);
    }
    if exp <= 19 {
        proof {
            vstd::arithmetic::power::lemma_pow_increases(10, exp as nat, 19);
        }
        Some(num_pow(10, exp))
    } else {
        proof {
            vstd::arithmetic::power::lemma_pow_increases(10, 20, exp as nat);
        }
        None
    }
}

/// The product of two 64-bit magnitudes fits in 128 bits.
pub proof fn lemma_wide_product(a: u64, b: u64)
    ensures
        0 <= (a as int) * (b as int) <= u128::MAX,
{
    assert(0 <= (a as int) * (b as int) <= (u64::MAX as int) * (u64::MAX as int)) by (nonlinear_arith)
        requires
            0 <= a <= u64::MAX,
            0 <= b <= u64::MAX,
    ;
}

/// Moving along the curve by a positive amount in Y never lands right of the
/// point it left in X.
pub proof fn lemma_output_bounded_by_reserve(k: int, x: int, dy: int)
    requires
        k >= 0,
        x > 0,
        dy > 0,
    ensures
        k / (k / x + dy) <= x,
{
    let q = k / x;
    vstd::arithmetic::div_mod::lemma_fundamental_div_mod(k, x);
    vstd::arithmetic::div_mod::lemma_mod_bound(k, x);
    vstd::arithmetic::div_mod::lemma_div_pos_is_pos(k, x);
    assert(k < (q + 1) * x) by (nonlinear_arith)
        requires
            k == x * q + k % x,
            k % x < x,
    ;
    vstd::arithmetic::div_mod::lemma_multiply_divide_lt(k, q + 1, x);
    vstd::arithmetic::div_mod::lemma_div_is_ordered_by_denominator(k, q + 1, q + dy);
}

/// Absolute difference of two unsigned magnitudes. The subtraction taken is
/// always the one that cannot underflow, so the result is always `Ok`.
pub fn abs_diff(x: u64, y: u64) -> (r: Result<u64, ObricError>)
    ensures
        r == Ok::<u64, ObricError>(dist(x as int, y as int) as u64),
{
    if x > y {
        Ok(x - y)
    } else {
        Ok(y - x)
    }
}

} // verus!
