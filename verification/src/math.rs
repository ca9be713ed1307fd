//! Fixed-point helpers. Products of two 64-bit quantities are formed in 128
//! bits, and a quotient that does not fit 64 bits is reported, never cut.

use vstd::prelude::*;
use vstd::arithmetic::div_mod::{lemma_fundamental_div_mod, lemma_fundamental_div_mod_converse, lemma_mod_bound};
use crate::errors::Errors;

verus! {

/// One hundred percent, in basis points.
pub const BPS_DENOMINATOR: u64 = 10_000;

/// `n / d` rounded up.
pub open spec fn ceil_div(n: nat, d: nat) -> nat
    recommends
        d > 0,
{
    if n % d == 0 {
        n / d
    } else {
        n / d + 1
    }
}

/// What a quotient is reported as: itself when the divisor is not zero and
/// the quotient fits 64 bits, `MathOverflow` otherwise.
pub open spec fn narrowed(q: nat, d: nat) -> Result<u64, Errors> {
    if d == 0 || q > u64::MAX {
        Err(Errors::MathOverflow)
    } else {
        Ok(q as u64)
    }
}

/// `a * b / d` rounded down, as [`mul_div`] reports it.
pub open spec fn mul_div_floor(a: nat, b: nat, d: nat) -> Result<u64, Errors> {
    narrowed((a * b) / d, d)
}

/// `a * b / d` rounded up, as [`mul_div_ceil`] reports it.
pub open spec fn mul_div_ceiling(a: nat, b: nat, d: nat) -> Result<u64, Errors> {
    narrowed(ceil_div(a * b, d), d)
}

/// `a + b`, or `MathOverflow` when the sum leaves 64 bits.
pub open spec fn sum(a: nat, b: nat) -> Result<u64, Errors> {
    narrowed(a + b, 1)
}

/// `a - b`, or `MathOverflow` when `b` is the larger.
pub open spec fn difference(a: nat, b: nat) -> Result<u64, Errors> {
    if a < b {
        Err(Errors::MathOverflow)
    } else {
        Ok((a - b) as u64)
    }
}

/// The product of two 64-bit quantities fits 128 bits.
pub proof fn lemma_product_fits(a: u64, b: u64)
    ensures
        a * b <= u64::MAX * u64::MAX,
        a * b <= u128::MAX,
{
    assert(a * b <= u64::MAX * u64::MAX) by (nonlinear_arith)
        requires
            a <= u64::MAX,
            b <= u64::MAX,
    ;
}

/// A quotient and its divisor bracket the dividend.
pub proof fn lemma_div_brackets(n: nat, d: nat)
    requires
        d > 0,
    ensures
        d * (n / d) <= n < d * (n / d) + d,
        n == d * (n / d) + n % d,
        0 <= n % d < d,
{
    lemma_fundamental_div_mod(n as int, d as int);
    lemma_mod_bound(n as int, d as int);
}

/// A dividend of at most `m * d` has a quotient of at most `m`.
pub proof fn lemma_div_upper(n: nat, d: nat, m: nat)
    requires
        d > 0,
        n <= m * d,
    ensures
        n / d <= m,
{
    lemma_div_brackets(n, d);
    let q: nat = n / d;
    assert(q <= m) by (nonlinear_arith)
        requires
            d > 0,
            d * q <= n,
            n <= m * d,
    ;
}

/// A dividend of at least `m * d` has a quotient of at least `m`.
pub proof fn lemma_div_lower(n: nat, d: nat, m: nat)
    requires
        d > 0,
        m * d <= n,
    ensures
        m <= n / d,
{
    lemma_div_brackets(n, d);
    let q: nat = n / d;
    assert(m <= q) by (nonlinear_arith)
        requires
            d > 0,
            n < d * q + d,
            m * d <= n,
    ;
}

/// The rounded-up quotient is the least `c` with `c * d >= n`.
pub proof fn lemma_ceil_div_brackets(n: nat, d: nat)
    requires
        d > 0,
    ensures
        n <= d * ceil_div(n, d) < n + d,
        n / d <= ceil_div(n, d) <= n / d + 1,
{
    lemma_div_brackets(n, d);
    let q: nat = n / d;
    let r: nat = n % d;
    if r != 0 {
        assert(d * (q + 1) == d * q + d) by (nonlinear_arith);
    }
}

/// A dividend of at most `m * d` has a rounded-up quotient of at most `m`.
pub proof fn lemma_ceil_div_upper(n: nat, d: nat, m: nat)
    requires
        d > 0,
        n <= m * d,
    ensures
        ceil_div(n, d) <= m,
{
    lemma_ceil_div_brackets(n, d);
    let c: nat = ceil_div(n, d);
    assert(c <= m) by (nonlinear_arith)
        requires
            d > 0,
            d * c < n + d,
            n <= m * d,
    ;
}

/// What is left of `b` after the rounded-up share `a * b / (a + x)` is the
/// rounded-down share `b * x / (a + x)`.
pub proof fn lemma_ceil_complement(a: nat, b: nat, x: nat)
    requires
        a + x > 0,
    ensures
        ceil_div(a * b, a + x) <= b,
        b - ceil_div(a * b, a + x) == (b * x) / (a + x),
{
    let d: nat = a + x;
    let n: nat = a * b;
    let q: nat = n / d;
    let r: nat = n % d;
    lemma_div_brackets(n, d);
    assert(n <= b * d) by (nonlinear_arith)
        requires
            n == a * b,
            d == a + x,
    ;
    lemma_ceil_div_upper(n, d, b);
    assert(b * x == b * d - n) by (nonlinear_arith)
        requires
            n == a * b,
            d == a + x,
    ;
    if r == 0 {
        assert(b * x == (b - q) * d + 0) by (nonlinear_arith)
            requires
                b * x == b * d - n,
                n == d * q + r,
                r == 0,
        ;
        lemma_fundamental_div_mod_converse((b * x) as int, d as int, b - q, 0);
    } else {
        assert(b * x == (b - q - 1) * d + (d - r)) by (nonlinear_arith)
            requires
                b * x == b * d - n,
                n == d * q + r,
        ;
        lemma_fundamental_div_mod_converse((b * x) as int, d as int, b - q - 1, d - r);
    }
}

/// `a * b / d`, rounded down.
pub fn mul_div(a: u64, b: u64, d: u128) -> (r: Result<u64, Errors>)
    ensures
        r == mul_div_floor(a as nat, b as nat, d as nat),
{
    if d == 0 {
        return Err(Errors::MathOverflow);
    }
    proof {
        lemma_product_fits(a, b);
    }
    let n: u128 = (a as u128) * (b as u128);
    let q: u128 = n / d;
    if q > u64::MAX as u128 {
        Err(Errors::MathOverflow)
    } else {
        Ok(q as u64)
    }
}

/// `a * b / d`, rounded up.
pub fn mul_div_ceil(a: u64, b: u64, d: u128) -> (r: Result<u64, Errors>)
    ensures
        r == mul_div_ceiling(a as nat, b as nat, d as nat),
{
    if d == 0 {
        return Err(Errors::MathOverflow);
    }
    proof {
        lemma_product_fits(a, b);
    }
    let n: u128 = (a as u128) * (b as u128);
    let q: u128 = n / d;
    if n % d == 0 {
        if q > u64::MAX as u128 {
            Err(Errors::MathOverflow)
        } else {
            Ok(q as u64)
        }
    } else if q >= u64::MAX as u128 {
        Err(Errors::MathOverflow)
    } else {
        Ok((q + 1) as u64)
    }
}

/// `a + b`, checked.
pub fn try_add(a: u64, b: u64) -> (r: Result<u64, Errors>)
    ensures
        r == sum(a as nat, b as nat),
{
    if a > u64::MAX - b {
        Err(Errors::MathOverflow)
    } else {
        Ok(a + b)
    }
}

/// `a - b`, checked.
pub fn try_sub(a: u64, b: u64) -> (r: Result<u64, Errors>)
    ensures
        r == difference(a as nat, b as nat),
{
    if a < b {
        Err(Errors::MathOverflow)
    } else {
        Ok(a - b)
    }
}

} // verus!
