//! Integer helpers shared by the geometry: truncating division as a
//! mathematical function, and the larger and smaller of two numbers.

use vstd::prelude::*;

verus! {

/// Whether `x` is a value an `i32` can hold.
pub open spec fn fits(x: int) -> bool {
    i32::MIN <= x <= i32::MAX
}

/// `a / b` with the fraction dropped, as machine division does it: toward zero
/// whatever the sign of `a`.
pub open spec fn toward_zero(a: int, b: int) -> int {
    if a >= 0 {
        a / b
    } else {
        -((-a) / b)
    }
}

/// The larger of two numbers.
pub open spec fn larger(a: int, b: int) -> int {
    if a >= b {
        a
    } else {
        b
    }
}

/// The smaller of two numbers.
pub open spec fn smaller(a: int, b: int) -> int {
    if a <= b {
        a
    } else {
        b
    }
}

/// `x` brought into `low..=high`; `low` wins when the bounds cross.
pub open spec fn within(x: int, low: int, high: int) -> int {
    larger(smaller(x, high), low)
}

/// The larger of two pixel counts.
pub fn larger_i32(a: i32, b: i32) -> (r: i32)
    ensures
        r == larger(a as int, b as int),
{
    if a >= b {
        a
    } else {
        b
    }
}

/// The smaller of two pixel counts.
pub fn smaller_i32(a: i32, b: i32) -> (r: i32)
    ensures
        r == smaller(a as int, b as int),
{
    if a <= b {
        a
    } else {
        b
    }
}

/// The larger of two wide intermediate results.
pub fn larger_i64(a: i64, b: i64) -> (r: i64)
    ensures
        r == larger(a as int, b as int),
{
    if a >= b {
        a
    } else {
        b
    }
}

/// The smaller of two wide intermediate results.
pub fn smaller_i64(a: i64, b: i64) -> (r: i64)
    ensures
        r == smaller(a as int, b as int),
{
    if a <= b {
        a
    } else {
        b
    }
}

/// The smaller of two counts.
pub fn smaller_usize(a: usize, b: usize) -> (r: usize)
    ensures
        r == smaller(a as int, b as int),
{
    if a <= b {
        a
    } else {
        b
    }
}

/// The larger of two counts.
pub fn larger_usize(a: usize, b: usize) -> (r: usize)
    ensures
        r == larger(a as int, b as int),
{
    if a >= b {
        a
    } else {
        b
    }
}

/// The larger of two numbers is one of them and below neither; the smaller is
/// one of them and above neither.
pub proof fn the_larger_and_the_smaller_are_of_the_two(a: int, b: int)
    ensures
        larger(a, b) == a || larger(a, b) == b,
        larger(a, b) >= a,
        larger(a, b) >= b,
        smaller(a, b) + larger(a, b) == a + b,
{
}

/// A number brought between two bounds is itself when it is between them and
/// the nearer bound when it is not.
pub proof fn bringing_within_moves_the_least(x: int, low: int, high: int)
    requires
        low <= high,
    ensures
        low <= x <= high ==> within(x, low, high) == x,
        x < low ==> within(x, low, high) == low,
        x > high ==> within(x, low, high) == high,
{
}

/// Machine division drops the fraction: what is left over has the sign of the
/// number that was divided and is short of the divisor.
pub proof fn division_drops_the_fraction(a: int, b: int)
    requires
        b > 0,
    ensures
        a >= 0 ==> 0 <= a - b * toward_zero(a, b) < b,
        a <= 0 ==> -b < a - b * toward_zero(a, b) <= 0,
{
    if a >= 0 {
        vstd::arithmetic::div_mod::lemma_fundamental_div_mod(a, b);
        vstd::arithmetic::div_mod::lemma_mod_bound(a, b);
    } else {
        let q = (-a) / b;
        vstd::arithmetic::div_mod::lemma_fundamental_div_mod(-a, b);
        vstd::arithmetic::div_mod::lemma_mod_bound(-a, b);
        assert(b * (-q) == -(b * q)) by (nonlinear_arith);
    }
    if a == 0 {
        vstd::arithmetic::div_mod::lemma_div_basics(b);
        assert(b * 0 == 0);
    }
}

} // verus!
