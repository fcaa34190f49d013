//! Non-negative fixed-point numbers with nine decimal places.
//!
//! Every physical quantity of this crate (millimetres, metres, pixels per
//! metre, tangents, pixel counts in ranges) is held in a `u64` that counts
//! billionths of its unit.  The largest `u64` does not stand for a number: it
//! means "unbounded".  An operation that is given it where a larger operand
//! makes a larger result, that divides by zero or that leaves the
//! representable range answers with it.

use vstd::prelude::*;
use vstd::arithmetic::div_mod::{
    lemma_div_denominator, lemma_div_is_ordered, lemma_div_is_ordered_by_denominator,
    lemma_div_multiples_vanish, lemma_remainder,
};
use vstd::arithmetic::mul::lemma_mul_inequality;

verus! {

/// The integer that represents 1.0.
pub const SCALE: u64 = 1_000_000_000;

/// The integer that represents 0.5.
pub const HALF: u64 = 500_000_000;

/// The value that stands for "unbounded".
pub const UNBOUNDED: u64 = 0xFFFF_FFFF_FFFF_FFFF;

/// The fixed-point number that represents a whole number.
pub open spec fn whole(count: nat) -> nat {
    count * SCALE as nat
}

/// Brings a count to fixed point.  Every 32-bit count fits.
pub fn whole_u64(count: u32) -> (r: u64)
    ensures
        r as nat == whole(count as nat),
        r < UNBOUNDED,
{
    count as u64 * SCALE
}

/// `a * b / c`, rounded down, on fixed-point operands.
///
/// The result is `UNBOUNDED` as soon as an operand of the product is
/// unbounded, the divisor is zero, or the exact quotient does not fit.
/// Otherwise an unbounded divisor gives zero.
pub open spec fn mul_div(a: nat, b: nat, c: nat) -> nat {
    if a >= UNBOUNDED || b >= UNBOUNDED || c == 0 {
        UNBOUNDED as nat
    } else if c >= UNBOUNDED {
        0
    } else if a * b / c >= UNBOUNDED {
        UNBOUNDED as nat
    } else {
        a * b / c
    }
}

/// Computes `mul_div` on machine integers, through a 128-bit product.
pub fn mul_div_u64(a: u64, b: u64, c: u64) -> (r: u64)
    ensures
        r as nat == mul_div(a as nat, b as nat, c as nat),
{
    if a == UNBOUNDED || b == UNBOUNDED || c == 0 {
        return UNBOUNDED;
    }
    if c == UNBOUNDED {
        return 0;
    }
    assert(a * b <= 0xFFFF_FFFF_FFFF_FFFF * 0xFFFF_FFFF_FFFF_FFFF) by (nonlinear_arith)
        requires
            a <= 0xFFFF_FFFF_FFFF_FFFF,
            b <= 0xFFFF_FFFF_FFFF_FFFF,
    ;
    let product: u128 = (a as u128) * (b as u128);
    let quotient: u128 = product / (c as u128);
    if quotient >= UNBOUNDED as u128 {
        UNBOUNDED
    } else {
        quotient as u64
    }
}

/// `a + b` on fixed-point operands: unbounded as soon as an operand is, or
/// the exact sum does not fit.
pub open spec fn sum(a: nat, b: nat) -> nat {
    if a >= UNBOUNDED || b >= UNBOUNDED || a + b >= UNBOUNDED {
        UNBOUNDED as nat
    } else {
        a + b
    }
}

/// Computes `sum` on machine integers.
pub fn sum_u64(a: u64, b: u64) -> (r: u64)
    ensures
        r as nat == sum(a as nat, b as nat),
{
    if a == UNBOUNDED || b == UNBOUNDED || b >= UNBOUNDED - a {
        UNBOUNDED
    } else {
        a + b
    }
}

/// `a - b` on fixed-point operands, never below zero: unbounded where `a`
/// is, zero where `b` is the larger.
pub open spec fn difference(a: nat, b: nat) -> nat {
    if a >= UNBOUNDED {
        UNBOUNDED as nat
    } else if a >= b {
        (a - b) as nat
    } else {
        0
    }
}

/// Computes `difference` on machine integers.
pub fn difference_u64(a: u64, b: u64) -> (r: u64)
    ensures
        r as nat == difference(a as nat, b as nat),
{
    if a == UNBOUNDED {
        UNBOUNDED
    } else if a >= b {
        a - b
    } else {
        0
    }
}

/// How far two fixed-point numbers are apart: unbounded as soon as one of
/// them is.
pub open spec fn gap(a: nat, b: nat) -> nat {
    if a >= UNBOUNDED || b >= UNBOUNDED {
        UNBOUNDED as nat
    } else if a >= b {
        (a - b) as nat
    } else {
        (b - a) as nat
    }
}

/// Computes `gap` on machine integers.
pub fn gap_u64(a: u64, b: u64) -> (r: u64)
    ensures
        r as nat == gap(a as nat, b as nat),
{
    if a == UNBOUNDED || b == UNBOUNDED {
        UNBOUNDED
    } else if a >= b {
        a - b
    } else {
        b - a
    }
}

/// Where `mul_div` gives a bounded number for a bounded divisor, that
/// number is the exact quotient rounded down: times the divisor it does
/// not exceed the product, and the next number up does.
pub proof fn lemma_mul_div_rounds_down(a: nat, b: nat, c: nat)
    requires
        c < UNBOUNDED,
        mul_div(a, b, c) < UNBOUNDED,
    ensures
        mul_div(a, b, c) * c <= a * b < (mul_div(a, b, c) + 1) * c,
{
    let product = a * b;
    let quotient = product / c;
    lemma_remainder(product as int, c as int);
    assert((quotient + 1) * c == quotient * c + c) by (nonlinear_arith);
}

/// `mul_div` never decreases when its first operand grows.
pub proof fn lemma_mul_div_grows_with_first(a: nat, larger_a: nat, b: nat, c: nat)
    requires
        a <= larger_a,
    ensures
        mul_div(a, b, c) <= mul_div(larger_a, b, c),
{
    if larger_a < UNBOUNDED && b < UNBOUNDED && 0 < c < UNBOUNDED {
        lemma_mul_inequality(a as int, larger_a as int, b as int);
        lemma_div_is_ordered((a * b) as int, (larger_a * b) as int, c as int);
    }
}

/// `mul_div` never decreases when its second operand grows.
pub proof fn lemma_mul_div_grows_with_second(a: nat, b: nat, larger_b: nat, c: nat)
    requires
        b <= larger_b,
    ensures
        mul_div(a, b, c) <= mul_div(a, larger_b, c),
{
    if a < UNBOUNDED && larger_b < UNBOUNDED && 0 < c < UNBOUNDED {
        assert(a * b <= a * larger_b) by (nonlinear_arith)
            requires
                b <= larger_b,
        ;
        lemma_div_is_ordered((a * b) as int, (a * larger_b) as int, c as int);
    }
}

/// `mul_div` never increases when its divisor grows.
pub proof fn lemma_mul_div_shrinks_with_divisor(a: nat, b: nat, c: nat, larger_c: nat)
    requires
        c <= larger_c,
    ensures
        mul_div(a, b, larger_c) <= mul_div(a, b, c),
{
    if a < UNBOUNDED && b < UNBOUNDED && c > 0 && larger_c < UNBOUNDED {
        lemma_div_is_ordered_by_denominator((a * b) as int, c as int, larger_c as int);
    }
}

/// Multiplying and dividing by the same bounded number changes nothing.
pub proof fn lemma_mul_div_by_same(a: nat, b: nat)
    requires
        a < UNBOUNDED,
        0 < b < UNBOUNDED,
    ensures
        mul_div(a, b, b) == a,
{
    assert(a * b == b * a) by (nonlinear_arith);
    lemma_div_multiples_vanish(a as int, b as int);
}

/// A factor common to the multiplier and the divisor cancels.
pub proof fn lemma_common_factor_cancels(a: nat, b: nat, c: nat, factor: nat)
    requires
        c > 0,
        factor > 0,
    ensures
        (a * (b * factor)) / (c * factor) == (a * b) / c,
{
    let product = a * b;
    assert(a * (b * factor) == factor * product) by (nonlinear_arith)
        requires
            product == a * b,
    ;
    assert(c * factor == factor * c) by (nonlinear_arith);
    lemma_div_multiples_vanish(product as int, factor as int);
    lemma_div_denominator((factor * product) as int, factor as int, c as int);
}

} // verus!
