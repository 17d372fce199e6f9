//! Q32.32 fixed-point arithmetic: a 64-bit magnitude whose low 32 bits are the
//! fraction.
//!
//! Every operation is checked. A result that does not fit in 64 bits is an
//! `ArithmeticOverflow`, never a wrapped value.

use vstd::prelude::*;
use vstd::arithmetic::div_mod::{lemma_div_denominator, lemma_div_multiples_vanish_quotient};
use vstd::arithmetic::power::{
    lemma0_pow, lemma_pow0, lemma_pow1, lemma_pow_adds, lemma_pow_multiplies, lemma_square_is_pow2,
    pow,
};
use crate::error::LaunchpadError;

verus! {

/// The Q32.32 encoding of one: two to the power 32.
pub const PRECISION: u64 = 4294967296;

/// The largest whole number that has a Q32.32 encoding.
pub const MAX_Q32_32: u64 = 4294967295;

/// The Q32.32 encoding of a whole number, where it has one.
pub open spec fn spec_to_fixed(value: u64) -> Result<u64, LaunchpadError> {
    if value <= MAX_Q32_32 {
        Ok((value * PRECISION) as u64)
    } else {
        Err(LaunchpadError::ArithmeticOverflow)
    }
}

/// The whole part of a Q32.32 value.
pub open spec fn spec_from_fixed(fixed_value: u64) -> u64 {
    fixed_value / PRECISION
}

/// The truncated Q32.32 product: `a * b / 2^32`, where it fits in 64 bits.
pub open spec fn spec_mul_fixed(a: u64, b: u64) -> Result<u64, LaunchpadError> {
    if (a * b) / (PRECISION as int) <= u64::MAX {
        Ok(((a * b) / (PRECISION as int)) as u64)
    } else {
        Err(LaunchpadError::ArithmeticOverflow)
    }
}

/// The truncated Q32.32 quotient: `a * 2^32 / b`, where `b` is not zero and the
/// quotient fits in 64 bits.
pub open spec fn spec_div_fixed(a: u64, b: u64) -> Result<u64, LaunchpadError> {
    if b == 0 {
        Err(LaunchpadError::DivisionByZero)
    } else if (a * PRECISION) / (b as int) <= u64::MAX {
        Ok(((a * PRECISION) / (b as int)) as u64)
    } else {
        Err(LaunchpadError::ArithmeticOverflow)
    }
}

/// Square-and-multiply over `spec_mul_fixed`, from the lowest bit of the
/// exponent up: `acc` is multiplied by the running square wherever the bit is
/// set, and the running square is squared only while higher bits remain, so
/// no product is formed that the result does not depend on. Each product
/// truncates, so the order of the steps is part of the definition.
pub open spec fn spec_pow_steps(acc: u64, square: u64, exponent: u64) -> Result<
    u64,
    LaunchpadError,
>
    decreases exponent,
{
    if exponent == 0 {
        Ok(acc)
    } else {
        let taken = if exponent % 2 == 1 {
            spec_mul_fixed(acc, square)
        } else {
            Ok(acc)
        };
        match taken {
            Err(e) => Err(e),
            Ok(next) => if exponent / 2 == 0 {
                Ok(next)
            } else {
                match spec_mul_fixed(square, square) {
                    Err(e) => Err(e),
                    Ok(squared) => spec_pow_steps(next, squared, exponent / 2),
                }
            },
        }
    }
}

/// A Q32.32 base raised to a whole exponent: one for the exponent zero, zero
/// for the base zero, else square-and-multiply from one.
pub open spec fn spec_pow_whole(base: u64, exponent: u64) -> Result<u64, LaunchpadError> {
    if exponent == 0 {
        Ok(PRECISION)
    } else if base == 0 {
        Ok(0)
    } else {
        spec_pow_steps(PRECISION, base, exponent)
    }
}

/// A Q32.32 base raised to the whole part of a Q32.32 exponent. The fraction
/// of the exponent is dropped, not interpolated.
pub open spec fn spec_pow_fixed(base: u64, exp: u64) -> Result<u64, LaunchpadError> {
    spec_pow_whole(base, spec_from_fixed(exp))
}

/// Encodes a whole number in Q32.32.
///
/// Fails with `ArithmeticOverflow` exactly when `value` exceeds `MAX_Q32_32`.
pub fn to_fixed(value: u64) -> (r: Result<u64, LaunchpadError>)
    ensures
        r == spec_to_fixed(value),
        value <= MAX_Q32_32 ==> r == Ok::<u64, LaunchpadError>((value * PRECISION) as u64),
        value > MAX_Q32_32 ==> r == Err::<u64, LaunchpadError>(LaunchpadError::ArithmeticOverflow),
{
    match value.checked_mul(PRECISION) {
        Some(fixed) => Ok(fixed),
        None => Err(LaunchpadError::ArithmeticOverflow),
    }
}

/// Truncates a Q32.32 value to its whole part.
pub fn from_fixed(fixed_value: u64) -> (r: u64)
    ensures
        r == spec_from_fixed(fixed_value),
        r == fixed_value / PRECISION,
{
    fixed_value / PRECISION
}

/// Multiplies two Q32.32 values in 128 bits and truncates the product back to
/// Q32.32.
///
/// Fails with `ArithmeticOverflow` exactly when the truncated product exceeds
/// 64 bits.
pub fn mul_fixed(a: u64, b: u64) -> (r: Result<u64, LaunchpadError>)
    ensures
        r == spec_mul_fixed(a, b),
{
    assert(a * b <= 0xFFFF_FFFF_FFFF_FFFF * 0xFFFF_FFFF_FFFF_FFFF) by (nonlinear_arith)
        requires
            0 <= a <= 0xFFFF_FFFF_FFFF_FFFF,
            0 <= b <= 0xFFFF_FFFF_FFFF_FFFF,
    ;
    let wide: u128 = (a as u128) * (b as u128);
    let scaled: u128 = wide / (PRECISION as u128);
    if scaled > u64::MAX as u128 {
        Err(LaunchpadError::ArithmeticOverflow)
    } else {
        Ok(scaled as u64)
    }
}

/// Divides one Q32.32 value by another in 128 bits.
///
/// Fails with `DivisionByZero` exactly when `b` is zero, and otherwise with
/// `ArithmeticOverflow` exactly when the quotient exceeds 64 bits.
pub fn div_fixed(a: u64, b: u64) -> (r: Result<u64, LaunchpadError>)
    ensures
        r == spec_div_fixed(a, b),
{
    if b == 0 {
        return Err(LaunchpadError::DivisionByZero);
    }
    assert(a * PRECISION == a * 4294967296);
    let wide: u128 = (a as u128) * (PRECISION as u128);
    let quotient: u128 = wide / (b as u128);
    if quotient > u64::MAX as u128 {
        Err(LaunchpadError::ArithmeticOverflow)
    } else {
        Ok(quotient as u64)
    }
}

/// Raises a Q32.32 base to a whole exponent by binary exponentiation over
/// `mul_fixed`.
///
/// The result is the encoding of one for the exponent zero, zero for the base
/// zero, the base itself for the exponent one, and otherwise what
/// square-and-multiply yields. It fails with `ArithmeticOverflow` exactly
/// where one of the products that the result depends on exceeds 64 bits.
pub fn pow_whole(base: u64, exponent: u64) -> (r: Result<u64, LaunchpadError>)
    ensures
        r == spec_pow_whole(base, exponent),
        exponent == 0 ==> r == Ok::<u64, LaunchpadError>(PRECISION),
        exponent != 0 && base == 0 ==> r == Ok::<u64, LaunchpadError>(0),
        exponent == 1 ==> r == Ok::<u64, LaunchpadError>(base),
{
    proof {
        lemma_pow_of_one(base);
    }
    if exponent == 0 {
        return Ok(PRECISION);
    }
    if base == 0 {
        return Ok(0);
    }
    let mut result: u64 = PRECISION;
    let mut base_power: u64 = base;
    let mut exp_remaining: u64 = exponent;
    while exp_remaining > 0
        invariant
            spec_pow_steps(result, base_power, exp_remaining) == spec_pow_whole(base, exponent),
        decreases exp_remaining,
    {
        assert(exp_remaining & 1 == exp_remaining % 2) by (bit_vector);
        assert(exp_remaining >> 1 == exp_remaining / 2) by (bit_vector);
        if exp_remaining & 1 == 1 {
            match mul_fixed(result, base_power) {
                Ok(next) => {
                    result = next;
                },
                Err(e) => {
                    return Err(e);
                },
            }
        }
        exp_remaining = exp_remaining >> 1;
        if exp_remaining > 0 {
            match mul_fixed(base_power, base_power) {
                Ok(squared) => {
                    base_power = squared;
                },
                Err(e) => {
                    return Err(e);
                },
            }
        }
    }
    Ok(result)
}

/// Raises a Q32.32 base to the whole part of a Q32.32 exponent.
///
/// The fraction of the exponent is dropped, not interpolated. The result is
/// that of `pow_whole` for the whole part: the encoding of one where the whole
/// part is zero, zero for the base zero, the base itself where the whole part
/// is one.
pub fn pow_fixed(base: u64, exp: u64) -> (r: Result<u64, LaunchpadError>)
    ensures
        r == spec_pow_fixed(base, exp),
        spec_from_fixed(exp) == 0 ==> r == Ok::<u64, LaunchpadError>(PRECISION),
        spec_from_fixed(exp) != 0 && base == 0 ==> r == Ok::<u64, LaunchpadError>(0),
        spec_from_fixed(exp) == 1 ==> r == Ok::<u64, LaunchpadError>(base),
{
    pow_whole(base, from_fixed(exp))
}

/// Round trip: every whole number that has an encoding decodes to itself.
pub proof fn lemma_fixed_round_trip(value: u64)
    requires
        value <= MAX_Q32_32,
    ensures
        spec_to_fixed(value) matches Ok(fixed) && spec_from_fixed(fixed) == value,
{
}

/// The product of two encoded whole numbers is the encoding of their product,
/// and it overflows exactly when that product has no encoding.
pub proof fn lemma_mul_fixed_of_whole(a: u64, b: u64)
    requires
        a <= MAX_Q32_32,
        b <= MAX_Q32_32,
    ensures
        a * b <= u64::MAX,
        spec_mul_fixed((a * PRECISION) as u64, (b * PRECISION) as u64) == spec_to_fixed(
            (a * b) as u64,
        ),
{
    let p = PRECISION as int;
    assert(0 <= a * b <= 4294967295 * 4294967295) by (nonlinear_arith)
        requires
            0 <= a <= 4294967295,
            0 <= b <= 4294967295,
    ;
    assert((a * p) * (b * p) == ((a * b) * p) * p) by (nonlinear_arith);
    assert((((a * b) * p) * p) / p == (a * b) * p) by (nonlinear_arith)
        requires
            p > 0,
    ;
}

/// The quotient of two encoded whole numbers never overflows, and its whole
/// part is the truncated quotient of the two numbers.
pub proof fn lemma_div_fixed_of_whole(a: u64, b: u64)
    requires
        a <= MAX_Q32_32,
        0 < b <= MAX_Q32_32,
    ensures
        spec_div_fixed((a * PRECISION) as u64, (b * PRECISION) as u64) matches Ok(q)
            && q == (a * PRECISION) / (b as int) && spec_from_fixed(q) == a / b,
{
    let p = PRECISION as int;
    let x = a * p;
    lemma_div_multiples_vanish_quotient(p, x, b as int);
    assert(x * p == p * x && b * p == p * b) by (nonlinear_arith);
    assert((x * p) / (b * p) == x / (b as int));
    assert(0 <= x / (b as int) <= x) by (nonlinear_arith)
        requires
            0 <= x,
            0 < b,
    ;
    lemma_div_denominator(x, b as int, p);
    lemma_div_multiples_vanish_quotient(p, a as int, b as int);
    assert(a * p == p * a) by (nonlinear_arith);
}

/// The first power of any base is the base, with no failure.
pub proof fn lemma_pow_of_one(base: u64)
    ensures
        spec_pow_whole(base, 1) == Ok::<u64, LaunchpadError>(base),
        spec_pow_fixed(base, PRECISION) == Ok::<u64, LaunchpadError>(base),
{
    let p = PRECISION as int;
    assert((p * base) / p == base) by (nonlinear_arith)
        requires
            p > 0,
    ;
}

/// Square-and-multiply on encoded whole numbers: where it succeeds from the
/// accumulator `acc` and the running square `square`, it yields the encoding
/// of `acc * square ^ exponent`.
pub proof fn lemma_pow_steps_of_whole(acc: u64, square: u64, exponent: u64)
    requires
        acc <= MAX_Q32_32,
        square <= MAX_Q32_32,
    ensures
        spec_pow_steps((acc * PRECISION) as u64, (square * PRECISION) as u64, exponent) matches Ok(
            power,
        ) ==> power == acc * pow(square as int, exponent as nat) * PRECISION,
    decreases exponent,
{
    let s = square as int;
    if exponent == 0 {
        lemma_pow0(s);
    } else {
        lemma_mul_fixed_of_whole(acc, square);
        lemma_mul_fixed_of_whole(square, square);
        let half = (exponent / 2) as nat;
        let result = spec_pow_steps(
            (acc * PRECISION) as u64,
            (square * PRECISION) as u64,
            exponent,
        );
        if result is Ok {
            lemma_pow1(s);
            if half == 0 {
                assert(exponent == 1);
            } else {
                let squared = (square * square) as u64;
                assert(squared <= MAX_Q32_32);
                lemma_square_is_pow2(s);
                lemma_pow_multiplies(s, 2, half);
                assert(pow(s * s, half) == pow(s, 2 * half));
                if exponent % 2 == 1 {
                    let next = (acc * square) as u64;
                    assert(next <= MAX_Q32_32);
                    lemma_pow_steps_of_whole(next, squared, (exponent / 2) as u64);
                    lemma_pow_adds(s, 1, 2 * half);
                    assert(exponent as nat == 1 + 2 * half);
                    assert((acc * s) * pow(s, 2 * half) == acc * (s * pow(s, 2 * half)))
                        by (nonlinear_arith);
                } else {
                    lemma_pow_steps_of_whole(acc, squared, (exponent / 2) as u64);
                    assert(exponent as nat == 2 * half);
                }
            }
        }
    }
}

/// On whole bases the power is the power: where an encoded whole base raised
/// to a whole exponent succeeds, the result is the encoding of
/// `base ^ exponent`.
pub proof fn lemma_pow_whole_of_whole(base: u64, exponent: u64)
    requires
        base <= MAX_Q32_32,
    ensures
        spec_pow_whole((base * PRECISION) as u64, exponent) matches Ok(power) ==> power == pow(
            base as int,
            exponent as nat,
        ) * PRECISION,
{
    if exponent == 0 {
        lemma_pow0(base as int);
    } else if base == 0 {
        lemma0_pow(exponent as nat);
    } else {
        lemma_pow_steps_of_whole(1, base, exponent);
        assert(1 * pow(base as int, exponent as nat) * PRECISION == pow(
            base as int,
            exponent as nat,
        ) * PRECISION) by (nonlinear_arith);
    }
}

/// The same for an exponent that is itself encoded.
pub proof fn lemma_pow_fixed_of_whole(base: u64, exponent: u64)
    requires
        base <= MAX_Q32_32,
        exponent <= MAX_Q32_32,
    ensures
        spec_pow_fixed((base * PRECISION) as u64, (exponent * PRECISION) as u64) matches Ok(power)
            ==> power == pow(base as int, exponent as nat) * PRECISION,
{
    lemma_fixed_round_trip(exponent);
    lemma_pow_whole_of_whole(base, exponent);
}

} // verus!
