//! The linear bonding curve: `price(S) = base_price + slope * S`.
//!
//! Prices and costs are exact integers. The cost of a span is the area under
//! the price line, `base_price * (b - a) + slope * (b^2 - a^2) / 2`, with the
//! half rounded down. The inverse, from a payment to a token amount, solves
//! the quadratic `(slope / 2) * t^2 + price(S) * t - payment = 0` with an
//! integer square root.

use vstd::prelude::*;
use crate::error::LaunchpadError;
use crate::isqrt::{
    integer_sqrt, is_integer_sqrt, lemma_integer_sqrt_bounds, lemma_integer_sqrt_exists,
    spec_integer_sqrt,
};

verus! {

/// The price at `supply`, as a mathematical integer.
pub open spec fn linear_price_value(supply: int, base_price: int, slope: int) -> int {
    base_price + slope * supply
}

/// The price at `supply`, where it fits in 64 bits.
pub open spec fn spec_linear_price(supply: u64, base_price: u64, slope: u64) -> Result<
    u64,
    LaunchpadError,
> {
    if linear_price_value(supply as int, base_price as int, slope as int) <= u64::MAX {
        Ok(linear_price_value(supply as int, base_price as int, slope as int) as u64)
    } else {
        Err(LaunchpadError::ArithmeticOverflow)
    }
}

/// Twice the area under the price line from `start` to `end`: a whole number
/// even where the area itself ends on a half.
pub open spec fn linear_cost_doubled(start: int, end: int, base_price: int, slope: int) -> int {
    2 * base_price * (end - start) + slope * (end * end - start * start)
}

/// The cost of moving the supply from `start` to `end`, as a mathematical
/// integer: the area under the price line, the half rounded down.
pub open spec fn linear_cost_value(start: int, end: int, base_price: int, slope: int) -> int {
    base_price * (end - start) + (slope * (end * end - start * start)) / 2
}

/// The cost of moving the supply from `start` to `end`: zero for an empty
/// span, the area under the price line where the square of `end`, the slope
/// term before halving and the cost itself all fit in 64 bits.
pub open spec fn spec_linear_cost(start: u64, end: u64, base_price: u64, slope: u64) -> Result<
    u64,
    LaunchpadError,
> {
    if end <= start {
        Ok(0)
    } else if end * end > u64::MAX || slope * (end * end - start * start) > u64::MAX
        || linear_cost_value(start as int, end as int, base_price as int, slope as int)
        > u64::MAX {
        Err(LaunchpadError::ArithmeticOverflow)
    } else {
        Ok(linear_cost_value(start as int, end as int, base_price as int, slope as int) as u64)
    }
}

/// The discriminant of the quadratic that the inverse solves:
/// `price^2 + 4 * (slope / 2) * payment`.
pub open spec fn linear_discriminant(price: int, slope: int, payment: int) -> int {
    price * price + 2 * slope * payment
}

/// The tokens that `payment` buys at `supply`.
///
/// On a flat curve this is the payment divided by the base price. On a rising
/// curve it is the positive root of the quadratic, rounded down:
/// `(sqrt(price^2 + 2 * slope * payment) - price) / slope`, where the
/// discriminant fits in 64 bits.
pub open spec fn spec_linear_tokens(payment: u64, supply: u64, base_price: u64, slope: u64)
    -> Result<u64, LaunchpadError> {
    if slope == 0 {
        if base_price == 0 {
            Err(LaunchpadError::DivisionByZero)
        } else {
            Ok(payment / base_price)
        }
    } else {
        match spec_linear_price(supply, base_price, slope) {
            Err(e) => Err(e),
            Ok(price) => if linear_discriminant(price as int, slope as int, payment as int)
                > u64::MAX {
                Err(LaunchpadError::ArithmeticOverflow)
            } else {
                Ok(
                    ((spec_integer_sqrt(
                        linear_discriminant(price as int, slope as int, payment as int),
                    ) - price) / (slope as int)) as u64,
                )
            },
        }
    }
}

/// Computes the price at `supply`.
///
/// Fails with `ArithmeticOverflow` exactly when `base_price + slope * supply`
/// exceeds 64 bits.
pub fn calculate_linear_price(supply: u64, base_price: u64, slope: u64) -> (r: Result<
    u64,
    LaunchpadError,
>)
    ensures
        r == spec_linear_price(supply, base_price, slope),
        r matches Ok(price) ==> price == base_price + slope * supply,
{
    assert(supply * slope == slope * supply) by (nonlinear_arith);
    let slope_term = match supply.checked_mul(slope) {
        Some(term) => term,
        None => {
            return Err(LaunchpadError::ArithmeticOverflow);
        },
    };
    match base_price.checked_add(slope_term) {
        Some(price) => Ok(price),
        None => Err(LaunchpadError::ArithmeticOverflow),
    }
}

/// Computes the cost of moving the supply from `supply_start` to `supply_end`.
///
/// An empty or reversed span costs nothing. Otherwise the cost is
/// `base_price * (end - start) + slope * (end^2 - start^2) / 2`, and the
/// function fails with `ArithmeticOverflow` exactly when the square of
/// `supply_end`, the slope term before halving, or the cost exceeds 64 bits.
pub fn calculate_linear_cost(supply_start: u64, supply_end: u64, base_price: u64, slope: u64) -> (r:
    Result<u64, LaunchpadError>)
    ensures
        r == spec_linear_cost(supply_start, supply_end, base_price, slope),
        supply_end <= supply_start ==> r == Ok::<u64, LaunchpadError>(0),
{
    if supply_end <= supply_start {
        return Ok(0);
    }
    let delta_supply = supply_end - supply_start;
    proof {
        let s = supply_start as int;
        let e = supply_end as int;
        assert(0 <= s * s < e * e) by (nonlinear_arith)
            requires
                0 <= s < e,
        ;
        assert(0 <= (slope as int) * (e * e - s * s)) by (nonlinear_arith)
            requires
                0 <= slope,
                0 <= e * e - s * s,
        ;
    }
    let base_cost = match base_price.checked_mul(delta_supply) {
        Some(cost) => cost,
        None => {
            return Err(LaunchpadError::ArithmeticOverflow);
        },
    };
    let end_squared = match supply_end.checked_mul(supply_end) {
        Some(square) => square,
        None => {
            return Err(LaunchpadError::ArithmeticOverflow);
        },
    };
    let start_squared = match supply_start.checked_mul(supply_start) {
        Some(square) => square,
        None => {
            return Err(LaunchpadError::ArithmeticOverflow);
        },
    };
    let delta_squared = match end_squared.checked_sub(start_squared) {
        Some(delta) => delta,
        None => {
            return Err(LaunchpadError::ArithmeticUnderflow);
        },
    };
    let slope_cost = match slope.checked_mul(delta_squared) {
        Some(scaled) => scaled / 2,
        None => {
            return Err(LaunchpadError::ArithmeticOverflow);
        },
    };
    match base_cost.checked_add(slope_cost) {
        Some(cost) => Ok(cost),
        None => Err(LaunchpadError::ArithmeticOverflow),
    }
}

/// Computes the tokens that `payment` buys at `supply`.
///
/// On a flat curve (`slope == 0`) the result is `payment / base_price`, and a
/// base price of zero fails with `DivisionByZero`. On a rising curve the
/// result is `(sqrt(price^2 + 2 * slope * payment) - price) / slope` with the
/// integer square root and `price` the price at `supply`; it fails with
/// `ArithmeticOverflow` exactly when the price or the discriminant exceeds 64
/// bits.
///
/// The result is the exact inverse of the cost: the most tokens whose cost,
/// before the half unit is rounded off, the payment covers. The tokens bought
/// therefore never cost more than the payment.
pub fn calculate_linear_tokens(payment: u64, supply: u64, base_price: u64, slope: u64) -> (r:
    Result<u64, LaunchpadError>)
    ensures
        r == spec_linear_tokens(payment, supply, base_price, slope),
        r matches Ok(tokens) ==> linear_cost_doubled(
            supply as int,
            supply + tokens,
            base_price as int,
            slope as int,
        ) <= 2 * payment < linear_cost_doubled(
            supply as int,
            supply + tokens + 1,
            base_price as int,
            slope as int,
        ),
        r matches Ok(tokens) ==> linear_cost_value(
            supply as int,
            supply + tokens,
            base_price as int,
            slope as int,
        ) <= payment <= linear_cost_value(
            supply as int,
            supply + tokens + 1,
            base_price as int,
            slope as int,
        ),
{
    proof {
        lemma_linear_tokens_is_inverse(payment, supply, base_price, slope);
    }
    if slope == 0 {
        return match payment.checked_div(base_price) {
            Some(tokens) => Ok(tokens),
            None => Err(LaunchpadError::DivisionByZero),
        };
    }
    let price = match calculate_linear_price(supply, base_price, slope) {
        Ok(price) => price,
        Err(e) => {
            return Err(e);
        },
    };
    proof {
        let p = price as int;
        let s = slope as int;
        let c = payment as int;
        assert(0 <= p * p) by (nonlinear_arith);
        assert(0 <= s * c && 2 * s * c == 2 * (s * c)) by (nonlinear_arith)
            requires
                0 <= s,
                0 <= c,
        ;
    }
    let price_squared = match price.checked_mul(price) {
        Some(square) => square,
        None => {
            return Err(LaunchpadError::ArithmeticOverflow);
        },
    };
    let slope_payment = match slope.checked_mul(payment) {
        Some(product) => product,
        None => {
            return Err(LaunchpadError::ArithmeticOverflow);
        },
    };
    let doubled = match slope_payment.checked_mul(2) {
        Some(product) => product,
        None => {
            return Err(LaunchpadError::ArithmeticOverflow);
        },
    };
    let discriminant = match price_squared.checked_add(doubled) {
        Some(sum) => sum,
        None => {
            return Err(LaunchpadError::ArithmeticOverflow);
        },
    };
    let root = integer_sqrt(discriminant);
    proof {
        lemma_integer_sqrt_bounds(discriminant as int, root as int, price as int);
    }
    let excess = match root.checked_sub(price) {
        Some(excess) => excess,
        None => {
            return Err(LaunchpadError::ArithmeticUnderflow);
        },
    };
    Ok(excess / slope)
}

/// The price never falls as the supply grows: where the price at the larger
/// supply fits in 64 bits, so does the price at the smaller one, and it is no
/// higher.
pub proof fn lemma_linear_price_monotonic(
    supply_low: u64,
    supply_high: u64,
    base_price: u64,
    slope: u64,
)
    requires
        supply_low <= supply_high,
        spec_linear_price(supply_high, base_price, slope) is Ok,
    ensures
        spec_linear_price(supply_low, base_price, slope) is Ok,
        spec_linear_price(supply_low, base_price, slope).unwrap() <= spec_linear_price(
            supply_high,
            base_price,
            slope,
        ).unwrap(),
{
    assert(0 <= slope * supply_low <= slope * supply_high) by (nonlinear_arith)
        requires
            0 <= supply_low <= supply_high,
            0 <= slope,
    ;
}

/// The area under the price line is additive over adjoining spans, before any
/// rounding.
pub proof fn lemma_linear_cost_doubled_additive(
    a: int,
    b: int,
    c: int,
    base_price: int,
    slope: int,
)
    ensures
        linear_cost_doubled(a, c, base_price, slope) == linear_cost_doubled(a, b, base_price, slope)
            + linear_cost_doubled(b, c, base_price, slope),
{
    assert(slope * (c * c - a * a) == slope * (b * b - a * a) + slope * (c * c - b * b))
        by (nonlinear_arith);
    assert(2 * base_price * (c - a) == 2 * base_price * (b - a) + 2 * base_price * (c - b))
        by (nonlinear_arith);
}

/// Where the cost of a span fits in 64 bits, so does the cost of every span
/// inside it, and that cost is no higher.
pub proof fn lemma_linear_cost_of_part(a: u64, b: u64, c: u64, d: u64, base_price: u64, slope: u64)
    requires
        a <= b <= c <= d,
        spec_linear_cost(a, d, base_price, slope) is Ok,
    ensures
        spec_linear_cost(b, c, base_price, slope) is Ok,
        spec_linear_cost(b, c, base_price, slope).unwrap() <= spec_linear_cost(
            a,
            d,
            base_price,
            slope,
        ).unwrap(),
{
    if b < c {
        let (ai, bi, ci, di) = (a as int, b as int, c as int, d as int);
        let (p, s) = (base_price as int, slope as int);
        assert(ci * ci <= di * di) by (nonlinear_arith)
            requires
                0 <= ci <= di,
        ;
        assert(ai * ai <= bi * bi) by (nonlinear_arith)
            requires
                0 <= ai <= bi,
        ;
        assert(bi * bi <= ci * ci) by (nonlinear_arith)
            requires
                0 <= bi <= ci,
        ;
        assert(0 <= s * (ci * ci - bi * bi) <= s * (di * di - ai * ai)) by (nonlinear_arith)
            requires
                0 <= s,
                0 <= ci * ci - bi * bi <= di * di - ai * ai,
        ;
        assert(0 <= p * (ci - bi) <= p * (di - ai)) by (nonlinear_arith)
            requires
                0 <= p,
                0 <= ci - bi <= di - ai,
        ;
    }
}

/// Additivity of the cost: buying from `a` to `b` and then from `b` to `c`
/// costs what buying from `a` to `c` costs, to the unit.
///
/// This holds wherever the cost from `a` to `c` fits in 64 bits, but for one
/// case: with an odd slope and two spans of odd length each part drops a half
/// that the whole keeps, and the parts then cost one unit less than the whole
/// (see `lemma_linear_cost_drift`).
pub proof fn lemma_linear_cost_additive(a: u64, b: u64, c: u64, base_price: u64, slope: u64)
    requires
        a <= b <= c,
        spec_linear_cost(a, c, base_price, slope) is Ok,
        slope % 2 == 0 || (b - a) % 2 == 0 || (c - b) % 2 == 0,
    ensures
        spec_linear_cost(a, b, base_price, slope) is Ok,
        spec_linear_cost(b, c, base_price, slope) is Ok,
        spec_linear_cost(a, c, base_price, slope).unwrap() == spec_linear_cost(
            a,
            b,
            base_price,
            slope,
        ).unwrap() + spec_linear_cost(b, c, base_price, slope).unwrap(),
{
    lemma_linear_cost_of_part(a, a, b, c, base_price, slope);
    lemma_linear_cost_of_part(a, b, c, c, base_price, slope);
    if a < b && b < c {
        let (ai, bi, ci) = (a as int, b as int, c as int);
        let (p, s) = (base_price as int, slope as int);
        lemma_linear_cost_doubled_additive(ai, bi, ci, p, s);
        let x = s * (bi * bi - ai * ai);
        let y = s * (ci * ci - bi * bi);
        assert(s * (ci * ci - ai * ai) == x + y) by (nonlinear_arith)
            requires
                x == s * (bi * bi - ai * ai),
                y == s * (ci * ci - bi * bi),
        ;
        assert(p * (ci - ai) == p * (bi - ai) + p * (ci - bi)) by (nonlinear_arith);
        lemma_span_term_parity(ai, bi, s);
        lemma_span_term_parity(bi, ci, s);
        lemma_linear_cost_terms_nonnegative(ai, bi, p, s);
        lemma_linear_cost_terms_nonnegative(bi, ci, p, s);
        lemma_linear_cost_terms_nonnegative(ai, ci, p, s);
        assert(linear_cost_value(ai, bi, p, s) == p * (bi - ai) + x / 2);
        assert(linear_cost_value(bi, ci, p, s) == p * (ci - bi) + y / 2);
        assert(linear_cost_value(ai, ci, p, s) == p * (ci - ai) + (x + y) / 2);
        assert(x % 2 == 0 || y % 2 == 0);
    }
}

/// The rounding drift of the cost: the two parts of a span never cost more
/// than the whole, and at most one unit less.
pub proof fn lemma_linear_cost_drift(a: u64, b: u64, c: u64, base_price: u64, slope: u64)
    requires
        a <= b <= c,
        spec_linear_cost(a, c, base_price, slope) is Ok,
    ensures
        spec_linear_cost(a, b, base_price, slope) is Ok,
        spec_linear_cost(b, c, base_price, slope) is Ok,
        spec_linear_cost(a, b, base_price, slope).unwrap() + spec_linear_cost(
            b,
            c,
            base_price,
            slope,
        ).unwrap() <= spec_linear_cost(a, c, base_price, slope).unwrap() <= spec_linear_cost(
            a,
            b,
            base_price,
            slope,
        ).unwrap() + spec_linear_cost(b, c, base_price, slope).unwrap() + 1,
{
    lemma_linear_cost_of_part(a, a, b, c, base_price, slope);
    lemma_linear_cost_of_part(a, b, c, c, base_price, slope);
    if a < b && b < c {
        let (ai, bi, ci) = (a as int, b as int, c as int);
        let (p, s) = (base_price as int, slope as int);
        let x = s * (bi * bi - ai * ai);
        let y = s * (ci * ci - bi * bi);
        assert(s * (ci * ci - ai * ai) == x + y) by (nonlinear_arith)
            requires
                x == s * (bi * bi - ai * ai),
                y == s * (ci * ci - bi * bi),
        ;
        assert(p * (ci - ai) == p * (bi - ai) + p * (ci - bi)) by (nonlinear_arith);
        lemma_linear_cost_terms_nonnegative(ai, bi, p, s);
        lemma_linear_cost_terms_nonnegative(bi, ci, p, s);
        lemma_linear_cost_terms_nonnegative(ai, ci, p, s);
        assert(linear_cost_value(ai, bi, p, s) == p * (bi - ai) + x / 2);
        assert(linear_cost_value(bi, ci, p, s) == p * (ci - bi) + y / 2);
        assert(linear_cost_value(ai, ci, p, s) == p * (ci - ai) + (x + y) / 2);
    }
}

/// Both terms of a cost are at least zero.
pub proof fn lemma_linear_cost_terms_nonnegative(start: int, end: int, base_price: int, slope: int)
    requires
        0 <= start <= end,
        0 <= base_price,
        0 <= slope,
    ensures
        0 <= base_price * (end - start),
        0 <= slope * (end * end - start * start),
{
    assert(start * start <= end * end) by (nonlinear_arith)
        requires
            0 <= start <= end,
    ;
    assert(0 <= base_price * (end - start)) by (nonlinear_arith)
        requires
            0 <= base_price,
            0 <= end - start,
    ;
    assert(0 <= slope * (end * end - start * start)) by (nonlinear_arith)
        requires
            0 <= slope,
            0 <= end * end - start * start,
    ;
}

/// The slope term of a span is even where the slope or the length of the span
/// is.
proof fn lemma_span_term_parity(start: int, end: int, slope: int)
    ensures
        slope % 2 == 0 || (end - start) % 2 == 0 ==> (slope * (end * end - start * start)) % 2
            == 0,
{
    if slope % 2 == 0 {
        let h = slope / 2;
        assert(slope * (end * end - start * start) == 2 * (h * (end * end - start * start)))
            by (nonlinear_arith)
            requires
                slope == 2 * h,
        ;
    } else if (end - start) % 2 == 0 {
        let h = (end - start) / 2;
        assert(slope * (end * end - start * start) == 2 * (slope * (h * (end + start))))
            by (nonlinear_arith)
            requires
                end - start == 2 * h,
        ;
    }
}

/// The inverse is exact: the tokens that a payment buys are the most whose
/// cost, taken before the rounding of the half unit, the payment covers.
///
/// In rounded costs this reads: the tokens bought cost no more than the
/// payment, and one token more would cost no less; with an even slope one
/// token more would cost strictly more.
pub proof fn lemma_linear_tokens_is_inverse(
    payment: u64,
    supply: u64,
    base_price: u64,
    slope: u64,
)
    ensures
        spec_linear_tokens(payment, supply, base_price, slope) matches Ok(tokens) ==> {
            &&& linear_cost_doubled(supply as int, supply + tokens, base_price as int, slope as int)
                <= 2 * payment
            &&& 2 * payment < linear_cost_doubled(
                supply as int,
                supply + tokens + 1,
                base_price as int,
                slope as int,
            )
            &&& linear_cost_value(supply as int, supply + tokens, base_price as int, slope as int)
                <= payment
            &&& payment <= linear_cost_value(
                supply as int,
                supply + tokens + 1,
                base_price as int,
                slope as int,
            )
            &&& slope % 2 == 0 ==> payment < linear_cost_value(
                supply as int,
                supply + tokens + 1,
                base_price as int,
                slope as int,
            )
        },
{
    let result = spec_linear_tokens(payment, supply, base_price, slope);
    if result is Ok {
        let t = result.unwrap() as int;
        let (c, n, b, s) = (payment as int, supply as int, base_price as int, slope as int);
        if slope == 0 {
            assert(b * (c / b) <= c < b * (c / b + 1)) by (nonlinear_arith)
                requires
                    0 < b,
                    0 <= c,
            ;
            assert(linear_cost_doubled(n, n + t, b, s) == 2 * (b * t)) by (nonlinear_arith)
                requires
                    s == 0,
            ;
            assert(linear_cost_doubled(n, n + t + 1, b, s) == 2 * (b * (t + 1)))
                by (nonlinear_arith)
                requires
                    s == 0,
            ;
            assert(s * ((n + t) * (n + t) - n * n) == 0) by (nonlinear_arith)
                requires
                    s == 0,
            ;
            assert(s * ((n + t + 1) * (n + t + 1) - n * n) == 0) by (nonlinear_arith)
                requires
                    s == 0,
            ;
            assert(b * (n + t - n) == b * t);
            assert(b * (n + t + 1 - n) == b * (t + 1));
        } else {
            let p = linear_price_value(n, b, s);
            let d = linear_discriminant(p, s, c);
            let root = spec_integer_sqrt(d);
            assert(0 <= p * p) by (nonlinear_arith);
            assert(0 <= 2 * s * c) by (nonlinear_arith)
                requires
                    0 <= s,
                    0 <= c,
            ;
            assert(is_integer_sqrt(d, root)) by {
                lemma_integer_sqrt_exists(d);
            }
            lemma_integer_sqrt_bounds(d, root, p);
            assert(root <= d) by (nonlinear_arith)
                requires
                    0 <= root,
                    root * root <= d,
            ;
            assert(0 <= (root - p) / s <= root - p) by (nonlinear_arith)
                requires
                    0 < s,
                    0 <= root - p,
            ;
            assert(t == (root - p) / s);
            assert(s * t <= root - p < s * (t + 1)) by (nonlinear_arith)
                requires
                    0 < s,
                    0 <= root - p,
                    t == (root - p) / s,
            ;
            assert(0 <= t) by (nonlinear_arith)
                requires
                    0 < s,
                    0 <= root - p,
                    t == (root - p) / s,
            ;
            lemma_root_brackets(p, s, c, root, t, n, b);
            // rounded costs
            let x0 = s * ((n + t) * (n + t) - n * n);
            let x1 = s * ((n + t + 1) * (n + t + 1) - n * n);
            assert(linear_cost_doubled(n, n + t, b, s) == 2 * (b * t) + x0) by (nonlinear_arith)
                requires
                    x0 == s * ((n + t) * (n + t) - n * n),
            ;
            assert(linear_cost_doubled(n, n + t + 1, b, s) == 2 * (b * (t + 1)) + x1)
                by (nonlinear_arith)
                requires
                    x1 == s * ((n + t + 1) * (n + t + 1) - n * n),
            ;
            assert(b * (n + t - n) == b * t);
            assert(b * (n + t + 1 - n) == b * (t + 1));
            lemma_span_term_parity(n, n + t + 1, s);
        }
    }
}

/// From the bracket of the root to the bracket of the payment between the
/// doubled costs of `t` and of `t + 1` tokens.
proof fn lemma_root_brackets(p: int, s: int, c: int, root: int, t: int, n: int, b: int)
    requires
        0 < s,
        0 <= c,
        0 <= n,
        0 <= b,
        0 <= t,
        p == b + s * n,
        is_integer_sqrt(p * p + 2 * s * c, root),
        p + s * t <= root < p + s * (t + 1),
    ensures
        linear_cost_doubled(n, n + t, b, s) <= 2 * c < linear_cost_doubled(n, n + t + 1, b, s),
{
    let d = p * p + 2 * s * c;
    let lo = p + s * t;
    let hi = p + s * (t + 1);
    assert(0 <= p) by (nonlinear_arith)
        requires
            p == b + s * n,
            0 <= b,
            0 < s,
            0 <= n,
    ;
    assert(0 <= lo) by (nonlinear_arith)
        requires
            lo == p + s * t,
            0 <= p,
            0 < s,
            0 <= t,
    ;
    assert(lo * lo <= root * root) by (nonlinear_arith)
        requires
            0 <= lo <= root,
    ;
    assert((root + 1) * (root + 1) <= hi * hi) by (nonlinear_arith)
        requires
            0 <= root + 1 <= hi,
    ;
    // lo^2 <= d < hi^2, with both sides expanded and divided by the slope
    lemma_expand_bracket(p, s, t, n, b);
    lemma_expand_bracket(p, s, t + 1, n, b);
    let q0 = linear_cost_doubled(n, n + t, b, s);
    let q1 = linear_cost_doubled(n, n + t + 1, b, s);
    assert(s * q0 <= 2 * s * c) by {
        assert(lo * lo == p * p + s * q0);
    }
    assert(2 * s * c < s * q1) by {
        assert(hi * hi == p * p + s * q1);
    }
    assert(q0 <= 2 * c) by (nonlinear_arith)
        requires
            0 < s,
            s * q0 <= 2 * s * c,
    ;
    assert(2 * c < q1) by (nonlinear_arith)
        requires
            0 < s,
            2 * s * c < s * q1,
    ;
}

/// `(p + s * t)^2 == p^2 + s * doubled_cost(n, n + t)` where `p` is the price
/// at `n`.
proof fn lemma_expand_bracket(p: int, s: int, t: int, n: int, b: int)
    requires
        p == b + s * n,
    ensures
        (p + s * t) * (p + s * t) == p * p + s * linear_cost_doubled(n, n + t, b, s),
{
    assert((p + s * t) * (p + s * t) == p * p + s * (2 * p * t + s * t * t)) by (nonlinear_arith);
    assert(2 * p * t + s * t * t == 2 * b * (n + t - n) + s * ((n + t) * (n + t) - n * n))
        by (nonlinear_arith)
        requires
            p == b + s * n,
    ;
}

} // verus!
