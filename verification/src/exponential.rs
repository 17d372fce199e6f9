//! The exponential bonding curve:
//! `price(S) = base_price * multiplier ^ (S / step)`.
//!
//! The multiplier is a Q32.32 value and the exponent is the whole quotient
//! `S / step`, so the price moves in steps. The price is an amount in payment
//! units, like the base price: the base price times the Q32.32 growth factor,
//! brought back from Q32.32 and rounded down. At zero supply it is the base
//! price.
//!
//! The cost of a span is the trapezoid between the prices at its two ends, an
//! approximation of the area under the curve whose error grows with the
//! steepness of the curve and the length of the span. The trapezoid of a span
//! is in general not the sum of the trapezoids of its parts: on a rising
//! curve the whole costs more.
//!
//! The inverse, from a payment to a token amount, walks the curve in lots of
//! `TOKEN_LOT` tokens and never spends more than the payment. It is
//! conservative: near a boundary it may give fewer tokens than the payment
//! could buy, never more.

use vstd::prelude::*;
use vstd::arithmetic::power::pow;
use crate::error::LaunchpadError;
use crate::fixed_point::{
    lemma_pow_whole_of_whole, mul_fixed, pow_whole, spec_pow_whole, MAX_Q32_32, PRECISION,
};

verus! {

/// The tokens that the inverse tries to add in one step.
pub const TOKEN_LOT: u64 = 1000;

/// The price at `supply`: the base price times the growth factor
/// `multiplier ^ (supply / step)`, rounded down to a whole amount.
///
/// It is defined where the step is not zero, the growth factor can be
/// computed and the price fits in 64 bits.
pub open spec fn spec_exponential_price(
    supply: u64,
    base_price: u64,
    multiplier: u64,
    step: u64,
) -> Result<u64, LaunchpadError> {
    if step == 0 {
        Err(LaunchpadError::DivisionByZero)
    } else {
        match spec_pow_whole(multiplier, supply / step) {
            Err(e) => Err(e),
            Ok(growth) => if (base_price * growth) / (PRECISION as int) > u64::MAX {
                Err(LaunchpadError::ArithmeticOverflow)
            } else {
                Ok(((base_price * growth) / (PRECISION as int)) as u64)
            },
        }
    }
}

/// The trapezoid over a span whose ends have the prices `price_start` and
/// `price_end`: the mean of the two, rounded down, times the length.
pub open spec fn spec_trapezoid(price_start: u64, price_end: u64, length: u64) -> Result<
    u64,
    LaunchpadError,
> {
    if ((price_start + price_end) / 2) * length > u64::MAX {
        Err(LaunchpadError::ArithmeticOverflow)
    } else {
        Ok((((price_start + price_end) / 2) * length) as u64)
    }
}

/// The cost of moving the supply from `start` to `end`: zero for an empty span
/// or a step of zero, else the trapezoid between the prices at the two ends.
pub open spec fn spec_exponential_cost(
    start: u64,
    end: u64,
    base_price: u64,
    multiplier: u64,
    step: u64,
) -> Result<u64, LaunchpadError> {
    if end <= start || step == 0 {
        Ok(0)
    } else {
        match (
            spec_exponential_price(start, base_price, multiplier, step),
            spec_exponential_price(end, base_price, multiplier, step),
        ) {
            (Err(e), _) => Err(e),
            (Ok(_), Err(e)) => Err(e),
            (Ok(price_start), Ok(price_end)) => spec_trapezoid(
                price_start,
                price_end,
                (end - start) as u64,
            ),
        }
    }
}

/// The walk of the inverse from `tokens` tokens bought for `accumulated`.
///
/// The walk ends with `tokens` once the payment is used up or the cap is
/// reached. Otherwise it prices the next lot; it ends with `tokens` if the
/// payment does not cover that lot too, and goes on from the lot's end if it
/// does.
pub open spec fn spec_exponential_tokens_from(
    tokens: u64,
    accumulated: u64,
    payment: u64,
    supply: u64,
    base_price: u64,
    multiplier: u64,
    step: u64,
    max_supply: u64,
) -> Result<u64, LaunchpadError>
    decreases
        if tokens < max_supply {
            max_supply - tokens
        } else {
            0
        },
{
    if accumulated >= payment || tokens >= max_supply {
        Ok(tokens)
    } else if supply + tokens + TOKEN_LOT > u64::MAX {
        Err(LaunchpadError::ArithmeticOverflow)
    } else {
        match spec_exponential_cost(
            (supply + tokens) as u64,
            (supply + tokens + TOKEN_LOT) as u64,
            base_price,
            multiplier,
            step,
        ) {
            Err(e) => Err(e),
            Ok(lot_cost) => if accumulated + lot_cost <= payment {
                spec_exponential_tokens_from(
                    (tokens + TOKEN_LOT) as u64,
                    (accumulated + lot_cost) as u64,
                    payment,
                    supply,
                    base_price,
                    multiplier,
                    step,
                    max_supply,
                )
            } else {
                Ok(tokens)
            },
        }
    }
}

/// The tokens that `payment` buys at `supply`: where the walk of the inverse
/// ends when it starts with nothing bought.
pub open spec fn spec_exponential_tokens(
    payment: u64,
    supply: u64,
    base_price: u64,
    multiplier: u64,
    step: u64,
    max_supply: u64,
) -> Result<u64, LaunchpadError> {
    spec_exponential_tokens_from(0, 0, payment, supply, base_price, multiplier, step, max_supply)
}

/// At zero supply, and anywhere below the first step, the price is the base
/// price, whatever the multiplier.
pub proof fn lemma_exponential_price_starts_at_base(
    supply: u64,
    base_price: u64,
    multiplier: u64,
    step: u64,
)
    requires
        supply < step,
    ensures
        spec_exponential_price(supply, base_price, multiplier, step) == Ok::<u64, LaunchpadError>(
            base_price,
        ),
{
    let p = PRECISION as int;
    assert(supply / step == 0) by (nonlinear_arith)
        requires
            0 <= supply < step,
    ;
    assert((base_price * p) / p == base_price) by (nonlinear_arith)
        requires
            p > 0,
    ;
}

/// With a whole multiplier the price is the formula to the unit: where it can
/// be computed, it is `base_price * multiplier ^ (supply / step)`.
pub proof fn lemma_exponential_price_of_whole_multiplier(
    supply: u64,
    base_price: u64,
    multiplier: u64,
    step: u64,
)
    requires
        multiplier <= MAX_Q32_32,
    ensures
        spec_exponential_price(
            supply,
            base_price,
            (multiplier * PRECISION) as u64,
            step,
        ) matches Ok(price) ==> price == base_price * pow(
            multiplier as int,
            (supply / step) as nat,
        ),
{
    if spec_exponential_price(supply, base_price, (multiplier * PRECISION) as u64, step) is Ok {
        let steps = supply / step;
        lemma_pow_whole_of_whole(multiplier, steps);
        let power = pow(multiplier as int, steps as nat);
        let p = PRECISION as int;
        assert((base_price * (power * p)) / p == base_price * power) by (nonlinear_arith)
            requires
                p > 0,
        ;
    }
}

/// What the first `lots` lots from `supply` cost together, each priced by the
/// trapezoidal rule on its own. A lot whose cost cannot be computed counts as
/// nothing.
pub open spec fn spec_lots_cost(
    supply: u64,
    lots: nat,
    base_price: u64,
    multiplier: u64,
    step: u64,
) -> int
    decreases lots,
{
    if lots == 0 {
        0
    } else {
        spec_lots_cost(supply, (lots - 1) as nat, base_price, multiplier, step)
            + match spec_exponential_cost(
            (supply + TOKEN_LOT * (lots - 1)) as u64,
            (supply + TOKEN_LOT * lots) as u64,
            base_price,
            multiplier,
            step,
        ) {
            Ok(lot_cost) => lot_cost as int,
            Err(_) => 0,
        }
    }
}

/// Where a walk of the inverse ends, seen from any point of it.
///
/// If `tokens` is a whole number of lots and `accumulated` is their cost, the
/// walk ends on a whole number of lots, no fewer than it started with, whose
/// cost the payment covers; and it ends there because the payment is used up,
/// the cap is reached, or the payment does not cover one lot more.
pub proof fn lemma_exponential_walk(
    tokens: u64,
    accumulated: u64,
    payment: u64,
    supply: u64,
    base_price: u64,
    multiplier: u64,
    step: u64,
    max_supply: u64,
)
    requires
        tokens % TOKEN_LOT == 0,
        accumulated == spec_lots_cost(
            supply,
            (tokens / TOKEN_LOT) as nat,
            base_price,
            multiplier,
            step,
        ),
        accumulated <= payment,
    ensures
        spec_exponential_tokens_from(
            tokens,
            accumulated,
            payment,
            supply,
            base_price,
            multiplier,
            step,
            max_supply,
        ) matches Ok(end) ==> {
            &&& end % TOKEN_LOT == 0
            &&& end >= tokens
            &&& spec_lots_cost(supply, (end / TOKEN_LOT) as nat, base_price, multiplier, step)
                <= payment
            &&& {
                ||| spec_lots_cost(
                    supply,
                    (end / TOKEN_LOT) as nat,
                    base_price,
                    multiplier,
                    step,
                ) >= payment
                ||| end >= max_supply
                ||| spec_lots_cost(
                    supply,
                    (end / TOKEN_LOT + 1) as nat,
                    base_price,
                    multiplier,
                    step,
                ) > payment
            }
        },
    decreases
        if tokens < max_supply {
            max_supply - tokens
        } else {
            0
        },
{
    if accumulated >= payment || tokens >= max_supply {
    } else if supply + tokens + TOKEN_LOT > u64::MAX {
    } else {
        let lots = (tokens / TOKEN_LOT) as nat;
        assert(TOKEN_LOT * lots == tokens);
        assert(TOKEN_LOT * (lots + 1) == tokens + TOKEN_LOT);
        assert(((lots + 1) - 1) as nat == lots);
        let lot = spec_exponential_cost(
            (supply + tokens) as u64,
            (supply + tokens + TOKEN_LOT) as u64,
            base_price,
            multiplier,
            step,
        );
        if lot is Ok {
            let lot_cost = lot.unwrap();
            assert(spec_lots_cost(supply, lots + 1, base_price, multiplier, step) == accumulated
                + lot_cost);
            assert((tokens + TOKEN_LOT) / (TOKEN_LOT as int) == lots + 1);
            if accumulated + lot_cost <= payment {
                lemma_exponential_walk(
                    (tokens + TOKEN_LOT) as u64,
                    (accumulated + lot_cost) as u64,
                    payment,
                    supply,
                    base_price,
                    multiplier,
                    step,
                    max_supply,
                );
            }
        }
    }
}

/// The inverse is conservative: the tokens that a payment buys are a whole
/// number of lots whose cost, lot by lot, the payment covers. The walk stops
/// short of another lot only where the payment is used up, the cap is
/// reached, or the payment does not cover that lot too.
pub proof fn lemma_exponential_tokens_conservative(
    payment: u64,
    supply: u64,
    base_price: u64,
    multiplier: u64,
    step: u64,
    max_supply: u64,
)
    ensures
        spec_exponential_tokens(payment, supply, base_price, multiplier, step, max_supply) matches Ok(
            tokens,
        ) ==> {
            &&& tokens % TOKEN_LOT == 0
            &&& spec_lots_cost(supply, (tokens / TOKEN_LOT) as nat, base_price, multiplier, step)
                <= payment
            &&& {
                ||| spec_lots_cost(
                    supply,
                    (tokens / TOKEN_LOT) as nat,
                    base_price,
                    multiplier,
                    step,
                ) >= payment
                ||| tokens >= max_supply
                ||| spec_lots_cost(
                    supply,
                    (tokens / TOKEN_LOT + 1) as nat,
                    base_price,
                    multiplier,
                    step,
                ) > payment
            }
        },
{
    lemma_exponential_walk(0, 0, payment, supply, base_price, multiplier, step, max_supply);
}

/// Computes the price at `supply`, an amount in payment units.
///
/// The price is `base_price * multiplier ^ (supply / step)` with the Q32.32
/// multiplier, rounded down. Below the first step it is the base price. It
/// fails with `DivisionByZero` exactly when `step` is zero, and otherwise with
/// `ArithmeticOverflow` exactly when the growth factor overflows or the price
/// exceeds 64 bits.
pub fn calculate_exponential_price(supply: u64, base_price: u64, multiplier: u64, step: u64) -> (r:
    Result<u64, LaunchpadError>)
    ensures
        r == spec_exponential_price(supply, base_price, multiplier, step),
        step == 0 ==> r == Err::<u64, LaunchpadError>(LaunchpadError::DivisionByZero),
        supply < step ==> r == Ok::<u64, LaunchpadError>(base_price),
{
    if step == 0 {
        return Err(LaunchpadError::DivisionByZero);
    }
    proof {
        if supply < step {
            lemma_exponential_price_starts_at_base(supply, base_price, multiplier, step);
        }
    }
    let growth = match pow_whole(multiplier, supply / step) {
        Ok(power) => power,
        Err(e) => {
            return Err(e);
        },
    };
    mul_fixed(base_price, growth)
}

/// Computes the cost of moving the supply from `supply_start` to `supply_end`
/// by the trapezoidal rule.
///
/// An empty or reversed span costs nothing, and so does any span when `step`
/// is zero. Otherwise the cost is the mean of the prices at the two ends,
/// rounded down, times the length of the span. It fails as the price does at
/// either end, the start first, and with `ArithmeticOverflow` exactly when the
/// cost exceeds 64 bits.
pub fn calculate_exponential_cost(
    supply_start: u64,
    supply_end: u64,
    base_price: u64,
    multiplier: u64,
    step: u64,
) -> (r: Result<u64, LaunchpadError>)
    ensures
        r == spec_exponential_cost(supply_start, supply_end, base_price, multiplier, step),
        supply_end <= supply_start || step == 0 ==> r == Ok::<u64, LaunchpadError>(0),
{
    if supply_end <= supply_start || step == 0 {
        return Ok(0);
    }
    let price_start = match calculate_exponential_price(
        supply_start,
        base_price,
        multiplier,
        step,
    ) {
        Ok(price) => price,
        Err(e) => {
            return Err(e);
        },
    };
    let price_end = match calculate_exponential_price(supply_end, base_price, multiplier, step) {
        Ok(price) => price,
        Err(e) => {
            return Err(e);
        },
    };
    let avg_price: u64 = (((price_start as u128) + (price_end as u128)) / 2) as u64;
    let delta_supply = supply_end - supply_start;
    match avg_price.checked_mul(delta_supply) {
        Some(cost) => Ok(cost),
        None => Err(LaunchpadError::ArithmeticOverflow),
    }
}

/// Computes the tokens that `payment` buys at `supply` by walking the curve in
/// lots of `TOKEN_LOT` tokens.
///
/// A lot is taken while the payment is not used up, the tokens taken are under
/// `max_supply`, and the payment covers the lot's cost on top of what the
/// earlier lots cost. The result is a whole number of lots, and what they cost
/// together never exceeds the payment. It fails as the cost of a lot does, and
/// with `ArithmeticOverflow` when the end of a lot exceeds 64 bits.
pub fn calculate_exponential_tokens(
    payment: u64,
    supply: u64,
    base_price: u64,
    multiplier: u64,
    step: u64,
    max_supply: u64,
) -> (r: Result<u64, LaunchpadError>)
    ensures
        r == spec_exponential_tokens(payment, supply, base_price, multiplier, step, max_supply),
        r matches Ok(tokens) ==> tokens % TOKEN_LOT == 0 && tokens < max_supply + TOKEN_LOT
            && spec_lots_cost(
            supply,
            (tokens / TOKEN_LOT) as nat,
            base_price,
            multiplier,
            step,
        ) <= payment,
        payment == 0 || max_supply == 0 ==> r == Ok::<u64, LaunchpadError>(0),
{
    let mut tokens: u64 = 0;
    let mut accumulated_cost: u64 = 0;
    while accumulated_cost < payment && tokens < max_supply
        invariant
            spec_exponential_tokens_from(
                tokens,
                accumulated_cost,
                payment,
                supply,
                base_price,
                multiplier,
                step,
                max_supply,
            ) == spec_exponential_tokens(
                payment,
                supply,
                base_price,
                multiplier,
                step,
                max_supply,
            ),
            tokens % TOKEN_LOT == 0,
            tokens < max_supply + TOKEN_LOT,
            accumulated_cost <= payment,
        decreases max_supply + TOKEN_LOT - tokens,
    {
        proof {
            lemma_exponential_tokens_conservative(
                payment,
                supply,
                base_price,
                multiplier,
                step,
                max_supply,
            );
        }
        let lot_start = match supply.checked_add(tokens) {
            Some(sum) => sum,
            None => {
                return Err(LaunchpadError::ArithmeticOverflow);
            },
        };
        let lot_end = match lot_start.checked_add(TOKEN_LOT) {
            Some(sum) => sum,
            None => {
                return Err(LaunchpadError::ArithmeticOverflow);
            },
        };
        let lot_cost = match calculate_exponential_cost(
            lot_start,
            lot_end,
            base_price,
            multiplier,
            step,
        ) {
            Ok(cost) => cost,
            Err(e) => {
                return Err(e);
            },
        };
        match accumulated_cost.checked_add(lot_cost) {
            Some(total) => {
                if total <= payment {
                    tokens = tokens + TOKEN_LOT;
                    accumulated_cost = total;
                } else {
                    return Ok(tokens);
                }
            },
            None => {
                return Ok(tokens);
            },
        }
    }
    proof {
        lemma_exponential_tokens_conservative(
            payment,
            supply,
            base_price,
            multiplier,
            step,
            max_supply,
        );
    }
    Ok(tokens)
}

} // verus!
