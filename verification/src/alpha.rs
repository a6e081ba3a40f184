//! The smoothing-factor computation: a sampling rate and a cutoff frequency
//! give the weight of the newest sample in an exponential moving average.

use vstd::prelude::*;

use crate::{InvalidParameter, CUTOFF_MAX, SCALE, TWO_PI};

verus! {

/// The smoothing factor, in micro-units, for a sampling `rate` and a frequency
/// `cutoff`, both in micro-units: `1 / (1 + rate / (2*pi*cutoff))`, written
/// over the common denominator `2*pi*cutoff + rate` and rounded down:
///
/// `(2*pi*cutoff) * SCALE / (2*pi*cutoff + rate * SCALE)`.
pub open spec fn alpha_spec(rate: int, cutoff: int) -> int {
    ((SCALE as int) * ((TWO_PI as int) * cutoff))
        / ((TWO_PI as int) * cutoff + rate * (SCALE as int))
}

/// Every smoothing factor the calculator can yield lies in `[0, SCALE)`: a
/// positive rate and a non-negative cutoff give a proper weight.
pub proof fn lemma_alpha_range(rate: int, cutoff: int)
    requires
        rate >= 1,
        cutoff >= 0,
    ensures
        0 <= alpha_spec(rate, cutoff) < SCALE,
{
    let s = SCALE as int;
    let numerator = s * ((TWO_PI as int) * cutoff);
    let denominator = (TWO_PI as int) * cutoff + rate * s;
    assert(0 <= (TWO_PI as int) * cutoff) by (nonlinear_arith)
        requires
            cutoff >= 0,
    ;
    assert(rate * s >= s) by (nonlinear_arith)
        requires
            rate >= 1,
            s == 1_000_000,
    ;
    assert(numerator < denominator * s) by (nonlinear_arith)
        requires
            numerator == s * ((TWO_PI as int) * cutoff),
            denominator == (TWO_PI as int) * cutoff + rate * s,
            0 <= (TWO_PI as int) * cutoff,
            rate * s >= s,
            s == 1_000_000,
    ;
    assert(0 <= numerator) by (nonlinear_arith)
        requires
            numerator == s * ((TWO_PI as int) * cutoff),
            0 <= (TWO_PI as int) * cutoff,
            s == 1_000_000,
    ;
    vstd::arithmetic::div_mod::lemma_div_pos_is_pos(numerator, denominator);
    vstd::arithmetic::div_mod::lemma_multiply_divide_lt(numerator, denominator, s);
}

/// Core of the smoothing-factor computation, shared with the adaptive filter,
/// whose cutoff can outgrow an `i64`.
pub(crate) fn alpha_for_cutoff(rate: i64, cutoff: i128) -> (alpha: i64)
    requires
        1 <= rate,
        0 <= cutoff <= CUTOFF_MAX,
    ensures
        alpha == alpha_spec(rate as int, cutoff as int),
        0 <= alpha < SCALE,
{
    let numerator_part: u128 = (TWO_PI as u128) * (cutoff as u128);
    let rate_part: u128 = (rate as u128) * (SCALE as u128);
    proof {
        assert((TWO_PI as int) * (cutoff as int) <= (TWO_PI as int) * (CUTOFF_MAX as int)) by {
            vstd::arithmetic::mul::lemma_mul_left_inequality(
                TWO_PI as int,
                cutoff as int,
                CUTOFF_MAX as int,
            );
        }
        assert((SCALE as int) * (numerator_part as int)
            <= (SCALE as int) * ((TWO_PI as int) * (CUTOFF_MAX as int))) by {
            vstd::arithmetic::mul::lemma_mul_left_inequality(
                SCALE as int,
                numerator_part as int,
                (TWO_PI as int) * (CUTOFF_MAX as int),
            );
        }
    }
    let scaled: u128 = (SCALE as u128) * numerator_part;
    let denominator: u128 = numerator_part + rate_part;
    proof {
        assert(rate_part >= SCALE) by {
            vstd::arithmetic::mul::lemma_mul_inequality(1, rate as int, SCALE as int);
        }
    }
    let quotient: u128 = scaled / denominator;
    proof {
        lemma_alpha_range(rate as int, cutoff as int);
    }
    quotient as i64
}

/// Smoothing factor for `rate` and `cutoff` without parameter validation: the
/// caller guarantees a positive rate and a non-negative cutoff.
pub fn get_alpha_unchecked(rate: i64, cutoff: i64) -> (alpha: i64)
    requires
        1 <= rate,
        0 <= cutoff,
    ensures
        alpha == alpha_spec(rate as int, cutoff as int),
        0 <= alpha < SCALE,
{
    alpha_for_cutoff(rate, cutoff as i128)
}

/// Smoothing factor for sampling frequency `rate` and frequency `cutoff`,
/// both in micro-units.
///
/// Rejects a non-positive rate, then a non-positive cutoff; otherwise returns
/// `alpha_spec(rate, cutoff)`, which lies in `[0, 1)`.
pub fn get_alpha(rate: i64, cutoff: i64) -> (result: Result<i64, InvalidParameter>)
    ensures
        rate <= 0 ==> result == Result::<i64, InvalidParameter>::Err(
            InvalidParameter::NonPositiveRate,
        ),
        rate > 0 && cutoff <= 0 ==> result == Result::<i64, InvalidParameter>::Err(
            InvalidParameter::NonPositiveCutoff,
        ),
        rate > 0 && cutoff > 0 ==> result == Result::<i64, InvalidParameter>::Ok(
            alpha_spec(rate as int, cutoff as int) as i64,
        ),
{
    if rate <= 0 {
        Err(InvalidParameter::NonPositiveRate)
    } else if cutoff <= 0 {
        Err(InvalidParameter::NonPositiveCutoff)
    } else {
        Ok(get_alpha_unchecked(rate, cutoff))
    }
}

} // verus!
