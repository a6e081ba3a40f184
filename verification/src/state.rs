//! The adaptive filter state: two coupled low-pass stages plus the last raw
//! sample, advanced by the one-euro update rule.

use vstd::math::abs;
use vstd::prelude::*;

use crate::alpha::{alpha_for_cutoff, alpha_spec, lemma_alpha_range};
use crate::lowpass::{
    alpha_in_range, lemma_lowpass_bounds, lowpass_component, lowpass_spec, LowPassState,
};
use crate::{InvalidParameter, CUTOFF_MAX, DERIV_MAX, PARAM_MAX, SCALE, VALUE_MAX};

verus! {

/// Finite-difference velocity estimate, in micro-units:
/// `(sample - previous_raw) * rate`, rounded toward zero. `rate` is the
/// reciprocal of the time elapsed since the previous sample.
pub open spec fn deriv_raw_spec(sample: int, previous_raw: int, rate: int) -> int {
    let p = (sample - previous_raw) * rate;
    if p >= 0 {
        p / (SCALE as int)
    } else {
        -((-p) / (SCALE as int))
    }
}

/// The adaptive cutoff frequency, in micro-units:
/// `mincutoff + beta * |derivative|`, rounded down. The faster the signal
/// moves, the higher the cutoff and the lighter the smoothing.
pub open spec fn adaptive_cutoff_spec(mincutoff: int, beta: int, derivative: int) -> int {
    mincutoff + (beta * abs(derivative)) / (SCALE as int)
}

/// The next smoothed derivative: the velocity estimate folded into the
/// derivative stage with the fixed factor `derivative_alpha`.
pub open spec fn next_deriv_spec(
    sample: int,
    previous_raw: int,
    derivative: int,
    derivative_alpha: int,
    rate: int,
) -> int {
    lowpass_spec(deriv_raw_spec(sample, previous_raw, rate), derivative, derivative_alpha)
}

/// The next filtered value: the sample folded into the signal stage with the
/// smoothing factor of the adaptive cutoff taken at the new derivative.
pub open spec fn next_filtered_spec(
    sample: int,
    filtered: int,
    new_derivative: int,
    rate: int,
    mincutoff: int,
    beta: int,
) -> int {
    lowpass_spec(
        sample,
        filtered,
        alpha_spec(rate, adaptive_cutoff_spec(mincutoff, beta, new_derivative)),
    )
}

/// One component of the velocity estimate.
fn deriv_raw_component(sample: i64, previous_raw: i64, rate: i64) -> (d: i64)
    requires
        -VALUE_MAX <= sample <= VALUE_MAX,
        -VALUE_MAX <= previous_raw <= VALUE_MAX,
        1 <= rate <= PARAM_MAX,
    ensures
        d == deriv_raw_spec(sample as int, previous_raw as int, rate as int),
        -DERIV_MAX <= d <= DERIV_MAX,
{
    let diff: i128 = (sample as i128) - (previous_raw as i128);
    if diff >= 0 {
        proof {
            assert(0 <= diff * rate <= 2 * (VALUE_MAX as int) * (PARAM_MAX as int))
                by (nonlinear_arith)
                requires
                    0 <= diff <= 2 * (VALUE_MAX as int),
                    1 <= rate <= PARAM_MAX,
            ;
        }
        let p: u128 = (diff as u128) * (rate as u128);
        let q: u128 = p / (SCALE as u128);
        proof {
            vstd::arithmetic::div_mod::lemma_div_is_ordered(
                p as int,
                2 * (VALUE_MAX as int) * (PARAM_MAX as int),
                SCALE as int,
            );
        }
        q as i64
    } else {
        proof {
            assert(0 < (-diff) * rate <= 2 * (VALUE_MAX as int) * (PARAM_MAX as int))
                by (nonlinear_arith)
                requires
                    0 < -diff <= 2 * (VALUE_MAX as int),
                    1 <= rate <= PARAM_MAX,
            ;
            assert((-diff) * rate == -(diff * rate)) by (nonlinear_arith);
        }
        let p: u128 = ((-diff) as u128) * (rate as u128);
        let q: u128 = p / (SCALE as u128);
        proof {
            vstd::arithmetic::div_mod::lemma_div_is_ordered(
                p as int,
                2 * (VALUE_MAX as int) * (PARAM_MAX as int),
                SCALE as int,
            );
            vstd::arithmetic::div_mod::lemma_div_pos_is_pos(p as int, SCALE as int);
        }
        -(q as i64)
    }
}

/// One component of the adaptive cutoff. The value can outgrow an `i64`, so
/// it is handed on as an `i128`.
fn adaptive_cutoff_component(mincutoff: i64, beta: i64, derivative: i64) -> (c: i128)
    requires
        0 <= mincutoff <= PARAM_MAX,
        0 <= beta <= PARAM_MAX,
        -DERIV_MAX <= derivative <= DERIV_MAX,
    ensures
        c == adaptive_cutoff_spec(mincutoff as int, beta as int, derivative as int),
        0 <= c <= CUTOFF_MAX,
{
    let magnitude: i128 = if derivative >= 0 {
        derivative as i128
    } else {
        -(derivative as i128)
    };
    proof {
        assert(0 <= beta * magnitude <= (PARAM_MAX as int) * (DERIV_MAX as int))
            by (nonlinear_arith)
            requires
                0 <= beta <= PARAM_MAX,
                0 <= magnitude <= DERIV_MAX,
        ;
    }
    let product: u128 = (beta as u128) * (magnitude as u128);
    let q: u128 = product / (SCALE as u128);
    proof {
        vstd::arithmetic::div_mod::lemma_div_is_ordered(
            product as int,
            (PARAM_MAX as int) * (DERIV_MAX as int),
            SCALE as int,
        );
        vstd::arithmetic::div_mod::lemma_div_pos_is_pos(product as int, SCALE as int);
    }
    (mincutoff as i128) + (q as i128)
}

/// The new derivative and filtered vectors that one update step yields;
/// shared core of the checked and the unchecked update.
fn update_components(
    previous_raw: &Vec<i64>,
    previous_filtered: &Vec<i64>,
    previous_deriv: &Vec<i64>,
    sample: &Vec<i64>,
    derivative_alpha: &Vec<i64>,
    rate: i64,
    mincutoff: i64,
    beta: i64,
) -> (next: (Vec<i64>, Vec<i64>))
    requires
        previous_raw@.len() == sample@.len(),
        previous_filtered@.len() == sample@.len(),
        previous_deriv@.len() == sample@.len(),
        derivative_alpha@.len() == sample@.len(),
        forall|i: int| 0 <= i < sample@.len() ==> -VALUE_MAX <= #[trigger] sample@[i] <= VALUE_MAX,
        forall|i: int|
            0 <= i < sample@.len() ==> -VALUE_MAX <= #[trigger] previous_raw@[i] <= VALUE_MAX,
        forall|i: int|
            0 <= i < sample@.len() ==> -VALUE_MAX <= #[trigger] previous_filtered@[i] <= VALUE_MAX,
        forall|i: int|
            0 <= i < sample@.len() ==> -DERIV_MAX <= #[trigger] previous_deriv@[i] <= DERIV_MAX,
        forall|i: int|
            0 <= i < sample@.len() ==> 0 <= #[trigger] derivative_alpha@[i] <= SCALE,
        1 <= rate <= PARAM_MAX,
        0 <= mincutoff <= PARAM_MAX,
        0 <= beta <= PARAM_MAX,
    ensures
        next.0@.len() == sample@.len(),
        next.1@.len() == sample@.len(),
        forall|i: int|
            0 <= i < sample@.len() ==> #[trigger] next.0@[i] == next_deriv_spec(
                sample@[i] as int,
                previous_raw@[i] as int,
                previous_deriv@[i] as int,
                derivative_alpha@[i] as int,
                rate as int,
            ),
        forall|i: int|
            0 <= i < sample@.len() ==> #[trigger] next.1@[i] == next_filtered_spec(
                sample@[i] as int,
                previous_filtered@[i] as int,
                next.0@[i] as int,
                rate as int,
                mincutoff as int,
                beta as int,
            ),
        forall|i: int| 0 <= i < sample@.len() ==> -DERIV_MAX <= #[trigger] next.0@[i] <= DERIV_MAX,
        forall|i: int| 0 <= i < sample@.len() ==> -VALUE_MAX <= #[trigger] next.1@[i] <= VALUE_MAX,
{
    let n = sample.len();
    let mut next_deriv: Vec<i64> = Vec::new();
    let mut next_filtered: Vec<i64> = Vec::new();
    let mut idx: usize = 0;
    while idx < n
        invariant
            0 <= idx <= n,
            n == sample@.len(),
            previous_raw@.len() == sample@.len(),
            previous_filtered@.len() == sample@.len(),
            previous_deriv@.len() == sample@.len(),
            derivative_alpha@.len() == sample@.len(),
            forall|i: int|
                0 <= i < sample@.len() ==> -VALUE_MAX <= #[trigger] sample@[i] <= VALUE_MAX,
            forall|i: int|
                0 <= i < sample@.len() ==> -VALUE_MAX <= #[trigger] previous_raw@[i] <= VALUE_MAX,
            forall|i: int|
                0 <= i < sample@.len() ==> -VALUE_MAX <= #[trigger] previous_filtered@[i]
                    <= VALUE_MAX,
            forall|i: int|
                0 <= i < sample@.len() ==> -DERIV_MAX <= #[trigger] previous_deriv@[i] <= DERIV_MAX,
            forall|i: int|
                0 <= i < sample@.len() ==> 0 <= #[trigger] derivative_alpha@[i] <= SCALE,
            1 <= rate <= PARAM_MAX,
            0 <= mincutoff <= PARAM_MAX,
            0 <= beta <= PARAM_MAX,
            next_deriv@.len() == idx,
            next_filtered@.len() == idx,
            forall|i: int|
                0 <= i < idx ==> #[trigger] next_deriv@[i] == next_deriv_spec(
                    sample@[i] as int,
                    previous_raw@[i] as int,
                    previous_deriv@[i] as int,
                    derivative_alpha@[i] as int,
                    rate as int,
                ),
            forall|i: int|
                0 <= i < idx ==> #[trigger] next_filtered@[i] == next_filtered_spec(
                    sample@[i] as int,
                    previous_filtered@[i] as int,
                    next_deriv@[i] as int,
                    rate as int,
                    mincutoff as int,
                    beta as int,
                ),
            forall|i: int| 0 <= i < idx ==> -DERIV_MAX <= #[trigger] next_deriv@[i] <= DERIV_MAX,
            forall|i: int| 0 <= i < idx ==> -VALUE_MAX <= #[trigger] next_filtered@[i] <= VALUE_MAX,
        decreases n - idx,
    {
        let velocity = deriv_raw_component(sample[idx], previous_raw[idx], rate);
        let nd = lowpass_component(velocity, previous_deriv[idx], derivative_alpha[idx]);
        let cutoff = adaptive_cutoff_component(mincutoff, beta, nd);
        let sample_alpha = alpha_for_cutoff(rate, cutoff);
        let nf = lowpass_component(sample[idx], previous_filtered[idx], sample_alpha);
        next_deriv.push(nd);
        next_filtered.push(nf);
        idx += 1;
    }
    (next_deriv, next_filtered)
}

/// Per-stream state of the adaptive filter: the last raw sample, the
/// low-pass stage of the signal and the low-pass stage of its derivative.
/// Created from an initial sample, which seeds both the raw and the filtered
/// value; the derivative starts at zero.
#[derive(Clone, Debug)]
pub struct OneEuroState {
    /// The last unfiltered sample.
    pub raw: Vec<i64>,
    /// The signal stage: the last filtered value.
    pub filtered: LowPassState,
    /// The derivative stage: the last smoothed velocity estimate.
    pub derivate: LowPassState,
}

impl OneEuroState {
    /// The dimension the state was created with.
    pub open spec fn dim(&self) -> nat {
        self.raw@.len()
    }

    /// Well-formed state: the three vectors share one dimension, signal
    /// components are within `VALUE_MAX` and derivative components within
    /// `DERIV_MAX` — the ranges one update step preserves.
    pub open spec fn wf(&self) -> bool {
        &&& self.filtered@.len() == self.dim()
        &&& self.derivate@.len() == self.dim()
        &&& forall|i: int|
            0 <= i < self.dim() ==> -VALUE_MAX <= #[trigger] self.raw@[i] <= VALUE_MAX
        &&& forall|i: int|
            0 <= i < self.dim() ==> -VALUE_MAX <= #[trigger] self.filtered@[i] <= VALUE_MAX
        &&& forall|i: int|
            0 <= i < self.dim() ==> -DERIV_MAX <= #[trigger] self.derivate@[i] <= DERIV_MAX
    }

    /// Seed a state from an initial sample: the sample becomes both the raw
    /// and the filtered value, and the derivative starts at zero.
    pub fn new(state: Vec<i64>) -> (s: Self)
        requires
            forall|i: int| 0 <= i < state@.len() ==> -VALUE_MAX <= #[trigger] state@[i] <= VALUE_MAX,
        ensures
            s.wf(),
            s.dim() == state@.len(),
            s.raw@ == state@,
            s.filtered@ == state@,
            s.derivate@.len() == state@.len(),
            forall|i: int| 0 <= i < state@.len() ==> #[trigger] s.derivate@[i] == 0,
    {
        let n = state.len();
        let raw = state.clone();
        proof {
            assert(raw@ =~= state@);
        }
        let zeros: Vec<i64> = vec![0i64; n];
        OneEuroState { raw, filtered: LowPassState::new(state), derivate: LowPassState::new(zeros) }
    }

    /// The current smoothed derivative.
    pub fn derivate(&self) -> (r: &Vec<i64>)
        ensures
            r@ == self.derivate@,
    {
        self.derivate.data()
    }

    /// The current filtered value.
    pub fn data(&self) -> (r: &Vec<i64>)
        ensures
            r@ == self.filtered@,
    {
        self.filtered.data()
    }

    /// The current raw (not filtered) value.
    pub fn raw(&self) -> (r: &Vec<i64>)
        ensures
            r@ == self.raw@,
    {
        &self.raw
    }

    /// Advance the state by one sample, validating the parameters first: a
    /// derivative smoothing factor outside `[0, SCALE]`, a non-positive
    /// rate, a negative minimum cutoff and a negative beta are rejected in
    /// that order, leaving the state unchanged.
    pub fn update(
        &mut self,
        sample: &Vec<i64>,
        derivative_alpha: &Vec<i64>,
        rate: i64,
        mincutoff: i64,
        beta: i64,
    ) -> (result: Result<(), InvalidParameter>)
        requires
            old(self).wf(),
            sample@.len() == old(self).dim(),
            derivative_alpha@.len() == old(self).dim(),
            forall|i: int|
                0 <= i < sample@.len() ==> -VALUE_MAX <= #[trigger] sample@[i] <= VALUE_MAX,
            rate <= PARAM_MAX,
            mincutoff <= PARAM_MAX,
            beta <= PARAM_MAX,
        ensures
            final(self).wf(),
            final(self).dim() == old(self).dim(),
            result is Err ==> final(self).raw@ == old(self).raw@ && final(self).filtered@ == old(
                self,
            ).filtered@ && final(self).derivate@ == old(self).derivate@,
            (exists|i: int|
                0 <= i < derivative_alpha@.len() && !(0 <= #[trigger] derivative_alpha@[i]
                    <= SCALE)) ==> result == Result::<(), InvalidParameter>::Err(
                InvalidParameter::AlphaOutOfRange,
            ),
            (forall|i: int|
                0 <= i < derivative_alpha@.len() ==> 0 <= #[trigger] derivative_alpha@[i]
                    <= SCALE) ==> {
                &&& rate <= 0 ==> result == Result::<(), InvalidParameter>::Err(
                    InvalidParameter::NonPositiveRate,
                )
                &&& rate > 0 && mincutoff < 0 ==> result == Result::<(), InvalidParameter>::Err(
                    InvalidParameter::NonPositiveCutoff,
                )
                &&& rate > 0 && mincutoff >= 0 && beta < 0 ==> result == Result::<
                    (),
                    InvalidParameter,
                >::Err(InvalidParameter::NegativeBeta)
                &&& rate > 0 && mincutoff >= 0 && beta >= 0 ==> result == Result::<
                    (),
                    InvalidParameter,
                >::Ok(()) && final(self).raw@ == sample@ && (forall|i: int|
                    0 <= i < sample@.len() ==> #[trigger] final(self).derivate@[i]
                        == next_deriv_spec(
                        sample@[i] as int,
                        old(self).raw@[i] as int,
                        old(self).derivate@[i] as int,
                        derivative_alpha@[i] as int,
                        rate as int,
                    )) && (forall|i: int|
                    0 <= i < sample@.len() ==> #[trigger] final(self).filtered@[i]
                        == next_filtered_spec(
                        sample@[i] as int,
                        old(self).filtered@[i] as int,
                        final(self).derivate@[i] as int,
                        rate as int,
                        mincutoff as int,
                        beta as int,
                    ))
            },
    {
        if !alpha_in_range(derivative_alpha) {
            return Err(InvalidParameter::AlphaOutOfRange);
        }
        if rate <= 0 {
            return Err(InvalidParameter::NonPositiveRate);
        }
        if mincutoff < 0 {
            return Err(InvalidParameter::NonPositiveCutoff);
        }
        if beta < 0 {
            return Err(InvalidParameter::NegativeBeta);
        }
        self.update_unchecked(sample, derivative_alpha, rate, mincutoff, beta);
        Ok(())
    }

    /// Advance the state by one sample without validation: the caller
    /// guarantees every component of `derivative_alpha` lies in
    /// `[0, SCALE]`, a positive rate, a non-negative minimum cutoff and a
    /// non-negative beta.
    pub fn update_unchecked(
        &mut self,
        sample: &Vec<i64>,
        derivative_alpha: &Vec<i64>,
        rate: i64,
        mincutoff: i64,
        beta: i64,
    )
        requires
            old(self).wf(),
            sample@.len() == old(self).dim(),
            derivative_alpha@.len() == old(self).dim(),
            forall|i: int|
                0 <= i < sample@.len() ==> -VALUE_MAX <= #[trigger] sample@[i] <= VALUE_MAX,
            forall|i: int|
                0 <= i < derivative_alpha@.len() ==> 0 <= #[trigger] derivative_alpha@[i] <= SCALE,
            1 <= rate <= PARAM_MAX,
            0 <= mincutoff <= PARAM_MAX,
            0 <= beta <= PARAM_MAX,
        ensures
            final(self).wf(),
            final(self).dim() == old(self).dim(),
            final(self).raw@ == sample@,
            forall|i: int|
                0 <= i < sample@.len() ==> #[trigger] final(self).derivate@[i] == next_deriv_spec(
                    sample@[i] as int,
                    old(self).raw@[i] as int,
                    old(self).derivate@[i] as int,
                    derivative_alpha@[i] as int,
                    rate as int,
                ),
            forall|i: int|
                0 <= i < sample@.len() ==> #[trigger] final(self).filtered@[i]
                    == next_filtered_spec(
                    sample@[i] as int,
                    old(self).filtered@[i] as int,
                    final(self).derivate@[i] as int,
                    rate as int,
                    mincutoff as int,
                    beta as int,
                ),
    {
        let (next_deriv, next_filtered) = update_components(
            &self.raw,
            &self.filtered.data,
            &self.derivate.data,
            sample,
            derivative_alpha,
            rate,
            mincutoff,
            beta,
        );
        let raw = sample.clone();
        proof {
            assert(raw@ =~= sample@);
        }
        self.raw = raw;
        self.filtered.data = next_filtered;
        self.derivate.data = next_deriv;
    }
}

/// On a constant input stream the filter settles: when the sample equals the
/// stored raw value, the velocity estimate is zero, the smoothed derivative
/// cannot grow in magnitude, and the filtered value cannot move away from
/// the sample.
pub proof fn lemma_constant_input_step(
    sample: int,
    filtered: int,
    derivative: int,
    derivative_alpha: int,
    rate: int,
    mincutoff: int,
    beta: int,
)
    requires
        0 <= derivative_alpha <= SCALE,
        rate >= 1,
        mincutoff >= 0,
        beta >= 0,
    ensures
        deriv_raw_spec(sample, sample, rate) == 0,
        abs(next_deriv_spec(sample, sample, derivative, derivative_alpha, rate)) <= abs(
            derivative,
        ),
        abs(
            next_filtered_spec(
                sample,
                filtered,
                next_deriv_spec(sample, sample, derivative, derivative_alpha, rate),
                rate,
                mincutoff,
                beta,
            ) - sample,
        ) <= abs(filtered - sample),
{
    let s = SCALE as int;
    assert((sample - sample) * rate == 0) by (nonlinear_arith);
    assert(0int / s == 0) by {
        vstd::arithmetic::div_mod::lemma_div_of0(s);
    }
    let nd = next_deriv_spec(sample, sample, derivative, derivative_alpha, rate);
    lemma_lowpass_bounds(0, derivative, derivative_alpha);
    let cutoff = adaptive_cutoff_spec(mincutoff, beta, nd);
    assert(0 <= beta * abs(nd)) by (nonlinear_arith)
        requires
            beta >= 0,
    ;
    vstd::arithmetic::div_mod::lemma_div_pos_is_pos(beta * abs(nd), s);
    lemma_alpha_range(rate, cutoff);
    lemma_lowpass_bounds(sample, filtered, alpha_spec(rate, cutoff));
}

/// The adaptive cutoff is monotone in the speed of the signal: with a fixed
/// minimum cutoff and a non-negative beta, a derivative of larger magnitude
/// never yields a smaller cutoff.
pub proof fn lemma_cutoff_monotone(mincutoff: int, beta: int, d1: int, d2: int)
    requires
        beta >= 0,
        abs(d1) <= abs(d2),
    ensures
        adaptive_cutoff_spec(mincutoff, beta, d1) <= adaptive_cutoff_spec(mincutoff, beta, d2),
{
    assert(beta * abs(d1) <= beta * abs(d2)) by (nonlinear_arith)
        requires
            beta >= 0,
            abs(d1) <= abs(d2),
    ;
    vstd::arithmetic::div_mod::lemma_div_is_ordered(
        beta * abs(d1),
        beta * abs(d2),
        SCALE as int,
    );
}

/// The update rule is a function of its declared arguments alone: equal
/// states and equal parameters give equal results, however the rate was
/// obtained — there is no hidden clock or other side input.
pub proof fn lemma_update_deterministic(
    sample: int,
    previous_raw: int,
    filtered: int,
    derivative: int,
    derivative_alpha: int,
    rate_a: int,
    rate_b: int,
    mincutoff: int,
    beta: int,
)
    requires
        rate_a == rate_b,
    ensures
        next_deriv_spec(sample, previous_raw, derivative, derivative_alpha, rate_a)
            == next_deriv_spec(sample, previous_raw, derivative, derivative_alpha, rate_b),
        next_filtered_spec(
            sample,
            filtered,
            next_deriv_spec(sample, previous_raw, derivative, derivative_alpha, rate_a),
            rate_a,
            mincutoff,
            beta,
        ) == next_filtered_spec(
            sample,
            filtered,
            next_deriv_spec(sample, previous_raw, derivative, derivative_alpha, rate_b),
            rate_b,
            mincutoff,
            beta,
        ),
{
}

} // verus!
