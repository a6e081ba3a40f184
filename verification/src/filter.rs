//! The parameter holder: the tunable filter parameters, their validated
//! setters, and the entry point that drives a per-stream state.

use vstd::prelude::*;

use crate::alpha::{alpha_spec, get_alpha_unchecked};
use crate::state::{next_deriv_spec, next_filtered_spec, OneEuroState};
use crate::{InvalidParameter, PARAM_MAX, SCALE, VALUE_MAX};

verus! {

/// The tunable parameters of the filter: the cutoff slope `beta`, the
/// derivative cutoff `dcutoff` and the minimum cutoff `mincutoff`, all in
/// micro-units. One holder, read-mostly, can drive many independent states;
/// the sampling rate is supplied per call.
#[derive(Clone, Debug, PartialEq, Eq, Structural)]
pub struct OneEuroFilter {
    /// Slope for the adaptive frequency cutoff; non-negative.
    pub beta: i64,
    /// Frequency cutoff of the derivative stage; positive.
    pub dcutoff: i64,
    /// Minimum value of the adaptive frequency cutoff; positive.
    pub mincutoff: i64,
}

impl OneEuroFilter {
    /// The parameter invariant: positive cutoffs, non-negative beta, all
    /// within the machine range the update rule accepts.
    pub open spec fn wf(&self) -> bool {
        &&& 1 <= self.mincutoff <= PARAM_MAX
        &&& 1 <= self.dcutoff <= PARAM_MAX
        &&& 0 <= self.beta <= PARAM_MAX
    }

    /// Build a filter from explicit parameters, validated as a unit: a
    /// non-positive cutoff or a negative beta is rejected and no
    /// partially-valid filter is observable.
    pub fn new(mincutoff: i64, beta: i64, dcutoff: i64) -> (result: Result<
        Self,
        InvalidParameter,
    >)
        requires
            mincutoff <= PARAM_MAX,
            beta <= PARAM_MAX,
            dcutoff <= PARAM_MAX,
        ensures
            mincutoff <= 0 ==> result == Result::<Self, InvalidParameter>::Err(
                InvalidParameter::NonPositiveCutoff,
            ),
            mincutoff > 0 && dcutoff <= 0 ==> result == Result::<Self, InvalidParameter>::Err(
                InvalidParameter::NonPositiveCutoff,
            ),
            mincutoff > 0 && dcutoff > 0 && beta < 0 ==> result == Result::<
                Self,
                InvalidParameter,
            >::Err(InvalidParameter::NegativeBeta),
            mincutoff > 0 && dcutoff > 0 && beta >= 0 ==> (result matches Ok(f) && f.wf()
                && f.mincutoff == mincutoff && f.dcutoff == dcutoff && f.beta == beta),
    {
        if mincutoff <= 0 {
            Err(InvalidParameter::NonPositiveCutoff)
        } else if dcutoff <= 0 {
            Err(InvalidParameter::NonPositiveCutoff)
        } else if beta < 0 {
            Err(InvalidParameter::NegativeBeta)
        } else {
            Ok(OneEuroFilter { beta, dcutoff, mincutoff })
        }
    }

    /// Slope for the adaptive frequency cutoff.
    pub fn beta(&self) -> (r: i64)
        ensures
            r == self.beta,
    {
        self.beta
    }

    /// Frequency cutoff of the derivative stage.
    pub fn dcutoff(&self) -> (r: i64)
        ensures
            r == self.dcutoff,
    {
        self.dcutoff
    }

    /// Minimum value of the adaptive frequency cutoff.
    pub fn mincutoff(&self) -> (r: i64)
        ensures
            r == self.mincutoff,
    {
        self.mincutoff
    }

    /// Set the derivative-stage frequency cutoff; a non-positive value is
    /// rejected and nothing changes.
    pub fn set_dcutoff(&mut self, value: i64) -> (result: Result<(), InvalidParameter>)
        requires
            old(self).wf(),
            value <= PARAM_MAX,
        ensures
            final(self).wf(),
            final(self).beta == old(self).beta,
            final(self).mincutoff == old(self).mincutoff,
            value <= 0 ==> result == Result::<(), InvalidParameter>::Err(
                InvalidParameter::NonPositiveCutoff,
            ) && final(self).dcutoff == old(self).dcutoff,
            value > 0 ==> result == Result::<(), InvalidParameter>::Ok(()) && final(self).dcutoff
                == value,
    {
        if value <= 0 {
            Err(InvalidParameter::NonPositiveCutoff)
        } else {
            self.dcutoff = value;
            Ok(())
        }
    }

    /// Set the minimum frequency cutoff; a non-positive value is rejected
    /// and nothing changes.
    pub fn set_mincutoff(&mut self, value: i64) -> (result: Result<(), InvalidParameter>)
        requires
            old(self).wf(),
            value <= PARAM_MAX,
        ensures
            final(self).wf(),
            final(self).beta == old(self).beta,
            final(self).dcutoff == old(self).dcutoff,
            value <= 0 ==> result == Result::<(), InvalidParameter>::Err(
                InvalidParameter::NonPositiveCutoff,
            ) && final(self).mincutoff == old(self).mincutoff,
            value > 0 ==> result == Result::<(), InvalidParameter>::Ok(()) && final(self).mincutoff
                == value,
    {
        if value <= 0 {
            Err(InvalidParameter::NonPositiveCutoff)
        } else {
            self.mincutoff = value;
            Ok(())
        }
    }

    /// Set the slope for the adaptive frequency cutoff; a negative value is
    /// rejected and nothing changes.
    pub fn set_beta(&mut self, value: i64) -> (result: Result<(), InvalidParameter>)
        requires
            old(self).wf(),
            value <= PARAM_MAX,
        ensures
            final(self).wf(),
            final(self).dcutoff == old(self).dcutoff,
            final(self).mincutoff == old(self).mincutoff,
            value < 0 ==> result == Result::<(), InvalidParameter>::Err(
                InvalidParameter::NegativeBeta,
            ) && final(self).beta == old(self).beta,
            value >= 0 ==> result == Result::<(), InvalidParameter>::Ok(()) && final(self).beta
                == value,
    {
        if value < 0 {
            Err(InvalidParameter::NegativeBeta)
        } else {
            self.beta = value;
            Ok(())
        }
    }

    /// The derivative-stage smoothing factor for `rate`, replicated over
    /// `dim` components. It is fixed per `(rate, dcutoff)` pair and reused
    /// across a whole update, unlike the signal-stage factor, which depends
    /// on the live derivative.
    pub fn get_alpha(&self, rate: i64, dim: usize) -> (r: Vec<i64>)
        requires
            self.wf(),
            1 <= rate,
        ensures
            r@.len() == dim,
            forall|i: int|
                0 <= i < dim ==> #[trigger] r@[i] == alpha_spec(rate as int, self.dcutoff as int),
            forall|i: int| 0 <= i < dim ==> 0 <= #[trigger] r@[i] <= SCALE,
    {
        let a = get_alpha_unchecked(rate, self.dcutoff);
        vec![a; dim]
    }

    /// Drive one update of `state` with the current parameters and the
    /// per-call sampling rate `rate`, the reciprocal of the time elapsed
    /// since the previous sample of that state.
    pub fn filter(&self, state: &mut OneEuroState, raw: &Vec<i64>, rate: i64)
        requires
            self.wf(),
            old(state).wf(),
            raw@.len() == old(state).dim(),
            forall|i: int| 0 <= i < raw@.len() ==> -VALUE_MAX <= #[trigger] raw@[i] <= VALUE_MAX,
            1 <= rate <= PARAM_MAX,
        ensures
            final(state).wf(),
            final(state).dim() == old(state).dim(),
            final(state).raw@ == raw@,
            forall|i: int|
                0 <= i < raw@.len() ==> #[trigger] final(state).derivate@[i] == next_deriv_spec(
                    raw@[i] as int,
                    old(state).raw@[i] as int,
                    old(state).derivate@[i] as int,
                    alpha_spec(rate as int, self.dcutoff as int),
                    rate as int,
                ),
            forall|i: int|
                0 <= i < raw@.len() ==> #[trigger] final(state).filtered@[i] == next_filtered_spec(
                    raw@[i] as int,
                    old(state).filtered@[i] as int,
                    final(state).derivate@[i] as int,
                    rate as int,
                    self.mincutoff as int,
                    self.beta as int,
                ),
    {
        let alpha = self.get_alpha(rate, raw.len());
        state.update_unchecked(raw, &alpha, rate, self.mincutoff, self.beta);
    }

    /// Drive one update of every state against its sample with the same
    /// parameters and rate: a loop over independent updates, with no
    /// cross-element interaction.
    pub fn filter_slice(&self, states: &mut Vec<OneEuroState>, raws: &Vec<Vec<i64>>, rate: i64)
        requires
            self.wf(),
            old(states)@.len() == raws@.len(),
            forall|j: int| 0 <= j < old(states)@.len() ==> (#[trigger] old(states)@[j]).wf(),
            forall|j: int|
                0 <= j < old(states)@.len() ==> (#[trigger] raws@[j])@.len() == old(
                    states,
                )@[j].dim(),
            forall|j: int, i: int|
                0 <= j < raws@.len() && 0 <= i < raws@[j]@.len() ==> -VALUE_MAX
                    <= #[trigger] raws@[j]@[i] <= VALUE_MAX,
            1 <= rate <= PARAM_MAX,
        ensures
            final(states)@.len() == old(states)@.len(),
            forall|j: int| 0 <= j < old(states)@.len() ==> (#[trigger] final(states)@[j]).wf(),
            forall|j: int|
                0 <= j < old(states)@.len() ==> (#[trigger] final(states)@[j]).dim() == old(
                    states,
                )@[j].dim(),
            forall|j: int|
                0 <= j < old(states)@.len() ==> (#[trigger] final(states)@[j]).raw@ == raws@[j]@,
            forall|j: int, i: int|
                0 <= j < old(states)@.len() && 0 <= i < raws@[j]@.len()
                    ==> #[trigger] final(states)@[j].derivate@[i] == next_deriv_spec(
                    raws@[j]@[i] as int,
                    old(states)@[j].raw@[i] as int,
                    old(states)@[j].derivate@[i] as int,
                    alpha_spec(rate as int, self.dcutoff as int),
                    rate as int,
                ),
            forall|j: int, i: int|
                0 <= j < old(states)@.len() && 0 <= i < raws@[j]@.len()
                    ==> #[trigger] final(states)@[j].filtered@[i] == next_filtered_spec(
                    raws@[j]@[i] as int,
                    old(states)@[j].filtered@[i] as int,
                    final(states)@[j].derivate@[i] as int,
                    rate as int,
                    self.mincutoff as int,
                    self.beta as int,
                ),
    {
        let n = states.len();
        let mut idx: usize = 0;
        while idx < n
            invariant
                0 <= idx <= n,
                n == states@.len(),
                states@.len() == old(states)@.len(),
                old(states)@.len() == raws@.len(),
                self.wf(),
                1 <= rate <= PARAM_MAX,
                forall|j: int| 0 <= j < old(states)@.len() ==> (#[trigger] old(states)@[j]).wf(),
                forall|j: int|
                    0 <= j < old(states)@.len() ==> (#[trigger] raws@[j])@.len() == old(
                        states,
                    )@[j].dim(),
                forall|j: int, i: int|
                    0 <= j < raws@.len() && 0 <= i < raws@[j]@.len() ==> -VALUE_MAX
                        <= #[trigger] raws@[j]@[i] <= VALUE_MAX,
                forall|j: int| idx <= j < n ==> #[trigger] states@[j] == old(states)@[j],
                forall|j: int| 0 <= j < idx ==> (#[trigger] states@[j]).wf(),
                forall|j: int|
                    0 <= j < idx ==> (#[trigger] states@[j]).dim() == old(states)@[j].dim(),
                forall|j: int| 0 <= j < idx ==> (#[trigger] states@[j]).raw@ == raws@[j]@,
                forall|j: int, i: int|
                    0 <= j < idx && 0 <= i < raws@[j]@.len() ==> #[trigger] states@[j].derivate@[i]
                        == next_deriv_spec(
                        raws@[j]@[i] as int,
                        old(states)@[j].raw@[i] as int,
                        old(states)@[j].derivate@[i] as int,
                        alpha_spec(rate as int, self.dcutoff as int),
                        rate as int,
                    ),
                forall|j: int, i: int|
                    0 <= j < idx && 0 <= i < raws@[j]@.len() ==> #[trigger] states@[j].filtered@[i]
                        == next_filtered_spec(
                        raws@[j]@[i] as int,
                        old(states)@[j].filtered@[i] as int,
                        states@[j].derivate@[i] as int,
                        rate as int,
                        self.mincutoff as int,
                        self.beta as int,
                    ),
            decreases n - idx,
        {
            let state = &mut states[idx];
            self.filter(state, &raws[idx], rate);
            idx += 1;
        }
    }
}

impl Default for OneEuroFilter {
    /// Unit cutoffs and a zero slope: until configured otherwise the filter
    /// behaves as a plain fixed low-pass filter.
    fn default() -> (f: Self)
        ensures
            f.wf(),
            f.mincutoff == SCALE,
            f.dcutoff == SCALE,
            f.beta == 0,
    {
        OneEuroFilter { beta: 0, dcutoff: SCALE, mincutoff: SCALE }
    }
}

} // verus!
