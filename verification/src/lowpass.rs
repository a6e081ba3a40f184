//! The exponential low-pass primitive: one weighted-average step per
//! component, and a state holding the last emitted value.

use vstd::prelude::*;

use crate::{InvalidParameter, SCALE};

verus! {

/// One step of the exponential moving average, in micro-units:
/// `(current * alpha + previous * (SCALE - alpha)) / SCALE`, rounded down.
pub open spec fn lowpass_spec(current: int, previous: int, alpha: int) -> int {
    (current * alpha + previous * ((SCALE as int) - alpha)) / (SCALE as int)
}

/// A low-pass step never leaves the closed interval spanned by its two
/// inputs: with `alpha == 0` it keeps `previous`, with `alpha == SCALE` it
/// keeps `current`, and for everything between it lands between them.
pub proof fn lemma_lowpass_bounds(current: int, previous: int, alpha: int)
    requires
        0 <= alpha <= SCALE,
    ensures
        current <= previous ==> current <= lowpass_spec(current, previous, alpha) <= previous,
        previous <= current ==> previous <= lowpass_spec(current, previous, alpha) <= current,
{
    let s = SCALE as int;
    let lo = if current <= previous { current } else { previous };
    let hi = if current <= previous { previous } else { current };
    let num = current * alpha + previous * (s - alpha);
    assert(lo * s <= num <= hi * s) by (nonlinear_arith)
        requires
            lo <= current <= hi,
            lo <= previous <= hi,
            0 <= alpha <= s,
            num == current * alpha + previous * (s - alpha),
    ;
    assert((lo * s) / s == lo) by {
        vstd::arithmetic::mul::lemma_mul_is_commutative(lo, s);
        vstd::arithmetic::div_mod::lemma_div_multiples_vanish(lo, s);
    }
    assert((hi * s) / s == hi) by {
        vstd::arithmetic::mul::lemma_mul_is_commutative(hi, s);
        vstd::arithmetic::div_mod::lemma_div_multiples_vanish(hi, s);
    }
    vstd::arithmetic::div_mod::lemma_div_is_ordered(lo * s, num, s);
    vstd::arithmetic::div_mod::lemma_div_is_ordered(num, hi * s, s);
}

/// With `alpha == 0` — infinite smoothing — the step returns `previous`
/// unchanged, whatever the inputs.
pub proof fn lemma_lowpass_alpha_zero(current: int, previous: int)
    ensures
        lowpass_spec(current, previous, 0) == previous,
{
    let s = SCALE as int;
    assert(current * 0 + previous * (s - 0) == s * previous) by (nonlinear_arith);
    vstd::arithmetic::div_mod::lemma_div_multiples_vanish(previous, s);
}

/// With `alpha == SCALE` — no smoothing — the step returns `current`
/// unchanged, whatever the inputs.
pub proof fn lemma_lowpass_alpha_one(current: int, previous: int)
    ensures
        lowpass_spec(current, previous, SCALE as int) == current,
{
    let s = SCALE as int;
    assert(current * s + previous * (s - s) == s * current) by (nonlinear_arith);
    vstd::arithmetic::div_mod::lemma_div_multiples_vanish(current, s);
}

/// With `alpha == SCALE / 2` the step returns the midpoint of its inputs,
/// rounded down.
pub proof fn lemma_lowpass_alpha_half(current: int, previous: int)
    ensures
        lowpass_spec(current, previous, (SCALE as int) / 2) == (current + previous) / 2,
{
    let s = SCALE as int;
    let h = s / 2;
    let sum = current + previous;
    let q = sum / 2;
    let r = sum % 2;
    assert(current * h + previous * (s - h) == sum * h) by (nonlinear_arith)
        requires
            2 * h == s,
            sum == current + previous,
    ;
    assert(sum == 2 * q + r) by {
        vstd::arithmetic::div_mod::lemma_fundamental_div_mod(sum, 2);
    }
    assert(0 <= r < 2) by {
        vstd::arithmetic::div_mod::lemma_mod_division_less_than_divisor(sum, 2);
    }
    assert(sum * h == s * q + r * h) by (nonlinear_arith)
        requires
            sum == 2 * q + r && 2 * h == s,
    ;
    assert(0 <= r * h < s) by (nonlinear_arith)
        requires
            0 <= r < 2,
            2 * h == s,
            0 < h,
    ;
    assert((s * q + r * h) / s == q) by {
        vstd::arithmetic::div_mod::lemma_div_multiples_vanish_fancy(q, r * h, s);
    }
}

/// One verified low-pass step on a single component.
pub(crate) fn lowpass_component(current: i64, previous: i64, alpha: i64) -> (r: i64)
    requires
        0 <= alpha <= SCALE,
    ensures
        r == lowpass_spec(current as int, previous as int, alpha as int),
        current <= previous ==> current <= r <= previous,
        previous <= current ==> previous <= r <= current,
{
    let ghost s: int = SCALE as int;
    let lo: i64 = if current <= previous { current } else { previous };
    let shifted_current: i128 = (current as i128) - (lo as i128);
    let shifted_previous: i128 = (previous as i128) - (lo as i128);
    let ghost span: int = 0x1_0000_0000_0000_0000;
    proof {
        assert(shifted_current * alpha <= span * s) by (nonlinear_arith)
            requires
                0 <= shifted_current < span,
                0 <= alpha <= s,
        ;
        assert(shifted_previous * (s - alpha) <= span * s) by (nonlinear_arith)
            requires
                0 <= shifted_previous < span,
                0 <= alpha <= s,
        ;
    }
    let num: u128 = (shifted_current as u128) * (alpha as u128) + (shifted_previous as u128) * ((
    SCALE - alpha) as u128);
    let q: u128 = num / (SCALE as u128);
    proof {
        let cur = current as int;
        let prev = previous as int;
        let l = lo as int;
        let a = alpha as int;
        let hi: int = if cur <= prev { prev } else { cur };
        assert(num <= (hi - l) * s) by (nonlinear_arith)
            requires
                num == (cur - l) * a + (prev - l) * (s - a),
                l <= cur <= hi,
                l <= prev <= hi,
                0 <= a <= s,
        ;
        assert(((hi - l) * s) / s == hi - l) by {
            vstd::arithmetic::mul::lemma_mul_is_commutative(hi - l, s);
            vstd::arithmetic::div_mod::lemma_div_multiples_vanish(hi - l, s);
        }
        vstd::arithmetic::div_mod::lemma_div_is_ordered(num as int, (hi - l) * s, s);
        assert(q <= hi - l);
        // The shifted numerator is the true numerator moved down by `lo * SCALE`.
        assert(cur * a + prev * (s - a) == num + l * s) by (nonlinear_arith)
            requires
                num == (cur - l) * a + (prev - l) * (s - a),
        ;
        assert((num as int) / s + l == (num + l * s) / s) by {
            vstd::arithmetic::div_mod::lemma_hoist_over_denominator(num as int, l, s as nat);
        }
    }
    let r: i128 = (lo as i128) + (q as i128);
    r as i64
}

/// True when every component of `alpha` is a smoothing factor in `[0, SCALE]`.
pub(crate) fn alpha_in_range(alpha: &Vec<i64>) -> (ok: bool)
    ensures
        ok <==> (forall|i: int| 0 <= i < alpha@.len() ==> 0 <= #[trigger] alpha@[i] <= SCALE),
{
    let n = alpha.len();
    let mut idx: usize = 0;
    while idx < n
        invariant
            0 <= idx <= n,
            n == alpha@.len(),
            forall|i: int| 0 <= i < idx ==> 0 <= #[trigger] alpha@[i] <= SCALE,
        decreases n - idx,
    {
        let a = alpha[idx];
        if a < 0 || a > SCALE {
            assert(!(0 <= alpha@[idx as int] <= SCALE));
            return false;
        }
        idx += 1;
    }
    true
}

/// Filter `current` against `previous` with per-component smoothing factors,
/// skipping validation: the caller guarantees every component of `alpha` lies
/// in `[0, SCALE]`.
pub fn filter_unchecked(current: &Vec<i64>, previous: &Vec<i64>, alpha: &Vec<i64>) -> (r: Vec<i64>)
    requires
        current@.len() == previous@.len(),
        current@.len() == alpha@.len(),
        forall|i: int| 0 <= i < alpha@.len() ==> 0 <= #[trigger] alpha@[i] <= SCALE,
    ensures
        r@.len() == current@.len(),
        forall|i: int|
            0 <= i < r@.len() ==> #[trigger] r@[i] == lowpass_spec(
                current@[i] as int,
                previous@[i] as int,
                alpha@[i] as int,
            ),
{
    let n = current.len();
    let mut out: Vec<i64> = Vec::new();
    let mut idx: usize = 0;
    while idx < n
        invariant
            0 <= idx <= n,
            n == current@.len(),
            current@.len() == previous@.len(),
            current@.len() == alpha@.len(),
            forall|i: int| 0 <= i < alpha@.len() ==> 0 <= #[trigger] alpha@[i] <= SCALE,
            out@.len() == idx,
            forall|i: int|
                0 <= i < idx ==> #[trigger] out@[i] == lowpass_spec(
                    current@[i] as int,
                    previous@[i] as int,
                    alpha@[i] as int,
                ),
        decreases n - idx,
    {
        let v = lowpass_component(current[idx], previous[idx], alpha[idx]);
        out.push(v);
        idx += 1;
    }
    out
}

/// Filter `current` against `previous`, validating that every component of
/// `alpha` lies in `[0, SCALE]`; a component outside that interval is
/// rejected.
pub fn filter(current: &Vec<i64>, previous: &Vec<i64>, alpha: &Vec<i64>) -> (result: Result<
    Vec<i64>,
    InvalidParameter,
>)
    requires
        current@.len() == previous@.len(),
        current@.len() == alpha@.len(),
    ensures
        (exists|i: int| 0 <= i < alpha@.len() && !(0 <= #[trigger] alpha@[i] <= SCALE))
            ==> result == Result::<Vec<i64>, InvalidParameter>::Err(
            InvalidParameter::AlphaOutOfRange,
        ),
        (forall|i: int| 0 <= i < alpha@.len() ==> 0 <= #[trigger] alpha@[i] <= SCALE) ==> (result
            matches Ok(r) && r@.len() == current@.len() && (forall|i: int|
            0 <= i < r@.len() ==> #[trigger] r@[i] == lowpass_spec(
                current@[i] as int,
                previous@[i] as int,
                alpha@[i] as int,
            ))),
{
    if alpha_in_range(alpha) {
        Ok(filter_unchecked(current, previous, alpha))
    } else {
        Err(InvalidParameter::AlphaOutOfRange)
    }
}

/// Persistent low-pass stage: holds the last emitted smoothed value, seeded
/// with an initial vector at construction.
#[derive(Clone, Debug)]
pub struct LowPassState {
    pub data: Vec<i64>,
}

impl View for LowPassState {
    type V = Seq<i64>;

    open spec fn view(&self) -> Seq<i64> {
        self.data@
    }
}

impl LowPassState {
    /// Seed the stage with an initial value.
    pub fn new(data: Vec<i64>) -> (s: Self)
        ensures
            s@ == data@,
    {
        LowPassState { data }
    }

    /// The last emitted value.
    pub fn data(&self) -> (r: &Vec<i64>)
        ensures
            r@ == self@,
    {
        &self.data
    }

    /// Replace the state with `filter(raw, state, alpha)`, validating
    /// `alpha`; on rejection the state is unchanged.
    pub fn update(&mut self, raw: &Vec<i64>, alpha: &Vec<i64>) -> (result: Result<
        (),
        InvalidParameter,
    >)
        requires
            old(self)@.len() == raw@.len(),
            old(self)@.len() == alpha@.len(),
        ensures
            (exists|i: int| 0 <= i < alpha@.len() && !(0 <= #[trigger] alpha@[i] <= SCALE))
                ==> result == Result::<(), InvalidParameter>::Err(InvalidParameter::AlphaOutOfRange)
                && final(self)@ == old(self)@,
            (forall|i: int| 0 <= i < alpha@.len() ==> 0 <= #[trigger] alpha@[i] <= SCALE)
                ==> result == Result::<(), InvalidParameter>::Ok(()) && final(self)@.len() == old(
                self,
            )@.len() && (forall|i: int|
                0 <= i < old(self)@.len() ==> #[trigger] final(self)@[i] == lowpass_spec(
                    raw@[i] as int,
                    old(self)@[i] as int,
                    alpha@[i] as int,
                )),
    {
        if alpha_in_range(alpha) {
            self.data = filter_unchecked(raw, &self.data, alpha);
            Ok(())
        } else {
            Err(InvalidParameter::AlphaOutOfRange)
        }
    }

    /// Replace the state with `filter_unchecked(raw, state, alpha)`: the
    /// caller guarantees every component of `alpha` lies in `[0, SCALE]`.
    pub fn update_unchecked(&mut self, raw: &Vec<i64>, alpha: &Vec<i64>)
        requires
            old(self)@.len() == raw@.len(),
            old(self)@.len() == alpha@.len(),
            forall|i: int| 0 <= i < alpha@.len() ==> 0 <= #[trigger] alpha@[i] <= SCALE,
        ensures
            final(self)@.len() == old(self)@.len(),
            forall|i: int|
                0 <= i < old(self)@.len() ==> #[trigger] final(self)@[i] == lowpass_spec(
                    raw@[i] as int,
                    old(self)@[i] as int,
                    alpha@[i] as int,
                ),
    {
        self.data = filter_unchecked(raw, &self.data, alpha);
    }
}

impl From<Vec<i64>> for LowPassState {
    /// Seeding from a vector, as `LowPassState::new`.
    fn from(value: Vec<i64>) -> (s: Self) {
        LowPassState { data: value }
    }
}

impl vstd::std_specs::convert::FromSpecImpl<Vec<i64>> for LowPassState {
    open spec fn obeys_from_spec() -> bool {
        true
    }

    open spec fn from_spec(value: Vec<i64>) -> Self {
        LowPassState { data: value }
    }
}

} // verus!
