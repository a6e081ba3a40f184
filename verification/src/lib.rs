//! One Euro filter: adaptive exponential smoothing for noisy, irregularly
//! sampled multi-dimensional signals.
//!
//! The filter suppresses jitter while the signal is slow and stays responsive
//! while it moves fast, by raising the low-pass cutoff frequency with the
//! estimated derivative of the signal.
//!
//! All quantities — samples, rates, frequencies, smoothing factors — are
//! fixed-point numbers in *micro-units*: the `i64` raw value `1_000_000`
//! stands for `1.0`, so one raw unit is `1e-6`. Every arithmetic step is
//! specified exactly over the mathematical integers, quotients rounding as
//! stated by the spec functions.

use vstd::prelude::*;

pub mod alpha;
pub mod filter;
pub mod lowpass;
pub mod state;

verus! {

/// Raw units in `1.0`: values carry six fractional decimal digits.
pub const SCALE: i64 = 1_000_000;

/// Two pi in micro-units, rounded down.
pub const TWO_PI: i64 = 6_283_185;

/// Largest magnitude, in raw units, of a signal component the filter accepts
/// (one million in real terms). Keeps every intermediate product in range.
pub const VALUE_MAX: i64 = 1_000_000_000_000;

/// Largest raw value of a parameter (rate, cutoff frequencies, beta) the
/// filter accepts (one million in real terms).
pub const PARAM_MAX: i64 = 1_000_000_000_000;

/// Largest magnitude a smoothed derivative can reach: the widest sample step
/// (`2 * VALUE_MAX`) times the largest rate, scaled back down.
pub const DERIV_MAX: i64 = 2_000_000_000_000_000_000;

/// Largest adaptive cutoff that can arise:
/// `PARAM_MAX + PARAM_MAX * DERIV_MAX / SCALE`.
pub const CUTOFF_MAX: i128 = 2_000_000_000_001_000_000_000_000;

/// A rejected parameter: every checked entry point validates its inputs and
/// reports the violated constraint through this type, leaving all state
/// unchanged.
#[derive(Clone, Copy, Debug, PartialEq, Eq, Structural)]
pub enum InvalidParameter {
    /// A sampling rate or a frequency cutoff was zero or negative.
    NonPositiveRate,
    /// A frequency cutoff was zero or negative.
    NonPositiveCutoff,
    /// A smoothing factor was outside `[0, 1]`.
    AlphaOutOfRange,
    /// A cutoff slope (beta) was negative.
    NegativeBeta,
}

} // verus!
