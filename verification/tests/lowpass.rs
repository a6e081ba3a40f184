//! Tests of the exponential low-pass primitive.
//!
//! All values are in micro-units: `1_000_000` is `1.0`.

use one_euro::lowpass::{filter, filter_unchecked, LowPassState};
use one_euro::{InvalidParameter, SCALE};

/// `alpha == 1.0` keeps the current sample.
#[test]
fn test_lowpass_filter_unit() {
    let current = vec![2_000_000i64];
    let previous = vec![1_000_000i64];
    let alpha = vec![SCALE];
    assert_eq!(filter(&current, &previous, &alpha), Ok(vec![2_000_000i64]));
}

/// `alpha == 0.5` lands midway between the two inputs.
#[test]
fn test_lowpass_filter_half() {
    let current = vec![2_000_000i64];
    let previous = vec![1_000_000i64];
    let alpha = vec![500_000i64];
    assert_eq!(filter(&current, &previous, &alpha), Ok(vec![1_500_000i64]));
}

/// The smallest positive alpha moves the output one raw unit off the
/// previous value.
#[test]
fn test_lowpass_filter_epsilon() {
    let current = vec![2_000_000i64];
    let previous = vec![1_000_000i64];
    let alpha = vec![1i64];
    assert_eq!(filter(&current, &previous, &alpha), Ok(vec![1_000_001i64]));
}

/// The stateful wrapper folds each output into the next call.
#[test]
fn test_lowpass_state_update() {
    let mut state = LowPassState::new(vec![1_000_000i64]);

    state.update(&vec![2_000_000i64], &vec![SCALE]).unwrap();
    assert_eq!(state.data(), &vec![2_000_000i64]);

    state.update(&vec![3_000_000i64], &vec![500_000i64]).unwrap();
    assert_eq!(state.data(), &vec![2_500_000i64]);
}

/// A negative smoothing factor is rejected.
#[test]
fn test_lowpass_alpha_negative() {
    let zero = vec![0i64];
    assert_eq!(filter(&zero, &zero, &vec![-1i64]), Err(InvalidParameter::AlphaOutOfRange));
}

/// `alpha == 0` is a legal terminal behavior of this primitive — infinite
/// smoothing — and keeps the previous value.
#[test]
fn test_lowpass_alpha_zero() {
    let current = vec![2_000_000i64];
    let previous = vec![1_000_000i64];
    assert_eq!(filter(&current, &previous, &vec![0i64]), Ok(vec![1_000_000i64]));
}

/// A smoothing factor above one is rejected.
#[test]
fn test_lowpass_alpha_greater_than_one() {
    let zero = vec![0i64];
    assert_eq!(filter(&zero, &zero, &vec![SCALE + 1]), Err(InvalidParameter::AlphaOutOfRange));
}

/// A rejected update leaves the state untouched, and only the offending
/// component matters.
#[test]
fn test_lowpass_state_update_rejected() {
    let mut state = LowPassState::new(vec![1_000_000i64, 2_000_000i64]);
    let result = state.update(&vec![0i64, 0i64], &vec![SCALE, SCALE + 1]);
    assert_eq!(result, Err(InvalidParameter::AlphaOutOfRange));
    assert_eq!(state.data(), &vec![1_000_000i64, 2_000_000i64]);
}

/// The unchecked form computes the same values as the checked one on valid
/// factors, and works component-wise.
#[test]
fn test_lowpass_unchecked_componentwise() {
    let current = vec![2_000_000i64, -4_000_000i64];
    let previous = vec![1_000_000i64, 0i64];
    let alpha = vec![SCALE, 250_000i64];
    let out = filter_unchecked(&current, &previous, &alpha);
    assert_eq!(out, vec![2_000_000i64, -1_000_000i64]);
    assert_eq!(filter(&current, &previous, &alpha), Ok(out));
}

/// Seeding through `From` is the same as `new`.
#[test]
fn test_lowpass_from_vec() {
    let state = LowPassState::from(vec![7i64]);
    assert_eq!(state.data(), &vec![7i64]);
}
