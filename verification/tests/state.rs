//! Tests of the adaptive filter state.
//!
//! All values are in micro-units: `1_000_000` is `1.0`.

use one_euro::alpha::get_alpha_unchecked;
use one_euro::lowpass::LowPassState;
use one_euro::state::OneEuroState;
use one_euro::{InvalidParameter, DERIV_MAX, PARAM_MAX, SCALE, VALUE_MAX};

/// A state built from a sample reports that sample as both raw and filtered
/// value, and a zero derivative, before any update.
#[test]
fn test_new_state_reports_sample() {
    let state = OneEuroState::new(vec![1_020_000i64, -503_000i64]);
    assert_eq!(state.raw(), &vec![1_020_000i64, -503_000i64]);
    assert_eq!(state.data(), &vec![1_020_000i64, -503_000i64]);
    assert_eq!(state.derivate(), &vec![0i64, 0i64]);
}

/// One update step, checked against values worked out by hand from the
/// update rule: velocity `(1.0 - 0.0) * 60.0`, smoothed with the derivative
/// factor, then the adaptive cutoff and the signal step.
#[test]
fn test_update_one_step() {
    let rate = 60 * SCALE;
    let dalpha = get_alpha_unchecked(rate, SCALE);
    assert_eq!(dalpha, 94_793);

    let mut state = OneEuroState::new(vec![0i64]);
    state.update(&vec![1_000_000i64], &vec![dalpha], rate, SCALE, 7_000).unwrap();

    assert_eq!(state.raw(), &vec![1_000_000i64]);
    assert_eq!(state.derivate(), &vec![5_687_580i64]);
    assert_eq!(state.data(), &vec![98_196i64]);
}

/// On a constant input stream the filtered value approaches the constant
/// monotonically and the derivative decays to zero.
#[test]
fn test_constant_input_converges() {
    let rate = 60 * SCALE;
    let dalpha = get_alpha_unchecked(rate, SCALE);
    let sample = vec![1_000_000i64];

    let mut state = OneEuroState::new(vec![0i64]);
    let mut last_error = 1_000_000i64;
    let mut last_deriv_mag = 0i64;
    state.update(&sample, &vec![dalpha], rate, SCALE, 0).unwrap();
    last_deriv_mag = last_deriv_mag.max(state.derivate()[0].abs());

    for _ in 0..400 {
        state.update(&sample, &vec![dalpha], rate, SCALE, 0).unwrap();
        let error = (sample[0] - state.data()[0]).abs();
        assert!(error <= last_error, "filtered output moved away from the constant");
        let deriv_mag = state.derivate()[0].abs();
        assert!(deriv_mag <= last_deriv_mag, "derivative magnitude grew");
        last_error = error;
        last_deriv_mag = deriv_mag;
    }

    // The remaining offset is quantization: once `error * alpha` is below
    // one raw unit the output can no longer move.
    assert!(last_error <= 10, "error was {last_error}");
    assert_eq!(state.derivate(), &vec![0i64]);
    assert_eq!(state.raw(), &sample);
}

/// Each rejected parameter is reported with its own condition and leaves
/// the state untouched.
#[test]
fn test_update_rejections() {
    let rate = 60 * SCALE;
    let sample = vec![500_000i64];
    let good_alpha = vec![100_000i64];

    let mut state = OneEuroState::new(vec![250_000i64]);

    assert_eq!(
        state.update(&sample, &vec![SCALE + 1], rate, SCALE, 0),
        Err(InvalidParameter::AlphaOutOfRange)
    );
    assert_eq!(
        state.update(&sample, &vec![-1i64], rate, SCALE, 0),
        Err(InvalidParameter::AlphaOutOfRange)
    );
    assert_eq!(
        state.update(&sample, &good_alpha, 0, SCALE, 0),
        Err(InvalidParameter::NonPositiveRate)
    );
    assert_eq!(
        state.update(&sample, &good_alpha, -5, SCALE, 0),
        Err(InvalidParameter::NonPositiveRate)
    );
    assert_eq!(
        state.update(&sample, &good_alpha, rate, -1, 0),
        Err(InvalidParameter::NonPositiveCutoff)
    );
    assert_eq!(
        state.update(&sample, &good_alpha, rate, SCALE, -1),
        Err(InvalidParameter::NegativeBeta)
    );

    assert_eq!(state.raw(), &vec![250_000i64]);
    assert_eq!(state.data(), &vec![250_000i64]);
    assert_eq!(state.derivate(), &vec![0i64]);
}

/// A rate handed over as the computed reciprocal of an elapsed time equals
/// the same rate written as a literal, and the two runs agree exactly: the
/// output depends on the declared inputs alone.
#[test]
fn test_update_deterministic() {
    let elapsed_micros = 10_000i64; // 0.01 s
    let computed_rate = SCALE * SCALE / elapsed_micros;
    let literal_rate = 100 * SCALE;
    assert_eq!(computed_rate, literal_rate);

    let dalpha = get_alpha_unchecked(literal_rate, SCALE);
    let sample = vec![500_000i64];

    let mut a = OneEuroState::new(vec![0i64]);
    let mut b = OneEuroState::new(vec![0i64]);
    a.update(&sample, &vec![dalpha], computed_rate, SCALE, 7_000).unwrap();
    b.update(&sample, &vec![dalpha], literal_rate, SCALE, 7_000).unwrap();

    assert_eq!(a.data(), b.data());
    assert_eq!(a.derivate(), b.derivate());
    assert_eq!(a.data(), &vec![30_133i64]);
    assert_eq!(a.derivate(), &vec![2_955_850i64]);
}

/// A zero-dimensional state is legal and updating it is a no-op.
#[test]
fn test_empty_dimension() {
    let mut state = OneEuroState::new(Vec::new());
    state.update(&Vec::new(), &Vec::new(), SCALE, SCALE, 0).unwrap();
    assert_eq!(state.data(), &Vec::<i64>::new());
}

/// The widest step the contract admits: extreme sample, rate and beta pass
/// through without overflow and the derivative reaches its documented
/// ceiling.
#[test]
fn test_extreme_magnitudes() {
    let mut state = OneEuroState::new(vec![-VALUE_MAX]);
    state.update(&vec![VALUE_MAX], &vec![SCALE], PARAM_MAX, PARAM_MAX, PARAM_MAX).unwrap();
    assert_eq!(state.derivate(), &vec![DERIV_MAX]);
    assert_eq!(state.data(), &vec![999_998_000_000i64]);
    assert_eq!(state.raw(), &vec![VALUE_MAX]);
}

/// A faster-moving signal gets a higher cutoff and therefore lighter
/// smoothing: starting from the same raw and filtered values, the state
/// whose stored derivative is larger ends up closer to the new sample.
#[test]
fn test_higher_derivative_smooths_less() {
    let rate = 60 * SCALE;
    let dalpha = get_alpha_unchecked(rate, SCALE);
    let sample = vec![1_000_000i64];
    let beta = 500_000i64;

    let mut resting = OneEuroState {
        raw: vec![0i64],
        filtered: LowPassState::new(vec![0i64]),
        derivate: LowPassState::new(vec![0i64]),
    };
    let mut moving = OneEuroState {
        raw: vec![0i64],
        filtered: LowPassState::new(vec![0i64]),
        derivate: LowPassState::new(vec![60_000_000i64]),
    };

    resting.update(&sample, &vec![dalpha], rate, SCALE, beta).unwrap();
    moving.update(&sample, &vec![dalpha], rate, SCALE, beta).unwrap();

    assert!(moving.derivate()[0].abs() >= resting.derivate()[0].abs());
    assert!(
        moving.data()[0] > resting.data()[0],
        "the faster stream should track the sample more closely: {} vs {}",
        moving.data()[0],
        resting.data()[0]
    );
    assert!(resting.data()[0] > 0 && moving.data()[0] < sample[0]);
}

/// The unchecked update computes the same step as the checked one.
#[test]
fn test_update_unchecked_matches_checked() {
    let rate = 60 * SCALE;
    let dalpha = get_alpha_unchecked(rate, SCALE);
    let sample = vec![1_000_000i64];

    let mut checked = OneEuroState::new(vec![0i64]);
    let mut unchecked = OneEuroState::new(vec![0i64]);
    checked.update(&sample, &vec![dalpha], rate, SCALE, 7_000).unwrap();
    unchecked.update_unchecked(&sample, &vec![dalpha], rate, SCALE, 7_000);

    assert_eq!(checked.data(), unchecked.data());
    assert_eq!(checked.derivate(), unchecked.derivate());
    assert_eq!(checked.raw(), unchecked.raw());
}
