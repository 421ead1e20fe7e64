use rust_service::magnitude::exceeds_limit;
use rust_service::validation::{validate, AnalysisRequest, Rejection};

fn request(numbers: &[f64], text: &str) -> AnalysisRequest {
    AnalysisRequest {
        numbers: numbers.iter().map(|n| n.to_bits()).collect(),
        text: text.to_string(),
    }
}

#[test]
fn limit_itself_is_accepted() {
    assert!(!exceeds_limit(1_000_000.0f64.to_bits()));
    assert!(!exceeds_limit((-1_000_000.0f64).to_bits()));
}

#[test]
fn just_above_limit_is_refused() {
    assert!(exceeds_limit(1_000_000.000_001f64.to_bits()));
    assert!(exceeds_limit((-1_000_000.5f64).to_bits()));
    assert!(exceeds_limit(2_000_000.0f64.to_bits()));
    assert!(exceeds_limit(f64::MAX.to_bits()));
}

#[test]
fn just_below_limit_is_accepted() {
    assert!(!exceeds_limit(999_999.999_999f64.to_bits()));
    assert!(!exceeds_limit(524_288.0f64.to_bits()));
    assert!(!exceeds_limit(0.0f64.to_bits()));
    assert!(!exceeds_limit((-0.0f64).to_bits()));
    assert!(!exceeds_limit(f64::MIN_POSITIVE.to_bits()));
    assert!(!exceeds_limit(1u64));
}

#[test]
fn every_bit_pattern_agrees_with_float_comparison() {
    let samples = [
        0.5f64, 1.0, 3.25, 1e5, 1e6, 1e7, 1e300, 1e-300, 1048576.0, 999_999.0, 1_000_001.0,
        -7.0, -1e6, -1e6 - 1.0,
    ];
    for x in samples {
        assert_eq!(exceeds_limit(x.to_bits()), x.abs() > 1_000_000.0, "{}", x);
    }
}

#[test]
fn infinities_exceed_and_nan_does_not() {
    assert!(exceeds_limit(f64::INFINITY.to_bits()));
    assert!(exceeds_limit(f64::NEG_INFINITY.to_bits()));
    assert!(!exceeds_limit(f64::NAN.to_bits()));
}

#[test]
fn empty_numbers_rejected() {
    assert_eq!(validate(&request(&[], "")), Err(Rejection::EmptyNumbers));
    assert_eq!(validate(&request(&[], "hello")), Err(Rejection::EmptyNumbers));
}

#[test]
fn hundred_numbers_accepted_hundred_and_one_rejected() {
    let hundred = vec![1.0f64; 100];
    assert_eq!(validate(&request(&hundred, "x")), Ok(()));
    let more = vec![1.0f64; 101];
    assert_eq!(validate(&request(&more, "x")), Err(Rejection::TooManyNumbers));
}

#[test]
fn out_of_range_number_rejected() {
    assert_eq!(validate(&request(&[1.0, 1_000_000.5, 3.0], "t")), Err(Rejection::NumberOutOfRange));
    assert_eq!(validate(&request(&[-2e6], "t")), Err(Rejection::NumberOutOfRange));
    assert_eq!(validate(&request(&[1e6, -1e6], "t")), Ok(()));
}

#[test]
fn text_length_counts_characters() {
    let exact = "a".repeat(1000);
    assert_eq!(validate(&request(&[1.0], &exact)), Ok(()));
    let long = "a".repeat(1001);
    assert_eq!(validate(&request(&[1.0], &long)), Err(Rejection::TextTooLong));
    let wide = "é".repeat(1000);
    assert_eq!(validate(&request(&[1.0], &wide)), Ok(()));
}

#[test]
fn rules_apply_in_order() {
    let long = "a".repeat(1001);
    assert_eq!(validate(&request(&[], &long)), Err(Rejection::EmptyNumbers));
    let many = vec![5e6f64; 101];
    assert_eq!(validate(&request(&many, &long)), Err(Rejection::TooManyNumbers));
    assert_eq!(validate(&request(&[5e6], &long)), Err(Rejection::NumberOutOfRange));
}

#[test]
fn rejection_messages() {
    assert_eq!(Rejection::EmptyNumbers.message(), "numbers array cannot be empty.");
    assert_eq!(Rejection::TooManyNumbers.message(), "too many numbers (max 100)");
    assert_eq!(Rejection::NumberOutOfRange.message(), "number out of valid range");
    assert_eq!(
        Rejection::TextTooLong.message(),
        "text field exceeds maximum length of 1000 characters."
    );
}
