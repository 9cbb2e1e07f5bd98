use telemetry_ingestor::classify::{classify, Outcome, Reason};
use telemetry_ingestor::registry::SignalKind;
use telemetry_ingestor::value::{
    is_analog_in_range, RawValue, SignalValue, ANALOG_MAX_BITS, ONE_BITS, ZERO_BITS,
};

fn float(v: f64) -> RawValue {
    RawValue::Float(v.to_bits())
}

#[test]
fn encodings_are_those_of_the_numbers() {
    assert_eq!(ZERO_BITS, 0.0f64.to_bits());
    assert_eq!(ONE_BITS, 1.0f64.to_bits());
    assert_eq!(ANALOG_MAX_BITS, 65535.0f64.to_bits());
    assert_eq!(f64::from_bits(ONE_BITS), 1.0);
    assert_eq!(f64::from_bits(ANALOG_MAX_BITS), 65535.0);
}

#[test]
fn analog_range_is_the_range_of_the_floats() {
    let samples = [
        0.0,
        -0.0,
        0.5,
        0.9999999999999999,
        1.0,
        1.0000000000000002,
        2.0,
        42.5,
        32768.0,
        65534.99999999999,
        65535.0,
        65535.00000000001,
        65536.0,
        1e300,
        -1.0,
        -42.5,
        -65535.0,
        f64::MIN_POSITIVE,
        f64::MAX,
        f64::MIN,
        f64::INFINITY,
        f64::NEG_INFINITY,
        f64::NAN,
        -f64::NAN,
        5e-324,
    ];
    for v in samples {
        assert_eq!(is_analog_in_range(v.to_bits()), v >= 1.0 && v <= 65535.0, "{v}");
    }
}

#[test]
fn analog_range_agrees_with_floats_on_many_encodings() {
    let mut state: u64 = 0x9E37_79B9_7F4A_7C15;
    for _ in 0..200_000 {
        state = state.wrapping_mul(6364136223846793005).wrapping_add(1442695040888963407);
        let bits = state ^ (state >> 29);
        let v = f64::from_bits(bits);
        assert_eq!(is_analog_in_range(bits), v >= 1.0 && v <= 65535.0, "{bits:#x}");
        // Also near the range, where most samples above do not fall.
        let near = ONE_BITS.wrapping_add(bits % (ANALOG_MAX_BITS - ONE_BITS + 4096)).wrapping_sub(2048);
        let w = f64::from_bits(near);
        assert_eq!(is_analog_in_range(near), w >= 1.0 && w <= 65535.0, "{near:#x}");
    }
}

#[test]
fn analog_range_edges() {
    assert!(is_analog_in_range(ONE_BITS));
    assert!(!is_analog_in_range(ONE_BITS - 1));
    assert!(is_analog_in_range(ANALOG_MAX_BITS));
    assert!(!is_analog_in_range(ANALOG_MAX_BITS + 1));
    assert!(!is_analog_in_range(0));
    assert!(!is_analog_in_range(u64::MAX));
}

#[test]
fn digital_zero_and_one_are_accepted() {
    let digital = Some(SignalKind::Digital);
    assert_eq!(classify(digital, &RawValue::Integer(0)), Outcome::Accepted(0.0f64.to_bits()));
    assert_eq!(classify(digital, &RawValue::Integer(1)), Outcome::Accepted(1.0f64.to_bits()));
}

#[test]
fn digital_other_integers_are_out_of_range() {
    let digital = Some(SignalKind::Digital);
    for v in [2i128, -1, 255, i64::MIN as i128, i64::MAX as i128, u64::MAX as i128] {
        assert_eq!(
            classify(digital, &RawValue::Integer(v)),
            Outcome::Quarantined(SignalValue::Integer(v), Reason::OutOfRange)
        );
    }
}

#[test]
fn digital_non_integers_are_type_mismatches() {
    let digital = Some(SignalKind::Digital);
    let mismatch = Outcome::Quarantined(SignalValue::NotANumber, Reason::TypeMismatch);
    assert_eq!(classify(digital, &float(1.0)), mismatch);
    assert_eq!(classify(digital, &float(0.0)), mismatch);
    assert_eq!(classify(digital, &RawValue::Text("1".to_string())), mismatch);
    assert_eq!(classify(digital, &RawValue::Bool(true)), mismatch);
    assert_eq!(classify(digital, &RawValue::Null), mismatch);
    assert_eq!(classify(digital, &RawValue::Compound), mismatch);
}

#[test]
fn analog_floats_in_range_are_accepted_as_they_came() {
    let analog = Some(SignalKind::Analog);
    for v in [1.0, 42.5, 1000.25, 65535.0] {
        assert_eq!(classify(analog, &float(v)), Outcome::Accepted(v.to_bits()));
    }
}

#[test]
fn analog_floats_outside_the_range_are_out_of_range() {
    let analog = Some(SignalKind::Analog);
    for v in [0.0, 0.5, 0.9999999999999999, 65535.00000000001, 70000.0, -3.5, 1e308] {
        assert_eq!(
            classify(analog, &float(v)),
            Outcome::Quarantined(SignalValue::Float(v.to_bits()), Reason::OutOfRange)
        );
    }
}

#[test]
fn analog_non_floats_are_type_mismatches() {
    let analog = Some(SignalKind::Analog);
    let mismatch = Outcome::Quarantined(SignalValue::NotANumber, Reason::TypeMismatch);
    assert_eq!(classify(analog, &RawValue::Integer(42)), mismatch);
    assert_eq!(classify(analog, &RawValue::Integer(1)), mismatch);
    assert_eq!(classify(analog, &RawValue::Text("42.5".to_string())), mismatch);
    assert_eq!(classify(analog, &RawValue::Bool(false)), mismatch);
    assert_eq!(classify(analog, &RawValue::Null), mismatch);
    assert_eq!(classify(analog, &RawValue::Compound), mismatch);
}

#[test]
fn unknown_names_are_quarantined_with_their_number() {
    assert_eq!(
        classify(None, &RawValue::Integer(7)),
        Outcome::Quarantined(SignalValue::Integer(7), Reason::UnknownSignal)
    );
    assert_eq!(
        classify(None, &RawValue::Integer(1)),
        Outcome::Quarantined(SignalValue::Integer(1), Reason::UnknownSignal)
    );
    assert_eq!(
        classify(None, &float(42.5)),
        Outcome::Quarantined(SignalValue::Float(42.5f64.to_bits()), Reason::UnknownSignal)
    );
}

#[test]
fn unknown_names_without_a_number_get_the_placeholder() {
    let placeholder = Outcome::Quarantined(SignalValue::NotANumber, Reason::UnknownSignal);
    assert_eq!(classify(None, &RawValue::Text("abc".to_string())), placeholder);
    assert_eq!(classify(None, &RawValue::Bool(true)), placeholder);
    assert_eq!(classify(None, &RawValue::Null), placeholder);
    assert_eq!(classify(None, &RawValue::Compound), placeholder);
}

#[test]
fn classifying_twice_gives_the_same_outcome() {
    let kinds = [None, Some(SignalKind::Digital), Some(SignalKind::Analog)];
    let values = [
        RawValue::Integer(0),
        RawValue::Integer(1),
        RawValue::Integer(2),
        float(42.5),
        float(0.5),
        RawValue::Text("abc".to_string()),
        RawValue::Bool(true),
        RawValue::Null,
        RawValue::Compound,
    ];
    for kind in kinds {
        for value in &values {
            assert_eq!(classify(kind, value), classify(kind, &value.clone()));
        }
    }
}

#[test]
fn reasons_have_their_stored_labels() {
    assert_eq!(Reason::TypeMismatch.as_str(), "type_mismatch");
    assert_eq!(Reason::OutOfRange.as_str(), "out_of_range");
    assert_eq!(Reason::UnknownSignal.as_str(), "unknown_signal");
}
