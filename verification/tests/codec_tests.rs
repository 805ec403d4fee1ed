use vmc_device::angle::{encode_degrees, AngleRangeError};

#[test]
fn zero_encodes_to_quarter_turn() {
    assert_eq!(encode_degrees(0), Ok(90_000));
}

#[test]
fn ninety_encodes_to_zero() {
    assert_eq!(encode_degrees(90_000), Ok(0));
}

#[test]
fn hundred_eighty_encodes_wrapped() {
    assert_eq!(encode_degrees(180_000), Ok(270_000));
}

#[test]
fn boundary_values_encode_equally() {
    assert_eq!(encode_degrees(0), encode_degrees(360_000));
    assert_eq!(encode_degrees(360_000), Ok(90_000));
}

#[test]
fn accepted_inputs_stay_in_range() {
    let mut d: i64 = 0;
    while d <= 360_000 {
        let r = encode_degrees(d).unwrap();
        assert!((0..360_000).contains(&r), "encode({d}) gave {r}");
        d += 1_500;
    }
}

#[test]
fn negative_input_is_rejected() {
    assert_eq!(
        encode_degrees(-1),
        Err(AngleRangeError { value: -1, min: 0, max: 360_000 })
    );
}

#[test]
fn input_above_range_is_rejected() {
    assert_eq!(
        encode_degrees(360_001),
        Err(AngleRangeError { value: 360_001, min: 0, max: 360_000 })
    );
    assert!(encode_degrees(400_000).is_err());
    assert!(encode_degrees(i64::MAX).is_err());
    assert!(encode_degrees(i64::MIN).is_err());
}

#[test]
fn range_error_names_the_bounds() {
    let e = encode_degrees(400_000).unwrap_err();
    assert!(e.expected().contains("[0, 360]"));
    assert_eq!(e.value, 400_000);
}
