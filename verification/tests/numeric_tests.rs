use pg_analytics::errors::ParadeError;
use pg_analytics::numeric::{pow10_i128, scale_anynumeric, NativeNumeric, RescaleDirection};

#[test]
fn pow10_exact_values() {
    assert_eq!(pow10_i128(0), 1);
    assert_eq!(pow10_i128(1), 10);
    assert_eq!(pow10_i128(38), 100_000_000_000_000_000_000_000_000_000_000_000_000i128);
}

#[test]
fn decimal_value_unscales_exactly() {
    // native 12345.67 under Decimal(10, 2) becomes the unscaled integer 1234567
    let value = NativeNumeric {
        digits: 1234567,
        scale: 2,
    };
    let unscaled = scale_anynumeric(&value, 10, 2, RescaleDirection::ToUnscaled).unwrap();
    assert_eq!(
        unscaled,
        NativeNumeric {
            digits: 1234567,
            scale: 0,
        }
    );
    // and converting back restores 12345.67 exactly
    let restored = scale_anynumeric(&unscaled, 10, 2, RescaleDirection::ToScaled).unwrap();
    assert_eq!(restored, value);
}

#[test]
fn rescale_round_trips_negative_values() {
    let value = NativeNumeric {
        digits: -5005,
        scale: 1,
    };
    let unscaled = scale_anynumeric(&value, 10, 1, RescaleDirection::ToUnscaled).unwrap();
    assert_eq!(unscaled.digits, -5005);
    assert_eq!(unscaled.scale, 0);
    let restored = scale_anynumeric(&unscaled, 10, 1, RescaleDirection::ToScaled).unwrap();
    assert_eq!(restored, value);
}

#[test]
fn unscaling_multiplies_when_value_is_coarser() {
    // 5 carried at scale 0 under a scale-2 column unscales to 500
    let value = NativeNumeric {
        digits: 5,
        scale: 0,
    };
    let unscaled = scale_anynumeric(&value, 10, 2, RescaleDirection::ToUnscaled).unwrap();
    assert_eq!(
        unscaled,
        NativeNumeric {
            digits: 500,
            scale: 0,
        }
    );
}

#[test]
fn fractional_digits_beyond_scale_are_rejected_not_rounded() {
    // 12345.675 cannot be carried at scale 2 without rounding
    let value = NativeNumeric {
        digits: 12345675,
        scale: 3,
    };
    assert_eq!(
        scale_anynumeric(&value, 10, 2, RescaleDirection::ToUnscaled),
        Err(ParadeError::ScaleOverflow { scale: 2 })
    );
}

#[test]
fn values_beyond_precision_are_rejected() {
    let value = NativeNumeric {
        digits: 100_000,
        scale: 0,
    };
    assert_eq!(
        scale_anynumeric(&value, 4, 0, RescaleDirection::ToUnscaled),
        Err(ParadeError::PrecisionOverflow { precision: 4 })
    );
    // the scaled direction checks the same bound
    assert_eq!(
        scale_anynumeric(&value, 4, 2, RescaleDirection::ToScaled),
        Err(ParadeError::PrecisionOverflow { precision: 4 })
    );
}

#[test]
fn zero_rescales_under_any_shift() {
    let zero = NativeNumeric {
        digits: 0,
        scale: 5,
    };
    assert_eq!(
        scale_anynumeric(&zero, 1, 2, RescaleDirection::ToUnscaled).unwrap(),
        NativeNumeric {
            digits: 0,
            scale: 0,
        }
    );
    assert_eq!(
        scale_anynumeric(&zero, 1, -38, RescaleDirection::ToScaled).unwrap(),
        NativeNumeric {
            digits: 0,
            scale: -38,
        }
    );
}

#[test]
fn negative_scale_columns_shift_down() {
    // 1200 at scale 0 under Decimal(10, -2) unscales to 12
    let value = NativeNumeric {
        digits: 1200,
        scale: 0,
    };
    let unscaled = scale_anynumeric(&value, 10, -2, RescaleDirection::ToUnscaled).unwrap();
    assert_eq!(
        unscaled,
        NativeNumeric {
            digits: 12,
            scale: 0,
        }
    );
    // 1230 is not a multiple of 100, so it cannot be carried at scale -2
    let odd = NativeNumeric {
        digits: 1230,
        scale: 0,
    };
    assert_eq!(
        scale_anynumeric(&odd, 10, -2, RescaleDirection::ToUnscaled),
        Err(ParadeError::ScaleOverflow { scale: -2 })
    );
}
