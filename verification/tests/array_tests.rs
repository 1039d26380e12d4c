use pg_analytics::array::{ColumnarArray, DatafusionMapProducer, NativeValue, TupleSlot};
use pg_analytics::datatype::PortableSqlType;
use pg_analytics::errors::ParadeError;
use pg_analytics::numeric::NativeNumeric;

fn one_column_slots(cells: Vec<Option<NativeValue>>) -> Vec<TupleSlot> {
    cells
        .into_iter()
        .enumerate()
        .map(|(i, cell)| TupleSlot {
            row_id: i as u64,
            cells: vec![cell],
        })
        .collect()
}

#[test]
fn int32_column_keeps_values_and_nulls() {
    // a batch of 3 rows [None, Some(5), Some(-3)] builds a dense array of
    // length 3 with null flags [true, false, false]
    let slots = one_column_slots(vec![
        None,
        Some(NativeValue::Int32(5)),
        Some(NativeValue::Int32(-3)),
    ]);
    let array = DatafusionMapProducer::array(PortableSqlType::Int4, &slots, 0).unwrap();
    assert_eq!(array.len(), 3);
    match &array {
        ColumnarArray::Int32(vs) => {
            assert_eq!(vs, &vec![None, Some(5), Some(-3)]);
        }
        other => panic!("expected an Int32 array, got {:?}", other),
    }
    let nulls: Vec<bool> = (0..3)
        .map(|i| DatafusionMapProducer::cell_datum(PortableSqlType::Int4, &array, i).unwrap().is_none())
        .collect();
    assert_eq!(nulls, vec![true, false, false]);
}

#[test]
fn null_slot_and_out_of_range_fail_distinctly() {
    let slots = one_column_slots(vec![
        Some(NativeValue::Int64(7)),
        None,
        Some(NativeValue::Int64(9)),
    ]);
    let array = DatafusionMapProducer::array(PortableSqlType::Int8, &slots, 0).unwrap();
    assert_eq!(
        DatafusionMapProducer::index_datum(PortableSqlType::Int8, &array, 1),
        Err(ParadeError::ValueNotFound { index: 1 })
    );
    assert_eq!(
        DatafusionMapProducer::index_datum(PortableSqlType::Int8, &array, 3),
        Err(ParadeError::IndexOutOfBounds { index: 3, len: 3 })
    );
    assert_eq!(
        DatafusionMapProducer::index_datum(PortableSqlType::Int8, &array, 2),
        Ok(NativeValue::Int64(9))
    );
}

#[test]
fn decimal_column_round_trips_through_array() {
    let numeric_type = PortableSqlType::Numeric {
        precision: 10,
        scale: 2,
    };
    let value = NativeNumeric {
        digits: 1234567,
        scale: 2,
    };
    let slots = one_column_slots(vec![Some(NativeValue::Numeric(value)), None]);
    let array = DatafusionMapProducer::array(numeric_type, &slots, 0).unwrap();
    match &array {
        ColumnarArray::Decimal128 {
            precision,
            scale,
            values,
        } => {
            assert_eq!((*precision, *scale), (10, 2));
            assert_eq!(values, &vec![Some(1234567), None]);
        }
        other => panic!("expected a Decimal128 array, got {:?}", other),
    }
    assert_eq!(
        DatafusionMapProducer::index_datum(numeric_type, &array, 0),
        Ok(NativeValue::Numeric(value))
    );
}

#[test]
fn decimal_cell_beyond_precision_fails() {
    let numeric_type = PortableSqlType::Numeric {
        precision: 4,
        scale: 0,
    };
    let slots = one_column_slots(vec![Some(NativeValue::Numeric(NativeNumeric {
        digits: 123456,
        scale: 0,
    }))]);
    assert_eq!(
        DatafusionMapProducer::array(numeric_type, &slots, 0),
        Err(ParadeError::PrecisionOverflow { precision: 4 })
    );
}

#[test]
fn mismatched_cell_kind_fails_array_build() {
    let slots = one_column_slots(vec![Some(NativeValue::Text("five".to_string()))]);
    assert!(matches!(
        DatafusionMapProducer::array(PortableSqlType::Int4, &slots, 0),
        Err(ParadeError::TypeMismatch { .. })
    ));
}

#[test]
fn unsupported_pivot_fails_array_build() {
    let slots = one_column_slots(vec![None]);
    assert_eq!(
        DatafusionMapProducer::array(PortableSqlType::Time, &slots, 0),
        Err(ParadeError::UnsupportedPortableType(PortableSqlType::Time))
    );
    assert_eq!(
        DatafusionMapProducer::array(PortableSqlType::NumericUnconstrained, &slots, 0),
        Err(ParadeError::UnsupportedPortableType(
            PortableSqlType::NumericUnconstrained
        ))
    );
}

#[test]
fn mismatched_array_type_fails_extraction() {
    let slots = one_column_slots(vec![Some(NativeValue::Boolean(true))]);
    let array = DatafusionMapProducer::array(PortableSqlType::Boolean, &slots, 0).unwrap();
    assert_eq!(
        DatafusionMapProducer::index_datum(PortableSqlType::Int4, &array, 0),
        Err(ParadeError::TypeMismatch {
            expected: Some(pg_analytics::datatype::LogicalType::Int32)
        })
    );
}

#[test]
fn float_bits_are_copied_one_to_one() {
    let bits = 1.5f32.to_bits();
    let slots = one_column_slots(vec![Some(NativeValue::Float32Bits(bits))]);
    let array = DatafusionMapProducer::array(PortableSqlType::Float4, &slots, 0).unwrap();
    match DatafusionMapProducer::index_datum(PortableSqlType::Float4, &array, 0).unwrap() {
        NativeValue::Float32Bits(out) => assert_eq!(f32::from_bits(out), 1.5f32),
        other => panic!("expected float bits, got {:?}", other),
    }
}

#[test]
fn text_and_temporal_columns_round_trip() {
    let slots = one_column_slots(vec![Some(NativeValue::Text("hello".to_string())), None]);
    let array = DatafusionMapProducer::array(PortableSqlType::Text, &slots, 0).unwrap();
    assert_eq!(
        DatafusionMapProducer::index_datum(PortableSqlType::Text, &array, 0),
        Ok(NativeValue::Text("hello".to_string()))
    );

    let slots = one_column_slots(vec![Some(NativeValue::Date(19000))]);
    let array = DatafusionMapProducer::array(PortableSqlType::Date, &slots, 0).unwrap();
    assert_eq!(
        DatafusionMapProducer::index_datum(PortableSqlType::Date, &array, 0),
        Ok(NativeValue::Date(19000))
    );

    let slots = one_column_slots(vec![Some(NativeValue::TimestampMicros(1_700_000_000_000_000))]);
    let array =
        DatafusionMapProducer::array(PortableSqlType::TimestampWithoutTimeZone, &slots, 0).unwrap();
    assert_eq!(
        DatafusionMapProducer::index_datum(PortableSqlType::TimestampWithoutTimeZone, &array, 0),
        Ok(NativeValue::TimestampMicros(1_700_000_000_000_000))
    );
}

#[test]
fn second_column_is_read_at_its_index() {
    let slots = vec![TupleSlot {
        row_id: 0,
        cells: vec![
            Some(NativeValue::Int32(1)),
            Some(NativeValue::Boolean(false)),
        ],
    }];
    let array = DatafusionMapProducer::array(PortableSqlType::Boolean, &slots, 1).unwrap();
    match &array {
        ColumnarArray::Boolean(vs) => assert_eq!(vs, &vec![Some(false)]),
        other => panic!("expected a Boolean array, got {:?}", other),
    }
}
