use pg_analytics::datatype::{
    decode_numeric_typmod, encode_numeric_typmod, LogicalType, NativeColumnType, NativeTypeId,
    PortableSqlType,
};
use pg_analytics::errors::ParadeError;

fn supported_logical_types() -> Vec<LogicalType> {
    vec![
        LogicalType::Boolean,
        LogicalType::Utf8,
        LogicalType::Int16,
        LogicalType::Int32,
        LogicalType::Int64,
        LogicalType::UInt32,
        LogicalType::Float32,
        LogicalType::Float64,
        LogicalType::Decimal128 {
            precision: 10,
            scale: 2,
        },
        LogicalType::Decimal128 {
            precision: 38,
            scale: -38,
        },
        LogicalType::Date32,
        LogicalType::TimestampMicrosecond,
    ]
}

#[test]
fn logical_types_round_trip_through_portable() {
    for lt in supported_logical_types() {
        let portable = lt.to_sql_data_type().unwrap();
        assert_eq!(LogicalType::from_sql_data_type(portable).unwrap(), lt);
    }
}

#[test]
fn logical_to_portable_exact_mappings() {
    assert_eq!(
        LogicalType::Boolean.to_sql_data_type().unwrap(),
        PortableSqlType::Boolean
    );
    assert_eq!(
        LogicalType::Utf8.to_sql_data_type().unwrap(),
        PortableSqlType::Text
    );
    assert_eq!(
        LogicalType::Int16.to_sql_data_type().unwrap(),
        PortableSqlType::Int2
    );
    assert_eq!(
        LogicalType::UInt32.to_sql_data_type().unwrap(),
        PortableSqlType::UnsignedInt4
    );
    assert_eq!(
        LogicalType::Decimal128 {
            precision: 10,
            scale: 2
        }
        .to_sql_data_type()
        .unwrap(),
        PortableSqlType::Numeric {
            precision: 10,
            scale: 2
        }
    );
    assert_eq!(
        LogicalType::TimestampMicrosecond.to_sql_data_type().unwrap(),
        PortableSqlType::TimestampWithoutTimeZone
    );
}

fn canonical_native_types() -> Vec<NativeColumnType> {
    let numeric_tm = encode_numeric_typmod(10, 2);
    vec![
        NativeColumnType {
            id: NativeTypeId::Bool,
            type_modifier: -1,
        },
        NativeColumnType {
            id: NativeTypeId::Text,
            type_modifier: -1,
        },
        NativeColumnType {
            id: NativeTypeId::Int2,
            type_modifier: -1,
        },
        NativeColumnType {
            id: NativeTypeId::Int4,
            type_modifier: -1,
        },
        NativeColumnType {
            id: NativeTypeId::Int8,
            type_modifier: -1,
        },
        NativeColumnType {
            id: NativeTypeId::Float4,
            type_modifier: -1,
        },
        NativeColumnType {
            id: NativeTypeId::Float8,
            type_modifier: -1,
        },
        NativeColumnType {
            id: NativeTypeId::Timestamp,
            type_modifier: -1,
        },
        NativeColumnType {
            id: NativeTypeId::Date,
            type_modifier: -1,
        },
        NativeColumnType {
            id: NativeTypeId::Numeric,
            type_modifier: numeric_tm,
        },
    ]
}

#[test]
fn native_types_round_trip_through_portable() {
    for nt in canonical_native_types() {
        let portable = nt.to_sql_data_type().unwrap();
        assert_eq!(NativeColumnType::from_sql_data_type(portable).unwrap(), nt);
    }
}

#[test]
fn varchar_and_bpchar_pivot_to_text() {
    for id in [NativeTypeId::Varchar, NativeTypeId::Bpchar] {
        let nt = NativeColumnType {
            id,
            type_modifier: -1,
        };
        assert_eq!(nt.to_sql_data_type().unwrap(), PortableSqlType::Text);
    }
    assert_eq!(
        NativeColumnType::from_sql_data_type(PortableSqlType::Text).unwrap(),
        NativeColumnType {
            id: NativeTypeId::Text,
            type_modifier: -1,
        }
    );
}

#[test]
fn typmod_codec_round_trips() {
    for (p, s) in [
        (0, 0),
        (10, 2),
        (38, 0),
        (38, 38),
        (38, 1023),
        (5, -2),
        (1, -1023),
        (0, 1023),
    ] {
        let tm = encode_numeric_typmod(p, s);
        assert_eq!(decode_numeric_typmod(tm), (p, s));
    }
}

#[test]
fn typmod_codec_exact_values() {
    // ((10 << 16) | 2) + 4
    assert_eq!(encode_numeric_typmod(10, 2), 655366);
    assert_eq!(decode_numeric_typmod(655366), (10, 2));
    // a negative scale is biased into the low 11 bits
    assert_eq!(encode_numeric_typmod(5, -2), 5 * 65536 + 2046 + 4);
    // the unconstrained-numeric modifier decodes to an out-of-range precision
    assert_eq!(decode_numeric_typmod(-1), (65535, -5));
}

#[test]
fn unsupported_logical_types_are_rejected() {
    assert_eq!(
        LogicalType::Time64Microsecond.to_sql_data_type(),
        Err(ParadeError::UnsupportedLogicalType(
            LogicalType::Time64Microsecond
        ))
    );
    assert_eq!(
        LogicalType::Decimal128 {
            precision: 39,
            scale: 0
        }
        .to_sql_data_type(),
        Err(ParadeError::PrecisionOverflow { precision: 39 })
    );
    assert_eq!(
        LogicalType::Decimal128 {
            precision: 10,
            scale: 39
        }
        .to_sql_data_type(),
        Err(ParadeError::ScaleOverflow { scale: 39 })
    );
}

#[test]
fn unsupported_portable_types_are_rejected() {
    for pt in [
        PortableSqlType::NumericUnconstrained,
        PortableSqlType::TimestampWithTimeZone,
        PortableSqlType::Time,
    ] {
        assert_eq!(
            LogicalType::from_sql_data_type(pt),
            Err(ParadeError::UnsupportedPortableType(pt))
        );
        assert_eq!(
            NativeColumnType::from_sql_data_type(pt),
            Err(ParadeError::UnsupportedPortableType(pt))
        );
    }
    // the row store has no unsigned column type
    assert_eq!(
        NativeColumnType::from_sql_data_type(PortableSqlType::UnsignedInt4),
        Err(ParadeError::UnsupportedPortableType(
            PortableSqlType::UnsignedInt4
        ))
    );
    assert_eq!(
        LogicalType::from_sql_data_type(PortableSqlType::Numeric {
            precision: 300,
            scale: 0
        }),
        Err(ParadeError::PrecisionOverflow { precision: 300 })
    );
    assert_eq!(
        LogicalType::from_sql_data_type(PortableSqlType::Numeric {
            precision: 10,
            scale: -100
        }),
        Err(ParadeError::ScaleOverflow { scale: -100 })
    );
}

#[test]
fn unsupported_native_types_are_rejected() {
    for id in [
        NativeTypeId::TimestampTz,
        NativeTypeId::Time,
        NativeTypeId::OtherBuiltin(790),
        NativeTypeId::Custom(70000),
        NativeTypeId::Invalid,
    ] {
        let nt = NativeColumnType {
            id,
            type_modifier: -1,
        };
        assert_eq!(
            nt.to_sql_data_type(),
            Err(ParadeError::UnsupportedNativeType(id))
        );
    }
}

#[test]
fn numeric_native_type_bounds_checked() {
    // precision 65535 comes from the unconstrained modifier and is rejected
    let nt = NativeColumnType {
        id: NativeTypeId::Numeric,
        type_modifier: -1,
    };
    assert_eq!(
        nt.to_sql_data_type(),
        Err(ParadeError::PrecisionOverflow { precision: 65535 })
    );
    // scale 39 is beyond the engine's decimals
    let tm = encode_numeric_typmod(38, 39);
    let nt = NativeColumnType {
        id: NativeTypeId::Numeric,
        type_modifier: tm,
    };
    assert_eq!(
        nt.to_sql_data_type(),
        Err(ParadeError::ScaleOverflow { scale: 39 })
    );
}
