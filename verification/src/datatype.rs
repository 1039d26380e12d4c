use vstd::arithmetic::div_mod::{lemma_fundamental_div_mod_converse, lemma_small_mod};
use vstd::prelude::*;

use crate::errors::ParadeError;

verus! {

/// Number of header bytes that the row store reserves at the start of a
/// variable-length value; column type modifiers are biased by this amount.
pub const VARHDRSZ: i32 = 4;

/// Largest decimal precision the columnar engine's 128-bit decimals hold.
pub const MAX_DECIMAL_PRECISION: u8 = 38;

/// Largest decimal scale magnitude the columnar engine's decimals hold.
pub const MAX_DECIMAL_SCALE: i8 = 38;

/// The columnar engine's canonical value-type enumeration, used for array
/// construction and extraction.  A closed set: anything else is rejected.
#[derive(Clone, Copy, Debug, PartialEq, Eq, Structural)]
pub enum LogicalType {
    Boolean,
    Utf8,
    Int16,
    Int32,
    Int64,
    UInt32,
    Float32,
    Float64,
    Decimal128 { precision: u8, scale: i8 },
    Date32,
    /// Microsecond timestamp without a time zone.
    TimestampMicrosecond,
    /// Microsecond time of day; representable in arrays but not mapped to
    /// any portable or native type.
    Time64Microsecond,
}

/// The engine-neutral SQL type used as the pivot between the row store's
/// column types and the columnar engine's logical types.  It also names
/// the pivots that this path explicitly refuses (unconstrained numerics,
/// time-zone-aware timestamps, time of day).
#[derive(Clone, Copy, Debug, PartialEq, Eq, Structural)]
pub enum PortableSqlType {
    Boolean,
    Text,
    Int2,
    Int4,
    Int8,
    UnsignedInt4,
    Float4,
    Float8,
    Numeric { precision: u64, scale: i64 },
    NumericUnconstrained,
    TimestampWithoutTimeZone,
    TimestampWithTimeZone,
    Date,
    Time,
}

/// The identifier half of a row-store column type.  The supported oids are
/// named; everything else is carried for diagnostics and rejected.
#[derive(Clone, Copy, Debug, PartialEq, Eq, Structural)]
pub enum NativeTypeId {
    Bool,
    Text,
    Varchar,
    Bpchar,
    Int2,
    Int4,
    Int8,
    Float4,
    Float8,
    Numeric,
    Date,
    Timestamp,
    /// Time-zone-aware timestamp: explicitly unsupported on this path.
    TimestampTz,
    /// Time of day: explicitly unsupported on this path.
    Time,
    /// Any other built-in oid of the row store.
    OtherBuiltin(u32),
    /// A user-defined type oid.
    Custom(u32),
    /// The invalid oid.
    Invalid,
}

/// A row-store column type: a type identifier together with its packed
/// type modifier.  The modifier encodes (precision, scale) for decimal
/// columns and is meaningless (conventionally `-1`) for all others.
#[derive(Clone, Copy, Debug, PartialEq, Eq, Structural)]
pub struct NativeColumnType {
    pub id: NativeTypeId,
    pub type_modifier: i32,
}

// ---------------------------------------------------------------------------
// Type-modifier codec for decimal columns.
//
// The row store packs (precision, scale) of a numeric column into one
// signed 32-bit modifier: after subtracting the header bias, precision
// occupies bits 16..31 and the scale is biased by 1024 and packed into the
// low 11 bits.  Division and remainder by 0x10000 and 0x800 below are the
// arithmetic reading of those shifts and masks.
// ---------------------------------------------------------------------------

/// Precision stored in a numeric type modifier: bits 16..31 of `tm - VARHDRSZ`.
pub open spec fn decoded_precision(tm: int) -> int {
    ((tm - VARHDRSZ) / 0x10000) % 0x10000
}

/// Scale stored in a numeric type modifier: the low 11 bits of
/// `tm - VARHDRSZ`, sign-extended from the 1024-biased field.
pub open spec fn decoded_scale(tm: int) -> int {
    let bits = (tm - VARHDRSZ) % 0x800;
    if bits < 0x400 {
        bits
    } else {
        bits - 0x800
    }
}

/// The modifier that packs `precision` and `scale`:
/// `((precision << 16) | (scale & 0x7ff)) + VARHDRSZ`.
pub open spec fn encoded_typmod(precision: int, scale: int) -> int {
    precision * 0x10000 + scale % 0x800 + VARHDRSZ
}

/// Unpacks a numeric type modifier into (precision, scale).
pub fn decode_numeric_typmod(tm: i32) -> (res: (i32, i32))
    ensures
        res.0 as int == decoded_precision(tm as int),
        res.1 as int == decoded_scale(tm as int),
        0 <= res.0 < 0x10000,
        -0x400 <= res.1 < 0x400,
{
    let raw: i64 = tm as i64 - VARHDRSZ as i64;
    let quotient: i64 = raw.checked_div_euclid(0x10000).unwrap();
    let precision: i64 = quotient.checked_rem_euclid(0x10000).unwrap();
    let bits: i64 = raw.checked_rem_euclid(0x800).unwrap();
    let scale: i64 = if bits >= 0x400 {
        bits - 0x800
    } else {
        bits
    };
    (precision as i32, scale as i32)
}

/// Packs (precision, scale) into a numeric type modifier.  The bounds are
/// what the signed 32-bit modifier's bit fields can carry.
pub fn encode_numeric_typmod(precision: i32, scale: i32) -> (res: i32)
    requires
        0 <= precision < 0x8000,
        -0x400 <= scale < 0x400,
    ensures
        res as int == encoded_typmod(precision as int, scale as int),
        res >= VARHDRSZ,
{
    let field: i32 = if scale < 0 {
        scale + 0x800
    } else {
        scale
    };
    proof {
        if scale < 0 {
            lemma_fundamental_div_mod_converse(scale as int, 0x800, -1, scale + 0x800);
        } else {
            lemma_small_mod(scale as nat, 0x800);
        }
    }
    precision * 0x10000 + field + VARHDRSZ
}

/// Law: decoding an encoded modifier restores the packed precision and
/// scale exactly, for every precision up to 38 and |scale| up to 1023.
pub proof fn lemma_numeric_typmod_round_trip(precision: int, scale: int)
    requires
        0 <= precision <= 38,
        -1023 <= scale <= 1023,
    ensures
        decoded_precision(encoded_typmod(precision, scale)) == precision,
        decoded_scale(encoded_typmod(precision, scale)) == scale,
{
    let field = scale % 0x800;
    if scale < 0 {
        lemma_fundamental_div_mod_converse(scale, 0x800, -1, scale + 0x800);
    } else {
        lemma_small_mod(scale as nat, 0x800);
    }
    assert(field == if scale >= 0 { scale } else { scale + 0x800 });
    let packed = precision * 0x10000 + field;
    lemma_fundamental_div_mod_converse(packed, 0x10000, precision, field);
    lemma_small_mod(precision as nat, 0x10000);
    lemma_fundamental_div_mod_converse(packed, 0x800, precision * 0x20, field);
}

/// Law: a modifier in the canonical shape the row store produces (bits
/// 11..15 of the biased value clear) is restored exactly by encoding its
/// decoded precision and scale.
pub proof fn lemma_numeric_typmod_canonical(tm: int)
    requires
        VARHDRSZ <= tm <= 0x7fffffff,
        (tm - VARHDRSZ) % 0x10000 < 0x800,
    ensures
        encoded_typmod(decoded_precision(tm), decoded_scale(tm)) == tm,
{
    let x = tm - VARHDRSZ;
    let q = x / 0x10000;
    let r = x % 0x10000;
    vstd::arithmetic::div_mod::lemma_fundamental_div_mod(x, 0x10000);
    assert(q * 0x10000 == x - r);
    assert(q < 0x8000);
    lemma_small_mod(q as nat, 0x10000);
    assert(decoded_precision(tm) == q);
    lemma_fundamental_div_mod_converse(x, 0x800, q * 0x20, r);
    assert(x % 0x800 == r);
    let s = decoded_scale(tm);
    if r < 0x400 {
        lemma_small_mod(r as nat, 0x800);
    } else {
        lemma_fundamental_div_mod_converse(s, 0x800, -1, r);
    }
    assert(s % 0x800 == r);
}

// ---------------------------------------------------------------------------
// Translations between the three type systems.  Each is a partial function
// over a fixed domain; everything outside it fails with an error carrying
// the offending type, never with a fallback type.
// ---------------------------------------------------------------------------

/// What `LogicalType::to_sql_data_type` returns, for every input.
pub open spec fn logical_to_portable(lt: LogicalType) -> Result<PortableSqlType, ParadeError> {
    match lt {
        LogicalType::Boolean => Ok(PortableSqlType::Boolean),
        LogicalType::Utf8 => Ok(PortableSqlType::Text),
        LogicalType::Int16 => Ok(PortableSqlType::Int2),
        LogicalType::Int32 => Ok(PortableSqlType::Int4),
        LogicalType::Int64 => Ok(PortableSqlType::Int8),
        LogicalType::UInt32 => Ok(PortableSqlType::UnsignedInt4),
        LogicalType::Float32 => Ok(PortableSqlType::Float4),
        LogicalType::Float64 => Ok(PortableSqlType::Float8),
        LogicalType::Decimal128 { precision, scale } => if precision > MAX_DECIMAL_PRECISION {
            Err(ParadeError::PrecisionOverflow { precision: precision as u64 })
        } else if scale > MAX_DECIMAL_SCALE || scale < -MAX_DECIMAL_SCALE {
            Err(ParadeError::ScaleOverflow { scale: scale as i64 })
        } else {
            Ok(PortableSqlType::Numeric { precision: precision as u64, scale: scale as i64 })
        },
        LogicalType::Date32 => Ok(PortableSqlType::Date),
        LogicalType::TimestampMicrosecond => Ok(PortableSqlType::TimestampWithoutTimeZone),
        LogicalType::Time64Microsecond => Err(ParadeError::UnsupportedLogicalType(lt)),
    }
}

/// What `LogicalType::from_sql_data_type` returns, for every input.
pub open spec fn portable_to_logical(pt: PortableSqlType) -> Result<LogicalType, ParadeError> {
    match pt {
        PortableSqlType::Boolean => Ok(LogicalType::Boolean),
        PortableSqlType::Text => Ok(LogicalType::Utf8),
        PortableSqlType::Int2 => Ok(LogicalType::Int16),
        PortableSqlType::Int4 => Ok(LogicalType::Int32),
        PortableSqlType::Int8 => Ok(LogicalType::Int64),
        PortableSqlType::UnsignedInt4 => Ok(LogicalType::UInt32),
        PortableSqlType::Float4 => Ok(LogicalType::Float32),
        PortableSqlType::Float8 => Ok(LogicalType::Float64),
        PortableSqlType::Numeric { precision, scale } => if precision
            > MAX_DECIMAL_PRECISION as u64 {
            Err(ParadeError::PrecisionOverflow { precision })
        } else if scale > MAX_DECIMAL_SCALE as i64 || scale < -(MAX_DECIMAL_SCALE as i64) {
            Err(ParadeError::ScaleOverflow { scale })
        } else {
            Ok(LogicalType::Decimal128 { precision: precision as u8, scale: scale as i8 })
        },
        PortableSqlType::Date => Ok(LogicalType::Date32),
        PortableSqlType::TimestampWithoutTimeZone => Ok(LogicalType::TimestampMicrosecond),
        _ => Err(ParadeError::UnsupportedPortableType(pt)),
    }
}

/// What `NativeColumnType::to_sql_data_type` returns, for every input.
pub open spec fn native_to_portable(n: NativeColumnType) -> Result<PortableSqlType, ParadeError> {
    match n.id {
        NativeTypeId::Bool => Ok(PortableSqlType::Boolean),
        NativeTypeId::Text => Ok(PortableSqlType::Text),
        NativeTypeId::Varchar => Ok(PortableSqlType::Text),
        NativeTypeId::Bpchar => Ok(PortableSqlType::Text),
        NativeTypeId::Int2 => Ok(PortableSqlType::Int2),
        NativeTypeId::Int4 => Ok(PortableSqlType::Int4),
        NativeTypeId::Int8 => Ok(PortableSqlType::Int8),
        NativeTypeId::Float4 => Ok(PortableSqlType::Float4),
        NativeTypeId::Float8 => Ok(PortableSqlType::Float8),
        NativeTypeId::Timestamp => Ok(PortableSqlType::TimestampWithoutTimeZone),
        NativeTypeId::Date => Ok(PortableSqlType::Date),
        NativeTypeId::Numeric => {
            let precision = decoded_precision(n.type_modifier as int);
            let scale = decoded_scale(n.type_modifier as int);
            if precision > MAX_DECIMAL_PRECISION as int {
                Err(ParadeError::PrecisionOverflow { precision: precision as u64 })
            } else if scale > MAX_DECIMAL_SCALE as int || scale < -(MAX_DECIMAL_SCALE as int) {
                Err(ParadeError::ScaleOverflow { scale: scale as i64 })
            } else {
                Ok(PortableSqlType::Numeric { precision: precision as u64, scale: scale as i64 })
            }
        },
        _ => Err(ParadeError::UnsupportedNativeType(n.id)),
    }
}

/// What `NativeColumnType::from_sql_data_type` returns, for every input.
pub open spec fn portable_to_native(pt: PortableSqlType) -> Result<NativeColumnType, ParadeError> {
    match pt {
        PortableSqlType::Boolean => Ok(
            NativeColumnType { id: NativeTypeId::Bool, type_modifier: -1i32 },
        ),
        PortableSqlType::Text => Ok(NativeColumnType { id: NativeTypeId::Text, type_modifier: -1i32 }),
        PortableSqlType::Int2 => Ok(NativeColumnType { id: NativeTypeId::Int2, type_modifier: -1i32 }),
        PortableSqlType::Int4 => Ok(NativeColumnType { id: NativeTypeId::Int4, type_modifier: -1i32 }),
        PortableSqlType::Int8 => Ok(NativeColumnType { id: NativeTypeId::Int8, type_modifier: -1i32 }),
        PortableSqlType::Float4 => Ok(
            NativeColumnType { id: NativeTypeId::Float4, type_modifier: -1i32 },
        ),
        PortableSqlType::Float8 => Ok(
            NativeColumnType { id: NativeTypeId::Float8, type_modifier: -1i32 },
        ),
        PortableSqlType::Numeric { precision, scale } => if precision
            > MAX_DECIMAL_PRECISION as u64 {
            Err(ParadeError::PrecisionOverflow { precision })
        } else if scale > MAX_DECIMAL_SCALE as i64 || scale < -(MAX_DECIMAL_SCALE as i64) {
            Err(ParadeError::ScaleOverflow { scale })
        } else {
            Ok(
                NativeColumnType {
                    id: NativeTypeId::Numeric,
                    type_modifier: encoded_typmod(precision as int, scale as int) as i32,
                },
            )
        },
        PortableSqlType::TimestampWithoutTimeZone => Ok(
            NativeColumnType { id: NativeTypeId::Timestamp, type_modifier: -1i32 },
        ),
        PortableSqlType::Date => Ok(NativeColumnType { id: NativeTypeId::Date, type_modifier: -1i32 }),
        _ => Err(ParadeError::UnsupportedPortableType(pt)),
    }
}

impl LogicalType {
    /// Maps this logical type to its portable SQL pivot; fails with the
    /// offending type for anything outside the supported enumeration and
    /// with the offending bound for decimals beyond 128-bit range.
    pub fn to_sql_data_type(&self) -> (res: Result<PortableSqlType, ParadeError>)
        ensures
            res == logical_to_portable(*self),
    {
        match *self {
            LogicalType::Boolean => Ok(PortableSqlType::Boolean),
            LogicalType::Utf8 => Ok(PortableSqlType::Text),
            LogicalType::Int16 => Ok(PortableSqlType::Int2),
            LogicalType::Int32 => Ok(PortableSqlType::Int4),
            LogicalType::Int64 => Ok(PortableSqlType::Int8),
            LogicalType::UInt32 => Ok(PortableSqlType::UnsignedInt4),
            LogicalType::Float32 => Ok(PortableSqlType::Float4),
            LogicalType::Float64 => Ok(PortableSqlType::Float8),
            LogicalType::Decimal128 { precision, scale } => {
                if precision > MAX_DECIMAL_PRECISION {
                    Err(ParadeError::PrecisionOverflow { precision: precision as u64 })
                } else if scale > MAX_DECIMAL_SCALE || scale < -MAX_DECIMAL_SCALE {
                    Err(ParadeError::ScaleOverflow { scale: scale as i64 })
                } else {
                    Ok(
                        PortableSqlType::Numeric {
                            precision: precision as u64,
                            scale: scale as i64,
                        },
                    )
                }
            },
            LogicalType::Date32 => Ok(PortableSqlType::Date),
            LogicalType::TimestampMicrosecond => Ok(PortableSqlType::TimestampWithoutTimeZone),
            LogicalType::Time64Microsecond => Err(ParadeError::UnsupportedLogicalType(*self)),
        }
    }

    /// Maps a portable SQL type back to the logical type it stands for;
    /// rejects unconstrained numerics, out-of-range decimal bounds,
    /// time-zone-aware timestamps and time of day.
    pub fn from_sql_data_type(pt: PortableSqlType) -> (res: Result<LogicalType, ParadeError>)
        ensures
            res == portable_to_logical(pt),
    {
        match pt {
            PortableSqlType::Boolean => Ok(LogicalType::Boolean),
            PortableSqlType::Text => Ok(LogicalType::Utf8),
            PortableSqlType::Int2 => Ok(LogicalType::Int16),
            PortableSqlType::Int4 => Ok(LogicalType::Int32),
            PortableSqlType::Int8 => Ok(LogicalType::Int64),
            PortableSqlType::UnsignedInt4 => Ok(LogicalType::UInt32),
            PortableSqlType::Float4 => Ok(LogicalType::Float32),
            PortableSqlType::Float8 => Ok(LogicalType::Float64),
            PortableSqlType::Numeric { precision, scale } => {
                if precision > MAX_DECIMAL_PRECISION as u64 {
                    Err(ParadeError::PrecisionOverflow { precision })
                } else if scale > MAX_DECIMAL_SCALE as i64 || scale < -(MAX_DECIMAL_SCALE as i64) {
                    Err(ParadeError::ScaleOverflow { scale })
                } else {
                    Ok(LogicalType::Decimal128 { precision: precision as u8, scale: scale as i8 })
                }
            },
            PortableSqlType::Date => Ok(LogicalType::Date32),
            PortableSqlType::TimestampWithoutTimeZone => Ok(LogicalType::TimestampMicrosecond),
            _ => Err(ParadeError::UnsupportedPortableType(pt)),
        }
    }
}

impl NativeColumnType {
    /// Maps this row-store column type to the portable SQL pivot.  For
    /// numeric columns the packed type modifier is decoded and its bounds
    /// checked; for every other supported id the modifier is ignored.
    pub fn to_sql_data_type(&self) -> (res: Result<PortableSqlType, ParadeError>)
        ensures
            res == native_to_portable(*self),
    {
        match self.id {
            NativeTypeId::Bool => Ok(PortableSqlType::Boolean),
            NativeTypeId::Text => Ok(PortableSqlType::Text),
            NativeTypeId::Varchar => Ok(PortableSqlType::Text),
            NativeTypeId::Bpchar => Ok(PortableSqlType::Text),
            NativeTypeId::Int2 => Ok(PortableSqlType::Int2),
            NativeTypeId::Int4 => Ok(PortableSqlType::Int4),
            NativeTypeId::Int8 => Ok(PortableSqlType::Int8),
            NativeTypeId::Float4 => Ok(PortableSqlType::Float4),
            NativeTypeId::Float8 => Ok(PortableSqlType::Float8),
            NativeTypeId::Timestamp => Ok(PortableSqlType::TimestampWithoutTimeZone),
            NativeTypeId::Date => Ok(PortableSqlType::Date),
            NativeTypeId::Numeric => {
                let (precision, scale) = decode_numeric_typmod(self.type_modifier);
                if precision > MAX_DECIMAL_PRECISION as i32 {
                    Err(ParadeError::PrecisionOverflow { precision: precision as u64 })
                } else if scale > MAX_DECIMAL_SCALE as i32 || scale < -(MAX_DECIMAL_SCALE as i32) {
                    Err(ParadeError::ScaleOverflow { scale: scale as i64 })
                } else {
                    Ok(
                        PortableSqlType::Numeric {
                            precision: precision as u64,
                            scale: scale as i64,
                        },
                    )
                }
            },
            _ => Err(ParadeError::UnsupportedNativeType(self.id)),
        }
    }

    /// Maps a portable SQL type to the row-store column type that carries
    /// it: the canonical oid plus a type modifier, `-1` for every
    /// non-decimal type and the packed (precision, scale) for numerics.
    pub fn from_sql_data_type(pt: PortableSqlType) -> (res: Result<NativeColumnType, ParadeError>)
        ensures
            res == portable_to_native(pt),
    {
        match pt {
            PortableSqlType::Boolean => Ok(
                NativeColumnType { id: NativeTypeId::Bool, type_modifier: -1 },
            ),
            PortableSqlType::Text => Ok(
                NativeColumnType { id: NativeTypeId::Text, type_modifier: -1 },
            ),
            PortableSqlType::Int2 => Ok(
                NativeColumnType { id: NativeTypeId::Int2, type_modifier: -1 },
            ),
            PortableSqlType::Int4 => Ok(
                NativeColumnType { id: NativeTypeId::Int4, type_modifier: -1 },
            ),
            PortableSqlType::Int8 => Ok(
                NativeColumnType { id: NativeTypeId::Int8, type_modifier: -1 },
            ),
            PortableSqlType::Float4 => Ok(
                NativeColumnType { id: NativeTypeId::Float4, type_modifier: -1 },
            ),
            PortableSqlType::Float8 => Ok(
                NativeColumnType { id: NativeTypeId::Float8, type_modifier: -1 },
            ),
            PortableSqlType::Numeric { precision, scale } => {
                if precision > MAX_DECIMAL_PRECISION as u64 {
                    Err(ParadeError::PrecisionOverflow { precision })
                } else if scale > MAX_DECIMAL_SCALE as i64 || scale < -(MAX_DECIMAL_SCALE as i64) {
                    Err(ParadeError::ScaleOverflow { scale })
                } else {
                    let tm = encode_numeric_typmod(precision as i32, scale as i32);
                    Ok(NativeColumnType { id: NativeTypeId::Numeric, type_modifier: tm })
                }
            },
            PortableSqlType::TimestampWithoutTimeZone => Ok(
                NativeColumnType { id: NativeTypeId::Timestamp, type_modifier: -1 },
            ),
            PortableSqlType::Date => Ok(
                NativeColumnType { id: NativeTypeId::Date, type_modifier: -1 },
            ),
            _ => Err(ParadeError::UnsupportedPortableType(pt)),
        }
    }
}

/// The row-store column types in canonical form: the oid that the reverse
/// translation produces (so not the Varchar/Bpchar aliases of Text), with
/// modifier `-1` except for numerics, whose modifier must carry in-range
/// bounds in the canonical packed shape.
pub open spec fn native_canonical(n: NativeColumnType) -> bool {
    match n.id {
        NativeTypeId::Bool => n.type_modifier == -1,
        NativeTypeId::Text => n.type_modifier == -1,
        NativeTypeId::Int2 => n.type_modifier == -1,
        NativeTypeId::Int4 => n.type_modifier == -1,
        NativeTypeId::Int8 => n.type_modifier == -1,
        NativeTypeId::Float4 => n.type_modifier == -1,
        NativeTypeId::Float8 => n.type_modifier == -1,
        NativeTypeId::Timestamp => n.type_modifier == -1,
        NativeTypeId::Date => n.type_modifier == -1,
        NativeTypeId::Numeric => {
            &&& VARHDRSZ <= n.type_modifier
            &&& (n.type_modifier - VARHDRSZ) % 0x10000 < 0x800
            &&& decoded_precision(n.type_modifier as int) <= MAX_DECIMAL_PRECISION as int
            &&& -(MAX_DECIMAL_SCALE as int) <= decoded_scale(n.type_modifier as int)
                <= MAX_DECIMAL_SCALE as int
        },
        _ => false,
    }
}

/// Law: every logical type that translates to a portable type is restored
/// exactly by the reverse translation, decimal precision and scale
/// included.  (Time of day and out-of-range decimals never translate, so
/// nothing is claimed of them.)
pub proof fn lemma_logical_round_trip(lt: LogicalType)
    requires
        logical_to_portable(lt) is Ok,
    ensures
        portable_to_logical(logical_to_portable(lt).unwrap()) == Ok::<LogicalType, ParadeError>(lt),
{
}

/// Law: every canonical row-store column type is restored exactly by
/// translating it to the portable pivot and back, decimal precision and
/// scale included.  (The Varchar and Bpchar aliases both pivot through
/// Text, so they come back as Text and are excluded here.)
pub proof fn lemma_native_round_trip(n: NativeColumnType)
    requires
        native_canonical(n),
    ensures
        native_to_portable(n) is Ok,
        portable_to_native(native_to_portable(n).unwrap()) == Ok::<NativeColumnType, ParadeError>(
            n,
        ),
{
    match n.id {
        NativeTypeId::Numeric => lemma_numeric_typmod_canonical(n.type_modifier as int),
        _ => (),
    }
}

} // verus!
