use vstd::prelude::*;

use crate::datatype::{portable_to_logical, LogicalType, PortableSqlType};
use crate::errors::ParadeError;
use crate::numeric::{
    pow10, pow10_i128, scale_anynumeric, scale_ok, scale_shift, shifted_digits, spec_rescaled,
    NativeNumeric, RescaleDirection,
};

verus! {

/// One value in the row store's native in-memory representation.  Floats
/// are carried as their IEEE-754 bit patterns: array construction and
/// extraction copy them 1:1 and never do float arithmetic.
#[derive(Debug, PartialEq, Eq)]
pub enum NativeValue {
    Boolean(bool),
    Text(String),
    Int16(i16),
    Int32(i32),
    Int64(i64),
    UInt32(u32),
    Float32Bits(u32),
    Float64Bits(u64),
    Numeric(NativeNumeric),
    Date(i32),
    TimestampMicros(i64),
    TimeMicros(i64),
}

/// A row-oriented container for one row: a value or null per column, and
/// the row identifier under which the row is handed to the destination.
#[derive(Debug, PartialEq, Eq)]
pub struct TupleSlot {
    pub row_id: u64,
    pub cells: Vec<Option<NativeValue>>,
}

/// An ownership-exclusive, fixed-length, typed vector of values with a
/// null indicator per slot.  Arrays are dense: the null slots occupy
/// their indexes.  The unsigned 64-bit variant exists only because
/// mutating plans report their row count through such a column; it has no
/// logical type and no portable mapping.
#[derive(Debug, PartialEq, Eq)]
pub enum ColumnarArray {
    Boolean(Vec<Option<bool>>),
    Utf8(Vec<Option<String>>),
    Int16(Vec<Option<i16>>),
    Int32(Vec<Option<i32>>),
    Int64(Vec<Option<i64>>),
    UInt32(Vec<Option<u32>>),
    UInt64(Vec<Option<u64>>),
    Float32(Vec<Option<u32>>),
    Float64(Vec<Option<u64>>),
    Decimal128 { precision: u8, scale: i8, values: Vec<Option<i128>> },
    Date32(Vec<Option<i32>>),
    TimestampMicrosecond(Vec<Option<i64>>),
    Time64Microsecond(Vec<Option<i64>>),
}

impl ColumnarArray {
    /// Number of slots, null slots included.
    pub open spec fn spec_len(self) -> nat {
        match self {
            ColumnarArray::Boolean(vs) => vs@.len(),
            ColumnarArray::Utf8(vs) => vs@.len(),
            ColumnarArray::Int16(vs) => vs@.len(),
            ColumnarArray::Int32(vs) => vs@.len(),
            ColumnarArray::Int64(vs) => vs@.len(),
            ColumnarArray::UInt32(vs) => vs@.len(),
            ColumnarArray::UInt64(vs) => vs@.len(),
            ColumnarArray::Float32(vs) => vs@.len(),
            ColumnarArray::Float64(vs) => vs@.len(),
            ColumnarArray::Decimal128 { values, .. } => values@.len(),
            ColumnarArray::Date32(vs) => vs@.len(),
            ColumnarArray::TimestampMicrosecond(vs) => vs@.len(),
            ColumnarArray::Time64Microsecond(vs) => vs@.len(),
        }
    }

    /// Whether the slot at `i` is null.
    pub open spec fn spec_null_at(self, i: int) -> bool {
        match self {
            ColumnarArray::Boolean(vs) => vs@[i] is None,
            ColumnarArray::Utf8(vs) => vs@[i] is None,
            ColumnarArray::Int16(vs) => vs@[i] is None,
            ColumnarArray::Int32(vs) => vs@[i] is None,
            ColumnarArray::Int64(vs) => vs@[i] is None,
            ColumnarArray::UInt32(vs) => vs@[i] is None,
            ColumnarArray::UInt64(vs) => vs@[i] is None,
            ColumnarArray::Float32(vs) => vs@[i] is None,
            ColumnarArray::Float64(vs) => vs@[i] is None,
            ColumnarArray::Decimal128 { values, .. } => values@[i] is None,
            ColumnarArray::Date32(vs) => vs@[i] is None,
            ColumnarArray::TimestampMicrosecond(vs) => vs@[i] is None,
            ColumnarArray::Time64Microsecond(vs) => vs@[i] is None,
        }
    }

    /// The logical type this array carries, if it has one.
    pub open spec fn spec_data_type(self) -> Option<LogicalType> {
        match self {
            ColumnarArray::Boolean(_) => Some(LogicalType::Boolean),
            ColumnarArray::Utf8(_) => Some(LogicalType::Utf8),
            ColumnarArray::Int16(_) => Some(LogicalType::Int16),
            ColumnarArray::Int32(_) => Some(LogicalType::Int32),
            ColumnarArray::Int64(_) => Some(LogicalType::Int64),
            ColumnarArray::UInt32(_) => Some(LogicalType::UInt32),
            ColumnarArray::UInt64(_) => None,
            ColumnarArray::Float32(_) => Some(LogicalType::Float32),
            ColumnarArray::Float64(_) => Some(LogicalType::Float64),
            ColumnarArray::Decimal128 { precision, scale, .. } => Some(
                LogicalType::Decimal128 { precision, scale },
            ),
            ColumnarArray::Date32(_) => Some(LogicalType::Date32),
            ColumnarArray::TimestampMicrosecond(_) => Some(LogicalType::TimestampMicrosecond),
            ColumnarArray::Time64Microsecond(_) => Some(LogicalType::Time64Microsecond),
        }
    }

    pub fn len(&self) -> (res: usize)
        ensures
            res == self.spec_len(),
    {
        match self {
            ColumnarArray::Boolean(vs) => vs.len(),
            ColumnarArray::Utf8(vs) => vs.len(),
            ColumnarArray::Int16(vs) => vs.len(),
            ColumnarArray::Int32(vs) => vs.len(),
            ColumnarArray::Int64(vs) => vs.len(),
            ColumnarArray::UInt32(vs) => vs.len(),
            ColumnarArray::UInt64(vs) => vs.len(),
            ColumnarArray::Float32(vs) => vs.len(),
            ColumnarArray::Float64(vs) => vs.len(),
            ColumnarArray::Decimal128 { values, .. } => values.len(),
            ColumnarArray::Date32(vs) => vs.len(),
            ColumnarArray::TimestampMicrosecond(vs) => vs.len(),
            ColumnarArray::Time64Microsecond(vs) => vs.len(),
        }
    }

    /// The logical type this array carries; `None` for the unsigned
    /// 64-bit row-count columns, which no logical type describes.
    pub fn data_type(&self) -> (res: Option<LogicalType>)
        ensures
            res == self.spec_data_type(),
    {
        match self {
            ColumnarArray::Boolean(_) => Some(LogicalType::Boolean),
            ColumnarArray::Utf8(_) => Some(LogicalType::Utf8),
            ColumnarArray::Int16(_) => Some(LogicalType::Int16),
            ColumnarArray::Int32(_) => Some(LogicalType::Int32),
            ColumnarArray::Int64(_) => Some(LogicalType::Int64),
            ColumnarArray::UInt32(_) => Some(LogicalType::UInt32),
            ColumnarArray::UInt64(_) => None,
            ColumnarArray::Float32(_) => Some(LogicalType::Float32),
            ColumnarArray::Float64(_) => Some(LogicalType::Float64),
            ColumnarArray::Decimal128 { precision, scale, .. } => Some(
                LogicalType::Decimal128 { precision: *precision, scale: *scale },
            ),
            ColumnarArray::Date32(_) => Some(LogicalType::Date32),
            ColumnarArray::TimestampMicrosecond(_) => Some(LogicalType::TimestampMicrosecond),
            ColumnarArray::Time64Microsecond(_) => Some(LogicalType::Time64Microsecond),
        }
    }
}

/// Whether an array's runtime representation is the one for `lt`.  For
/// decimals only the representation is compared, as extraction rescales
/// under the caller's declared precision and scale.
pub open spec fn kind_matches(arr: ColumnarArray, lt: LogicalType) -> bool {
    match lt {
        LogicalType::Boolean => arr is Boolean,
        LogicalType::Utf8 => arr is Utf8,
        LogicalType::Int16 => arr is Int16,
        LogicalType::Int32 => arr is Int32,
        LogicalType::Int64 => arr is Int64,
        LogicalType::UInt32 => arr is UInt32,
        LogicalType::Float32 => arr is Float32,
        LogicalType::Float64 => arr is Float64,
        LogicalType::Decimal128 { .. } => arr is Decimal128,
        LogicalType::Date32 => arr is Date32,
        LogicalType::TimestampMicrosecond => arr is TimestampMicrosecond,
        LogicalType::Time64Microsecond => arr is Time64Microsecond,
    }
}

// ---------------------------------------------------------------------------
// Row -> column: building one dense array for one column.
// ---------------------------------------------------------------------------

/// The cells of one column across a run of tuple slots.
pub open spec fn column_cells(slots: Seq<TupleSlot>, col: int) -> Seq<Option<NativeValue>> {
    Seq::new(slots.len(), |i: int| slots[i].cells@[col])
}

/// Whether one cell can enter an array of type `lt`: null always can; a
/// value must be of the matching native kind, and a decimal value must
/// rescale exactly into the column's (precision, scale).
pub open spec fn cell_fits(lt: LogicalType, cell: Option<NativeValue>) -> bool {
    match cell {
        None => true,
        Some(v) => match lt {
            LogicalType::Boolean => v is Boolean,
            LogicalType::Utf8 => v is Text,
            LogicalType::Int16 => v is Int16,
            LogicalType::Int32 => v is Int32,
            LogicalType::Int64 => v is Int64,
            LogicalType::UInt32 => v is UInt32,
            LogicalType::Float32 => v is Float32Bits,
            LogicalType::Float64 => v is Float64Bits,
            LogicalType::Decimal128 { precision, scale } => match v {
                NativeValue::Numeric(n) => scale_ok(
                    n,
                    precision,
                    scale,
                    RescaleDirection::ToUnscaled,
                ),
                _ => false,
            },
            LogicalType::Date32 => v is Date,
            LogicalType::TimestampMicrosecond => v is TimestampMicros,
            LogicalType::Time64Microsecond => v is TimeMicros,
        },
    }
}

pub open spec fn cells_fit(lt: LogicalType, cells: Seq<Option<NativeValue>>) -> bool {
    forall|i: int| 0 <= i < cells.len() ==> cell_fits(lt, #[trigger] cells[i])
}

/// The unscaled significand a decimal cell contributes to the array.
pub open spec fn built_decimal(cell: Option<NativeValue>, scale: i8) -> Option<i128> {
    match cell {
        Some(NativeValue::Numeric(n)) => Some(
            spec_rescaled(n, scale, RescaleDirection::ToUnscaled).digits,
        ),
        _ => None,
    }
}

/// The array that `DatafusionMapProducer::array` builds from `cells` at
/// type `lt`, provided every cell fits: same length, null exactly where
/// the cell is null, every value carried over 1:1 (decimals rescaled to
/// their unscaled form).
pub open spec fn column_models(
    arr: ColumnarArray,
    lt: LogicalType,
    cells: Seq<Option<NativeValue>>,
) -> bool {
    &&& cells_fit(lt, cells)
    &&& arr.spec_len() == cells.len()
    &&& match lt {
        LogicalType::Boolean => arr matches ColumnarArray::Boolean(vs) && (forall|i: int|
            0 <= i < cells.len() ==> #[trigger] vs@[i] == match cells[i] {
                Some(NativeValue::Boolean(b)) => Some(b),
                _ => None,
            }),
        LogicalType::Utf8 => arr matches ColumnarArray::Utf8(vs) && (forall|i: int|
            0 <= i < cells.len() ==> #[trigger] vs@[i] == match cells[i] {
                Some(NativeValue::Text(s)) => Some(s),
                _ => None,
            }),
        LogicalType::Int16 => arr matches ColumnarArray::Int16(vs) && (forall|i: int|
            0 <= i < cells.len() ==> #[trigger] vs@[i] == match cells[i] {
                Some(NativeValue::Int16(x)) => Some(x),
                _ => None,
            }),
        LogicalType::Int32 => arr matches ColumnarArray::Int32(vs) && (forall|i: int|
            0 <= i < cells.len() ==> #[trigger] vs@[i] == match cells[i] {
                Some(NativeValue::Int32(x)) => Some(x),
                _ => None,
            }),
        LogicalType::Int64 => arr matches ColumnarArray::Int64(vs) && (forall|i: int|
            0 <= i < cells.len() ==> #[trigger] vs@[i] == match cells[i] {
                Some(NativeValue::Int64(x)) => Some(x),
                _ => None,
            }),
        LogicalType::UInt32 => arr matches ColumnarArray::UInt32(vs) && (forall|i: int|
            0 <= i < cells.len() ==> #[trigger] vs@[i] == match cells[i] {
                Some(NativeValue::UInt32(x)) => Some(x),
                _ => None,
            }),
        LogicalType::Float32 => arr matches ColumnarArray::Float32(vs) && (forall|i: int|
            0 <= i < cells.len() ==> #[trigger] vs@[i] == match cells[i] {
                Some(NativeValue::Float32Bits(x)) => Some(x),
                _ => None,
            }),
        LogicalType::Float64 => arr matches ColumnarArray::Float64(vs) && (forall|i: int|
            0 <= i < cells.len() ==> #[trigger] vs@[i] == match cells[i] {
                Some(NativeValue::Float64Bits(x)) => Some(x),
                _ => None,
            }),
        LogicalType::Decimal128 { precision, scale } => arr matches ColumnarArray::Decimal128 {
            precision: ap,
            scale: asc,
            values: vs,
        } && ap == precision && asc == scale && (forall|i: int|
            0 <= i < cells.len() ==> #[trigger] vs@[i] == built_decimal(cells[i], scale)),
        LogicalType::Date32 => arr matches ColumnarArray::Date32(vs) && (forall|i: int|
            0 <= i < cells.len() ==> #[trigger] vs@[i] == match cells[i] {
                Some(NativeValue::Date(x)) => Some(x),
                _ => None,
            }),
        LogicalType::TimestampMicrosecond => arr matches ColumnarArray::TimestampMicrosecond(vs)
            && (forall|i: int|
            0 <= i < cells.len() ==> #[trigger] vs@[i] == match cells[i] {
                Some(NativeValue::TimestampMicros(x)) => Some(x),
                _ => None,
            }),
        LogicalType::Time64Microsecond => arr matches ColumnarArray::Time64Microsecond(vs) && (
        forall|i: int|
            0 <= i < cells.len() ==> #[trigger] vs@[i] == match cells[i] {
                Some(NativeValue::TimeMicros(x)) => Some(x),
                _ => None,
            }),
    }
}

/// The errors array construction can produce once the target type is
/// known: a cell of the wrong kind, or a decimal cell that the column's
/// bounds cannot hold.
pub open spec fn is_build_error(e: ParadeError, lt: LogicalType) -> bool {
    ||| e == (ParadeError::TypeMismatch { expected: Some(lt) })
    ||| e matches ParadeError::ScaleOverflow { .. }
    ||| e matches ParadeError::PrecisionOverflow { .. }
}

/// Every tuple slot reaches at least past `col`, and every decimal cell
/// of that column is within the model's representable domain.
pub open spec fn column_readable(slots: Seq<TupleSlot>, col: int) -> bool {
    &&& forall|i: int| 0 <= i < slots.len() ==> col < #[trigger] slots[i].cells@.len()
    &&& forall|i: int|
        0 <= i < slots.len() ==> match #[trigger] slots[i].cells@[col] {
            Some(NativeValue::Numeric(n)) => n.wf(),
            _ => true,
        }
}


fn collect_bool(slots: &Vec<TupleSlot>, col_idx: usize) -> (res: Result<
    Vec<Option<bool>>,
    ParadeError,
>)
    requires
        column_readable(slots@, col_idx as int),
    ensures
        res is Ok <==> cells_fit(LogicalType::Boolean, column_cells(slots@, col_idx as int)),
        res matches Ok(vs) ==> vs@.len() == slots@.len() && (forall|i: int|
            0 <= i < slots@.len() ==> #[trigger] vs@[i] == match column_cells(
                slots@,
                col_idx as int,
            )[i] {
                Some(NativeValue::Boolean(x)) => Some(x),
                _ => None,
            }),
        res matches Err(e) ==> e == (ParadeError::TypeMismatch {
            expected: Some(LogicalType::Boolean),
        }),
{
    let ghost cells = column_cells(slots@, col_idx as int);
    let mut vs: Vec<Option<bool>> = Vec::new();
    let mut row: usize = 0;
    while row < slots.len()
        invariant
            column_readable(slots@, col_idx as int),
            cells == column_cells(slots@, col_idx as int),
            row <= slots@.len(),
            vs@.len() == row as int,
            forall|i: int|
                0 <= i < row as int ==> cell_fits(LogicalType::Boolean, #[trigger] cells[i]),
            forall|i: int|
                0 <= i < row as int ==> #[trigger] vs@[i] == match cells[i] {
                    Some(NativeValue::Boolean(x)) => Some(x),
                    _ => None,
                },
        decreases slots@.len() - row,
    {
        match &slots[row].cells[col_idx] {
            None => vs.push(None),
            Some(NativeValue::Boolean(x)) => vs.push(Some(*x)),
            Some(_) => {
                proof {
                    assert(!cell_fits(LogicalType::Boolean, cells[row as int]));
                }
                return Err(ParadeError::TypeMismatch { expected: Some(LogicalType::Boolean) });
            },
        }
        row = row + 1;
    }
    Ok(vs)
}

fn collect_text(slots: &Vec<TupleSlot>, col_idx: usize) -> (res: Result<
    Vec<Option<String>>,
    ParadeError,
>)
    requires
        column_readable(slots@, col_idx as int),
    ensures
        res is Ok <==> cells_fit(LogicalType::Utf8, column_cells(slots@, col_idx as int)),
        res matches Ok(vs) ==> vs@.len() == slots@.len() && (forall|i: int|
            0 <= i < slots@.len() ==> #[trigger] vs@[i] == match column_cells(
                slots@,
                col_idx as int,
            )[i] {
                Some(NativeValue::Text(x)) => Some(x),
                _ => None,
            }),
        res matches Err(e) ==> e == (ParadeError::TypeMismatch {
            expected: Some(LogicalType::Utf8),
        }),
{
    let ghost cells = column_cells(slots@, col_idx as int);
    let mut vs: Vec<Option<String>> = Vec::new();
    let mut row: usize = 0;
    while row < slots.len()
        invariant
            column_readable(slots@, col_idx as int),
            cells == column_cells(slots@, col_idx as int),
            row <= slots@.len(),
            vs@.len() == row as int,
            forall|i: int|
                0 <= i < row as int ==> cell_fits(LogicalType::Utf8, #[trigger] cells[i]),
            forall|i: int|
                0 <= i < row as int ==> #[trigger] vs@[i] == match cells[i] {
                    Some(NativeValue::Text(x)) => Some(x),
                    _ => None,
                },
        decreases slots@.len() - row,
    {
        match &slots[row].cells[col_idx] {
            None => vs.push(None),
            Some(NativeValue::Text(x)) => vs.push(Some(x.clone())),
            Some(_) => {
                proof {
                    assert(!cell_fits(LogicalType::Utf8, cells[row as int]));
                }
                return Err(ParadeError::TypeMismatch { expected: Some(LogicalType::Utf8) });
            },
        }
        row = row + 1;
    }
    Ok(vs)
}

fn collect_i16(slots: &Vec<TupleSlot>, col_idx: usize) -> (res: Result<
    Vec<Option<i16>>,
    ParadeError,
>)
    requires
        column_readable(slots@, col_idx as int),
    ensures
        res is Ok <==> cells_fit(LogicalType::Int16, column_cells(slots@, col_idx as int)),
        res matches Ok(vs) ==> vs@.len() == slots@.len() && (forall|i: int|
            0 <= i < slots@.len() ==> #[trigger] vs@[i] == match column_cells(
                slots@,
                col_idx as int,
            )[i] {
                Some(NativeValue::Int16(x)) => Some(x),
                _ => None,
            }),
        res matches Err(e) ==> e == (ParadeError::TypeMismatch {
            expected: Some(LogicalType::Int16),
        }),
{
    let ghost cells = column_cells(slots@, col_idx as int);
    let mut vs: Vec<Option<i16>> = Vec::new();
    let mut row: usize = 0;
    while row < slots.len()
        invariant
            column_readable(slots@, col_idx as int),
            cells == column_cells(slots@, col_idx as int),
            row <= slots@.len(),
            vs@.len() == row as int,
            forall|i: int|
                0 <= i < row as int ==> cell_fits(LogicalType::Int16, #[trigger] cells[i]),
            forall|i: int|
                0 <= i < row as int ==> #[trigger] vs@[i] == match cells[i] {
                    Some(NativeValue::Int16(x)) => Some(x),
                    _ => None,
                },
        decreases slots@.len() - row,
    {
        match &slots[row].cells[col_idx] {
            None => vs.push(None),
            Some(NativeValue::Int16(x)) => vs.push(Some(*x)),
            Some(_) => {
                proof {
                    assert(!cell_fits(LogicalType::Int16, cells[row as int]));
                }
                return Err(ParadeError::TypeMismatch { expected: Some(LogicalType::Int16) });
            },
        }
        row = row + 1;
    }
    Ok(vs)
}

fn collect_i32(slots: &Vec<TupleSlot>, col_idx: usize) -> (res: Result<
    Vec<Option<i32>>,
    ParadeError,
>)
    requires
        column_readable(slots@, col_idx as int),
    ensures
        res is Ok <==> cells_fit(LogicalType::Int32, column_cells(slots@, col_idx as int)),
        res matches Ok(vs) ==> vs@.len() == slots@.len() && (forall|i: int|
            0 <= i < slots@.len() ==> #[trigger] vs@[i] == match column_cells(
                slots@,
                col_idx as int,
            )[i] {
                Some(NativeValue::Int32(x)) => Some(x),
                _ => None,
            }),
        res matches Err(e) ==> e == (ParadeError::TypeMismatch {
            expected: Some(LogicalType::Int32),
        }),
{
    let ghost cells = column_cells(slots@, col_idx as int);
    let mut vs: Vec<Option<i32>> = Vec::new();
    let mut row: usize = 0;
    while row < slots.len()
        invariant
            column_readable(slots@, col_idx as int),
            cells == column_cells(slots@, col_idx as int),
            row <= slots@.len(),
            vs@.len() == row as int,
            forall|i: int|
                0 <= i < row as int ==> cell_fits(LogicalType::Int32, #[trigger] cells[i]),
            forall|i: int|
                0 <= i < row as int ==> #[trigger] vs@[i] == match cells[i] {
                    Some(NativeValue::Int32(x)) => Some(x),
                    _ => None,
                },
        decreases slots@.len() - row,
    {
        match &slots[row].cells[col_idx] {
            None => vs.push(None),
            Some(NativeValue::Int32(x)) => vs.push(Some(*x)),
            Some(_) => {
                proof {
                    assert(!cell_fits(LogicalType::Int32, cells[row as int]));
                }
                return Err(ParadeError::TypeMismatch { expected: Some(LogicalType::Int32) });
            },
        }
        row = row + 1;
    }
    Ok(vs)
}

fn collect_i64(slots: &Vec<TupleSlot>, col_idx: usize) -> (res: Result<
    Vec<Option<i64>>,
    ParadeError,
>)
    requires
        column_readable(slots@, col_idx as int),
    ensures
        res is Ok <==> cells_fit(LogicalType::Int64, column_cells(slots@, col_idx as int)),
        res matches Ok(vs) ==> vs@.len() == slots@.len() && (forall|i: int|
            0 <= i < slots@.len() ==> #[trigger] vs@[i] == match column_cells(
                slots@,
                col_idx as int,
            )[i] {
                Some(NativeValue::Int64(x)) => Some(x),
                _ => None,
            }),
        res matches Err(e) ==> e == (ParadeError::TypeMismatch {
            expected: Some(LogicalType::Int64),
        }),
{
    let ghost cells = column_cells(slots@, col_idx as int);
    let mut vs: Vec<Option<i64>> = Vec::new();
    let mut row: usize = 0;
    while row < slots.len()
        invariant
            column_readable(slots@, col_idx as int),
            cells == column_cells(slots@, col_idx as int),
            row <= slots@.len(),
            vs@.len() == row as int,
            forall|i: int|
                0 <= i < row as int ==> cell_fits(LogicalType::Int64, #[trigger] cells[i]),
            forall|i: int|
                0 <= i < row as int ==> #[trigger] vs@[i] == match cells[i] {
                    Some(NativeValue::Int64(x)) => Some(x),
                    _ => None,
                },
        decreases slots@.len() - row,
    {
        match &slots[row].cells[col_idx] {
            None => vs.push(None),
            Some(NativeValue::Int64(x)) => vs.push(Some(*x)),
            Some(_) => {
                proof {
                    assert(!cell_fits(LogicalType::Int64, cells[row as int]));
                }
                return Err(ParadeError::TypeMismatch { expected: Some(LogicalType::Int64) });
            },
        }
        row = row + 1;
    }
    Ok(vs)
}

fn collect_u32(slots: &Vec<TupleSlot>, col_idx: usize) -> (res: Result<
    Vec<Option<u32>>,
    ParadeError,
>)
    requires
        column_readable(slots@, col_idx as int),
    ensures
        res is Ok <==> cells_fit(LogicalType::UInt32, column_cells(slots@, col_idx as int)),
        res matches Ok(vs) ==> vs@.len() == slots@.len() && (forall|i: int|
            0 <= i < slots@.len() ==> #[trigger] vs@[i] == match column_cells(
                slots@,
                col_idx as int,
            )[i] {
                Some(NativeValue::UInt32(x)) => Some(x),
                _ => None,
            }),
        res matches Err(e) ==> e == (ParadeError::TypeMismatch {
            expected: Some(LogicalType::UInt32),
        }),
{
    let ghost cells = column_cells(slots@, col_idx as int);
    let mut vs: Vec<Option<u32>> = Vec::new();
    let mut row: usize = 0;
    while row < slots.len()
        invariant
            column_readable(slots@, col_idx as int),
            cells == column_cells(slots@, col_idx as int),
            row <= slots@.len(),
            vs@.len() == row as int,
            forall|i: int|
                0 <= i < row as int ==> cell_fits(LogicalType::UInt32, #[trigger] cells[i]),
            forall|i: int|
                0 <= i < row as int ==> #[trigger] vs@[i] == match cells[i] {
                    Some(NativeValue::UInt32(x)) => Some(x),
                    _ => None,
                },
        decreases slots@.len() - row,
    {
        match &slots[row].cells[col_idx] {
            None => vs.push(None),
            Some(NativeValue::UInt32(x)) => vs.push(Some(*x)),
            Some(_) => {
                proof {
                    assert(!cell_fits(LogicalType::UInt32, cells[row as int]));
                }
                return Err(ParadeError::TypeMismatch { expected: Some(LogicalType::UInt32) });
            },
        }
        row = row + 1;
    }
    Ok(vs)
}

fn collect_f32_bits(slots: &Vec<TupleSlot>, col_idx: usize) -> (res: Result<
    Vec<Option<u32>>,
    ParadeError,
>)
    requires
        column_readable(slots@, col_idx as int),
    ensures
        res is Ok <==> cells_fit(LogicalType::Float32, column_cells(slots@, col_idx as int)),
        res matches Ok(vs) ==> vs@.len() == slots@.len() && (forall|i: int|
            0 <= i < slots@.len() ==> #[trigger] vs@[i] == match column_cells(
                slots@,
                col_idx as int,
            )[i] {
                Some(NativeValue::Float32Bits(x)) => Some(x),
                _ => None,
            }),
        res matches Err(e) ==> e == (ParadeError::TypeMismatch {
            expected: Some(LogicalType::Float32),
        }),
{
    let ghost cells = column_cells(slots@, col_idx as int);
    let mut vs: Vec<Option<u32>> = Vec::new();
    let mut row: usize = 0;
    while row < slots.len()
        invariant
            column_readable(slots@, col_idx as int),
            cells == column_cells(slots@, col_idx as int),
            row <= slots@.len(),
            vs@.len() == row as int,
            forall|i: int|
                0 <= i < row as int ==> cell_fits(LogicalType::Float32, #[trigger] cells[i]),
            forall|i: int|
                0 <= i < row as int ==> #[trigger] vs@[i] == match cells[i] {
                    Some(NativeValue::Float32Bits(x)) => Some(x),
                    _ => None,
                },
        decreases slots@.len() - row,
    {
        match &slots[row].cells[col_idx] {
            None => vs.push(None),
            Some(NativeValue::Float32Bits(x)) => vs.push(Some(*x)),
            Some(_) => {
                proof {
                    assert(!cell_fits(LogicalType::Float32, cells[row as int]));
                }
                return Err(ParadeError::TypeMismatch { expected: Some(LogicalType::Float32) });
            },
        }
        row = row + 1;
    }
    Ok(vs)
}

fn collect_f64_bits(slots: &Vec<TupleSlot>, col_idx: usize) -> (res: Result<
    Vec<Option<u64>>,
    ParadeError,
>)
    requires
        column_readable(slots@, col_idx as int),
    ensures
        res is Ok <==> cells_fit(LogicalType::Float64, column_cells(slots@, col_idx as int)),
        res matches Ok(vs) ==> vs@.len() == slots@.len() && (forall|i: int|
            0 <= i < slots@.len() ==> #[trigger] vs@[i] == match column_cells(
                slots@,
                col_idx as int,
            )[i] {
                Some(NativeValue::Float64Bits(x)) => Some(x),
                _ => None,
            }),
        res matches Err(e) ==> e == (ParadeError::TypeMismatch {
            expected: Some(LogicalType::Float64),
        }),
{
    let ghost cells = column_cells(slots@, col_idx as int);
    let mut vs: Vec<Option<u64>> = Vec::new();
    let mut row: usize = 0;
    while row < slots.len()
        invariant
            column_readable(slots@, col_idx as int),
            cells == column_cells(slots@, col_idx as int),
            row <= slots@.len(),
            vs@.len() == row as int,
            forall|i: int|
                0 <= i < row as int ==> cell_fits(LogicalType::Float64, #[trigger] cells[i]),
            forall|i: int|
                0 <= i < row as int ==> #[trigger] vs@[i] == match cells[i] {
                    Some(NativeValue::Float64Bits(x)) => Some(x),
                    _ => None,
                },
        decreases slots@.len() - row,
    {
        match &slots[row].cells[col_idx] {
            None => vs.push(None),
            Some(NativeValue::Float64Bits(x)) => vs.push(Some(*x)),
            Some(_) => {
                proof {
                    assert(!cell_fits(LogicalType::Float64, cells[row as int]));
                }
                return Err(ParadeError::TypeMismatch { expected: Some(LogicalType::Float64) });
            },
        }
        row = row + 1;
    }
    Ok(vs)
}

fn collect_date(slots: &Vec<TupleSlot>, col_idx: usize) -> (res: Result<
    Vec<Option<i32>>,
    ParadeError,
>)
    requires
        column_readable(slots@, col_idx as int),
    ensures
        res is Ok <==> cells_fit(LogicalType::Date32, column_cells(slots@, col_idx as int)),
        res matches Ok(vs) ==> vs@.len() == slots@.len() && (forall|i: int|
            0 <= i < slots@.len() ==> #[trigger] vs@[i] == match column_cells(
                slots@,
                col_idx as int,
            )[i] {
                Some(NativeValue::Date(x)) => Some(x),
                _ => None,
            }),
        res matches Err(e) ==> e == (ParadeError::TypeMismatch {
            expected: Some(LogicalType::Date32),
        }),
{
    let ghost cells = column_cells(slots@, col_idx as int);
    let mut vs: Vec<Option<i32>> = Vec::new();
    let mut row: usize = 0;
    while row < slots.len()
        invariant
            column_readable(slots@, col_idx as int),
            cells == column_cells(slots@, col_idx as int),
            row <= slots@.len(),
            vs@.len() == row as int,
            forall|i: int|
                0 <= i < row as int ==> cell_fits(LogicalType::Date32, #[trigger] cells[i]),
            forall|i: int|
                0 <= i < row as int ==> #[trigger] vs@[i] == match cells[i] {
                    Some(NativeValue::Date(x)) => Some(x),
                    _ => None,
                },
        decreases slots@.len() - row,
    {
        match &slots[row].cells[col_idx] {
            None => vs.push(None),
            Some(NativeValue::Date(x)) => vs.push(Some(*x)),
            Some(_) => {
                proof {
                    assert(!cell_fits(LogicalType::Date32, cells[row as int]));
                }
                return Err(ParadeError::TypeMismatch { expected: Some(LogicalType::Date32) });
            },
        }
        row = row + 1;
    }
    Ok(vs)
}

fn collect_timestamp(slots: &Vec<TupleSlot>, col_idx: usize) -> (res: Result<
    Vec<Option<i64>>,
    ParadeError,
>)
    requires
        column_readable(slots@, col_idx as int),
    ensures
        res is Ok <==> cells_fit(LogicalType::TimestampMicrosecond, column_cells(slots@, col_idx as int)),
        res matches Ok(vs) ==> vs@.len() == slots@.len() && (forall|i: int|
            0 <= i < slots@.len() ==> #[trigger] vs@[i] == match column_cells(
                slots@,
                col_idx as int,
            )[i] {
                Some(NativeValue::TimestampMicros(x)) => Some(x),
                _ => None,
            }),
        res matches Err(e) ==> e == (ParadeError::TypeMismatch {
            expected: Some(LogicalType::TimestampMicrosecond),
        }),
{
    let ghost cells = column_cells(slots@, col_idx as int);
    let mut vs: Vec<Option<i64>> = Vec::new();
    let mut row: usize = 0;
    while row < slots.len()
        invariant
            column_readable(slots@, col_idx as int),
            cells == column_cells(slots@, col_idx as int),
            row <= slots@.len(),
            vs@.len() == row as int,
            forall|i: int|
                0 <= i < row as int ==> cell_fits(LogicalType::TimestampMicrosecond, #[trigger] cells[i]),
            forall|i: int|
                0 <= i < row as int ==> #[trigger] vs@[i] == match cells[i] {
                    Some(NativeValue::TimestampMicros(x)) => Some(x),
                    _ => None,
                },
        decreases slots@.len() - row,
    {
        match &slots[row].cells[col_idx] {
            None => vs.push(None),
            Some(NativeValue::TimestampMicros(x)) => vs.push(Some(*x)),
            Some(_) => {
                proof {
                    assert(!cell_fits(LogicalType::TimestampMicrosecond, cells[row as int]));
                }
                return Err(ParadeError::TypeMismatch { expected: Some(LogicalType::TimestampMicrosecond) });
            },
        }
        row = row + 1;
    }
    Ok(vs)
}

fn collect_time(slots: &Vec<TupleSlot>, col_idx: usize) -> (res: Result<
    Vec<Option<i64>>,
    ParadeError,
>)
    requires
        column_readable(slots@, col_idx as int),
    ensures
        res is Ok <==> cells_fit(LogicalType::Time64Microsecond, column_cells(slots@, col_idx as int)),
        res matches Ok(vs) ==> vs@.len() == slots@.len() && (forall|i: int|
            0 <= i < slots@.len() ==> #[trigger] vs@[i] == match column_cells(
                slots@,
                col_idx as int,
            )[i] {
                Some(NativeValue::TimeMicros(x)) => Some(x),
                _ => None,
            }),
        res matches Err(e) ==> e == (ParadeError::TypeMismatch {
            expected: Some(LogicalType::Time64Microsecond),
        }),
{
    let ghost cells = column_cells(slots@, col_idx as int);
    let mut vs: Vec<Option<i64>> = Vec::new();
    let mut row: usize = 0;
    while row < slots.len()
        invariant
            column_readable(slots@, col_idx as int),
            cells == column_cells(slots@, col_idx as int),
            row <= slots@.len(),
            vs@.len() == row as int,
            forall|i: int|
                0 <= i < row as int ==> cell_fits(LogicalType::Time64Microsecond, #[trigger] cells[i]),
            forall|i: int|
                0 <= i < row as int ==> #[trigger] vs@[i] == match cells[i] {
                    Some(NativeValue::TimeMicros(x)) => Some(x),
                    _ => None,
                },
        decreases slots@.len() - row,
    {
        match &slots[row].cells[col_idx] {
            None => vs.push(None),
            Some(NativeValue::TimeMicros(x)) => vs.push(Some(*x)),
            Some(_) => {
                proof {
                    assert(!cell_fits(LogicalType::Time64Microsecond, cells[row as int]));
                }
                return Err(ParadeError::TypeMismatch { expected: Some(LogicalType::Time64Microsecond) });
            },
        }
        row = row + 1;
    }
    Ok(vs)
}

fn collect_decimal(slots: &Vec<TupleSlot>, col_idx: usize, precision: u8, scale: i8) -> (res:
    Result<Vec<Option<i128>>, ParadeError>)
    requires
        column_readable(slots@, col_idx as int),
        precision <= crate::datatype::MAX_DECIMAL_PRECISION,
        -(crate::datatype::MAX_DECIMAL_SCALE as int) <= scale as int
            <= crate::datatype::MAX_DECIMAL_SCALE as int,
    ensures
        res is Ok <==> cells_fit(
            LogicalType::Decimal128 { precision, scale },
            column_cells(slots@, col_idx as int),
        ),
        res matches Ok(vs) ==> vs@.len() == slots@.len() && (forall|i: int|
            0 <= i < slots@.len() ==> #[trigger] vs@[i] == built_decimal(
                column_cells(slots@, col_idx as int)[i],
                scale,
            )),
        res matches Err(e) ==> is_build_error(e, LogicalType::Decimal128 { precision, scale }),
{
    let ghost lt = LogicalType::Decimal128 { precision, scale };
    let ghost cells = column_cells(slots@, col_idx as int);
    let mut vs: Vec<Option<i128>> = Vec::new();
    let mut row: usize = 0;
    while row < slots.len()
        invariant
            column_readable(slots@, col_idx as int),
            precision <= crate::datatype::MAX_DECIMAL_PRECISION,
            -(crate::datatype::MAX_DECIMAL_SCALE as int) <= scale as int
                <= crate::datatype::MAX_DECIMAL_SCALE as int,
            lt == (LogicalType::Decimal128 { precision, scale }),
            cells == column_cells(slots@, col_idx as int),
            row <= slots@.len(),
            vs@.len() == row as int,
            forall|i: int| 0 <= i < row as int ==> cell_fits(lt, #[trigger] cells[i]),
            forall|i: int|
                0 <= i < row as int ==> #[trigger] vs@[i] == built_decimal(cells[i], scale),
        decreases slots@.len() - row,
    {
        match &slots[row].cells[col_idx] {
            None => vs.push(None),
            Some(NativeValue::Numeric(n)) => {
                match scale_anynumeric(n, precision, scale, RescaleDirection::ToUnscaled) {
                    Ok(r) => vs.push(Some(r.digits)),
                    Err(e) => {
                        proof {
                            assert(!cell_fits(lt, cells[row as int]));
                        }
                        return Err(e);
                    },
                }
            },
            Some(_) => {
                proof {
                    assert(!cell_fits(lt, cells[row as int]));
                }
                return Err(
                    ParadeError::TypeMismatch {
                        expected: Some(LogicalType::Decimal128 { precision, scale }),
                    },
                );
            },
        }
        row = row + 1;
    }
    Ok(vs)
}


/// The map producer: builds one columnar array per projected column from
/// a run of tuple slots, and extracts single row values back out of
/// result arrays.
pub struct DatafusionMapProducer;

impl DatafusionMapProducer {
    /// Builds one dense columnar array for the column `col_idx` of the
    /// given tuple slots, at the array type that `sql_data_type` pivots
    /// to.  Null cells become null slots at the same index; non-null
    /// cells are carried over 1:1, except decimal cells, which are
    /// rescaled into the engine's unscaled significand under the
    /// column's (precision, scale).  The output length always equals the
    /// number of slots.  Fails for a pivot outside the supported set,
    /// for a cell of the wrong native kind, and for a decimal cell the
    /// column's bounds cannot hold exactly.
    pub fn array(sql_data_type: PortableSqlType, slots: &Vec<TupleSlot>, col_idx: usize) -> (res:
        Result<ColumnarArray, ParadeError>)
        requires
            column_readable(slots@, col_idx as int),
        ensures
            portable_to_logical(sql_data_type) matches Err(e) ==> res == Err::<
                ColumnarArray,
                ParadeError,
            >(e),
            portable_to_logical(sql_data_type) matches Ok(lt) ==> (res is Ok <==> cells_fit(
                lt,
                column_cells(slots@, col_idx as int),
            )),
            portable_to_logical(sql_data_type) matches Ok(lt) ==> (res matches Ok(arr)
                ==> column_models(arr, lt, column_cells(slots@, col_idx as int))),
            portable_to_logical(sql_data_type) matches Ok(lt) ==> (res matches Err(e)
                ==> is_build_error(e, lt)),
    {
        let datafusion_type = match LogicalType::from_sql_data_type(sql_data_type) {
            Ok(t) => t,
            Err(e) => {
                return Err(e);
            },
        };
        match datafusion_type {
            LogicalType::Boolean => match collect_bool(slots, col_idx) {
                Ok(vs) => Ok(ColumnarArray::Boolean(vs)),
                Err(e) => Err(e),
            },
            LogicalType::Utf8 => match collect_text(slots, col_idx) {
                Ok(vs) => Ok(ColumnarArray::Utf8(vs)),
                Err(e) => Err(e),
            },
            LogicalType::Int16 => match collect_i16(slots, col_idx) {
                Ok(vs) => Ok(ColumnarArray::Int16(vs)),
                Err(e) => Err(e),
            },
            LogicalType::Int32 => match collect_i32(slots, col_idx) {
                Ok(vs) => Ok(ColumnarArray::Int32(vs)),
                Err(e) => Err(e),
            },
            LogicalType::Int64 => match collect_i64(slots, col_idx) {
                Ok(vs) => Ok(ColumnarArray::Int64(vs)),
                Err(e) => Err(e),
            },
            LogicalType::UInt32 => match collect_u32(slots, col_idx) {
                Ok(vs) => Ok(ColumnarArray::UInt32(vs)),
                Err(e) => Err(e),
            },
            LogicalType::Float32 => match collect_f32_bits(slots, col_idx) {
                Ok(vs) => Ok(ColumnarArray::Float32(vs)),
                Err(e) => Err(e),
            },
            LogicalType::Float64 => match collect_f64_bits(slots, col_idx) {
                Ok(vs) => Ok(ColumnarArray::Float64(vs)),
                Err(e) => Err(e),
            },
            LogicalType::Decimal128 { precision, scale } => match collect_decimal(
                slots,
                col_idx,
                precision,
                scale,
            ) {
                Ok(vs) => Ok(ColumnarArray::Decimal128 { precision, scale, values: vs }),
                Err(e) => Err(e),
            },
            LogicalType::Date32 => match collect_date(slots, col_idx) {
                Ok(vs) => Ok(ColumnarArray::Date32(vs)),
                Err(e) => Err(e),
            },
            LogicalType::TimestampMicrosecond => match collect_timestamp(slots, col_idx) {
                Ok(vs) => Ok(ColumnarArray::TimestampMicrosecond(vs)),
                Err(e) => Err(e),
            },
            LogicalType::Time64Microsecond => match collect_time(slots, col_idx) {
                Ok(vs) => Ok(ColumnarArray::Time64Microsecond(vs)),
                Err(e) => Err(e),
            },
        }
    }

    /// Extracts the row value at `index` from `array`, expected to carry
    /// the array type that `sql_data_type` pivots to.  Decimal values
    /// are rescaled from the engine's unscaled significand back to the
    /// fractional representation under the declared (precision, scale);
    /// every other type is a direct 1:1 copy.
    pub fn index_datum(sql_data_type: PortableSqlType, array: &ColumnarArray, index: usize) -> (res:
        Result<NativeValue, ParadeError>)
        ensures
            res == index_datum_spec(sql_data_type, *array, index as int),
    {
        let datafusion_type = match LogicalType::from_sql_data_type(sql_data_type) {
            Ok(t) => t,
            Err(e) => {
                return Err(e);
            },
        };
        match (datafusion_type, array) {
            (LogicalType::Time64Microsecond, _) => Err(
                ParadeError::UnsupportedLogicalType(datafusion_type),
            ),
            (LogicalType::Boolean, ColumnarArray::Boolean(vs)) => {
                if index >= vs.len() {
                    Err(ParadeError::IndexOutOfBounds { index, len: vs.len() })
                } else {
                    match &vs[index] {
                        None => Err(ParadeError::ValueNotFound { index }),
                        Some(x) => Ok(NativeValue::Boolean(*x)),
                    }
                }
            },
            (LogicalType::Utf8, ColumnarArray::Utf8(vs)) => {
                if index >= vs.len() {
                    Err(ParadeError::IndexOutOfBounds { index, len: vs.len() })
                } else {
                    match &vs[index] {
                        None => Err(ParadeError::ValueNotFound { index }),
                        Some(x) => Ok(NativeValue::Text(x.clone())),
                    }
                }
            },
            (LogicalType::Int16, ColumnarArray::Int16(vs)) => {
                if index >= vs.len() {
                    Err(ParadeError::IndexOutOfBounds { index, len: vs.len() })
                } else {
                    match &vs[index] {
                        None => Err(ParadeError::ValueNotFound { index }),
                        Some(x) => Ok(NativeValue::Int16(*x)),
                    }
                }
            },
            (LogicalType::Int32, ColumnarArray::Int32(vs)) => {
                if index >= vs.len() {
                    Err(ParadeError::IndexOutOfBounds { index, len: vs.len() })
                } else {
                    match &vs[index] {
                        None => Err(ParadeError::ValueNotFound { index }),
                        Some(x) => Ok(NativeValue::Int32(*x)),
                    }
                }
            },
            (LogicalType::Int64, ColumnarArray::Int64(vs)) => {
                if index >= vs.len() {
                    Err(ParadeError::IndexOutOfBounds { index, len: vs.len() })
                } else {
                    match &vs[index] {
                        None => Err(ParadeError::ValueNotFound { index }),
                        Some(x) => Ok(NativeValue::Int64(*x)),
                    }
                }
            },
            (LogicalType::UInt32, ColumnarArray::UInt32(vs)) => {
                if index >= vs.len() {
                    Err(ParadeError::IndexOutOfBounds { index, len: vs.len() })
                } else {
                    match &vs[index] {
                        None => Err(ParadeError::ValueNotFound { index }),
                        Some(x) => Ok(NativeValue::UInt32(*x)),
                    }
                }
            },
            (LogicalType::Float32, ColumnarArray::Float32(vs)) => {
                if index >= vs.len() {
                    Err(ParadeError::IndexOutOfBounds { index, len: vs.len() })
                } else {
                    match &vs[index] {
                        None => Err(ParadeError::ValueNotFound { index }),
                        Some(x) => Ok(NativeValue::Float32Bits(*x)),
                    }
                }
            },
            (LogicalType::Float64, ColumnarArray::Float64(vs)) => {
                if index >= vs.len() {
                    Err(ParadeError::IndexOutOfBounds { index, len: vs.len() })
                } else {
                    match &vs[index] {
                        None => Err(ParadeError::ValueNotFound { index }),
                        Some(x) => Ok(NativeValue::Float64Bits(*x)),
                    }
                }
            },
            (
                LogicalType::Decimal128 { precision, scale },
                ColumnarArray::Decimal128 { values, .. },
            ) => {
                if index >= values.len() {
                    Err(ParadeError::IndexOutOfBounds { index, len: values.len() })
                } else {
                    match &values[index] {
                        None => Err(ParadeError::ValueNotFound { index }),
                        Some(u) => {
                            let bound38 = pow10_i128(38);
                            if *u >= bound38 || *u <= -bound38 {
                                proof {
                                    vstd::arithmetic::power::lemma_pow_increases(
                                        10,
                                        precision as nat,
                                        38,
                                    );
                                }
                                Err(ParadeError::PrecisionOverflow { precision: precision as u64 })
                            } else {
                                let unscaled = NativeNumeric { digits: *u, scale: 0 };
                                proof {
                                    vstd::arithmetic::power::lemma_pow0(10);
                                    assert(scale_shift(0, scale as int, RescaleDirection::ToScaled)
                                        == 0);
                                    assert(unscaled.digits as int * pow10(0) == unscaled.digits
                                        as int);
                                }
                                match scale_anynumeric(
                                    &unscaled,
                                    precision,
                                    scale,
                                    RescaleDirection::ToScaled,
                                ) {
                                    Ok(r) => Ok(NativeValue::Numeric(r)),
                                    Err(e) => Err(e),
                                }
                            }
                        },
                    }
                }
            },
            (LogicalType::Date32, ColumnarArray::Date32(vs)) => {
                if index >= vs.len() {
                    Err(ParadeError::IndexOutOfBounds { index, len: vs.len() })
                } else {
                    match &vs[index] {
                        None => Err(ParadeError::ValueNotFound { index }),
                        Some(x) => Ok(NativeValue::Date(*x)),
                    }
                }
            },
            (LogicalType::TimestampMicrosecond, ColumnarArray::TimestampMicrosecond(vs)) => {
                if index >= vs.len() {
                    Err(ParadeError::IndexOutOfBounds { index, len: vs.len() })
                } else {
                    match &vs[index] {
                        None => Err(ParadeError::ValueNotFound { index }),
                        Some(x) => Ok(NativeValue::TimestampMicros(*x)),
                    }
                }
            },
            (_, _) => Err(ParadeError::TypeMismatch { expected: Some(datafusion_type) }),
        }
    }

    /// Extracts the value/null pair at `index`: a null slot is a `None`
    /// cell rather than a failure, so a whole row can be populated with
    /// its null flags.  Everything else behaves as `index_datum`.
    pub fn cell_datum(sql_data_type: PortableSqlType, array: &ColumnarArray, index: usize) -> (res:
        Result<Option<NativeValue>, ParadeError>)
        ensures
            res == cell_datum_spec(sql_data_type, *array, index as int),
    {
        match Self::index_datum(sql_data_type, array, index) {
            Ok(v) => Ok(Some(v)),
            Err(ParadeError::ValueNotFound { .. }) => Ok(None),
            Err(e) => Err(e),
        }
    }
}

/// What `DatafusionMapProducer::index_datum` returns, for every input.
pub open spec fn index_datum_spec(pt: PortableSqlType, arr: ColumnarArray, index: int) -> Result<
    NativeValue,
    ParadeError,
> {
    match portable_to_logical(pt) {
        Err(e) => Err(e),
        Ok(lt) => if lt is Time64Microsecond {
            Err(ParadeError::UnsupportedLogicalType(lt))
        } else if !kind_matches(arr, lt) {
            Err(ParadeError::TypeMismatch { expected: Some(lt) })
        } else if index < 0 || index >= arr.spec_len() {
            Err(
                ParadeError::IndexOutOfBounds {
                    index: index as usize,
                    len: arr.spec_len() as usize,
                },
            )
        } else if arr.spec_null_at(index) {
            Err(ParadeError::ValueNotFound { index: index as usize })
        } else {
            match (lt, arr) {
                (
                    LogicalType::Decimal128 { precision, scale },
                    ColumnarArray::Decimal128 { values, .. },
                ) => {
                    let u = values@[index].unwrap();
                    if -pow10(precision as nat) < u && u < pow10(precision as nat) {
                        Ok(NativeValue::Numeric(NativeNumeric { digits: u, scale }))
                    } else {
                        Err(ParadeError::PrecisionOverflow { precision: precision as u64 })
                    }
                },
                (_, ColumnarArray::Boolean(vs)) => Ok(NativeValue::Boolean(vs@[index].unwrap())),
                (_, ColumnarArray::Utf8(vs)) => Ok(NativeValue::Text(vs@[index].unwrap())),
                (_, ColumnarArray::Int16(vs)) => Ok(NativeValue::Int16(vs@[index].unwrap())),
                (_, ColumnarArray::Int32(vs)) => Ok(NativeValue::Int32(vs@[index].unwrap())),
                (_, ColumnarArray::Int64(vs)) => Ok(NativeValue::Int64(vs@[index].unwrap())),
                (_, ColumnarArray::UInt32(vs)) => Ok(NativeValue::UInt32(vs@[index].unwrap())),
                (_, ColumnarArray::Float32(vs)) => Ok(
                    NativeValue::Float32Bits(vs@[index].unwrap()),
                ),
                (_, ColumnarArray::Float64(vs)) => Ok(
                    NativeValue::Float64Bits(vs@[index].unwrap()),
                ),
                (_, ColumnarArray::Date32(vs)) => Ok(NativeValue::Date(vs@[index].unwrap())),
                (_, ColumnarArray::TimestampMicrosecond(vs)) => Ok(
                    NativeValue::TimestampMicros(vs@[index].unwrap()),
                ),
                (_, _) => Err(ParadeError::TypeMismatch { expected: Some(lt) }),
            }
        },
    }
}

/// What `DatafusionMapProducer::cell_datum` returns, for every input.
pub open spec fn cell_datum_spec(pt: PortableSqlType, arr: ColumnarArray, index: int) -> Result<
    Option<NativeValue>,
    ParadeError,
> {
    match index_datum_spec(pt, arr, index) {
        Ok(v) => Ok(Some(v)),
        Err(ParadeError::ValueNotFound { index: i }) => Ok(None),
        Err(e) => Err(e),
    }
}

/// Law: extraction inverts construction for scalar access.  A value put
/// into a built array comes back identically from `index_datum` at the
/// same index; a decimal value must be carried at the column's scale, as
/// its significand is stored unscaled and re-tagged with that scale on
/// the way out.
pub proof fn lemma_extract_inverts_build(
    pt: PortableSqlType,
    arr: ColumnarArray,
    cells: Seq<Option<NativeValue>>,
    i: int,
    v: NativeValue,
)
    requires
        portable_to_logical(pt) is Ok,
        !(portable_to_logical(pt).unwrap() is Time64Microsecond),
        column_models(arr, portable_to_logical(pt).unwrap(), cells),
        0 <= i < cells.len(),
        cells[i] == Some(v),
        v matches NativeValue::Numeric(n) ==> (portable_to_logical(pt).unwrap()
            matches LogicalType::Decimal128 { precision, scale } && n.scale == scale),
    ensures
        index_datum_spec(pt, arr, i) == Ok::<NativeValue, ParadeError>(v),
{
    let lt = portable_to_logical(pt).unwrap();
    assert(cell_fits(lt, cells[i]));
    match lt {
        LogicalType::Decimal128 { precision, scale } => {
            let n = match v {
                NativeValue::Numeric(n) => n,
                _ => arbitrary(),
            };
            assert(scale_ok(n, precision, scale, RescaleDirection::ToUnscaled));
            vstd::arithmetic::power::lemma_pow0(10);
            assert(scale_shift(n.scale as int, scale as int, RescaleDirection::ToUnscaled) == 0);
            assert(shifted_digits(n.digits as int, 0) == n.digits as int * pow10(0));
            assert(spec_rescaled(n, scale, RescaleDirection::ToUnscaled).digits == n.digits);
        },
        _ => (),
    }
}

/// Law: an array built from a run of rows is null exactly at the indexes
/// whose cells were null; extracting such a null slot fails with a
/// missing-value error, while extracting past the end fails with a
/// distinct out-of-bounds error.
pub proof fn lemma_null_preservation(
    pt: PortableSqlType,
    arr: ColumnarArray,
    cells: Seq<Option<NativeValue>>,
    i: int,
)
    requires
        portable_to_logical(pt) is Ok,
        !(portable_to_logical(pt).unwrap() is Time64Microsecond),
        column_models(arr, portable_to_logical(pt).unwrap(), cells),
    ensures
        forall|j: int| 0 <= j < cells.len() ==> (arr.spec_null_at(j) <==> cells[j] is None),
        0 <= i < cells.len() && cells[i] is None ==> index_datum_spec(pt, arr, i) == Err::<
            NativeValue,
            ParadeError,
        >(ParadeError::ValueNotFound { index: i as usize }),
        i >= cells.len() ==> index_datum_spec(pt, arr, i) == Err::<NativeValue, ParadeError>(
            ParadeError::IndexOutOfBounds { index: i as usize, len: cells.len() as usize },
        ),
{
    let lt = portable_to_logical(pt).unwrap();
    assert(kind_matches(arr, lt));
    assert forall|j: int| 0 <= j < cells.len() implies (arr.spec_null_at(j) <==> cells[j]
        is None) by {
        assert(cell_fits(lt, cells[j]));
    }
    if 0 <= i < cells.len() {
        assert(cell_fits(lt, cells[i]));
    }
}

} // verus!
