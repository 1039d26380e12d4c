use vstd::prelude::*;

use crate::datatype::{LogicalType, NativeTypeId, PortableSqlType};
use crate::executor::Operation;

verus! {

/// Structured failures of the bridge.  Every error carries the offending
/// type, bound or operation so that a query failure can be diagnosed
/// without re-running it.  None of these is recoverable for the current
/// query; pass-through to the previous executor hook is a deliberate
/// delegation, not an error.
#[derive(Clone, Debug, PartialEq, Eq)]
pub enum ParadeError {
    /// A columnar logical type outside the supported enumeration.
    UnsupportedLogicalType(LogicalType),
    /// A portable SQL type outside the supported enumeration.
    UnsupportedPortableType(PortableSqlType),
    /// A row-store column type outside the supported enumeration.
    UnsupportedNativeType(NativeTypeId),
    /// A result column whose array type has no logical-type description
    /// (such as the unsigned 64-bit row-count column of a mutating plan).
    UnsupportedColumn { column: usize },
    /// A decimal precision beyond what the engine's 128-bit decimals hold,
    /// or a decimal value whose magnitude exceeds the declared precision.
    PrecisionOverflow { precision: u64 },
    /// A decimal scale beyond the supported range, or a value with
    /// fractional digits that the target scale cannot represent exactly.
    ScaleOverflow { scale: i64 },
    /// UPDATE or DELETE routed through the columnar path.
    UnsupportedOperation(Operation),
    /// The SQL text could not be parsed; wraps the parser's diagnostic.
    ParseFailure(String),
    /// The statement could not be resolved into a logical plan.
    PlanningFailure(String),
    /// The columnar engine failed while producing result batches.
    ExecutionFailure(String),
    /// An array's runtime type disagrees with the expected logical type.
    /// `expected` is `None` when no logical type was expected at all.
    TypeMismatch { expected: Option<LogicalType> },
    /// Extraction hit a null slot: no native value exists at this index.
    ValueNotFound { index: usize },
    /// Extraction was asked for an index past the end of the array.
    IndexOutOfBounds { index: usize, len: usize },
}

} // verus!
