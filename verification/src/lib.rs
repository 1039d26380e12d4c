//! Verified core of a bridge that lets a row-oriented relational executor
//! delegate query execution to an embedded columnar engine.
//!
//! The crate models the three type systems involved (the row store's
//! oid/type-modifier pairs, a portable SQL pivot type, and the columnar
//! engine's logical array types), the decimal rescaling that moves values
//! between the row store's fractional representation and the engine's
//! unscaled 128-bit significands, the construction of dense null-aware
//! columnar arrays from tuple slots and the extraction of row values back
//! out of them, and the control flow of the executor hook that decides
//! which queries are intercepted and how result batches are materialized
//! into the row protocol.
//!
//! Parsing, planning and plan execution are external collaborators: the
//! executor state machine only directs them and checks their outcomes.

pub mod array;
pub mod datatype;
pub mod errors;
pub mod executor;
pub mod numeric;
