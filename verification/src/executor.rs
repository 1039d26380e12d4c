use vstd::prelude::*;

use crate::array::{cell_datum_spec, ColumnarArray, DatafusionMapProducer, TupleSlot};
use crate::datatype::{logical_to_portable, portable_to_native, NativeColumnType, PortableSqlType};
use crate::errors::ParadeError;

verus! {

/// The operation kind of a query, as the row store classifies it.
#[derive(Clone, Copy, Debug, PartialEq, Eq, Structural)]
pub enum Operation {
    Unknown,
    Select,
    Update,
    Insert,
    Delete,
    Merge,
    Utility,
    Nothing,
}

/// One row group of query output: an ordered sequence of columnar
/// arrays, one per projected column, all of the same length.
#[derive(Debug, PartialEq, Eq)]
pub struct ColumnarBatch {
    pub columns: Vec<ColumnarArray>,
}

impl ColumnarBatch {
    /// Rows in this batch: the common length of its columns.
    pub open spec fn spec_num_rows(self) -> nat {
        if self.columns@.len() == 0 {
            0
        } else {
            self.columns@[0].spec_len()
        }
    }

    /// All columns of a batch are equally long.
    pub open spec fn wf(self) -> bool {
        forall|c: int|
            0 <= c < self.columns@.len() ==> (#[trigger] self.columns@[c]).spec_len()
                == self.spec_num_rows()
    }

    pub fn num_rows(&self) -> (res: usize)
        ensures
            res == self.spec_num_rows(),
    {
        if self.columns.len() == 0 {
            0
        } else {
            self.columns[0].len()
        }
    }

    pub fn num_columns(&self) -> (res: usize)
        ensures
            res == self.columns@.len(),
    {
        self.columns.len()
    }
}

// ---------------------------------------------------------------------------
// Eligibility and operation gate.
// ---------------------------------------------------------------------------

/// What the hook does with a query it was offered.
#[derive(Clone, Copy, Debug, PartialEq, Eq, Structural)]
pub enum HookDecision {
    /// Hand the query unchanged to the previously installed hook.
    Delegate,
    /// Take the query through the columnar path.
    Intercept,
}

/// What `decide_hook` returns: queries touching no managed relation are
/// delegated; UPDATE and DELETE on managed relations are refused before
/// anything is parsed; every other non-SELECT is delegated; SELECT is
/// intercepted.
pub open spec fn spec_decide_hook(managed: Seq<bool>, operation: Operation) -> Result<
    HookDecision,
    ParadeError,
> {
    if !managed.contains(true) {
        Ok(HookDecision::Delegate)
    } else {
        match operation {
            Operation::Update => Err(ParadeError::UnsupportedOperation(Operation::Update)),
            Operation::Delete => Err(ParadeError::UnsupportedOperation(Operation::Delete)),
            Operation::Select => Ok(HookDecision::Intercept),
            _ => Ok(HookDecision::Delegate),
        }
    }
}

/// Decides whether a query enters the columnar path.  `managed` holds,
/// for every entry of the query's range table, whether the table-kind
/// classifier reported it as a managed table.
pub fn decide_hook(managed: &Vec<bool>, operation: Operation) -> (res: Result<
    HookDecision,
    ParadeError,
>)
    ensures
        res == spec_decide_hook(managed@, operation),
{
    let mut any_managed = false;
    let mut i: usize = 0;
    while i < managed.len()
        invariant
            i <= managed@.len(),
            any_managed ==> managed@.contains(true),
            !any_managed ==> forall|j: int| 0 <= j < i as int ==> managed@[j] != true,
        decreases managed@.len() - i,
    {
        if managed[i] {
            proof {
                assert(managed@[i as int] == true);
            }
            any_managed = true;
        }
        i = i + 1;
    }
    if !any_managed {
        return Ok(HookDecision::Delegate);
    }
    match operation {
        Operation::Update => Err(ParadeError::UnsupportedOperation(Operation::Update)),
        Operation::Delete => Err(ParadeError::UnsupportedOperation(Operation::Delete)),
        Operation::Select => Ok(HookDecision::Intercept),
        _ => Ok(HookDecision::Delegate),
    }
}

// ---------------------------------------------------------------------------
// Row-count propagation for mutating plans.
// ---------------------------------------------------------------------------

/// What `affected_row_count` returns: the unsigned 64-bit value in the
/// first batch's first column, first row; a missing batch, column or row
/// is out of bounds, a column of another type is a mismatch, and a null
/// count is a missing value.
pub open spec fn spec_affected_rows(batches: Seq<ColumnarBatch>) -> Result<u64, ParadeError> {
    if batches.len() == 0 || batches[0].columns@.len() == 0 {
        Err(ParadeError::IndexOutOfBounds { index: 0, len: 0 })
    } else {
        match batches[0].columns@[0] {
            ColumnarArray::UInt64(vs) => if vs@.len() == 0 {
                Err(ParadeError::IndexOutOfBounds { index: 0, len: 0 })
            } else {
                match vs@[0] {
                    Some(v) => Ok(v),
                    None => Err(ParadeError::ValueNotFound { index: 0 }),
                }
            },
            _ => Err(ParadeError::TypeMismatch { expected: None }),
        }
    }
}

/// Reads the row count a mutating plan reports through its single result
/// cell, so the surrounding execution context can expose it as the
/// number of rows processed.
pub fn affected_row_count(batches: &Vec<ColumnarBatch>) -> (res: Result<u64, ParadeError>)
    ensures
        res == spec_affected_rows(batches@),
{
    if batches.len() == 0 {
        return Err(ParadeError::IndexOutOfBounds { index: 0, len: 0 });
    }
    let first = &batches[0];
    if first.columns.len() == 0 {
        return Err(ParadeError::IndexOutOfBounds { index: 0, len: 0 });
    }
    match &first.columns[0] {
        ColumnarArray::UInt64(vs) => {
            if vs.len() == 0 {
                Err(ParadeError::IndexOutOfBounds { index: 0, len: 0 })
            } else {
                match &vs[0] {
                    Some(v) => Ok(*v),
                    None => Err(ParadeError::ValueNotFound { index: 0 }),
                }
            }
        },
        _ => Err(ParadeError::TypeMismatch { expected: None }),
    }
}

// ---------------------------------------------------------------------------
// Batch materialization into the row protocol.
// ---------------------------------------------------------------------------

/// The declared column type the row shape descriptor must be synchronized
/// to for column `col` of a batch, derived from the array's own type:
/// columns may arrive more specific than originally declared.
pub open spec fn batch_column_type(arr: ColumnarArray, col: int) -> Result<
    NativeColumnType,
    ParadeError,
> {
    match arr.spec_data_type() {
        None => Err(ParadeError::UnsupportedColumn { column: col as usize }),
        Some(lt) => match logical_to_portable(lt) {
            Err(e) => Err(e),
            Ok(pt) => portable_to_native(pt),
        },
    }
}

/// The portable pivot under which a column's values are extracted.
pub open spec fn col_pt(arr: ColumnarArray) -> PortableSqlType {
    logical_to_portable(arr.spec_data_type().unwrap()).unwrap()
}

/// When a whole batch materializes: every column's type translates into
/// the row protocol, and every cell of every row extracts.
pub open spec fn batch_ok(b: ColumnarBatch) -> bool {
    &&& forall|c: int|
        0 <= c < b.columns@.len() ==> batch_column_type(#[trigger] b.columns@[c], c) is Ok
    &&& forall|r: int, c: int|
        0 <= r < b.spec_num_rows() && 0 <= c < b.columns@.len() ==> (#[trigger] cell_datum_spec(
            col_pt(b.columns@[c]),
            b.columns@[c],
            r,
        )) is Ok
}

/// Everything the row protocol performs for one batch, in order: first
/// the row shape descriptor is synchronized to `column_types`, then the
/// rows are handed to the destination one at a time, each torn down
/// before the next.
#[derive(Debug, PartialEq, Eq)]
pub struct BatchEmission {
    pub column_types: Vec<NativeColumnType>,
    pub rows: Vec<TupleSlot>,
}

/// The whole materialization of a query's result: after the destination
/// is started up with the operation kind, the batches are emitted in
/// order, and the destination is shut down after the last row.
#[derive(Debug, PartialEq, Eq)]
pub struct EmissionPlan {
    pub batches: Vec<BatchEmission>,
}

/// The synchronized column types of one batch.
pub open spec fn types_model(ts: Seq<NativeColumnType>, b: ColumnarBatch) -> bool {
    &&& ts.len() == b.columns@.len()
    &&& forall|c: int|
        0 <= c < b.columns@.len() ==> Ok::<NativeColumnType, ParadeError>(#[trigger] ts[c])
            == batch_column_type(b.columns@[c], c)
}

/// One emitted row: the row identifier it was assigned and, per column,
/// exactly the value/null pair the extractor produces.
pub open spec fn slot_models(slot: TupleSlot, b: ColumnarBatch, r: int, rid: int) -> bool {
    &&& slot.row_id == rid
    &&& slot.cells@.len() == b.columns@.len()
    &&& forall|c: int|
        0 <= c < b.columns@.len() ==> Ok::<Option<crate::array::NativeValue>, ParadeError>(
            #[trigger] slot.cells@[c],
        ) == cell_datum_spec(col_pt(b.columns@[c]), b.columns@[c], r)
}

/// Rows contained in the batches before batch `b`; row identifiers are
/// assigned sequentially from zero across the whole invocation.
pub open spec fn rows_before(batches: Seq<ColumnarBatch>, b: int) -> int
    decreases b,
{
    if b <= 0 {
        0
    } else {
        rows_before(batches, b - 1) + batches[b - 1].spec_num_rows()
    }
}

/// The full emission plan for a run of batches.
pub open spec fn emission_models(plan: EmissionPlan, batches: Seq<ColumnarBatch>) -> bool {
    &&& plan.batches@.len() == batches.len()
    &&& forall|b: int|
        0 <= b < batches.len() ==> types_model((#[trigger] plan.batches@[b]).column_types@, batches[b])
    &&& forall|b: int|
        0 <= b < batches.len() ==> (#[trigger] plan.batches@[b]).rows@.len()
            == batches[b].spec_num_rows()
    &&& forall|b: int, r: int|
        0 <= b < batches.len() && 0 <= r < batches[b].spec_num_rows() ==> slot_models(
            #[trigger] plan.batches@[b].rows@[r],
            batches[b],
            r,
            rows_before(batches, b) + r,
        )
}

pub proof fn lemma_rows_before_bounded(batches: Seq<ColumnarBatch>, b: int)
    requires
        0 <= b <= batches.len(),
    ensures
        rows_before(batches, b) <= rows_before(batches, batches.len() as int),
        rows_before(batches, b) >= 0,
    decreases batches.len() - b,
{
    if b < batches.len() {
        lemma_rows_before_bounded(batches, b + 1);
    }
    if b > 0 {
        lemma_rows_before_bounded_low(batches, b);
    }
}

proof fn lemma_rows_before_bounded_low(batches: Seq<ColumnarBatch>, b: int)
    requires
        0 <= b,
    ensures
        rows_before(batches, b) >= 0,
    decreases b,
{
    if b > 0 {
        lemma_rows_before_bounded_low(batches, b - 1);
    }
}

/// Resolves the declared type of one result column, and the portable
/// pivot its values are extracted under.
fn column_native_type(arr: &ColumnarArray, col: usize) -> (res: Result<
    (NativeColumnType, PortableSqlType),
    ParadeError,
>)
    ensures
        res is Ok <==> batch_column_type(*arr, col as int) is Ok,
        res matches Ok(p) ==> batch_column_type(*arr, col as int) == Ok::<
            NativeColumnType,
            ParadeError,
        >(p.0) && p.1 == col_pt(*arr),
        res matches Err(e) ==> batch_column_type(*arr, col as int) == Err::<
            NativeColumnType,
            ParadeError,
        >(e),
{
    match arr.data_type() {
        None => Err(ParadeError::UnsupportedColumn { column: col }),
        Some(lt) => match lt.to_sql_data_type() {
            Err(e) => Err(e),
            Ok(pt) => match NativeColumnType::from_sql_data_type(pt) {
                Err(e) => Err(e),
                Ok(nt) => Ok((nt, pt)),
            },
        },
    }
}

/// Materializes one batch: resolves the column types the row shape
/// descriptor is synchronized to, then populates one tuple slot per row,
/// assigning row identifiers starting at `first_row_id`.
fn emit_batch(batch: &ColumnarBatch, first_row_id: u64) -> (res: Result<BatchEmission, ParadeError>)
    requires
        batch.wf(),
        first_row_id + batch.spec_num_rows() <= u64::MAX,
    ensures
        res is Ok <==> batch_ok(*batch),
        res matches Ok(be) ==> types_model(be.column_types@, *batch) && be.rows@.len()
            == batch.spec_num_rows() && (forall|r: int|
            0 <= r < batch.spec_num_rows() ==> slot_models(
                #[trigger] be.rows@[r],
                *batch,
                r,
                first_row_id + r,
            )),
{
    let ncols = batch.num_columns();
    let mut column_types: Vec<NativeColumnType> = Vec::new();
    let mut pivots: Vec<PortableSqlType> = Vec::new();
    let mut c: usize = 0;
    while c < ncols
        invariant
            ncols == batch.columns@.len(),
            c <= ncols,
            column_types@.len() == c as int,
            pivots@.len() == c as int,
            forall|cc: int|
                0 <= cc < c as int ==> Ok::<NativeColumnType, ParadeError>(
                    #[trigger] column_types@[cc],
                ) == batch_column_type(batch.columns@[cc], cc),
            forall|cc: int|
                0 <= cc < c as int ==> #[trigger] pivots@[cc] == col_pt(batch.columns@[cc]),
        decreases ncols - c,
    {
        match column_native_type(&batch.columns[c], c) {
            Ok((nt, pt)) => {
                column_types.push(nt);
                pivots.push(pt);
            },
            Err(e) => {
                proof {
                    assert(batch_column_type(batch.columns@[c as int], c as int) is Err);
                }
                return Err(e);
            },
        }
        c = c + 1;
    }
    let nrows = batch.num_rows();
    let mut rows: Vec<TupleSlot> = Vec::new();
    let mut r: usize = 0;
    while r < nrows
        invariant
            batch.wf(),
            first_row_id + batch.spec_num_rows() <= u64::MAX,
            ncols == batch.columns@.len(),
            nrows == batch.spec_num_rows(),
            pivots@.len() == ncols as int,
            column_types@.len() == ncols as int,
            forall|cc: int|
                0 <= cc < ncols as int ==> Ok::<NativeColumnType, ParadeError>(
                    #[trigger] column_types@[cc],
                ) == batch_column_type(batch.columns@[cc], cc),
            forall|cc: int|
                0 <= cc < ncols as int ==> #[trigger] pivots@[cc] == col_pt(batch.columns@[cc]),
            r <= nrows,
            rows@.len() == r as int,
            forall|rr: int|
                0 <= rr < r as int ==> slot_models(
                    #[trigger] rows@[rr],
                    *batch,
                    rr,
                    first_row_id + rr,
                ),
        decreases nrows - r,
    {
        let mut cells: Vec<Option<crate::array::NativeValue>> = Vec::new();
        let mut cc: usize = 0;
        while cc < ncols
            invariant
                ncols == batch.columns@.len(),
                nrows == batch.spec_num_rows(),
                r < nrows,
                pivots@.len() == ncols as int,
                forall|c2: int|
                    0 <= c2 < ncols as int ==> #[trigger] pivots@[c2] == col_pt(
                        batch.columns@[c2],
                    ),
                cc <= ncols,
                cells@.len() == cc as int,
                forall|c2: int|
                    0 <= c2 < cc as int ==> Ok::<Option<crate::array::NativeValue>, ParadeError>(
                        #[trigger] cells@[c2],
                    ) == cell_datum_spec(col_pt(batch.columns@[c2]), batch.columns@[c2], r as int),
            decreases ncols - cc,
        {
            match DatafusionMapProducer::cell_datum(pivots[cc], &batch.columns[cc], r) {
                Ok(cell) => cells.push(cell),
                Err(e) => {
                    proof {
                        assert(cell_datum_spec(
                            col_pt(batch.columns@[cc as int]),
                            batch.columns@[cc as int],
                            r as int,
                        ) is Err);
                    }
                    return Err(e);
                },
            }
            cc = cc + 1;
        }
        rows.push(TupleSlot { row_id: first_row_id + r as u64, cells });
        r = r + 1;
    }
    proof {
        assert forall|c2: int| 0 <= c2 < batch.columns@.len() implies batch_column_type(
            batch.columns@[c2],
            c2,
        ) is Ok by {
            assert(Ok::<NativeColumnType, ParadeError>(column_types@[c2]) == batch_column_type(
                batch.columns@[c2],
                c2,
            ));
        }
        assert forall|r2: int, c2: int|
            0 <= r2 < batch.spec_num_rows() && 0 <= c2 < batch.columns@.len() implies (
        cell_datum_spec(col_pt(batch.columns@[c2]), batch.columns@[c2], r2)) is Ok by {
            assert(slot_models(rows@[r2], *batch, r2, first_row_id + r2));
            assert(Ok::<Option<crate::array::NativeValue>, ParadeError>(rows@[r2].cells@[c2])
                == cell_datum_spec(col_pt(batch.columns@[c2]), batch.columns@[c2], r2));
        }
    }
    Ok(BatchEmission { column_types, rows })
}

/// Builds the materialization of a query's result batches into the row
/// protocol.  Nothing is materialized unless the query is a SELECT or
/// declares that it returns values.  On success the plan carries, per
/// batch, the column types the row shape descriptor is synchronized to
/// and the populated tuple slots in row order, with row identifiers
/// assigned sequentially from zero; the destination performs startup
/// before the first batch and shutdown after the last row.  A conversion
/// failure aborts the whole materialization: no partial plan is handed
/// out.
pub fn send_tuples_if_necessary(
    operation: Operation,
    has_returning: bool,
    batches: &Vec<ColumnarBatch>,
) -> (res: Result<Option<EmissionPlan>, ParadeError>)
    requires
        forall|b: int| 0 <= b < batches@.len() ==> (#[trigger] batches@[b]).wf(),
        rows_before(batches@, batches@.len() as int) <= u64::MAX,
    ensures
        !(operation is Select || has_returning) ==> res == Ok::<Option<EmissionPlan>, ParadeError>(
            None,
        ),
        (operation is Select || has_returning) ==> ((res is Ok <==> forall|b: int|
            0 <= b < batches@.len() ==> batch_ok(#[trigger] batches@[b]))),
        res matches Ok(Some(plan)) ==> emission_models(plan, batches@) && (operation is Select
            || has_returning),
        (operation is Select || has_returning) ==> (res matches Ok(p) ==> p is Some),
{
    let send_tuples = match operation {
        Operation::Select => true,
        _ => has_returning,
    };
    if !send_tuples {
        return Ok(None);
    }
    let mut emissions: Vec<BatchEmission> = Vec::new();
    let mut next_row_id: u64 = 0;
    let mut b: usize = 0;
    proof {
        lemma_rows_before_bounded(batches@, 0);
    }
    while b < batches.len()
        invariant
            operation is Select || has_returning,
            forall|bb: int| 0 <= bb < batches@.len() ==> (#[trigger] batches@[bb]).wf(),
            rows_before(batches@, batches@.len() as int) <= u64::MAX,
            b <= batches@.len(),
            next_row_id == rows_before(batches@, b as int),
            emissions@.len() == b as int,
            forall|bb: int|
                0 <= bb < b as int ==> types_model(
                    (#[trigger] emissions@[bb]).column_types@,
                    batches@[bb],
                ),
            forall|bb: int|
                0 <= bb < b as int ==> (#[trigger] emissions@[bb]).rows@.len()
                    == batches@[bb].spec_num_rows(),
            forall|bb: int, r: int|
                0 <= bb < b as int && 0 <= r < batches@[bb].spec_num_rows() ==> slot_models(
                    #[trigger] emissions@[bb].rows@[r],
                    batches@[bb],
                    r,
                    rows_before(batches@, bb) + r,
                ),
            forall|bb: int| 0 <= bb < b as int ==> batch_ok(#[trigger] batches@[bb]),
        decreases batches@.len() - b,
    {
        proof {
            lemma_rows_before_bounded(batches@, b + 1);
        }
        let batch = &batches[b];
        let nrows = batch.num_rows();
        match emit_batch(batch, next_row_id) {
            Ok(emission) => emissions.push(emission),
            Err(e) => {
                proof {
                    assert(!batch_ok(batches@[b as int]));
                }
                return Err(e);
            },
        }
        next_row_id = next_row_id + nrows as u64;
        b = b + 1;
    }
    Ok(Some(EmissionPlan { batches: emissions }))
}

// ---------------------------------------------------------------------------
// The executor interceptor: the control flow of one query execution
// request, as a state machine.  Parsing, planning and engine execution
// are performed outside; the machine only directs them and folds their
// outcomes into the next action.  The caller blocks on each action
// before reporting its outcome, so no partial result is ever observed.
// ---------------------------------------------------------------------------

/// Where the interceptor stands within one request.
#[derive(Clone, Copy, Debug, PartialEq, Eq, Structural)]
pub enum ExecutorPhase {
    /// The SQL text is being parsed.
    AwaitingParse,
    /// The first statement is being planned.
    AwaitingPlan,
    /// The plan is executing and batches are being collected.
    AwaitingExecution,
    /// The caller is recording a mutating plan's row count; the batches
    /// are held for the materialization that follows.
    AwaitingRecord,
    /// A terminal action was issued; no further event is accepted.
    Finished,
}

/// What the planner reported of the resolved plan.
#[derive(Clone, Copy, Debug, PartialEq, Eq, Structural)]
pub struct PlanDescription {
    /// Whether the plan's root is a mutating ("modify table") node,
    /// whose row count must be propagated.
    pub is_modify_table: bool,
}

/// The outcome of the outside work the interceptor last requested.
#[derive(Debug, PartialEq, Eq)]
pub enum ExecutorEvent {
    /// The parser finished; an error carries its diagnostic.
    ParseOutcome(Result<(), String>),
    /// The planner finished.
    PlanOutcome(Result<PlanDescription, String>),
    /// The engine finished producing result batches.
    ExecutionOutcome(Result<Vec<ColumnarBatch>, String>),
    /// The caller recorded the row count it was handed.
    RowsRecorded,
}

/// The next thing the caller must do for the interceptor.
#[derive(Debug, PartialEq, Eq)]
pub enum ExecutorAction {
    /// Hand the query unchanged to the previously installed hook.
    Delegate,
    /// Parse the query's source text with the fixed dialect.
    Parse,
    /// Resolve the first parsed statement into a logical plan.
    Plan,
    /// Execute the plan and collect every result batch.
    Execute,
    /// Record this count as the number of rows the surrounding
    /// execution context processed, then report back.
    RecordAffectedRows(u64),
    /// Done: run the emission against the destination, if any, then
    /// return to the caller.
    Complete(Option<EmissionPlan>),
    /// Done: the query fails with this error.
    Fail(ParadeError),
}

/// The executor hook's interceptor for one query execution request.
#[derive(Debug, PartialEq, Eq)]
pub struct ExecutorInterceptor {
    pub phase: ExecutorPhase,
    pub operation: Operation,
    pub has_returning: bool,
    pub plan_is_modify: bool,
    pub batches: Vec<ColumnarBatch>,
}

/// The batches a machine holds can be materialized: columns of equal
/// length per batch, and a total row count the 64-bit identifiers cover.
pub open spec fn batches_fit(batches: Seq<ColumnarBatch>) -> bool {
    &&& forall|b: int| 0 <= b < batches.len() ==> (#[trigger] batches[b]).wf()
    &&& rows_before(batches, batches.len() as int) <= u64::MAX
}

impl ExecutorInterceptor {
    /// Opens a request: decides eligibility and the operation gate.
    /// Queries touching no managed relation, and non-SELECT operations
    /// other than UPDATE and DELETE, are delegated; UPDATE and DELETE
    /// fail before any parsing; a SELECT proceeds to parsing.
    pub fn begin(managed: &Vec<bool>, operation: Operation, has_returning: bool) -> (res: (
        ExecutorInterceptor,
        ExecutorAction,
    ))
        ensures
            spec_decide_hook(managed@, operation) matches Err(e) ==> res.1 == ExecutorAction::Fail(
                e,
            ) && res.0.phase is Finished,
            spec_decide_hook(managed@, operation) == Ok::<HookDecision, ParadeError>(
                HookDecision::Delegate,
            ) ==> res.1 is Delegate && res.0.phase is Finished,
            spec_decide_hook(managed@, operation) == Ok::<HookDecision, ParadeError>(
                HookDecision::Intercept,
            ) ==> res.1 is Parse && res.0.phase is AwaitingParse,
            res.0.operation == operation && res.0.has_returning == has_returning,
    {
        match decide_hook(managed, operation) {
            Err(e) => (
                ExecutorInterceptor {
                    phase: ExecutorPhase::Finished,
                    operation,
                    has_returning,
                    plan_is_modify: false,
                    batches: Vec::new(),
                },
                ExecutorAction::Fail(e),
            ),
            Ok(HookDecision::Delegate) => (
                ExecutorInterceptor {
                    phase: ExecutorPhase::Finished,
                    operation,
                    has_returning,
                    plan_is_modify: false,
                    batches: Vec::new(),
                },
                ExecutorAction::Delegate,
            ),
            Ok(HookDecision::Intercept) => (
                ExecutorInterceptor {
                    phase: ExecutorPhase::AwaitingParse,
                    operation,
                    has_returning,
                    plan_is_modify: false,
                    batches: Vec::new(),
                },
                ExecutorAction::Parse,
            ),
        }
    }

    /// Folds the outcome of the last requested work into the next
    /// action.  A failure at any step is terminal and wraps the
    /// underlying diagnostic.  On successful execution of a mutating
    /// plan the machine first hands out the row count of the first
    /// result cell, then materializes; everything else materializes at
    /// once.  Materialization runs only for a SELECT or a returning
    /// plan, and aborts whole: no partial emission is ever handed out.
    pub fn step(&mut self, event: ExecutorEvent) -> (action: ExecutorAction)
        requires
            match (old(self).phase, event) {
                (ExecutorPhase::AwaitingParse, ExecutorEvent::ParseOutcome(_)) => true,
                (ExecutorPhase::AwaitingPlan, ExecutorEvent::PlanOutcome(_)) => true,
                (ExecutorPhase::AwaitingExecution, ExecutorEvent::ExecutionOutcome(_)) => true,
                (ExecutorPhase::AwaitingRecord, ExecutorEvent::RowsRecorded) => true,
                _ => false,
            },
            event matches ExecutorEvent::ExecutionOutcome(Ok(batches)) ==> batches_fit(batches@),
            old(self).phase is AwaitingRecord ==> batches_fit(old(self).batches@),
        ensures
            final(self).operation == old(self).operation && final(self).has_returning == old(self).has_returning,
            event matches ExecutorEvent::ParseOutcome(r) ==> match r {
                Ok(_) => action is Plan && final(self).phase is AwaitingPlan,
                Err(msg) => action == ExecutorAction::Fail(ParadeError::ParseFailure(msg)) && final(self).phase is Finished,
            },
            event matches ExecutorEvent::PlanOutcome(r) ==> match r {
                Ok(desc) => action is Execute && final(self).phase is AwaitingExecution && final(self).plan_is_modify == desc.is_modify_table,
                Err(msg) => action == ExecutorAction::Fail(ParadeError::PlanningFailure(msg))
                    && final(self).phase is Finished,
            },
            event matches ExecutorEvent::ExecutionOutcome(r) ==> match r {
                Ok(batches) => {
                    if old(self).plan_is_modify {
                        match spec_affected_rows(batches@) {
                            Err(e) => action == ExecutorAction::Fail(e) && final(self).phase
                                is Finished,
                            Ok(v) => action == ExecutorAction::RecordAffectedRows(v) && final(self).phase is AwaitingRecord && final(self).batches@ == batches@ && final(self).plan_is_modify == old(self).plan_is_modify,
                        }
                    } else {
                        completion_ensures(*old(self), batches@, action) && final(self).phase
                            is Finished
                    }
                },
                Err(msg) => action == ExecutorAction::Fail(ParadeError::ExecutionFailure(msg))
                    && final(self).phase is Finished,
            },
            event is RowsRecorded ==> completion_ensures(*old(self), old(self).batches@, action)
                && final(self).phase is Finished,
    {
        match event {
            ExecutorEvent::ParseOutcome(r) => match r {
                Ok(_) => {
                    self.phase = ExecutorPhase::AwaitingPlan;
                    ExecutorAction::Plan
                },
                Err(msg) => {
                    self.phase = ExecutorPhase::Finished;
                    ExecutorAction::Fail(ParadeError::ParseFailure(msg))
                },
            },
            ExecutorEvent::PlanOutcome(r) => match r {
                Ok(desc) => {
                    self.phase = ExecutorPhase::AwaitingExecution;
                    self.plan_is_modify = desc.is_modify_table;
                    ExecutorAction::Execute
                },
                Err(msg) => {
                    self.phase = ExecutorPhase::Finished;
                    ExecutorAction::Fail(ParadeError::PlanningFailure(msg))
                },
            },
            ExecutorEvent::ExecutionOutcome(r) => match r {
                Err(msg) => {
                    self.phase = ExecutorPhase::Finished;
                    ExecutorAction::Fail(ParadeError::ExecutionFailure(msg))
                },
                Ok(batches) => {
                    if self.plan_is_modify {
                        match affected_row_count(&batches) {
                            Err(e) => {
                                self.phase = ExecutorPhase::Finished;
                                ExecutorAction::Fail(e)
                            },
                            Ok(v) => {
                                self.phase = ExecutorPhase::AwaitingRecord;
                                self.batches = batches;
                                ExecutorAction::RecordAffectedRows(v)
                            },
                        }
                    } else {
                        self.phase = ExecutorPhase::Finished;
                        match send_tuples_if_necessary(
                            self.operation,
                            self.has_returning,
                            &batches,
                        ) {
                            Ok(emission) => ExecutorAction::Complete(emission),
                            Err(e) => ExecutorAction::Fail(e),
                        }
                    }
                },
            },
            ExecutorEvent::RowsRecorded => {
                self.phase = ExecutorPhase::Finished;
                match send_tuples_if_necessary(self.operation, self.has_returning, &self.batches) {
                    Ok(emission) => ExecutorAction::Complete(emission),
                    Err(e) => ExecutorAction::Fail(e),
                }
            },
        }
    }
}

/// What a terminal materialization step yields: a failure when a SELECT
/// or returning query has a batch that does not materialize; otherwise
/// completion, with the full emission plan exactly when tuples are sent.
pub open spec fn completion_ensures(
    m: ExecutorInterceptor,
    batches: Seq<ColumnarBatch>,
    action: ExecutorAction,
) -> bool {
    let sending = m.operation is Select || m.has_returning;
    let all_ok = forall|b: int| 0 <= b < batches.len() ==> batch_ok(#[trigger] batches[b]);
    if sending && !all_ok {
        action is Fail
    } else if sending {
        action matches ExecutorAction::Complete(Some(plan)) && emission_models(plan, batches)
    } else {
        action == ExecutorAction::Complete(None::<EmissionPlan>)
    }
}

} // verus!
