use pg_analytics::array::{ColumnarArray, NativeValue, TupleSlot};
use pg_analytics::datatype::{NativeColumnType, NativeTypeId};
use pg_analytics::errors::ParadeError;
use pg_analytics::executor::{
    affected_row_count, decide_hook, send_tuples_if_necessary, ColumnarBatch, ExecutorAction,
    ExecutorEvent, ExecutorInterceptor, ExecutorPhase, HookDecision, Operation, PlanDescription,
};

#[test]
fn queries_without_managed_tables_are_delegated() {
    assert_eq!(
        decide_hook(&vec![], Operation::Select),
        Ok(HookDecision::Delegate)
    );
    assert_eq!(
        decide_hook(&vec![false, false], Operation::Update),
        Ok(HookDecision::Delegate)
    );
}

#[test]
fn update_on_managed_table_fails_before_parsing() {
    // the refusal comes before any parse action is requested
    let (machine, action) = ExecutorInterceptor::begin(&vec![false, true], Operation::Update, false);
    assert_eq!(
        action,
        ExecutorAction::Fail(ParadeError::UnsupportedOperation(Operation::Update))
    );
    assert_eq!(machine.phase, ExecutorPhase::Finished);

    assert_eq!(
        decide_hook(&vec![true], Operation::Delete),
        Err(ParadeError::UnsupportedOperation(Operation::Delete))
    );
}

#[test]
fn non_select_operations_are_delegated() {
    for op in [Operation::Insert, Operation::Utility, Operation::Merge] {
        assert_eq!(decide_hook(&vec![true], op), Ok(HookDecision::Delegate));
        let (_, action) = ExecutorInterceptor::begin(&vec![true], op, false);
        assert_eq!(action, ExecutorAction::Delegate);
    }
}

#[test]
fn select_on_managed_table_is_intercepted() {
    assert_eq!(
        decide_hook(&vec![true], Operation::Select),
        Ok(HookDecision::Intercept)
    );
    let (machine, action) = ExecutorInterceptor::begin(&vec![true], Operation::Select, false);
    assert_eq!(action, ExecutorAction::Parse);
    assert_eq!(machine.phase, ExecutorPhase::AwaitingParse);
}

#[test]
fn parse_and_plan_failures_are_wrapped() {
    let (mut machine, _) = ExecutorInterceptor::begin(&vec![true], Operation::Select, false);
    let action = machine.step(ExecutorEvent::ParseOutcome(Err("bad token".to_string())));
    assert_eq!(
        action,
        ExecutorAction::Fail(ParadeError::ParseFailure("bad token".to_string()))
    );

    let (mut machine, _) = ExecutorInterceptor::begin(&vec![true], Operation::Select, false);
    machine.step(ExecutorEvent::ParseOutcome(Ok(())));
    let action = machine.step(ExecutorEvent::PlanOutcome(Err("no such table".to_string())));
    assert_eq!(
        action,
        ExecutorAction::Fail(ParadeError::PlanningFailure("no such table".to_string()))
    );

    let (mut machine, _) = ExecutorInterceptor::begin(&vec![true], Operation::Select, false);
    machine.step(ExecutorEvent::ParseOutcome(Ok(())));
    machine.step(ExecutorEvent::PlanOutcome(Ok(PlanDescription {
        is_modify_table: false,
    })));
    let action = machine.step(ExecutorEvent::ExecutionOutcome(Err("io".to_string())));
    assert_eq!(
        action,
        ExecutorAction::Fail(ParadeError::ExecutionFailure("io".to_string()))
    );
}

#[test]
fn modify_plan_count_is_recorded() {
    // a modify-table plan whose first batch holds 42 in column 0 row 0
    // hands 42 to the surrounding execution context
    let batches = vec![ColumnarBatch {
        columns: vec![ColumnarArray::UInt64(vec![Some(42)])],
    }];
    assert_eq!(affected_row_count(&batches), Ok(42));

    let (mut machine, _) = ExecutorInterceptor::begin(&vec![true], Operation::Select, false);
    machine.step(ExecutorEvent::ParseOutcome(Ok(())));
    machine.step(ExecutorEvent::PlanOutcome(Ok(PlanDescription {
        is_modify_table: true,
    })));
    let action = machine.step(ExecutorEvent::ExecutionOutcome(Ok(batches)));
    assert_eq!(action, ExecutorAction::RecordAffectedRows(42));
    assert_eq!(machine.phase, ExecutorPhase::AwaitingRecord);
}

#[test]
fn affected_row_count_needs_the_count_cell() {
    assert_eq!(
        affected_row_count(&vec![]),
        Err(ParadeError::IndexOutOfBounds { index: 0, len: 0 })
    );
    let wrong_type = vec![ColumnarBatch {
        columns: vec![ColumnarArray::Int64(vec![Some(42)])],
    }];
    assert_eq!(
        affected_row_count(&wrong_type),
        Err(ParadeError::TypeMismatch { expected: None })
    );
    let null_count = vec![ColumnarBatch {
        columns: vec![ColumnarArray::UInt64(vec![None])],
    }];
    assert_eq!(
        affected_row_count(&null_count),
        Err(ParadeError::ValueNotFound { index: 0 })
    );
}

#[test]
fn select_results_materialize_in_order() {
    let batches = vec![
        ColumnarBatch {
            columns: vec![
                ColumnarArray::Int32(vec![Some(1), None]),
                ColumnarArray::Utf8(vec![Some("a".to_string()), Some("b".to_string())]),
            ],
        },
        ColumnarBatch {
            columns: vec![
                ColumnarArray::Int32(vec![Some(3)]),
                ColumnarArray::Utf8(vec![None]),
            ],
        },
    ];
    let plan = send_tuples_if_necessary(Operation::Select, false, &batches)
        .unwrap()
        .unwrap();
    assert_eq!(plan.batches.len(), 2);

    let first = &plan.batches[0];
    assert_eq!(
        first.column_types,
        vec![
            NativeColumnType {
                id: NativeTypeId::Int4,
                type_modifier: -1,
            },
            NativeColumnType {
                id: NativeTypeId::Text,
                type_modifier: -1,
            },
        ]
    );
    assert_eq!(
        first.rows,
        vec![
            TupleSlot {
                row_id: 0,
                cells: vec![
                    Some(NativeValue::Int32(1)),
                    Some(NativeValue::Text("a".to_string())),
                ],
            },
            TupleSlot {
                row_id: 1,
                cells: vec![None, Some(NativeValue::Text("b".to_string()))],
            },
        ]
    );

    // row identifiers continue across batches
    let second = &plan.batches[1];
    assert_eq!(second.rows.len(), 1);
    assert_eq!(second.rows[0].row_id, 2);
    assert_eq!(
        second.rows[0].cells,
        vec![Some(NativeValue::Int32(3)), None]
    );
}

#[test]
fn non_returning_operations_skip_materialization() {
    let batches = vec![ColumnarBatch {
        columns: vec![ColumnarArray::UInt64(vec![Some(1)])],
    }];
    assert_eq!(
        send_tuples_if_necessary(Operation::Insert, false, &batches),
        Ok(None)
    );
    // with a RETURNING clause the batches must materialize, and the
    // count column has no row representation
    assert_eq!(
        send_tuples_if_necessary(Operation::Insert, true, &batches),
        Err(ParadeError::UnsupportedColumn { column: 0 })
    );
}

#[test]
fn full_select_run_completes_with_an_emission() {
    let (mut machine, action) = ExecutorInterceptor::begin(&vec![true], Operation::Select, false);
    assert_eq!(action, ExecutorAction::Parse);
    assert_eq!(
        machine.step(ExecutorEvent::ParseOutcome(Ok(()))),
        ExecutorAction::Plan
    );
    assert_eq!(
        machine.step(ExecutorEvent::PlanOutcome(Ok(PlanDescription {
            is_modify_table: false,
        }))),
        ExecutorAction::Execute
    );
    let batches = vec![ColumnarBatch {
        columns: vec![ColumnarArray::Boolean(vec![Some(true), None])],
    }];
    let action = machine.step(ExecutorEvent::ExecutionOutcome(Ok(batches)));
    match action {
        ExecutorAction::Complete(Some(plan)) => {
            assert_eq!(plan.batches.len(), 1);
            assert_eq!(plan.batches[0].rows.len(), 2);
        }
        other => panic!("expected completion with an emission, got {:?}", other),
    }
    assert_eq!(machine.phase, ExecutorPhase::Finished);
}
