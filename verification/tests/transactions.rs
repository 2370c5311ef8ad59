use sqlite_backend::error::{Attribute, CancellationReason, Item, StorageError};
use sqlite_backend::machine::Step;
use sqlite_backend::provider::SQLiteStorageProvider;
use sqlite_backend::storage_provider::transact_items_updated;
use sqlite_backend::transact_item::{
    execute_transact_condition_check, execute_transact_delete, execute_transact_put,
    execute_transact_update, ConditionalAction, ConditionalEvent, ConditionalStep,
    ConditionalWrite, UpdateAction, UpdateEvent, UpdateState,
};
use sqlite_backend::transact_write::{
    start_transact_write_items, transaction_canceled_for_indexed_reasons,
    transaction_canceled_for_item_error_with_len, transaction_canceled_for_reason,
    transaction_cancellation_reason_at, validate_item_count, TransactAction,
    TransactConditionCheckRequest, TransactDeleteRequest, TransactEvent, TransactKind,
    TransactPutRequest, TransactState, TransactStep, TransactUpdateRequest, TransactWriteItem,
};
use sqlite_backend::transaction_manager::{
    start_transaction, with_transaction, TransactionAction, TransactionEvent,
};

fn provider() -> SQLiteStorageProvider {
    SQLiteStorageProvider { immediate_gsi_consistency: true, has_snapshot_connections: false }
}

fn item(pk: &str) -> Item {
    Item {
        attributes: vec![
            Attribute { name: "pk".to_string(), value: pk.to_string() },
            Attribute { name: "note".to_string(), value: "fixture".to_string() },
        ],
    }
}

fn empty() -> TransactWriteItem {
    TransactWriteItem { put: None, update: None, delete: None, condition_check: None }
}

fn check_request(pk: &str) -> TransactConditionCheckRequest {
    TransactConditionCheckRequest {
        table_name: "tx_reason_order".to_string(),
        key: item(pk),
        condition_expression: "attribute_not_exists(pk)".to_string(),
        return_old_on_failure: false,
    }
}

fn condition_check_false(pk: &str) -> TransactWriteItem {
    TransactWriteItem { condition_check: Some(check_request(pk)), ..empty() }
}

fn put_request(pk: &str, condition: Option<&str>) -> TransactPutRequest {
    TransactPutRequest {
        table_name: "tx_reason_order".to_string(),
        item: item(pk),
        condition_expression: condition.map(|c| c.to_string()),
        return_old_on_failure: true,
        item_stream_ttl_hours: None,
    }
}

fn put_item(pk: &str) -> TransactWriteItem {
    TransactWriteItem { put: Some(put_request(pk, None)), ..empty() }
}

fn drive(
    write: ConditionalWrite,
    mut step: ConditionalStep,
    stored: Option<&str>,
    holds: bool,
) -> (Vec<ConditionalAction>, Result<(), StorageError>) {
    let mut performed = Vec::new();
    loop {
        let (state, action) = match step {
            Step::Finish(result) => return (performed, result),
            Step::Perform { state, action } => (state, action),
        };
        performed.push(action);
        let event = match action {
            ConditionalAction::LoadTable => ConditionalEvent::TableLoaded(Ok(())),
            ConditionalAction::ValidateKey => ConditionalEvent::KeyValidated(Ok(())),
            ConditionalAction::LoadOldItem => ConditionalEvent::OldItemLoaded(Ok(stored.map(item))),
            ConditionalAction::ParseCondition => ConditionalEvent::ConditionParsed(true),
            ConditionalAction::EvaluateCondition => ConditionalEvent::ConditionEvaluated(holds),
            ConditionalAction::Write => ConditionalEvent::Written(Ok(())),
        };
        step = write.resume(state, event);
    }
}

fn run_transaction(
    items: &Vec<TransactWriteItem>,
    execute: impl Fn(usize, TransactKind) -> Result<(), StorageError>,
) -> (Vec<TransactAction>, Result<(), StorageError>) {
    let mut performed = Vec::new();
    let mut step: TransactStep = start_transact_write_items(items);
    loop {
        let (state, action) = match step {
            Step::Finish(result) => return (performed, result),
            Step::Perform { state, action } => (state, action),
        };
        performed.push(action);
        let event = match action {
            TransactAction::Preflight(_) => TransactEvent::Preflighted(Ok(())),
            TransactAction::JudgePreflights => TransactEvent::Judged(Ok(())),
            TransactAction::ValidateGuard(_) => TransactEvent::Guarded(Ok(())),
            TransactAction::Execute { index, kind, .. } => {
                TransactEvent::Executed(execute(index, kind))
            }
        };
        step = provider().do_transact_write_items(items, state, event);
    }
}

fn codes(error: StorageError) -> Vec<String> {
    let StorageError::TransactionCanceled { reasons } = error else {
        panic!("expected transaction cancellation, got {error:?}");
    };
    reasons.into_iter().map(|reason| reason.code).collect()
}

fn failed_check(index: usize) -> Result<(), StorageError> {
    let request = check_request("existing");
    let (write, step) = execute_transact_condition_check(&request, index);
    drive(write, step, Some("existing"), false).1
}

#[test]
fn transact_write_collects_later_condition_failures_in_cancellation_order() {
    let items = vec![
        condition_check_false("existing-1"),
        put_item("new-middle"),
        condition_check_false("existing-2"),
    ];
    let (performed, result) = run_transaction(&items, |index, kind| match kind {
        TransactKind::ConditionCheck => failed_check(index),
        _ => Ok(()),
    });
    assert_eq!(
        codes(result.expect_err("transaction should be cancelled")),
        vec![
            "ConditionalCheckFailed".to_string(),
            "None".to_string(),
            "ConditionalCheckFailed".to_string(),
        ]
    );
    assert_eq!(
        performed,
        vec![
            TransactAction::Preflight(0),
            TransactAction::Preflight(1),
            TransactAction::Preflight(2),
            TransactAction::JudgePreflights,
            TransactAction::Execute {
                index: 0,
                kind: TransactKind::ConditionCheck,
                immediate_gsi_consistency: true,
            },
            TransactAction::Execute {
                index: 1,
                kind: TransactKind::Put,
                immediate_gsi_consistency: true,
            },
            TransactAction::Execute {
                index: 2,
                kind: TransactKind::ConditionCheck,
                immediate_gsi_consistency: true,
            },
        ]
    );
}

#[test]
fn transactions_whose_actions_all_succeed_succeed() {
    let items = vec![put_item("a"), put_item("b")];
    assert_eq!(run_transaction(&items, |_, _| Ok(())).1, Ok(()));
}

#[test]
fn other_failures_end_a_transaction_at_once() {
    let items = vec![put_item("a"), put_item("b"), put_item("c")];
    let (performed, result) = run_transaction(&items, |index, _| {
        if index == 1 {
            Err(StorageError::internal("disk"))
        } else {
            Ok(())
        }
    });
    assert_eq!(result, Err(StorageError::internal("disk")));
    assert_eq!(performed.len(), 3 + 1 + 2);
}

#[test]
fn transactions_hold_from_one_to_a_hundred_actions() {
    assert!(validate_item_count(0).is_err());
    assert_eq!(validate_item_count(1), Ok(()));
    assert_eq!(validate_item_count(100), Ok(()));
    assert!(validate_item_count(101).is_err());
    let none: Vec<TransactWriteItem> = Vec::new();
    assert!(matches!(
        start_transact_write_items(&none),
        Step::Finish(Err(StorageError::Validation { .. }))
    ));
}

#[test]
fn guarded_transactions_hold_their_guards_first() {
    let items = vec![put_item("a"), condition_check_false("b")];
    let mut performed = Vec::new();
    let mut step = provider().start_guarded_transact_write_items(&items, 2);
    let result = loop {
        let (state, action) = match step {
            Step::Finish(result) => break result,
            Step::Perform { state, action } => (state, action),
        };
        performed.push(action);
        let event = match action {
            TransactAction::ValidateGuard(_) => TransactEvent::Guarded(Ok(())),
            TransactAction::Execute { index, kind: TransactKind::ConditionCheck, .. } => {
                TransactEvent::Executed(failed_check(index))
            }
            _ => TransactEvent::Executed(Ok(())),
        };
        step = provider().do_guarded_transact_write_items(&items, 2, state, event);
    };
    assert_eq!(performed[0], TransactAction::ValidateGuard(0));
    assert_eq!(performed[1], TransactAction::ValidateGuard(1));
    assert_eq!(performed.len(), 4);
    assert_eq!(
        codes(result.expect_err("transaction should be cancelled")),
        vec!["None".to_string(), "ConditionalCheckFailed".to_string()]
    );
}

#[test]
fn a_guard_that_does_not_hold_ends_a_transaction() {
    let items = vec![put_item("a")];
    let conflict = || StorageError::GuardConflict { message: "stale".to_string() };
    let step = provider().do_guarded_transact_write_items(
        &items,
        1,
        TransactState::Guarding { next: 0 },
        TransactEvent::Guarded(Err(conflict())),
    );
    let Step::Finish(Err(e)) = step else {
        panic!("a stale guard should end the transaction");
    };
    assert_eq!(e, conflict());
}

#[test]
fn encoded_transactions_perform_their_actions() {
    let items = vec![put_item("a"), put_item("b")];
    let mut performed = 0;
    let mut step = provider().start_transact_write_items_encode(&items);
    let result = loop {
        let state = match step {
            Step::Finish(result) => break result,
            Step::Perform { state, .. } => state,
        };
        performed += 1;
        step = provider().do_transact_write_items_encode(
            &items,
            state,
            TransactEvent::Executed(Ok(())),
        );
    };
    assert_eq!(result, Ok(()));
    assert_eq!(performed, 2);
}

#[test]
fn actions_are_told_apart() {
    assert_eq!(put_item("a").kind(), Some(TransactKind::Put));
    assert_eq!(condition_check_false("a").kind(), Some(TransactKind::ConditionCheck));
    assert_eq!(empty().kind(), None);
    assert_eq!(transact_items_updated(&vec![put_item("a"), condition_check_false("b")]), 1);
}

#[test]
fn puts_write_once_their_condition_holds() {
    let request = put_request("a", Some("attribute_not_exists(pk)"));
    let (write, step) = execute_transact_put(&request, 0);
    let (performed, result) = drive(write, step, None, true);
    assert_eq!(result, Ok(()));
    assert_eq!(
        performed,
        vec![
            ConditionalAction::LoadTable,
            ConditionalAction::ValidateKey,
            ConditionalAction::LoadOldItem,
            ConditionalAction::ParseCondition,
            ConditionalAction::EvaluateCondition,
            ConditionalAction::Write,
        ]
    );
    let request = put_request("a", None);
    let (write, step) = execute_transact_put(&request, 0);
    let (performed, _) = drive(write, step, None, true);
    assert_eq!(
        performed,
        vec![
            ConditionalAction::LoadTable,
            ConditionalAction::ValidateKey,
            ConditionalAction::Write,
        ]
    );
}

#[test]
fn failed_conditions_write_nothing_and_tell_the_stored_item() {
    let request = put_request("a", Some("attribute_not_exists(pk)"));
    let (write, step) = execute_transact_put(&request, 1);
    let (performed, result) = drive(write, step, Some("a"), false);
    assert!(!performed.contains(&ConditionalAction::Write));
    let Err(StorageError::TransactionCanceled { reasons }) = result else {
        panic!("a failed condition should cancel the transaction");
    };
    assert_eq!(
        reasons,
        vec![
            CancellationReason { code: "None".to_string(), item: None },
            CancellationReason {
                code: "ConditionalCheckFailed".to_string(),
                item: Some(item("a")),
            },
        ]
    );
}

#[test]
fn condition_checks_write_nothing() {
    let request = check_request("a");
    let (write, step) = execute_transact_condition_check(&request, 0);
    let (performed, result) = drive(write, step, None, true);
    assert_eq!(result, Ok(()));
    assert!(!performed.contains(&ConditionalAction::Write));
}

#[test]
fn deletes_are_conditional_too() {
    let request = TransactDeleteRequest {
        table_name: "t".to_string(),
        key: item("a"),
        condition_expression: Some("attribute_exists(pk)".to_string()),
        return_old_on_failure: false,
        item_stream_ttl_hours: None,
    };
    let (write, step) = execute_transact_delete(&request, 0);
    let (performed, result) = drive(write, step, None, false);
    assert!(!performed.contains(&ConditionalAction::Write));
    let Err(StorageError::TransactionCanceled { reasons }) = result else {
        panic!("a failed condition should cancel the transaction");
    };
    assert_eq!(reasons[0].item, None);
}

#[test]
fn conditions_that_cannot_be_parsed_are_refused() {
    let request = check_request("a");
    let (write, _) = execute_transact_condition_check(&request, 0);
    let step = write.resume(
        sqlite_backend::transact_item::ConditionalState::ParsingCondition { old_item: None },
        ConditionalEvent::ConditionParsed(false),
    );
    let Step::Finish(Err(e)) = step else {
        panic!("a condition that cannot be parsed should be refused");
    };
    assert_eq!(e, StorageError::validation("Invalid condition expression"));
}

#[test]
fn updates_tell_the_item_on_which_their_condition_failed() {
    let request = TransactUpdateRequest {
        table_name: "t".to_string(),
        key: item("a"),
        update_expression: "SET x = :x".to_string(),
        condition_expression: Some("attribute_exists(pk)".to_string()),
        return_old_on_failure: true,
        item_stream_ttl_hours: None,
    };
    let step = execute_transact_update(
        &request,
        0,
        UpdateState::Preparing,
        UpdateEvent::Prepared(Ok(())),
    );
    let Step::Perform { state, action } = step else {
        panic!("a conditional update should load the stored item");
    };
    assert_eq!(action, UpdateAction::LoadOldItem);
    let step =
        execute_transact_update(&request, 0, state, UpdateEvent::OldItemLoaded(Ok(Some(item("a")))));
    let Step::Perform { state, action } = step else {
        panic!("the update should be applied");
    };
    assert_eq!(action, UpdateAction::Apply);
    let failed = StorageError::ConditionalCheckFailed { item: None };
    let Step::Finish(Err(StorageError::TransactionCanceled { reasons })) =
        execute_transact_update(&request, 0, state, UpdateEvent::Applied(Err(failed)))
    else {
        panic!("a failed condition should cancel the transaction");
    };
    assert_eq!(reasons[0].code, "ConditionalCheckFailed");
    assert_eq!(reasons[0].item, Some(item("a")));
}

#[test]
fn reasons_are_spread_over_all_actions() {
    let reason = || CancellationReason { code: "Other".to_string(), item: None };
    let one = transaction_canceled_for_reason(1, reason());
    assert_eq!(
        codes(transaction_canceled_for_item_error_with_len(1, 3, one)),
        vec!["None".to_string(), "Other".to_string(), "None".to_string()]
    );
    assert_eq!(
        transaction_canceled_for_item_error_with_len(1, 3, StorageError::internal("disk")),
        StorageError::internal("disk")
    );
    assert_eq!(
        transaction_cancellation_reason_at(transaction_canceled_for_reason(1, reason()), 1),
        Ok(reason())
    );
    assert!(
        transaction_cancellation_reason_at(transaction_canceled_for_reason(1, reason()), 0)
            .is_err()
    );
    assert_eq!(transaction_canceled_for_indexed_reasons(vec![None, None]), None);
    let canceled = transaction_canceled_for_indexed_reasons(vec![None, Some(reason())]).unwrap();
    assert_eq!(codes(canceled), vec!["None".to_string(), "Other".to_string()]);
}

fn transaction(
    operated: Result<u32, StorageError>,
    committed: Result<(), StorageError>,
) -> (Vec<TransactionAction>, Result<u32, StorageError>) {
    let mut operated = Some(operated);
    let mut committed = Some(committed);
    let mut performed = Vec::new();
    let mut step = start_transaction::<u32>();
    loop {
        let (state, action) = match step {
            Step::Finish(result) => return (performed, result),
            Step::Perform { state, action } => (state, action),
        };
        performed.push(action);
        let event = match action {
            TransactionAction::Begin => TransactionEvent::Began(Ok(())),
            TransactionAction::Operate => TransactionEvent::Operated(operated.take().unwrap()),
            TransactionAction::Commit => TransactionEvent::Committed(committed.take().unwrap()),
            TransactionAction::Rollback => TransactionEvent::RolledBack(Ok(())),
        };
        step = with_transaction(state, event);
    }
}

#[test]
fn transactions_commit_what_succeeds() {
    let (performed, result) = transaction(Ok(3), Ok(()));
    assert_eq!(result, Ok(3));
    assert_eq!(
        performed,
        vec![TransactionAction::Begin, TransactionAction::Operate, TransactionAction::Commit]
    );
}

#[test]
fn transactions_roll_back_what_fails() {
    let (performed, result) = transaction(Err(StorageError::internal("no")), Ok(()));
    assert_eq!(result, Err(StorageError::internal("no")));
    assert_eq!(
        performed,
        vec![TransactionAction::Begin, TransactionAction::Operate, TransactionAction::Rollback]
    );
}

#[test]
fn transactions_that_cannot_commit_fail() {
    let (performed, result) = transaction(Ok(3), Err(StorageError::internal("full")));
    assert!(result.is_err());
    assert_eq!(performed[2], TransactionAction::Commit);
}
