//! One action of a transaction.
use crate::error::{tells_validation, Item, StorageError};
use crate::machine::Step;
use crate::transact_write::{
    canceled_for_one, condition_failed, conditional_check_failed_reason,
    transaction_canceled_for_reason, TransactConditionCheckRequest, TransactDeleteRequest,
    TransactPutRequest, TransactUpdateRequest,
};
use vstd::prelude::*;

verus! {

/// What is asked of an action that writes an item under a condition, or only holds the
/// item against one.
#[derive(Clone, Copy, Debug, PartialEq, Eq, Structural)]
pub struct ConditionalWrite {
    /// The place of the action in its transaction.
    pub index: usize,
    /// Whether the action writes.
    pub writes: bool,
    /// Whether the write has a condition.
    pub has_condition: bool,
    /// Whether the stored item is to be returned where the condition does not hold.
    pub return_old_on_failure: bool,
}

/// What a conditional write needs done.
#[derive(Clone, Copy, Debug, PartialEq, Eq, Structural)]
pub enum ConditionalAction {
    /// Read what is known of the table.
    LoadTable,
    /// Hold the key of the action against the table's key schema.
    ValidateKey,
    /// Read the stored item.
    LoadOldItem,
    /// Parse the condition.
    ParseCondition,
    /// Hold the stored item, or an empty one where there is none, against the condition.
    EvaluateCondition,
    /// Write the item, without a condition.
    Write,
}

/// How far a conditional write has come.
pub enum ConditionalState {
    LoadingTable,
    ValidatingKey,
    LoadingOldItem,
    ParsingCondition { old_item: Option<Item> },
    EvaluatingCondition { old_item: Option<Item> },
    Writing,
}

/// What came of an action.
pub enum ConditionalEvent {
    TableLoaded(Result<(), StorageError>),
    KeyValidated(Result<(), StorageError>),
    OldItemLoaded(Result<Option<Item>, StorageError>),
    ConditionParsed(bool),
    ConditionEvaluated(bool),
    Written(Result<(), StorageError>),
}

/// What a conditional write does next.
pub type ConditionalStep = Step<ConditionalState, ConditionalAction, Result<(), StorageError>>;

impl ConditionalState {
    /// Whether the state waits for an event.
    pub open spec fn awaits(self, event: ConditionalEvent) -> bool {
        match self {
            ConditionalState::LoadingTable => event is TableLoaded,
            ConditionalState::ValidatingKey => event is KeyValidated,
            ConditionalState::LoadingOldItem => event is OldItemLoaded,
            ConditionalState::ParsingCondition { .. } => event is ConditionParsed,
            ConditionalState::EvaluatingCondition { .. } => event is ConditionEvaluated,
            ConditionalState::Writing => event is Written,
        }
    }
}

/// Whether an error cancels the transaction of an action because its condition did not
/// hold of the stored item.
pub open spec fn canceled_by_condition(
    index: usize,
    return_old_on_failure: bool,
    old_item: Option<Item>,
    error: StorageError,
) -> bool {
    &&& error matches StorageError::TransactionCanceled { reasons }
    &&& canceled_for_one(index as int, index + 1, reasons@[index as int], error)
    &&& condition_failed(
        reasons@[index as int],
        if return_old_on_failure {
            old_item
        } else {
            None
        },
    )
}

fn cancel_by_condition(index: usize, return_old_on_failure: bool, old_item: Option<Item>) -> (r:
    StorageError)
    requires
        index < usize::MAX,
    ensures
        canceled_by_condition(index, return_old_on_failure, old_item, r),
{
    let item = if return_old_on_failure {
        old_item
    } else {
        None
    };
    transaction_canceled_for_reason(index, conditional_check_failed_reason(item))
}

/// How a conditional write goes on after an event: the table and the key come first;
/// where there is a condition, the stored item is read, the condition is parsed, and
/// the item held against it; the write comes last.
pub open spec fn conditional_next(
    write: ConditionalWrite,
    state: ConditionalState,
    event: ConditionalEvent,
    step: ConditionalStep,
) -> bool {
    match (state, event) {
        (_, ConditionalEvent::TableLoaded(Ok(_))) => step matches Step::Perform {
            state: ConditionalState::ValidatingKey,
            action: ConditionalAction::ValidateKey,
        },
        (_, ConditionalEvent::TableLoaded(Err(e))) => step matches Step::Finish(Err(out)) && out == e,
        (_, ConditionalEvent::KeyValidated(Ok(_))) => if write.has_condition {
            step matches Step::Perform {
                state: ConditionalState::LoadingOldItem,
                action: ConditionalAction::LoadOldItem,
            }
        } else {
            step matches Step::Perform {
                state: ConditionalState::Writing,
                action: ConditionalAction::Write,
            }
        },
        (_, ConditionalEvent::KeyValidated(Err(e))) => step matches Step::Finish(Err(out)) && out == e,
        (_, ConditionalEvent::OldItemLoaded(Ok(found))) => step matches Step::Perform {
            state: ConditionalState::ParsingCondition { old_item },
            action: ConditionalAction::ParseCondition,
        } && old_item == found,
        (_, ConditionalEvent::OldItemLoaded(Err(e))) => step matches Step::Finish(Err(out)) && out == e,
        (
            ConditionalState::ParsingCondition { old_item: found },
            ConditionalEvent::ConditionParsed(parsed),
        ) => if parsed {
            step matches Step::Perform {
                state: ConditionalState::EvaluatingCondition { old_item },
                action: ConditionalAction::EvaluateCondition,
            } && old_item == found
        } else {
            step matches Step::Finish(Err(e)) && e.is_validation("Invalid condition expression"@)
        },
        (
            ConditionalState::EvaluatingCondition { old_item },
            ConditionalEvent::ConditionEvaluated(holds),
        ) => if !holds {
            step matches Step::Finish(Err(e)) && canceled_by_condition(
                write.index,
                write.return_old_on_failure,
                old_item,
                e,
            )
        } else if write.writes {
            step matches Step::Perform {
                state: ConditionalState::Writing,
                action: ConditionalAction::Write,
            }
        } else {
            step matches Step::Finish(Ok(_))
        },
        (_, ConditionalEvent::Written(result)) => step matches Step::Finish(out) && out == result,
        _ => false,
    }
}

impl ConditionalWrite {
    /// What is asked of an action that only checks has a condition.
    pub open spec fn wf(self) -> bool {
        &&& self.index < usize::MAX
        &&& !self.writes ==> self.has_condition
    }

    /// Goes on after an event.
    pub fn resume(self, state: ConditionalState, event: ConditionalEvent) -> (r: ConditionalStep)
        requires
            self.wf(),
            state.awaits(event),
        ensures
            conditional_next(self, state, event, r),
    {
        match (state, event) {
            (_, ConditionalEvent::TableLoaded(Ok(()))) => Step::Perform {
                state: ConditionalState::ValidatingKey,
                action: ConditionalAction::ValidateKey,
            },
            (_, ConditionalEvent::TableLoaded(Err(e))) => Step::Finish(Err(e)),
            (_, ConditionalEvent::KeyValidated(Ok(()))) => if self.has_condition {
                Step::Perform {
                    state: ConditionalState::LoadingOldItem,
                    action: ConditionalAction::LoadOldItem,
                }
            } else {
                Step::Perform {
                    state: ConditionalState::Writing,
                    action: ConditionalAction::Write,
                }
            },
            (_, ConditionalEvent::KeyValidated(Err(e))) => Step::Finish(Err(e)),
            (_, ConditionalEvent::OldItemLoaded(Ok(old_item))) => Step::Perform {
                state: ConditionalState::ParsingCondition { old_item },
                action: ConditionalAction::ParseCondition,
            },
            (_, ConditionalEvent::OldItemLoaded(Err(e))) => Step::Finish(Err(e)),
            (
                ConditionalState::ParsingCondition { old_item },
                ConditionalEvent::ConditionParsed(parsed),
            ) => if parsed {
                Step::Perform {
                    state: ConditionalState::EvaluatingCondition { old_item },
                    action: ConditionalAction::EvaluateCondition,
                }
            } else {
                Step::Finish(Err(StorageError::validation("Invalid condition expression")))
            },
            (
                ConditionalState::EvaluatingCondition { old_item },
                ConditionalEvent::ConditionEvaluated(holds),
            ) => if !holds {
                Step::Finish(
                    Err(cancel_by_condition(self.index, self.return_old_on_failure, old_item)),
                )
            } else if self.writes {
                Step::Perform {
                    state: ConditionalState::Writing,
                    action: ConditionalAction::Write,
                }
            } else {
                Step::Finish(Ok(()))
            },
            (_, ConditionalEvent::Written(result)) => Step::Finish(result),
            (_, _) => {
                assert(false);
                Step::Finish(Ok(()))
            },
        }
    }
}

/// Whether an action starts by reading its table.
pub open spec fn starts_with_table(
    started: (ConditionalWrite, ConditionalStep),
    expected: ConditionalWrite,
) -> bool {
    started.0 == expected && (started.1 matches Step::Perform {
        state: ConditionalState::LoadingTable,
        action: ConditionalAction::LoadTable,
    })
}

fn start(write: ConditionalWrite) -> (r: (ConditionalWrite, ConditionalStep))
    ensures
        starts_with_table(r, write),
{
    (
        write,
        Step::Perform {
            state: ConditionalState::LoadingTable,
            action: ConditionalAction::LoadTable,
        },
    )
}

/// Starts to store an item, or an encoded item.
pub fn execute_transact_put(request: &TransactPutRequest, index: usize) -> (r: (
    ConditionalWrite,
    ConditionalStep,
))
    ensures
        starts_with_table(
            r,
            (ConditionalWrite {
                index,
                writes: true,
                has_condition: request.condition_expression is Some,
                return_old_on_failure: request.return_old_on_failure,
            }),
        ),
{
    start(
        ConditionalWrite {
            index,
            writes: true,
            has_condition: request.condition_expression.is_some(),
            return_old_on_failure: request.return_old_on_failure,
        },
    )
}

/// Starts to remove an item, whose key must be given.
pub fn execute_transact_delete(request: &TransactDeleteRequest, index: usize) -> (r: (
    ConditionalWrite,
    ConditionalStep,
))
    ensures
        if request.key.spec_is_empty() {
            r.1 matches Step::Finish(Err(e)) && e.is_validation(
                "Delete request must specify a key"@,
            )
        } else {
            starts_with_table(
                r,
                (ConditionalWrite {
                    index,
                    writes: true,
                    has_condition: request.condition_expression is Some,
                    return_old_on_failure: request.return_old_on_failure,
                }),
            )
        },
{
    let write = ConditionalWrite {
        index,
        writes: true,
        has_condition: request.condition_expression.is_some(),
        return_old_on_failure: request.return_old_on_failure,
    };
    if request.key.is_empty() {
        return (
            write,
            Step::Finish(Err(StorageError::validation("Delete request must specify a key"))),
        );
    }
    start(write)
}

/// Starts to hold an item against a condition.
pub fn execute_transact_condition_check(request: &TransactConditionCheckRequest, index: usize) -> (r:
    (ConditionalWrite, ConditionalStep))
    ensures
        starts_with_table(
            r,
            (ConditionalWrite {
                index,
                writes: false,
                has_condition: true,
                return_old_on_failure: request.return_old_on_failure,
            }),
        ),
{
    start(
        ConditionalWrite {
            index,
            writes: false,
            has_condition: true,
            return_old_on_failure: request.return_old_on_failure,
        },
    )
}

/// What an update needs done.
#[derive(Clone, Copy, Debug, PartialEq, Eq, Structural)]
pub enum UpdateAction {
    /// Parse the update and its condition.
    Prepare,
    /// Read the stored item.
    LoadOldItem,
    /// Change the item, under the condition.
    Apply,
}

/// How far an update has come.
pub enum UpdateState {
    Preparing,
    LoadingOldItem,
    Applying { old_item: Option<Item> },
}

/// What came of an action.
pub enum UpdateEvent {
    Prepared(Result<(), StorageError>),
    OldItemLoaded(Result<Option<Item>, StorageError>),
    Applied(Result<(), StorageError>),
}

/// What an update does next.
pub type UpdateStep = Step<UpdateState, UpdateAction, Result<(), StorageError>>;

impl UpdateState {
    /// Whether the state waits for an event.
    pub open spec fn awaits(self, event: UpdateEvent) -> bool {
        match self {
            UpdateState::Preparing => event is Prepared,
            UpdateState::LoadingOldItem => event is OldItemLoaded,
            UpdateState::Applying { .. } => event is Applied,
        }
    }
}

/// How an update goes on after an event: the stored item is read only where there is a
/// condition, and an update that fails its condition cancels the transaction.
pub open spec fn update_next(
    request: TransactUpdateRequest,
    index: usize,
    state: UpdateState,
    event: UpdateEvent,
    step: UpdateStep,
) -> bool {
    match (state, event) {
        (_, UpdateEvent::Prepared(Ok(_))) => if request.condition_expression is Some {
            step matches Step::Perform {
                state: UpdateState::LoadingOldItem,
                action: UpdateAction::LoadOldItem,
            }
        } else {
            step matches Step::Perform {
                state: UpdateState::Applying { old_item: None },
                action: UpdateAction::Apply,
            }
        },
        (_, UpdateEvent::Prepared(Err(e))) => step matches Step::Finish(Err(out)) && out == e,
        (_, UpdateEvent::OldItemLoaded(Ok(found))) => step matches Step::Perform {
            state: UpdateState::Applying { old_item },
            action: UpdateAction::Apply,
        } && old_item == found,
        (_, UpdateEvent::OldItemLoaded(Err(e))) => step matches Step::Finish(Err(out)) && out == e,
        (
            UpdateState::Applying { old_item },
            UpdateEvent::Applied(Err(StorageError::ConditionalCheckFailed { .. })),
        ) => step matches Step::Finish(Err(e)) && canceled_by_condition(
            index,
            request.return_old_on_failure,
            old_item,
            e,
        ),
        (_, UpdateEvent::Applied(result)) => step matches Step::Finish(out) && out == result,
    }
}

/// Changes an item. The first action is to prepare the update.
pub fn execute_transact_update(
    request: &TransactUpdateRequest,
    index: usize,
    state: UpdateState,
    event: UpdateEvent,
) -> (r: UpdateStep)
    requires
        index < usize::MAX,
        state.awaits(event),
    ensures
        update_next(*request, index, state, event, r),
{
    match (state, event) {
        (_, UpdateEvent::Prepared(Ok(()))) => if request.condition_expression.is_some() {
            Step::Perform {
                state: UpdateState::LoadingOldItem,
                action: UpdateAction::LoadOldItem,
            }
        } else {
            Step::Perform {
                state: UpdateState::Applying { old_item: None },
                action: UpdateAction::Apply,
            }
        },
        (_, UpdateEvent::Prepared(Err(e))) => Step::Finish(Err(e)),
        (_, UpdateEvent::OldItemLoaded(Ok(old_item))) => Step::Perform {
            state: UpdateState::Applying { old_item },
            action: UpdateAction::Apply,
        },
        (_, UpdateEvent::OldItemLoaded(Err(e))) => Step::Finish(Err(e)),
        (
            UpdateState::Applying { old_item },
            UpdateEvent::Applied(Err(StorageError::ConditionalCheckFailed { .. })),
        ) => Step::Finish(
            Err(cancel_by_condition(index, request.return_old_on_failure, old_item)),
        ),
        (_, UpdateEvent::Applied(result)) => Step::Finish(result),
    }
}

/// An action with a condition is written only once the condition was found to hold.
pub proof fn law_write_follows_condition(
    write: ConditionalWrite,
    state: ConditionalState,
    event: ConditionalEvent,
    step: ConditionalStep,
)
    requires
        write.wf(),
        state.awaits(event),
        conditional_next(write, state, event, step),
        step matches Step::Perform { action, .. } && action == ConditionalAction::Write,
    ensures
        write.writes,
        write.has_condition ==> event == ConditionalEvent::ConditionEvaluated(true),
{
}

/// Whether an error cancels a transaction for the action at an index alone: there is a
/// reason for each action up to it, and only the last of them says something, that the
/// condition did not hold of the item that is returned.
pub open spec fn refuses_condition(
    index: usize,
    returned: Option<Item>,
    error: StorageError,
) -> bool {
    error matches StorageError::TransactionCanceled { reasons } && reasons@.len() == index + 1
        && reasons@[index as int].code@ == "ConditionalCheckFailed"@ && reasons@[index as int].item
        == returned && forall|i: int|
        0 <= i < index ==> (#[trigger] reasons@[i]).code@ == "None"@ && reasons@[i].item is None
}

/// Whether steps are those of an update from its start, each from the one before and an
/// event.
pub open spec fn update_run(
    request: TransactUpdateRequest,
    index: usize,
    events: Seq<UpdateEvent>,
    steps: Seq<UpdateStep>,
) -> bool {
    &&& steps.len() == events.len() + 1
    &&& steps[0] == (Step::<UpdateState, UpdateAction, Result<(), StorageError>>::Perform {
        state: UpdateState::Preparing,
        action: UpdateAction::Prepare,
    })
    &&& forall|k: int|
        0 <= k < events.len() ==> {
            &&& (#[trigger] steps[k]) is Perform
            &&& steps[k]->state.awaits(events[k])
            &&& call_ensures(
                execute_transact_update,
                (&request, index, steps[k]->state, events[k]),
                steps[k + 1],
            )
        }
}

/// The number of steps that ask for an update to be applied.
pub open spec fn applications(steps: Seq<UpdateStep>) -> nat
    decreases steps.len(),
{
    if steps.len() == 0 {
        0
    } else {
        applications(steps.drop_last()) + (if steps.last() matches Step::Perform { action, .. }
            && action == UpdateAction::Apply {
            1nat
        } else {
            0nat
        })
    }
}

/// An update of a transaction that succeeds was applied exactly once, with or without a
/// condition, and applying it had succeeded. One without a condition is applied as soon as
/// it is prepared; one with a condition is applied once the stored item was read.
pub proof fn law_updates_succeed_once_applied(
    request: TransactUpdateRequest,
    index: usize,
    events: Seq<UpdateEvent>,
    steps: Seq<UpdateStep>,
)
    requires
        update_run(request, index, events, steps),
        steps.last() is Finish,
    ensures
        steps.last()->Finish_0 is Ok ==> {
            &&& applications(steps) == 1
            &&& events.len() == (if request.condition_expression is Some {
                3int
            } else {
                2int
            })
            &&& steps[events.len() - 1]->action == UpdateAction::Apply
            &&& events.last() matches UpdateEvent::Applied(Ok(_))
            &&& request.condition_expression is Some ==> steps[1]->action
                == UpdateAction::LoadOldItem && events[1]->OldItemLoaded_0 is Ok
        },
        events.len() > 1 ==> events[0]->Prepared_0 is Ok,
        events[0]->Prepared_0 is Ok && request.condition_expression is None
            ==> (steps[1] matches Step::Perform { action, .. } && action == UpdateAction::Apply),
{
    reveal_with_fuel(applications, 5);
    assert(steps[0] is Perform);
    assert(events.len() > 0);
    assert(update_next(request, index, steps[0]->state, events[0], steps[1]));
    if events.len() > 1 {
        assert(steps[1] is Perform);
        assert(update_next(request, index, steps[1]->state, events[1], steps[2]));
        if events.len() > 2 {
            assert(steps[2] is Perform);
            assert(update_next(request, index, steps[2]->state, events[2], steps[3]));
            if events.len() > 3 {
                assert(steps[3] is Perform);
            }
            assert(steps.drop_last().drop_last().drop_last().drop_last() =~= Seq::empty());
        } else {
            assert(steps.drop_last().drop_last().drop_last() =~= Seq::empty());
        }
    } else {
        assert(steps.drop_last().drop_last() =~= Seq::empty());
    }
}

/// An update of a transaction that fails tells the first failure: that of preparing it, of
/// reading the item, or of applying it. A condition that does not hold cancels the
/// transaction, and tells the item that was read where it was asked for.
pub proof fn law_updates_tell_their_failure(
    request: TransactUpdateRequest,
    index: usize,
    events: Seq<UpdateEvent>,
    steps: Seq<UpdateStep>,
)
    requires
        update_run(request, index, events, steps),
        steps.last() matches Step::Finish(Err(_)),
    ensures
        ({
            let error = steps.last()->Finish_0->Err_0;
            match events.last() {
                UpdateEvent::Prepared(result) => result == Err::<(), StorageError>(error),
                UpdateEvent::OldItemLoaded(result) => result == Err::<Option<Item>, StorageError>(
                    error,
                ),
                UpdateEvent::Applied(Err(StorageError::ConditionalCheckFailed { .. })) => {
                    refuses_condition(
                        index,
                        if request.return_old_on_failure && request.condition_expression is Some {
                            events[1]->OldItemLoaded_0->Ok_0
                        } else {
                            None
                        },
                        error,
                    )
                },
                UpdateEvent::Applied(result) => result == Err::<(), StorageError>(error),
            }
        }),
{
    assert(steps[0] is Perform);
    assert(events.len() > 0);
    assert(update_next(request, index, steps[0]->state, events[0], steps[1]));
    if events.len() > 1 {
        assert(steps[1] is Perform);
        assert(update_next(request, index, steps[1]->state, events[1], steps[2]));
        if events.len() > 2 {
            assert(steps[2] is Perform);
            assert(update_next(request, index, steps[2]->state, events[2], steps[3]));
            if events.len() > 3 {
                assert(steps[3] is Perform);
            }
        }
    }
}

/// Whether steps are those of a conditional write, each from the one before and an event.
pub open spec fn conditional_run(
    write: ConditionalWrite,
    events: Seq<ConditionalEvent>,
    steps: Seq<ConditionalStep>,
) -> bool {
    &&& steps.len() == events.len() + 1
    &&& steps[0] == (Step::<
        ConditionalState,
        ConditionalAction,
        Result<(), StorageError>,
    >::Perform { state: ConditionalState::LoadingTable, action: ConditionalAction::LoadTable })
    &&& forall|k: int|
        0 <= k < events.len() ==> {
            &&& (#[trigger] steps[k]) is Perform
            &&& steps[k]->state.awaits(events[k])
            &&& call_ensures(
                ConditionalWrite::resume,
                (write, steps[k]->state, events[k]),
                steps[k + 1],
            )
        }
}

/// The actions of a write of a transaction that succeeds: the table and the key are judged,
/// then the condition is held against the stored item where there is one, then the item is
/// written. A check holds the condition against the item, and writes nothing.
pub open spec fn conditional_actions(writes: bool, has_condition: bool) -> Seq<ConditionalAction> {
    seq![ConditionalAction::LoadTable, ConditionalAction::ValidateKey] + (if has_condition {
        seq![
            ConditionalAction::LoadOldItem,
            ConditionalAction::ParseCondition,
            ConditionalAction::EvaluateCondition,
        ]
    } else {
        Seq::empty()
    }) + (if writes {
        seq![ConditionalAction::Write]
    } else {
        Seq::empty()
    })
}

proof fn lemma_conditional_run(
    write: ConditionalWrite,
    events: Seq<ConditionalEvent>,
    steps: Seq<ConditionalStep>,
    k: int,
)
    requires
        write.wf(),
        conditional_run(write, events, steps),
        0 <= k < steps.len(),
        steps[k] is Perform,
    ensures
        k < conditional_actions(write.writes, write.has_condition).len(),
        steps[k]->action == conditional_actions(write.writes, write.has_condition)[k],
        match steps[k]->state {
            ConditionalState::LoadingTable => k == 0,
            ConditionalState::ValidatingKey => k == 1,
            ConditionalState::LoadingOldItem => k == 2 && write.has_condition,
            ConditionalState::ParsingCondition { old_item } => k == 3 && write.has_condition
                && events[2] == ConditionalEvent::OldItemLoaded(Ok(old_item)),
            ConditionalState::EvaluatingCondition { old_item } => k == 4 && write.has_condition
                && events[2] == ConditionalEvent::OldItemLoaded(Ok(old_item)),
            ConditionalState::Writing => write.writes && k == (if write.has_condition {
                5int
            } else {
                2int
            }) && (write.has_condition ==> events[4] == ConditionalEvent::ConditionEvaluated(true)),
        },
    decreases k,
{
    if k > 0 {
        assert(steps[k - 1] is Perform);
        lemma_conditional_run(write, events, steps, k - 1);
        assert(conditional_next(write, steps[k - 1]->state, events[k - 1], steps[k - 1 + 1]));
    }
}

/// A put, delete or check of a transaction that succeeds has gone through all its actions,
/// in their order: what it writes was written, and its condition, where it has one, held.
/// A condition that does not hold cancels the transaction with the item that was read,
/// where it was asked for, and any other failure is told as it came.
pub proof fn law_conditional_writes_go_through_their_actions(
    write: ConditionalWrite,
    events: Seq<ConditionalEvent>,
    steps: Seq<ConditionalStep>,
)
    requires
        write.wf(),
        conditional_run(write, events, steps),
        steps.last() is Finish,
    ensures
        ({
            let actions = conditional_actions(write.writes, write.has_condition);
            let result = steps.last()->Finish_0;
            &&& events.len() <= actions.len()
            &&& forall|k: int|
                0 <= k < events.len() ==> (#[trigger] steps[k])->action == actions[k]
            &&& result is Ok ==> events.len() == actions.len() && (write.writes
                ==> events.last()->Written_0 is Ok) && (write.has_condition ==> events[4]
                == ConditionalEvent::ConditionEvaluated(true))
            &&& result matches Err(error) ==> match events.last() {
                ConditionalEvent::TableLoaded(r) => r == Err::<(), StorageError>(error),
                ConditionalEvent::KeyValidated(r) => r == Err::<(), StorageError>(error),
                ConditionalEvent::OldItemLoaded(r) => r == Err::<Option<Item>, StorageError>(error),
                ConditionalEvent::ConditionParsed(parsed) => !parsed && tells_validation(
                    error,
                    "Invalid condition expression"@,
                ),
                ConditionalEvent::ConditionEvaluated(holds) => !holds && refuses_condition(
                    write.index,
                    if write.return_old_on_failure {
                        events[2]->OldItemLoaded_0->Ok_0
                    } else {
                        None
                    },
                    error,
                ),
                ConditionalEvent::Written(r) => r == Err::<(), StorageError>(error),
            }
        }),
{
    let last = events.len() - 1;
    assert(events.len() > 0);
    assert(steps[last] is Perform);
    lemma_conditional_run(write, events, steps, last);
    assert(conditional_next(write, steps[last]->state, events[last], steps[last + 1]));
    assert forall|k: int| 0 <= k < events.len() implies (#[trigger] steps[k])->action
        == conditional_actions(write.writes, write.has_condition)[k] by {
        lemma_conditional_run(write, events, steps, k);
    }
}

/// What a put, a delete and a check of a transaction ask for follows from the request: the
/// first two write, the last does not and always has a condition; a put or a delete has a
/// condition where the request has one; a delete without a key is refused.
pub proof fn law_requests_are_what_they_ask_for(
    put: TransactPutRequest,
    delete: TransactDeleteRequest,
    check: TransactConditionCheckRequest,
    index: usize,
    put_starts: (ConditionalWrite, ConditionalStep),
    delete_starts: (ConditionalWrite, ConditionalStep),
    check_starts: (ConditionalWrite, ConditionalStep),
)
    requires
        call_ensures(execute_transact_put, (&put, index), put_starts),
        call_ensures(execute_transact_delete, (&delete, index), delete_starts),
        call_ensures(execute_transact_condition_check, (&check, index), check_starts),
    ensures
        put_starts.0.writes && put_starts.0.index == index,
        put_starts.0.has_condition == (put.condition_expression is Some),
        put_starts.0.return_old_on_failure == put.return_old_on_failure,
        conditional_run(put_starts.0, Seq::empty(), seq![put_starts.1]),
        delete.key.attributes@.len() == 0 ==> (delete_starts.1 matches Step::Finish(Err(e))
            && tells_validation(e, "Delete request must specify a key"@)),
        delete.key.attributes@.len() > 0 ==> delete_starts.0.writes && delete_starts.0.index
            == index && delete_starts.0.has_condition == (delete.condition_expression is Some)
            && delete_starts.0.return_old_on_failure == delete.return_old_on_failure
            && conditional_run(delete_starts.0, Seq::empty(), seq![delete_starts.1]),
        !check_starts.0.writes && check_starts.0.has_condition && check_starts.0.index == index,
        check_starts.0.return_old_on_failure == check.return_old_on_failure,
        conditional_run(check_starts.0, Seq::empty(), seq![check_starts.1]),
{
}

} // verus!
