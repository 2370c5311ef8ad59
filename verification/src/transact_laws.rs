//! What transactions come to, over everything that may happen to their actions.
use crate::error::{tells_validation, CancellationReason, Item, StorageError};
use crate::machine::Step;
use crate::provider::SQLiteStorageProvider;
use crate::transact_write::{
    conditional_check_failed_reason, encode_transact_write_next, guarded_transact_write_next,
    start_transact_write_items, transact_write_next, transaction_canceled_for_indexed_reasons,
    transaction_canceled_for_reason, transaction_cancellation_reason_at, TransactAction,
    TransactEvent, TransactKind, TransactState, TransactStep, TransactWriteItem,
};
use vstd::prelude::*;

verus! {

/// Whether an action does one thing and nothing else.
pub open spec fn does_only(item: TransactWriteItem, kind: TransactKind) -> bool {
    &&& item.put is Some <==> kind == TransactKind::Put
    &&& item.update is Some <==> kind == TransactKind::Update
    &&& item.delete is Some <==> kind == TransactKind::Delete
    &&& item.condition_check is Some <==> kind == TransactKind::ConditionCheck
}

/// Whether an action does not do exactly one thing.
pub open spec fn does_not_one(item: TransactWriteItem) -> bool {
    !does_only(item, TransactKind::Put) && !does_only(item, TransactKind::Update) && !does_only(
        item,
        TransactKind::Delete,
    ) && !does_only(item, TransactKind::ConditionCheck)
}

/// Whether an event is what came of an action.
pub open spec fn answers(action: TransactAction, event: TransactEvent) -> bool {
    match action {
        TransactAction::Preflight(_) => event is Preflighted,
        TransactAction::JudgePreflights => event is Judged,
        TransactAction::ValidateGuard(_) => event is Guarded,
        TransactAction::Execute { .. } => event is Executed,
    }
}

/// Whether an action performs the item at an index.
pub open spec fn executes(
    provider: SQLiteStorageProvider,
    items: Seq<TransactWriteItem>,
    action: TransactAction,
    i: int,
) -> bool {
    action matches TransactAction::Execute { index, kind, immediate_gsi_consistency } && index == i
        && does_only(items[i], kind) && immediate_gsi_consistency
        == provider.immediate_gsi_consistency
}

/// Whether an error gives a reason why the action at an index could not be performed.
pub open spec fn has_reason(error: StorageError, i: int) -> bool {
    error matches StorageError::TransactionCanceled { reasons } && i < reasons@.len()
        && reasons@[i].code@ != "None"@
}

/// Whether a reason is what came of performing the action at an index.
pub open spec fn reason_from(
    outcome: Result<(), StorageError>,
    i: int,
    reason: CancellationReason,
) -> bool {
    match outcome {
        Ok(_) => reason.code@ == "None"@ && reason.item is None,
        Err(e) => has_reason(e, i) && reason == e->reasons@[i],
    }
}

/// Whether what came of performing an action is collected.
pub open spec fn collects(
    outcome: Result<(), StorageError>,
    i: int,
    reason: Option<CancellationReason>,
) -> bool {
    match outcome {
        Ok(_) => reason is None,
        Err(e) => has_reason(e, i) && reason == Some(e->reasons@[i]),
    }
}

/// Whether an error says that a transaction has too few or too many actions.
pub open spec fn tells_count(n: int, error: StorageError) -> bool {
    &&& n == 0 || n > 100
    &&& n == 0 ==> tells_validation(error, "Transaction request must contain at least one item"@)
    &&& n > 100 ==> tells_validation(
        error,
        "Transaction request cannot contain more than 100 items"@,
    )
}

/// Whether an error says that an action does not do exactly one thing.
pub open spec fn tells_kind(error: StorageError) -> bool {
    tells_validation(
        error,
        "Each TransactWriteItem must contain exactly one of Put, Update, Delete, or ConditionCheck"@,
    )
}

/// Whether steps are those of a transaction, each from the one before and what came of its
/// action.
pub open spec fn transact_run(
    provider: SQLiteStorageProvider,
    items: Vec<TransactWriteItem>,
    events: Seq<TransactEvent>,
    steps: Seq<TransactStep>,
) -> bool {
    &&& steps.len() == events.len() + 1
    &&& call_ensures(start_transact_write_items, (&items,), steps[0])
    &&& forall|k: int|
        0 <= k < events.len() ==> {
            &&& steps[k] is Perform
            &&& answers(steps[k]->action, #[trigger] events[k])
            &&& call_ensures(
                SQLiteStorageProvider::do_transact_write_items,
                (&provider, &items, steps[k]->state, events[k]),
                steps[k + 1],
            )
        }
}

/// Where a transaction of `n` actions is at its `k`th step.
pub open spec fn transact_place(
    provider: SQLiteStorageProvider,
    items: Seq<TransactWriteItem>,
    events: Seq<TransactEvent>,
    step: TransactStep,
    k: int,
) -> bool {
    let n = items.len() as int;
    &&& forall|i: int| 0 <= i < k && i < n ==> (#[trigger] events[i]) is Preflighted && events[i]->Preflighted_0 is Ok
    &&& k > n ==> events[n] is Judged && events[n]->Judged_0 is Ok
    &&& if k < n {
        step matches Step::Perform {
            state: TransactState::Preflighting { next },
            action: TransactAction::Preflight(i),
        } && next == k && i == k
    } else if k == n {
        step matches Step::Perform {
            state: TransactState::Judging,
            action: TransactAction::JudgePreflights,
        }
    } else {
        k <= 2 * n && (step matches Step::Perform {
            state: TransactState::Executing { next, reasons },
            action,
        } && next == k - n - 1 && executes(provider, items, action, k - n - 1) && reasons@.len()
            == next && forall|i: int|
            0 <= i < next ==> collects(
                (events[n + 1 + i])->Executed_0,
                i,
                #[trigger] reasons@[i],
            ))
    }
}

proof fn lemma_transact_run(
    provider: SQLiteStorageProvider,
    items: Vec<TransactWriteItem>,
    events: Seq<TransactEvent>,
    steps: Seq<TransactStep>,
    k: int,
)
    requires
        transact_run(provider, items, events, steps),
        0 <= k < steps.len(),
        steps[k] is Perform,
    ensures
        0 < items@.len() <= 100,
        transact_place(provider, items@, events, steps[k], k),
    decreases k,
{
    if k > 0 {
        let event = events[k - 1];
        assert(steps[k - 1] is Perform);
        lemma_transact_run(provider, items, events, steps, k - 1);
        assert(transact_write_next(
            provider,
            items@,
            steps[k - 1]->state,
            events[k - 1],
            steps[k - 1 + 1],
        ));
        let n = items@.len() as int;
        if k > n + 1 {
            let before = steps[k - 1]->state->Executing_reasons@;
            let now = steps[k]->state->Executing_reasons@;
            assert forall|i: int| 0 <= i < now.len() implies collects(
                events[n + 1 + i]->Executed_0,
                i,
                #[trigger] now[i],
            ) by {
                if i < before.len() {
                    assert(now[i] == before[i]);
                }
            }
        }
    }
}

/// A transaction first prepares each of its actions, in their order, then judges them
/// all, and then performs each of them, in their order, whether or not one before it had a
/// reason not to be performed. It succeeds exactly where all of that succeeded; otherwise
/// it fails with what the last thing done failed with, or, where only actions had reasons,
/// with all the reasons, each in the place of its action.
pub proof fn law_transactions_perform_all_their_actions(
    provider: SQLiteStorageProvider,
    items: Vec<TransactWriteItem>,
    events: Seq<TransactEvent>,
    steps: Seq<TransactStep>,
)
    requires
        transact_run(provider, items, events, steps),
    ensures
        ({
            let n = items@.len() as int;
            let ended = steps.last();
            &&& ended is Perform ==> 0 < n <= 100 && ended->state is Preflighting == (events.len()
                < n)
            &&& forall|k: int|
                0 <= k < steps.len() && (#[trigger] steps[k]) is Perform ==> transact_place(
                    provider,
                    items@,
                    events,
                    steps[k],
                    k,
                )
            &&& ended matches Step::Finish(Ok(_)) ==> 0 < n <= 100 && events.len() == 2 * n + 1
                && forall|i: int|
                0 <= i < n ==> events[n + 1 + i]->Executed_0 is Ok && executes(
                    provider,
                    items@,
                    steps[n + 1 + i]->action,
                    i,
                ) && #[trigger] items@[i] == items@[i]
            &&& ended matches Step::Finish(Err(e)) ==> {
                ||| events.len() == 0 && tells_count(n, e)
                ||| 0 < events.len() && events.last() == TransactEvent::Preflighted(Err(e))
                ||| 0 < events.len() && events.last() == TransactEvent::Judged(Err(e))
                ||| n < events.len() <= 2 * n && does_not_one(items@[events.len() - n - 1])
                    && tells_kind(e)
                ||| n + 1 < events.len() && events.last() == TransactEvent::Executed(Err(e))
                    && !has_reason(e, events.len() - n - 2)
                ||| events.len() == 2 * n + 1 && canceled_with(events.skip(n + 1), e)
            }
        }),
{
    let n = items@.len() as int;
    assert forall|k: int| 0 <= k < steps.len() && (#[trigger] steps[k]) is Perform implies transact_place(
        provider,
        items@,
        events,
        steps[k],
        k,
    ) by {
        lemma_transact_run(provider, items, events, steps, k);
    }
    if steps.last() is Perform {
        lemma_transact_run(provider, items, events, steps, steps.len() - 1);
    }
    if events.len() > 0 {
        let k = events.len() - 1;
        let event = events[k];
        assert(steps[k] is Perform);
        lemma_transact_run(provider, items, events, steps, k);
        assert(transact_write_next(provider, items@, steps[k]->state, events[k], steps[k + 1]));
        if k == 2 * n {
            let collected = steps[k]->state->Executing_reasons@;
            let last = events[k]->Executed_0;
            if last is Ok || has_reason(last->Err_0, n - 1) {
                let all = collected.push(
                    match last {
                        Err(e) => Some(e->reasons@[n - 1]),
                        Ok(_) => None,
                    },
                );
                assert forall|i: int| 0 <= i < n implies collects(
                    events[n + 1 + i]->Executed_0,
                    i,
                    #[trigger] all[i],
                ) by {
                    if i < n - 1 {
                        assert(all[i] == collected[i]);
                    }
                }
                if steps.last() matches Step::Finish(Ok(_)) {
                    assert forall|i: int| 0 <= i < n implies events[n + 1 + i]->Executed_0 is Ok
                        && executes(provider, items@, steps[n + 1 + i]->action, i)
                        && #[trigger] items@[i] == items@[i] by {
                        let event = events[n + 1 + i];
                        assert(all[i] is None);
                        assert(steps[n + 1 + i] is Perform);
                    }
                } else {
                    let e = steps.last()->Finish_0->Err_0;
                    let done = events.skip(n + 1);
                    assert(done.len() == n);
                    assert forall|i: int| 0 <= i < n implies reason_from(
                        done[i]->Executed_0,
                        i,
                        #[trigger] e->reasons@[i],
                    ) by {
                        assert(done[i] == events[n + 1 + i]);
                        assert(all[i] is None || all[i] is Some);
                    }
                    let j = choose|j: int| 0 <= j < n && all[j] is Some;
                    assert(done[j] == events[n + 1 + j]);
                    assert(has_reason(e, j));
                }
            }
        }
    }
}

/// Whether an error cancels a transaction with what came of performing its actions: there
/// is a reason for each, and one at least says something.
pub open spec fn canceled_with(done: Seq<TransactEvent>, error: StorageError) -> bool {
    &&& error matches StorageError::TransactionCanceled { reasons } && reasons@.len() == done.len()
        && forall|i: int|
        0 <= i < done.len() ==> reason_from(done[i]->Executed_0, i, #[trigger] reasons@[i])
    &&& exists|i: int| 0 <= i < done.len() && #[trigger] has_reason(error, i)
}

/// Whether steps are those of a guarded transaction, each from the one before and what
/// came of its action.
pub open spec fn guarded_run(
    provider: SQLiteStorageProvider,
    items: Vec<TransactWriteItem>,
    guards: usize,
    events: Seq<TransactEvent>,
    steps: Seq<TransactStep>,
) -> bool {
    &&& steps.len() == events.len() + 1
    &&& call_ensures(
        SQLiteStorageProvider::start_guarded_transact_write_items,
        (&provider, &items, guards),
        steps[0],
    )
    &&& forall|k: int|
        0 <= k < events.len() ==> {
            &&& steps[k] is Perform
            &&& answers(steps[k]->action, #[trigger] events[k])
            &&& call_ensures(
                SQLiteStorageProvider::do_guarded_transact_write_items,
                (&provider, &items, guards, steps[k]->state, events[k]),
                steps[k + 1],
            )
        }
}

/// Where a guarded transaction is at its `k`th step.
pub open spec fn guarded_place(
    provider: SQLiteStorageProvider,
    items: Seq<TransactWriteItem>,
    guards: int,
    events: Seq<TransactEvent>,
    step: TransactStep,
    k: int,
) -> bool {
    &&& forall|i: int|
        0 <= i < k && i < guards ==> (#[trigger] events[i]) is Guarded && events[i]->Guarded_0 is Ok
    &&& forall|i: int|
        guards <= i < k ==> (#[trigger] events[i]) is Executed && events[i]->Executed_0 is Ok
    &&& if k < guards {
        step matches Step::Perform {
            state: TransactState::Guarding { next },
            action: TransactAction::ValidateGuard(i),
        } && next == k && i == k
    } else {
        k < guards + items.len() && (step matches Step::Perform {
            state: TransactState::Executing { next, reasons },
            action,
        } && next == k - guards && reasons@.len() == next && executes(
            provider,
            items,
            action,
            k - guards,
        ))
    }
}

proof fn lemma_guarded_run(
    provider: SQLiteStorageProvider,
    items: Vec<TransactWriteItem>,
    guards: usize,
    events: Seq<TransactEvent>,
    steps: Seq<TransactStep>,
    k: int,
)
    requires
        guarded_run(provider, items, guards, events, steps),
        0 <= k < steps.len(),
        steps[k] is Perform,
    ensures
        0 < items@.len() <= 100,
        guarded_place(provider, items@, guards as int, events, steps[k], k),
    decreases k,
{
    if k > 0 {
        let event = events[k - 1];
        assert(steps[k - 1] is Perform);
        lemma_guarded_run(provider, items, guards, events, steps, k - 1);
        assert(guarded_transact_write_next(
            provider,
            items@,
            guards as nat,
            steps[k - 1]->state,
            events[k - 1],
            steps[k - 1 + 1],
        ));
    }
}

/// A guarded transaction holds each of its guards first, in their order, and then performs
/// each of its actions, in their order; the first of these that fails ends it. It succeeds
/// exactly where all of them did. The reason of an action that could not be performed is
/// told in its place, with none for any other action.
pub proof fn law_guarded_transactions_stop_at_a_failure(
    provider: SQLiteStorageProvider,
    items: Vec<TransactWriteItem>,
    guards: usize,
    events: Seq<TransactEvent>,
    steps: Seq<TransactStep>,
)
    requires
        guarded_run(provider, items, guards, events, steps),
    ensures
        ({
            let n = items@.len() as int;
            let g = guards as int;
            let ended = steps.last();
            &&& forall|k: int|
                0 <= k < steps.len() && (#[trigger] steps[k]) is Perform ==> guarded_place(
                    provider,
                    items@,
                    g,
                    events,
                    steps[k],
                    k,
                )
            &&& ended matches Step::Finish(Ok(_)) ==> 0 < n <= 100 && events.len() == g + n
                && events.last() is Executed && events.last()->Executed_0 is Ok
            &&& ended matches Step::Finish(Err(e)) ==> {
                ||| events.len() == 0 && tells_count(n, e)
                ||| 0 < events.len() <= g && events.last() == TransactEvent::Guarded(Err(e))
                ||| g <= events.len() < g + n && does_not_one(items@[events.len() - g])
                    && tells_kind(e)
                ||| g < events.len() && events.last() == TransactEvent::Executed(Err(e))
                    && !has_reason(e, events.len() - g - 1)
                ||| g < events.len() && (events.last() matches TransactEvent::Executed(Err(cause))
                    && tells_one_reason(cause, events.len() - g - 1, n, e))
            }
        }),
{
    let n = items@.len() as int;
    let g = guards as int;
    assert forall|k: int| 0 <= k < steps.len() && (#[trigger] steps[k]) is Perform implies guarded_place(
        provider,
        items@,
        g,
        events,
        steps[k],
        k,
    ) by {
        lemma_guarded_run(provider, items, guards, events, steps, k);
    }
    if events.len() > 0 {
        let k = events.len() - 1;
        let event = events[k];
        assert(steps[k] is Perform);
        lemma_guarded_run(provider, items, guards, events, steps, k);
        assert(guarded_transact_write_next(
            provider,
            items@,
            guards as nat,
            steps[k]->state,
            events[k],
            steps[k + 1],
        ));
    }
}

/// Whether an error spreads the reason that another gives for the action at an index over
/// a transaction of `n` actions.
pub open spec fn tells_one_reason(
    cause: StorageError,
    index: int,
    n: int,
    error: StorageError,
) -> bool {
    &&& has_reason(cause, index)
    &&& error matches StorageError::TransactionCanceled { reasons } && reasons@.len() == n
        && reasons@[index] == cause->reasons@[index] && forall|i: int|
        0 <= i < n && i != index ==> (#[trigger] reasons@[i]).code@ == "None"@ && reasons@[i].item is None
}

/// Whether steps are those of a transaction of encoded items, each from the one before and
/// what came of its action.
pub open spec fn encode_run(
    provider: SQLiteStorageProvider,
    items: Vec<TransactWriteItem>,
    events: Seq<TransactEvent>,
    steps: Seq<TransactStep>,
) -> bool {
    &&& steps.len() == events.len() + 1
    &&& call_ensures(
        SQLiteStorageProvider::start_transact_write_items_encode,
        (&provider, &items),
        steps[0],
    )
    &&& forall|k: int|
        0 <= k < events.len() ==> {
            &&& steps[k] is Perform
            &&& answers(steps[k]->action, #[trigger] events[k])
            &&& call_ensures(
                SQLiteStorageProvider::do_transact_write_items_encode,
                (&provider, &items, steps[k]->state, events[k]),
                steps[k + 1],
            )
        }
}

proof fn lemma_encode_run(
    provider: SQLiteStorageProvider,
    items: Vec<TransactWriteItem>,
    events: Seq<TransactEvent>,
    steps: Seq<TransactStep>,
    k: int,
)
    requires
        encode_run(provider, items, events, steps),
        0 <= k < steps.len(),
        steps[k] is Perform,
    ensures
        0 < items@.len() <= 100,
        guarded_place(provider, items@, 0, events, steps[k], k),
    decreases k,
{
    if k > 0 {
        let event = events[k - 1];
        assert(steps[k - 1] is Perform);
        lemma_encode_run(provider, items, events, steps, k - 1);
        assert(encode_transact_write_next(
            provider,
            items@,
            steps[k - 1]->state,
            events[k - 1],
            steps[k - 1 + 1],
        ));
    }
}

/// A transaction of encoded items performs each of its actions, in their order, and stops
/// at the first that fails, with its very error; it succeeds exactly where all of them
/// did.
pub proof fn law_encoded_transactions_stop_at_a_failure(
    provider: SQLiteStorageProvider,
    items: Vec<TransactWriteItem>,
    events: Seq<TransactEvent>,
    steps: Seq<TransactStep>,
)
    requires
        encode_run(provider, items, events, steps),
    ensures
        ({
            let n = items@.len() as int;
            let ended = steps.last();
            &&& forall|k: int|
                0 <= k < steps.len() && (#[trigger] steps[k]) is Perform ==> guarded_place(
                    provider,
                    items@,
                    0,
                    events,
                    steps[k],
                    k,
                )
            &&& ended matches Step::Finish(Ok(_)) ==> 0 < n <= 100 && events.len() == n
                && events.last() is Executed && events.last()->Executed_0 is Ok
            &&& ended matches Step::Finish(Err(e)) ==> {
                ||| events.len() == 0 && tells_count(n, e)
                ||| events.len() < n && does_not_one(items@[events.len() as int]) && tells_kind(e)
                ||| 0 < events.len() && events.last() == TransactEvent::Executed(Err(e))
            }
        }),
{
    assert forall|k: int| 0 <= k < steps.len() && (#[trigger] steps[k]) is Perform implies guarded_place(
        provider,
        items@,
        0,
        events,
        steps[k],
        k,
    ) by {
        lemma_encode_run(provider, items, events, steps, k);
    }
    if events.len() > 0 {
        let k = events.len() - 1;
        let event = events[k];
        assert(steps[k] is Perform);
        lemma_encode_run(provider, items, events, steps, k);
        assert(encode_transact_write_next(
            provider,
            items@,
            steps[k]->state,
            events[k],
            steps[k + 1],
        ));
    }
}

/// The reason that was given for one action is the one that is found at its place, and at
/// no other.
pub proof fn law_reasons_are_found_where_they_were_given(
    index: usize,
    reason: CancellationReason,
    error: StorageError,
    at: usize,
    found: Result<CancellationReason, StorageError>,
)
    requires
        reason.code@ != "None"@,
        index < usize::MAX,
        call_ensures(transaction_canceled_for_reason, (index, reason), error),
        call_ensures(transaction_cancellation_reason_at, (error, at), found),
    ensures
        at == index ==> found == Ok::<CancellationReason, StorageError>(reason),
        at != index ==> found == Err::<CancellationReason, StorageError>(error),
{
}

/// A condition that failed is told with the item it was held against.
pub proof fn law_failed_conditions_tell_the_item(item: Option<Item>, reason: CancellationReason)
    requires
        call_ensures(conditional_check_failed_reason, (item,), reason),
    ensures
        reason.code@ == "ConditionalCheckFailed"@,
        reason.item == item,
{
}

/// A transaction is canceled exactly where one of its actions has a reason, and every
/// reason is told in its place.
pub proof fn law_reasons_cancel(
    reasons: Vec<Option<CancellationReason>>,
    answer: Option<StorageError>,
)
    requires
        call_ensures(transaction_canceled_for_indexed_reasons, (reasons,), answer),
    ensures
        answer is None <==> forall|i: int| 0 <= i < reasons@.len() ==> (#[trigger] reasons@[i]) is None,
        answer matches Some(e) ==> (e matches StorageError::TransactionCanceled { reasons: told }
            && told@.len() == reasons@.len() && forall|i: int|
            0 <= i < told@.len() ==> match reasons@[i] {
                Some(reason) => #[trigger] told@[i] == reason,
                None => told@[i].code@ == "None"@ && told@[i].item is None,
            }),
{
    if answer is None {
        assert forall|i: int| 0 <= i < reasons@.len() implies (#[trigger] reasons@[i]) is None by {
        }
    }
}

} // verus!
