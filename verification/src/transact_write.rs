//! Transactions of up to a hundred writes.
use crate::error::{CancellationReason, Item, StorageError};
use crate::machine::Step;
use crate::provider::SQLiteStorageProvider;
use crate::types::StreamRetentionDuration;
use vstd::prelude::*;

verus! {

/// The largest number of actions that a transaction may have.
pub const MAX_TRANSACT_ITEMS: usize = 100;

/// The code of an action that did not keep its transaction from being applied.
pub const NO_REASON: &'static str = "None";

/// The code of an action whose condition did not hold.
pub const CONDITIONAL_CHECK_FAILED: &'static str = "ConditionalCheckFailed";

/// Stores an item.
pub struct TransactPutRequest {
    pub table_name: String,
    pub item: Item,
    pub condition_expression: Option<String>,
    pub return_old_on_failure: bool,
    pub item_stream_ttl_hours: Option<StreamRetentionDuration>,
}

/// Changes an item.
pub struct TransactUpdateRequest {
    pub table_name: String,
    pub key: Item,
    pub update_expression: String,
    pub condition_expression: Option<String>,
    pub return_old_on_failure: bool,
    pub item_stream_ttl_hours: Option<StreamRetentionDuration>,
}

/// Removes an item.
pub struct TransactDeleteRequest {
    pub table_name: String,
    pub key: Item,
    pub condition_expression: Option<String>,
    pub return_old_on_failure: bool,
    pub item_stream_ttl_hours: Option<StreamRetentionDuration>,
}

/// Holds an item against a condition.
pub struct TransactConditionCheckRequest {
    pub table_name: String,
    pub key: Item,
    pub condition_expression: String,
    pub return_old_on_failure: bool,
}

/// An action of a transaction: exactly one of the four is to be given.
pub struct TransactWriteItem {
    pub put: Option<TransactPutRequest>,
    pub update: Option<TransactUpdateRequest>,
    pub delete: Option<TransactDeleteRequest>,
    pub condition_check: Option<TransactConditionCheckRequest>,
}

/// What an action of a transaction does.
#[derive(Clone, Copy, Debug, PartialEq, Eq, Structural)]
pub enum TransactKind {
    Put,
    Update,
    Delete,
    ConditionCheck,
}

impl TransactWriteItem {
    /// What the action does, where exactly one of the four is given.
    pub open spec fn spec_kind(&self) -> Option<TransactKind> {
        match (self.put is Some, self.update is Some, self.delete is Some, self.condition_check is Some) {
            (true, false, false, false) => Some(TransactKind::Put),
            (false, true, false, false) => Some(TransactKind::Update),
            (false, false, true, false) => Some(TransactKind::Delete),
            (false, false, false, true) => Some(TransactKind::ConditionCheck),
            _ => None,
        }
    }

    /// What the action does, where exactly one of the four is given.
    pub fn kind(&self) -> (r: Option<TransactKind>)
        ensures
            r == self.spec_kind(),
    {
        match (
            self.put.is_some(),
            self.update.is_some(),
            self.delete.is_some(),
            self.condition_check.is_some(),
        ) {
            (true, false, false, false) => Some(TransactKind::Put),
            (false, true, false, false) => Some(TransactKind::Update),
            (false, false, true, false) => Some(TransactKind::Delete),
            (false, false, false, true) => Some(TransactKind::ConditionCheck),
            _ => None,
        }
    }
}

/// Whether a reason stands for an action that did not keep its transaction from
/// being applied.
pub open spec fn no_reason(reason: CancellationReason) -> bool {
    reason.code@ == NO_REASON@ && reason.item is None
}

/// Whether `out` gives the reasons of all actions, in their order.
pub open spec fn reasons_listed(
    reasons: Seq<Option<CancellationReason>>,
    out: Seq<CancellationReason>,
) -> bool {
    &&& out.len() == reasons.len()
    &&& forall|i: int|
        0 <= i < reasons.len() ==> match reasons[i] {
            Some(reason) => #[trigger] out[i] == reason,
            None => no_reason(out[i]),
        }
}

/// The error of a transaction with given reasons; none where no action has one.
pub open spec fn canceled_for_reasons(
    reasons: Seq<Option<CancellationReason>>,
    out: Option<StorageError>,
) -> bool {
    if exists|i: int| 0 <= i < reasons.len() && reasons[i] is Some {
        out matches Some(StorageError::TransactionCanceled { reasons: listed })
            && reasons_listed(reasons, listed@)
    } else {
        out is None
    }
}

fn absent_reason() -> (r: CancellationReason)
    ensures
        no_reason(r),
{
    CancellationReason { code: NO_REASON.to_owned(), item: None }
}

/// The error of a transaction with given reasons; none where no action has one.
pub fn transaction_canceled_for_indexed_reasons(reasons: Vec<Option<CancellationReason>>) -> (r:
    Option<StorageError>)
    ensures
        canceled_for_reasons(reasons@, r),
{
    let ghost given = reasons@;
    let mut left = reasons;
    let mut listed: Vec<CancellationReason> = Vec::new();
    let mut canceled = false;
    let n: usize = left.len();
    let mut i: usize = 0;
    while i < n
        invariant
            i <= n == given.len(),
            left@ == given.skip(i as int),
            reasons_listed(given.take(i as int), listed@),
            canceled <==> exists|j: int| 0 <= j < i && given[j] is Some,
        decreases n - i,
    {
        let first = left.remove(0);
        assert(left@ =~= given.skip(i + 1));
        assert(first == given[i as int]);
        let ghost before = listed@;
        match first {
            Some(reason) => {
                canceled = true;
                listed.push(reason);
            },
            None => {
                listed.push(absent_reason());
            },
        }
        assert forall|j: int| 0 <= j < i + 1 implies match given.take(i + 1)[j] {
            Some(reason) => #[trigger] listed@[j] == reason,
            None => no_reason(listed@[j]),
        } by {
            if j < i {
                assert(given.take(i + 1)[j] == given.take(i as int)[j]);
                assert(listed@[j] == before[j]);
            }
        }
        i = i + 1;
    }
    assert(given.take(n as int) =~= given);
    if canceled {
        Some(StorageError::TransactionCanceled { reasons: listed })
    } else {
        None
    }
}

/// Whether an error says that the action at an index keeps its transaction from
/// being applied.
pub open spec fn cancels_at(error: StorageError, index: int) -> bool {
    error matches StorageError::TransactionCanceled { reasons } && index < reasons@.len()
        && reasons@[index].code@ != NO_REASON@
}

/// The reason that an error gives for the action at an index.
pub open spec fn reason_at(error: StorageError, index: int) -> CancellationReason {
    error->reasons@[index]
}

/// The reason that an error gives for the action at an index; the error itself where
/// it gives none.
pub fn transaction_cancellation_reason_at(error: StorageError, index: usize) -> (r: Result<
    CancellationReason,
    StorageError,
>)
    ensures
        r == (if cancels_at(error, index as int) {
            Ok(reason_at(error, index as int))
        } else {
            Err(error)
        }),
{
    match error {
        StorageError::TransactionCanceled { reasons } => {
            if index < reasons.len() {
                let none = NO_REASON.to_owned();
                if reasons[index].code != none {
                    let mut reasons = reasons;
                    return Ok(reasons.swap_remove(index));
                }
            }
            Err(StorageError::TransactionCanceled { reasons })
        },
        error => Err(error),
    }
}

/// Whether `error` cancels a transaction for one action only, and has `len` reasons.
pub open spec fn canceled_for_one(
    index: int,
    len: int,
    reason: CancellationReason,
    error: StorageError,
) -> bool {
    &&& error matches StorageError::TransactionCanceled { reasons }
    &&& reasons@.len() == len
    &&& reasons@[index] == reason
    &&& forall|i: int| 0 <= i < len && i != index ==> no_reason(#[trigger] reasons@[i])
}

fn cancel_for_one(index: usize, len: usize, reason: CancellationReason) -> (r: StorageError)
    requires
        index < len,
    ensures
        canceled_for_one(index as int, len as int, reason, r),
{
    let mut reasons: Vec<CancellationReason> = Vec::new();
    let mut i: usize = 0;
    while i < index
        invariant
            i <= index < len,
            reasons@.len() == i,
            forall|j: int| 0 <= j < i ==> no_reason(#[trigger] reasons@[j]),
        decreases index - i,
    {
        reasons.push(absent_reason());
        i = i + 1;
    }
    reasons.push(reason);
    i = i + 1;
    while i < len
        invariant
            index < i <= len,
            reasons@.len() == i,
            reasons@[index as int] == reason,
            forall|j: int| 0 <= j < i && j != index ==> no_reason(#[trigger] reasons@[j]),
        decreases len - i,
    {
        reasons.push(absent_reason());
        i = i + 1;
    }
    StorageError::TransactionCanceled { reasons }
}

/// The error of one action that keeps its transaction from being applied.
pub fn transaction_canceled_for_reason(index: usize, reason: CancellationReason) -> (r: StorageError)
    requires
        index < usize::MAX,
    ensures
        canceled_for_one(index as int, index + 1, reason, r),
{
    cancel_for_one(index, index + 1, reason)
}

/// The error of a transaction of `len` actions, from that of one of its actions: one
/// that cancels the transaction is spread over all of them, any other stays.
pub fn transaction_canceled_for_item_error_with_len(
    index: usize,
    len: usize,
    error: StorageError,
) -> (r: StorageError)
    requires
        index < len,
    ensures
        if cancels_at(error, index as int) {
            canceled_for_one(index as int, len as int, reason_at(error, index as int), r)
        } else {
            r == error
        },
{
    match transaction_cancellation_reason_at(error, index) {
        Ok(reason) => cancel_for_one(index, len, reason),
        Err(error) => error,
    }
}

/// Whether a reason says that a condition did not hold of an item.
pub open spec fn condition_failed(reason: CancellationReason, item: Option<Item>) -> bool {
    reason.code@ == CONDITIONAL_CHECK_FAILED@ && reason.item == item
}

/// The reason of an action whose condition did not hold, with the stored item where
/// it was asked for.
pub fn conditional_check_failed_reason(item: Option<Item>) -> (r: CancellationReason)
    ensures
        condition_failed(r, item),
{
    CancellationReason { code: CONDITIONAL_CHECK_FAILED.to_owned(), item }
}

/// Why a transaction is refused for the number of its actions.
pub open spec fn count_refused(n: nat, error: StorageError) -> bool {
    ||| n == 0 && error.is_validation("Transaction request must contain at least one item"@)
    ||| n > MAX_TRANSACT_ITEMS && error.is_validation(
        "Transaction request cannot contain more than 100 items"@,
    )
}

/// Refuses a transaction for the number of its actions.
pub fn validate_item_count(n: usize) -> (r: Result<(), StorageError>)
    ensures
        r is Ok <==> 0 < n <= MAX_TRANSACT_ITEMS,
        r matches Err(e) ==> count_refused(n as nat, e),
{
    if n == 0 {
        return Err(StorageError::validation("Transaction request must contain at least one item"));
    }
    if n > MAX_TRANSACT_ITEMS {
        return Err(
            StorageError::validation("Transaction request cannot contain more than 100 items"),
        );
    }
    Ok(())
}

/// Whether an error says that an action is not exactly one of the four.
pub open spec fn kind_refused(error: StorageError) -> bool {
    error.is_validation(
        "Each TransactWriteItem must contain exactly one of Put, Update, Delete, or ConditionCheck"@,
    )
}

fn refuse_kind() -> (r: StorageError)
    ensures
        kind_refused(r),
{
    StorageError::validation(
        "Each TransactWriteItem must contain exactly one of Put, Update, Delete, or ConditionCheck",
    )
}

/// What a transaction needs done.
#[derive(Clone, Copy, Debug, PartialEq, Eq, Structural)]
pub enum TransactAction {
    /// Find the key that the action at an index writes, and what keeps it from being written.
    Preflight(usize),
    /// Refuse keys that cannot be written, then keys that occur twice.
    JudgePreflights,
    /// Hold a durable guard against the stored item.
    ValidateGuard(usize),
    /// Perform the action at an index.
    Execute { index: usize, kind: TransactKind, immediate_gsi_consistency: bool },
}

/// How far a transaction has come.
pub enum TransactState {
    Preflighting { next: usize },
    Judging,
    Guarding { next: usize },
    /// The actions before `next` have been performed, with these reasons.
    Executing { next: usize, reasons: Vec<Option<CancellationReason>> },
}

/// What came of an action.
pub enum TransactEvent {
    Preflighted(Result<(), StorageError>),
    Judged(Result<(), StorageError>),
    Guarded(Result<(), StorageError>),
    Executed(Result<(), StorageError>),
}

/// What a transaction does next.
pub type TransactStep = Step<TransactState, TransactAction, Result<(), StorageError>>;

impl TransactState {
    /// Whether the state waits for an event, in a transaction of `n` actions and `g` guards.
    pub open spec fn awaits(self, event: TransactEvent, n: nat, g: nat) -> bool {
        match self {
            TransactState::Preflighting { next } => event is Preflighted && next < n,
            TransactState::Judging => event is Judged,
            TransactState::Guarding { next } => event is Guarded && next < g,
            TransactState::Executing { next, reasons } => event is Executed && next < n
                && reasons@.len() == next,
        }
    }
}

/// The transaction goes on with the action at an index; it ends there where the
/// action is not exactly one of the four.
pub open spec fn goes_on_at(
    provider: SQLiteStorageProvider,
    items: Seq<TransactWriteItem>,
    next: int,
    reasons: Seq<Option<CancellationReason>>,
    step: TransactStep,
) -> bool {
    match items[next].spec_kind() {
        Some(kind) => step matches Step::Perform {
            state: TransactState::Executing { next: n, reasons: kept },
            action,
        } && n == next && kept@ == reasons && action == (TransactAction::Execute {
            index: n,
            kind,
            immediate_gsi_consistency: provider.immediate_gsi_consistency,
        }),
        None => step matches Step::Finish(Err(e)) && kind_refused(e),
    }
}

fn go_on_at(
    provider: &SQLiteStorageProvider,
    items: &Vec<TransactWriteItem>,
    next: usize,
    reasons: Vec<Option<CancellationReason>>,
) -> (r: TransactStep)
    requires
        next < items@.len(),
    ensures
        goes_on_at(*provider, items@, next as int, reasons@, r),
{
    match items[next].kind() {
        Some(kind) => Step::Perform {
            state: TransactState::Executing { next, reasons },
            action: TransactAction::Execute {
                index: next,
                kind,
                immediate_gsi_consistency: provider.immediate_gsi_consistency,
            },
        },
        None => Step::Finish(Err(refuse_kind())),
    }
}

/// Whether a transaction starts with a given step.
pub open spec fn transact_write_starts(n: nat, step: TransactStep) -> bool {
    if 0 < n <= MAX_TRANSACT_ITEMS {
        step matches Step::Perform {
            state: TransactState::Preflighting { next: 0 },
            action: TransactAction::Preflight(0),
        }
    } else {
        step matches Step::Finish(Err(e)) && count_refused(n, e)
    }
}

/// Starts a transaction.
pub fn start_transact_write_items(items: &Vec<TransactWriteItem>) -> (r: TransactStep)
    ensures
        transact_write_starts(items@.len(), r),
{
    match validate_item_count(items.len()) {
        Ok(()) => Step::Perform {
            state: TransactState::Preflighting { next: 0 },
            action: TransactAction::Preflight(0),
        },
        Err(e) => Step::Finish(Err(e)),
    }
}

/// How a transaction goes on after an event: the keys of all actions are found and
/// judged first; then the actions are performed in their order. An action that fails
/// for a reason of its own does not keep the later ones from being performed, so that
/// all reasons are known in the end; any other failure ends the transaction at once.
pub open spec fn transact_write_next(
    provider: SQLiteStorageProvider,
    items: Seq<TransactWriteItem>,
    state: TransactState,
    event: TransactEvent,
    step: TransactStep,
) -> bool {
    match (state, event) {
        (TransactState::Preflighting { next }, TransactEvent::Preflighted(Ok(_))) => if next + 1
            < items.len() {
            step matches Step::Perform {
                state: TransactState::Preflighting { next: n },
                action: TransactAction::Preflight(i),
            } && n == next + 1 && i == next + 1
        } else {
            step matches Step::Perform {
                state: TransactState::Judging,
                action: TransactAction::JudgePreflights,
            }
        },
        (_, TransactEvent::Preflighted(Err(e))) => step matches Step::Finish(Err(out)) && out == e,
        (_, TransactEvent::Judged(Ok(_))) => goes_on_at(provider, items, 0, Seq::empty(), step),
        (_, TransactEvent::Judged(Err(e))) => step matches Step::Finish(Err(out)) && out == e,
        (TransactState::Executing { next, reasons }, TransactEvent::Executed(result)) => {
            match result {
                Err(e) if !cancels_at(e, next as int) => step matches Step::Finish(Err(out)) && out == e,
                _ => {
                    let collected = reasons@.push(
                        match result {
                            Err(e) => Some(reason_at(e, next as int)),
                            Ok(_) => None,
                        },
                    );
                    if next + 1 < items.len() {
                        goes_on_at(provider, items, next + 1, collected, step)
                    } else {
                        step matches Step::Finish(out) && canceled_for_reasons(
                            collected,
                            match out {
                                Ok(_) => None,
                                Err(e) => Some(e),
                            },
                        )
                    }
                },
            }
        },
        _ => false,
    }
}

/// How a guarded transaction goes on after an event.
pub open spec fn guarded_transact_write_next(
    provider: SQLiteStorageProvider,
    items: Seq<TransactWriteItem>,
    guards: nat,
    state: TransactState,
    event: TransactEvent,
    step: TransactStep,
) -> bool {
    match (state, event) {
        (TransactState::Guarding { next }, TransactEvent::Guarded(Ok(_))) => if next + 1 < guards {
            step matches Step::Perform {
                state: TransactState::Guarding { next: n },
                action: TransactAction::ValidateGuard(i),
            } && n == next + 1 && i == next + 1
        } else {
            goes_on_at(provider, items, 0, Seq::empty(), step)
        },
        (_, TransactEvent::Guarded(Err(e))) => step matches Step::Finish(Err(out)) && out == e,
        (TransactState::Executing { next, reasons }, TransactEvent::Executed(Ok(_))) => if next + 1
            < items.len() {
            goes_on_at(provider, items, next + 1, reasons@.push(None), step)
        } else {
            step matches Step::Finish(Ok(_))
        },
        (TransactState::Executing { next, .. }, TransactEvent::Executed(Err(e))) => {
            &&& step matches Step::Finish(Err(out))
            &&& if cancels_at(e, next as int) {
                canceled_for_one(next as int, items.len() as int, reason_at(e, next as int), out)
            } else {
                out == e
            }
        },
        _ => false,
    }
}

/// How a transaction of encoded items goes on after an event.
pub open spec fn encode_transact_write_next(
    provider: SQLiteStorageProvider,
    items: Seq<TransactWriteItem>,
    state: TransactState,
    event: TransactEvent,
    step: TransactStep,
) -> bool {
    match (state, event) {
        (TransactState::Executing { next, reasons }, TransactEvent::Executed(Ok(_))) => if next + 1
            < items.len() {
            goes_on_at(provider, items, next + 1, reasons@.push(None), step)
        } else {
            step matches Step::Finish(Ok(_))
        },
        (_, TransactEvent::Executed(Err(e))) => step matches Step::Finish(Err(out)) && out == e,
        _ => false,
    }
}

impl SQLiteStorageProvider {
    /// Performs a transaction.
    pub fn do_transact_write_items(
        &self,
        items: &Vec<TransactWriteItem>,
        state: TransactState,
        event: TransactEvent,
    ) -> (r: TransactStep)
        requires
            0 < items@.len(),
            state.awaits(event, items@.len(), 0),
        ensures
            transact_write_next(*self, items@, state, event, r),
    {
        let n: usize = items.len();
        match (state, event) {
            (TransactState::Preflighting { next }, TransactEvent::Preflighted(Ok(()))) => {
                if next + 1 < n {
                    Step::Perform {
                        state: TransactState::Preflighting { next: next + 1 },
                        action: TransactAction::Preflight(next + 1),
                    }
                } else {
                    Step::Perform {
                        state: TransactState::Judging,
                        action: TransactAction::JudgePreflights,
                    }
                }
            },
            (_, TransactEvent::Preflighted(Err(e))) => Step::Finish(Err(e)),
            (_, TransactEvent::Judged(Ok(()))) => go_on_at(self, items, 0, Vec::new()),
            (_, TransactEvent::Judged(Err(e))) => Step::Finish(Err(e)),
            (TransactState::Executing { next, reasons }, TransactEvent::Executed(result)) => {
                let mut collected = reasons;
                match result {
                    Ok(()) => {
                        collected.push(None);
                    },
                    Err(e) => match transaction_cancellation_reason_at(e, next) {
                        Ok(reason) => {
                            collected.push(Some(reason));
                        },
                        Err(e) => {
                            return Step::Finish(Err(e));
                        },
                    },
                }
                if next + 1 < n {
                    go_on_at(self, items, next + 1, collected)
                } else {
                    match transaction_canceled_for_indexed_reasons(collected) {
                        Some(e) => Step::Finish(Err(e)),
                        None => Step::Finish(Ok(())),
                    }
                }
            },
            (_, _) => {
                assert(false);
                Step::Finish(Ok(()))
            },
        }
    }

    /// Performs a transaction under durable guards: the guards are held against what is
    /// stored before any action is performed, and the first action that fails ends it.
    pub fn do_guarded_transact_write_items(
        &self,
        items: &Vec<TransactWriteItem>,
        guards: usize,
        state: TransactState,
        event: TransactEvent,
    ) -> (r: TransactStep)
        requires
            0 < items@.len(),
            state is Guarding || state is Executing,
            state.awaits(event, items@.len(), guards as nat),
        ensures
            guarded_transact_write_next(*self, items@, guards as nat, state, event, r),
    {
        let n: usize = items.len();
        match (state, event) {
            (TransactState::Guarding { next }, TransactEvent::Guarded(Ok(()))) => {
                if next + 1 < guards {
                    Step::Perform {
                        state: TransactState::Guarding { next: next + 1 },
                        action: TransactAction::ValidateGuard(next + 1),
                    }
                } else {
                    go_on_at(self, items, 0, Vec::new())
                }
            },
            (_, TransactEvent::Guarded(Err(e))) => Step::Finish(Err(e)),
            (TransactState::Executing { next, reasons }, TransactEvent::Executed(Ok(()))) => {
                if next + 1 < n {
                    let mut reasons = reasons;
                    reasons.push(None);
                    go_on_at(self, items, next + 1, reasons)
                } else {
                    Step::Finish(Ok(()))
                }
            },
            (TransactState::Executing { next, .. }, TransactEvent::Executed(Err(e))) => Step::Finish(
                Err(transaction_canceled_for_item_error_with_len(next, n, e)),
            ),
            (_, _) => {
                assert(false);
                Step::Finish(Ok(()))
            },
        }
    }

    /// Performs a transaction of encoded items: the first action that fails ends it, with
    /// its own error.
    pub fn do_transact_write_items_encode(
        &self,
        items: &Vec<TransactWriteItem>,
        state: TransactState,
        event: TransactEvent,
    ) -> (r: TransactStep)
        requires
            state is Executing,
            state.awaits(event, items@.len(), 0),
        ensures
            encode_transact_write_next(*self, items@, state, event, r),
    {
        let n: usize = items.len();
        match (state, event) {
            (TransactState::Executing { next, reasons }, TransactEvent::Executed(Ok(()))) => {
                if next + 1 < n {
                    let mut reasons = reasons;
                    reasons.push(None);
                    go_on_at(self, items, next + 1, reasons)
                } else {
                    Step::Finish(Ok(()))
                }
            },
            (_, TransactEvent::Executed(Err(e))) => Step::Finish(Err(e)),
            (_, _) => {
                assert(false);
                Step::Finish(Ok(()))
            },
        }
    }

    /// Starts a transaction under durable guards.
    pub fn start_guarded_transact_write_items(
        &self,
        items: &Vec<TransactWriteItem>,
        guards: usize,
    ) -> (r: TransactStep)
        ensures
            if 0 < items@.len() <= MAX_TRANSACT_ITEMS {
                if guards > 0 {
                    r matches Step::Perform {
                        state: TransactState::Guarding { next: 0 },
                        action: TransactAction::ValidateGuard(0),
                    }
                } else {
                    goes_on_at(*self, items@, 0, Seq::empty(), r)
                }
            } else {
                r matches Step::Finish(Err(e)) && count_refused(items@.len(), e)
            },
    {
        match validate_item_count(items.len()) {
            Ok(()) => {
                if guards > 0 {
                    Step::Perform {
                        state: TransactState::Guarding { next: 0 },
                        action: TransactAction::ValidateGuard(0),
                    }
                } else {
                    go_on_at(self, items, 0, Vec::new())
                }
            },
            Err(e) => Step::Finish(Err(e)),
        }
    }

    /// Starts a transaction of encoded items.
    pub fn start_transact_write_items_encode(&self, items: &Vec<TransactWriteItem>) -> (r:
        TransactStep)
        ensures
            if 0 < items@.len() <= MAX_TRANSACT_ITEMS {
                goes_on_at(*self, items@, 0, Seq::empty(), r)
            } else {
                r matches Step::Finish(Err(e)) && count_refused(items@.len(), e)
            },
    {
        match validate_item_count(items.len()) {
            Ok(()) => go_on_at(self, items, 0, Vec::new()),
            Err(e) => Step::Finish(Err(e)),
        }
    }
}

/// Whether a transaction ends with the reasons that performing its actions gave.
pub open spec fn transact_ends_with(
    outcomes: Seq<Result<(), StorageError>>,
    step: TransactStep,
) -> bool {
    step matches Step::Finish(result) && canceled_for_reasons(
        Seq::new(outcomes.len(), |i: int| reason_of(outcomes[i], i)),
        match result {
            Ok(_) => None,
            Err(e) => Some(e),
        },
    )
}

/// The reason that the outcome of the action at an index gives, where it gives one.
pub open spec fn reason_of(outcome: Result<(), StorageError>, index: int) -> Option<
    CancellationReason,
> {
    match outcome {
        Err(e) if cancels_at(e, index) => Some(reason_at(e, index)),
        _ => None,
    }
}

/// A transaction whose actions fail for reasons of their own only is performed to its
/// end, and is then refused with all the reasons, each in the place of its action;
/// where there is none, it succeeds.
pub proof fn law_reasons_keep_their_order(
    provider: SQLiteStorageProvider,
    items: Seq<TransactWriteItem>,
    outcomes: Seq<Result<(), StorageError>>,
    steps: Seq<TransactStep>,
)
    requires
        0 < items.len(),
        outcomes.len() == items.len(),
        steps.len() == items.len() + 1,
        forall|i: int| 0 <= i < items.len() ==> (#[trigger] items[i]).spec_kind() is Some,
        forall|i: int|
            0 <= i < outcomes.len() ==> #[trigger] outcomes[i] is Ok || cancels_at(
                outcomes[i]->Err_0,
                i,
            ),
        goes_on_at(provider, items, 0, Seq::empty(), steps[0]),
        forall|k: int|
            0 <= k < items.len() && steps[k] is Perform ==> #[trigger] transact_write_next(
                provider,
                items,
                steps[k]->state,
                TransactEvent::Executed(outcomes[k]),
                steps[k + 1],
            ),
    ensures
        transact_ends_with(outcomes, steps.last()),
{
    let n = items.len() as int;
    lemma_transact_prefix(provider, items, outcomes, steps, n - 1);
    let before = steps[n - 1];
    assert(transact_write_next(
        provider,
        items,
        before->state,
        TransactEvent::Executed(outcomes[n - 1]),
        steps[n - 1 + 1],
    ));
    let collected = before->state->Executing_reasons@.push(reason_of(outcomes[n - 1], n - 1));
    assert(collected =~= Seq::new(outcomes.len(), |i: int| reason_of(outcomes[i], i)));
}

proof fn lemma_transact_prefix(
    provider: SQLiteStorageProvider,
    items: Seq<TransactWriteItem>,
    outcomes: Seq<Result<(), StorageError>>,
    steps: Seq<TransactStep>,
    k: int,
)
    requires
        outcomes.len() == items.len(),
        steps.len() == items.len() + 1,
        0 <= k < items.len(),
        forall|i: int| 0 <= i < items.len() ==> (#[trigger] items[i]).spec_kind() is Some,
        forall|i: int|
            0 <= i < outcomes.len() ==> #[trigger] outcomes[i] is Ok || cancels_at(
                outcomes[i]->Err_0,
                i,
            ),
        goes_on_at(provider, items, 0, Seq::empty(), steps[0]),
        forall|k: int|
            0 <= k < items.len() && steps[k] is Perform ==> #[trigger] transact_write_next(
                provider,
                items,
                steps[k]->state,
                TransactEvent::Executed(outcomes[k]),
                steps[k + 1],
            ),
    ensures
        goes_on_at(
            provider,
            items,
            k,
            Seq::new(k as nat, |i: int| reason_of(outcomes[i], i)),
            steps[k],
        ),
    decreases k,
{
    if k == 0 {
        assert(Seq::new(0, |i: int| reason_of(outcomes[i], i)) =~= Seq::empty());
    } else {
        lemma_transact_prefix(provider, items, outcomes, steps, k - 1);
        assert(items[k - 1].spec_kind() is Some);
        assert(transact_write_next(
            provider,
            items,
            steps[k - 1]->state,
            TransactEvent::Executed(outcomes[k - 1]),
            steps[k - 1 + 1],
        ));
        let shorter = Seq::new((k - 1) as nat, |i: int| reason_of(outcomes[i], i));
        assert(shorter.push(reason_of(outcomes[k - 1], k - 1)) =~= Seq::new(
            k as nat,
            |i: int| reason_of(outcomes[i], i),
        ));
    }
}

} // verus!
