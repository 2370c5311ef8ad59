//! Reads and writes of items: what is decided around them.
use crate::error::{Item, StorageError};
use crate::machine::Step;
use crate::provider::SQLiteStorageProvider;
use crate::sql::{statement, SqlArg, Statement, StatementView};
use crate::sql_statements::{list_change_index_markers, LIST_CHANGE_INDEX_MARKERS};
use crate::transact_write::TransactWriteItem;
use vstd::prelude::*;

verus! {

/// A number that is noted of an operation, with its name.
#[derive(Clone, Copy, Debug, PartialEq, Eq)]
pub struct RecordedField {
    pub name: &'static str,
    pub value: u64,
}

/// Whether a field is one of a name and a value.
pub open spec fn is_field(field: RecordedField, name: &'static str, value: usize) -> bool {
    field.name == name && field.value == value
}

/// What is noted of a read.
pub fn record_read(items: usize, bytes: usize) -> (r: [RecordedField; 2])
    ensures
        is_field(r@[0], "items_returned", items),
        is_field(r@[1], "bytes_read", bytes),
{
    [
        RecordedField { name: "items_returned", value: items as u64 },
        RecordedField { name: "bytes_read", value: bytes as u64 },
    ]
}

/// What is noted of a write.
pub fn record_write(items: usize, bytes: usize) -> (r: [RecordedField; 2])
    ensures
        is_field(r@[0], "items_updated", items),
        is_field(r@[1], "bytes_written", bytes),
{
    [
        RecordedField { name: "items_updated", value: items as u64 },
        RecordedField { name: "bytes_written", value: bytes as u64 },
    ]
}

/// A time as an unsigned number; one before the epoch counts as the epoch.
pub fn ms_u64(now: i64) -> (r: u64)
    ensures
        r == (if now < 0 {
            0int
        } else {
            now as int
        }),
{
    if now < 0 {
        0
    } else {
        now as u64
    }
}

/// The sum of numbers.
pub open spec fn total(sizes: Seq<usize>) -> nat
    decreases sizes.len(),
{
    if sizes.len() == 0 {
        0
    } else {
        total(sizes.drop_last()) + sizes.last() as nat
    }
}

proof fn lemma_total_prefix(sizes: Seq<usize>, n: int)
    requires
        0 <= n <= sizes.len(),
    ensures
        total(sizes.take(n)) <= total(sizes),
    decreases sizes.len() - n,
{
    if n < sizes.len() {
        lemma_total_prefix(sizes, n + 1);
        assert(sizes.take(n + 1).drop_last() =~= sizes.take(n));
    } else {
        assert(sizes.take(n) =~= sizes);
    }
}

/// The number of bytes of encoded items, from the number of each.
pub fn compute_items_bytes(sizes: &Vec<usize>) -> (r: usize)
    requires
        total(sizes@) <= usize::MAX,
    ensures
        r == total(sizes@),
{
    let mut sum: usize = 0;
    let mut i: usize = 0;
    while i < sizes.len()
        invariant
            i <= sizes@.len(),
            total(sizes@) <= usize::MAX,
            sum == total(sizes@.take(i as int)),
        decreases sizes@.len() - i,
    {
        proof {
            lemma_total_prefix(sizes@, i + 1);
            assert(sizes@.take(i + 1).drop_last() =~= sizes@.take(i as int));
        }
        sum = sum + sizes[i];
        i = i + 1;
    }
    assert(sizes@.take(sizes@.len() as int) =~= sizes@);
    sum
}

/// The number of actions that write.
pub open spec fn writing_actions(items: Seq<TransactWriteItem>) -> nat
    decreases items.len(),
{
    if items.len() == 0 {
        0
    } else {
        writing_actions(items.drop_last()) + (if items.last().put is Some
            || items.last().delete is Some || items.last().update is Some {
            1nat
        } else {
            0nat
        })
    }
}

/// How many items a transaction writes: one for each action that stores, changes or
/// removes.
pub fn transact_items_updated(items: &Vec<TransactWriteItem>) -> (r: usize)
    ensures
        r == writing_actions(items@),
        r <= items@.len(),
{
    let mut count: usize = 0;
    let mut i: usize = 0;
    while i < items.len()
        invariant
            i <= items@.len(),
            count == writing_actions(items@.take(i as int)),
            count <= i,
        decreases items@.len() - i,
    {
        assert(items@.take(i + 1).drop_last() =~= items@.take(i as int));
        if items[i].put.is_some() || items[i].delete.is_some() || items[i].update.is_some() {
            count = count + 1;
        }
        i = i + 1;
    }
    assert(items@.take(items@.len() as int) =~= items@);
    count
}

/// The condition of a write, where it has one, from what parsing it came to: one that
/// cannot be parsed counts as one that does not hold.
pub fn parse_optional_condition<C>(parsed: Option<Result<C, String>>) -> (r: Result<
    Option<C>,
    StorageError,
>)
    ensures
        match parsed {
            None => r matches Ok(None),
            Some(Ok(condition)) => r matches Ok(Some(out)) && out == condition,
            Some(Err(_)) => r matches Err(StorageError::ConditionalCheckFailed { item: None }),
        },
{
    match parsed {
        None => Ok(None),
        Some(Ok(condition)) => Ok(Some(condition)),
        Some(Err(_)) => Err(StorageError::ConditionalCheckFailed { item: None }),
    }
}

/// How consistent the reads of a sequence are with one another.
#[derive(Clone, Copy, Debug, PartialEq, Eq, Structural)]
pub enum ReadSequenceConsistency {
    Eventual,
    Strong,
    Transactional,
}

/// Which connection the reads of a sequence go through.
#[derive(Clone, Copy, Debug, PartialEq, Eq, Structural)]
pub enum ReadSequenceConnection {
    /// The provider's own.
    Own,
    /// One that holds a snapshot, which is to be leased.
    Snapshot,
}

/// Whether an error says that transactional sequences need snapshots.
pub open spec fn snapshot_unsupported(error: StorageError) -> bool {
    error.is_unsupported(
        "sqlite read-sequence transactional contexts require a file-backed provider snapshot connection"@,
    )
}

fn refuse_snapshot() -> (r: StorageError)
    ensures
        snapshot_unsupported(r),
{
    StorageError::unsupported(
        "sqlite read-sequence transactional contexts require a file-backed provider snapshot connection",
    )
}

/// A context for a sequence of reads.
#[derive(Clone, Copy, Debug, PartialEq, Eq, Structural)]
pub struct ReadSequenceContext {
    pub consistency: ReadSequenceConsistency,
    pub has_snapshot_lease: bool,
}

impl ReadSequenceContext {
    /// Refuses reads that are to be transactional without a snapshot.
    pub fn ensure_supported(&self) -> (r: Result<(), StorageError>)
        ensures
            r is Err <==> self.consistency == ReadSequenceConsistency::Transactional
                && !self.has_snapshot_lease,
            r matches Err(e) ==> snapshot_unsupported(e),
    {
        if self.consistency == ReadSequenceConsistency::Transactional && !self.has_snapshot_lease {
            return Err(refuse_snapshot());
        }
        Ok(())
    }
}

impl SQLiteStorageProvider {
    /// Whether writes under durable guards are offered.
    pub fn supports_guarded_writes(&self) -> (r: bool)
        ensures
            r,
    {
        true
    }

    /// Whether transactions under durable guards are offered.
    pub fn supports_guarded_transaction_writes(&self) -> (r: bool)
        ensures
            r,
    {
        true
    }

    /// Whether streams can be kept as long as is asked for.
    pub fn supports_custom_stream_duration(&self) -> (r: bool)
        ensures
            r,
    {
        true
    }

    /// Whether changes of tables can be listed.
    pub fn supports_change_index(&self) -> (r: bool)
        ensures
            r,
    {
        true
    }

    /// Begins a sequence of reads: a transactional one goes through a snapshot, which
    /// only a database in a file has.
    pub fn begin_read_sequence_read_context(&self, consistency: ReadSequenceConsistency) -> (r:
        Result<(ReadSequenceConnection, ReadSequenceContext), StorageError>)
        ensures
            if consistency != ReadSequenceConsistency::Transactional {
                r matches Ok((connection, context)) && connection == ReadSequenceConnection::Own
                    && context == (ReadSequenceContext { consistency, has_snapshot_lease: false })
            } else if self.has_snapshot_connections {
                r matches Ok((connection, context)) && connection
                    == ReadSequenceConnection::Snapshot && context == (ReadSequenceContext {
                    consistency,
                    has_snapshot_lease: true,
                })
            } else {
                r matches Err(e) && snapshot_unsupported(e)
            },
    {
        if consistency != ReadSequenceConsistency::Transactional {
            return Ok(
                (
                    ReadSequenceConnection::Own,
                    ReadSequenceContext { consistency, has_snapshot_lease: false },
                ),
            );
        }
        if !self.has_snapshot_connections {
            return Err(refuse_snapshot());
        }
        Ok(
            (
                ReadSequenceConnection::Snapshot,
                ReadSequenceContext { consistency, has_snapshot_lease: true },
            ),
        )
    }
}

/// What a read of one item is told as: the item's bytes, where it was found.
pub fn get_item_totals(payload_len: Option<usize>) -> (r: (usize, usize))
    ensures
        r == (match payload_len {
            Some(len) => (1usize, len),
            None => (0usize, 0usize),
        }),
{
    match payload_len {
        Some(len) => (1, len),
        None => (0, 0),
    }
}

/// Whether a read of one item is done at all: an empty key finds nothing.
pub fn get_item_reads(key: &Item) -> (r: bool)
    ensures
        r == !key.spec_is_empty(),
{
    !key.is_empty()
}

/// Refuses a read for a durable proof without a key.
pub fn get_item_with_durable_proof(key: &Item) -> (r: Result<(), StorageError>)
    ensures
        r is Err <==> key.spec_is_empty(),
        r matches Err(e) ==> e == StorageError::InvalidOrMissingKey,
{
    if key.is_empty() {
        return Err(StorageError::InvalidOrMissingKey);
    }
    Ok(())
}

/// Whether the removal of an item is done at all: an empty key names none.
pub fn delete_item_writes(key: &Item) -> (r: bool)
    ensures
        r == !key.spec_is_empty(),
{
    !key.is_empty()
}

/// What removing an item is told as: one item where there was one.
pub fn delete_item_totals(removed: bool) -> (r: (usize, usize))
    ensures
        r == (if removed {
            1usize
        } else {
            0usize
        }, 0usize),
{
    (if removed {
        1
    } else {
        0
    }, 0)
}

/// A write under a durable guard.
#[derive(Clone, Copy, Debug, PartialEq, Eq, Structural)]
pub enum GuardedWrite {
    Put,
    Delete,
    Update,
}

/// One thing to do for a guarded write; the first that fails ends it.
#[derive(Clone, Copy, Debug, PartialEq, Eq, Structural)]
pub enum GuardedAction {
    /// Slow down where indexes lag behind.
    ApplyGsiWritePressure,
    /// Parse the condition.
    ParseCondition,
    /// Read what is known of the table.
    LoadTable,
    /// Take the key out of the item.
    ExtractKey,
    /// Begin a transaction, which ends with the write.
    BeginTransaction,
    /// Parse the update and its condition.
    PrepareUpdate,
    /// Hold the guard against the stored item.
    ValidateGuard,
    /// Write the item.
    Write,
}

/// The actions of a guarded write.
pub open spec fn guarded_plan(write: GuardedWrite) -> Seq<GuardedAction> {
    match write {
        GuardedWrite::Put => seq![
            GuardedAction::ApplyGsiWritePressure,
            GuardedAction::ParseCondition,
            GuardedAction::LoadTable,
            GuardedAction::ExtractKey,
            GuardedAction::BeginTransaction,
            GuardedAction::ValidateGuard,
            GuardedAction::Write,
        ],
        GuardedWrite::Delete => seq![
            GuardedAction::ApplyGsiWritePressure,
            GuardedAction::ParseCondition,
            GuardedAction::BeginTransaction,
            GuardedAction::ValidateGuard,
            GuardedAction::Write,
        ],
        GuardedWrite::Update => seq![
            GuardedAction::ApplyGsiWritePressure,
            GuardedAction::BeginTransaction,
            GuardedAction::PrepareUpdate,
            GuardedAction::ValidateGuard,
            GuardedAction::Write,
        ],
    }
}

/// The actions of a guarded write.
pub fn guarded_write_actions(write: GuardedWrite) -> (r: Vec<GuardedAction>)
    ensures
        r@ == guarded_plan(write),
{
    match write {
        GuardedWrite::Put => vec![
            GuardedAction::ApplyGsiWritePressure,
            GuardedAction::ParseCondition,
            GuardedAction::LoadTable,
            GuardedAction::ExtractKey,
            GuardedAction::BeginTransaction,
            GuardedAction::ValidateGuard,
            GuardedAction::Write,
        ],
        GuardedWrite::Delete => vec![
            GuardedAction::ApplyGsiWritePressure,
            GuardedAction::ParseCondition,
            GuardedAction::BeginTransaction,
            GuardedAction::ValidateGuard,
            GuardedAction::Write,
        ],
        GuardedWrite::Update => vec![
            GuardedAction::ApplyGsiWritePressure,
            GuardedAction::BeginTransaction,
            GuardedAction::PrepareUpdate,
            GuardedAction::ValidateGuard,
            GuardedAction::Write,
        ],
    }
}

/// A guarded write is performed last, right after its guard was held against the stored
/// item, and both happen in one transaction.
pub proof fn law_guard_comes_right_before_the_write(write: GuardedWrite)
    ensures
        ({
            let plan = guarded_plan(write);
            let n = plan.len() as int;
            &&& plan[n - 1] == GuardedAction::Write
            &&& plan[n - 2] == GuardedAction::ValidateGuard
            &&& exists|i: int| 0 <= i < n - 2 && #[trigger] plan[i] == GuardedAction::BeginTransaction
        }),
{
    let plan = guarded_plan(write);
    match write {
        GuardedWrite::Put => assert(plan[4] == GuardedAction::BeginTransaction),
        GuardedWrite::Delete => assert(plan[2] == GuardedAction::BeginTransaction),
        GuardedWrite::Update => assert(plan[1] == GuardedAction::BeginTransaction),
    }
}

/// Where the actions of a guarded write begin their transaction.
pub open spec fn begins_at(write: GuardedWrite) -> int {
    match write {
        GuardedWrite::Put => 4,
        GuardedWrite::Delete => 2,
        GuardedWrite::Update => 1,
    }
}

/// What a guarded write needs done.
#[derive(Clone, Copy, Debug, PartialEq, Eq, Structural)]
pub enum GuardedStep {
    /// Perform an action.
    Act(GuardedAction),
    /// Commit the transaction.
    Commit,
    /// Roll the transaction back.
    Rollback,
}

/// How far a guarded write has come.
pub enum GuardedState {
    /// The action of a place in the order is being performed.
    Acting { place: usize },
    Committing,
    /// The write has failed.
    RollingBack(StorageError),
}

/// What came of a step.
pub enum GuardedEvent {
    Acted(Result<(), StorageError>),
    Committed(Result<(), StorageError>),
    RolledBack(Result<(), StorageError>),
}

/// What a guarded write does next.
pub type GuardedWriteStep = Step<GuardedState, GuardedStep, Result<(), StorageError>>;

impl GuardedState {
    /// Whether the state of a write waits for an event.
    pub open spec fn awaits(self, write: GuardedWrite, event: GuardedEvent) -> bool {
        match self {
            GuardedState::Acting { place } => place < guarded_plan(write).len() && event is Acted,
            GuardedState::Committing => event is Committed,
            GuardedState::RollingBack(_) => event is RolledBack,
        }
    }
}

/// Whether a guarded write goes on with the action of a place.
pub open spec fn acts_at(write: GuardedWrite, place: int, step: GuardedWriteStep) -> bool {
    step matches Step::Perform { state: GuardedState::Acting { place: p }, action } && p == place
        && action == GuardedStep::Act(guarded_plan(write)[place])
}

/// How a guarded write goes on after an event: its actions are performed in their order,
/// and its transaction is committed after the last. An action that fails ends the write
/// with its error, once the transaction was rolled back where it had begun.
pub open spec fn guarded_next(
    write: GuardedWrite,
    state: GuardedState,
    event: GuardedEvent,
    step: GuardedWriteStep,
) -> bool {
    match (state, event) {
        (GuardedState::Acting { place }, GuardedEvent::Acted(Ok(_))) => if place + 1
            < guarded_plan(write).len() {
            acts_at(write, place + 1, step)
        } else {
            step matches Step::Perform {
                state: GuardedState::Committing,
                action: GuardedStep::Commit,
            }
        },
        (GuardedState::Acting { place }, GuardedEvent::Acted(Err(e))) => if place < begins_at(
            write,
        ) {
            step matches Step::Finish(Err(out)) && out == e
        } else if place == begins_at(write) {
            step matches Step::Finish(Err(out)) && out.is_context("transaction start"@, e)
        } else {
            step matches Step::Perform {
                state: GuardedState::RollingBack(kept),
                action: GuardedStep::Rollback,
            } && kept == e
        },
        (_, GuardedEvent::Committed(Ok(_))) => step matches Step::Finish(Ok(_)),
        (_, GuardedEvent::Committed(Err(e))) => step matches Step::Finish(Err(out))
            && out.is_context("transaction commit"@, e),
        (GuardedState::RollingBack(e), GuardedEvent::RolledBack(Ok(_))) => step matches
            Step::Finish(Err(out)) && out == e,
        (_, GuardedEvent::RolledBack(Err(e))) => step matches Step::Finish(Err(out))
            && out.is_context("transaction rollback"@, e),
        _ => false,
    }
}

/// Starts a guarded write.
pub fn start_guarded_write(write: GuardedWrite) -> (r: GuardedWriteStep)
    ensures
        acts_at(write, 0, r),
{
    let actions = guarded_write_actions(write);
    Step::Perform { state: GuardedState::Acting { place: 0 }, action: GuardedStep::Act(actions[0]) }
}

/// Performs a write under a durable guard.
pub fn guarded_write(write: GuardedWrite, state: GuardedState, event: GuardedEvent) -> (r:
    GuardedWriteStep)
    requires
        state.awaits(write, event),
    ensures
        guarded_next(write, state, event, r),
{
    match (state, event) {
        (GuardedState::Acting { place }, GuardedEvent::Acted(Ok(()))) => {
            let actions = guarded_write_actions(write);
            if place + 1 < actions.len() {
                Step::Perform {
                    state: GuardedState::Acting { place: place + 1 },
                    action: GuardedStep::Act(actions[place + 1]),
                }
            } else {
                Step::Perform { state: GuardedState::Committing, action: GuardedStep::Commit }
            }
        },
        (GuardedState::Acting { place }, GuardedEvent::Acted(Err(e))) => {
            let begins: usize = match write {
                GuardedWrite::Put => 4,
                GuardedWrite::Delete => 2,
                GuardedWrite::Update => 1,
            };
            if place < begins {
                Step::Finish(Err(e))
            } else if place == begins {
                Step::Finish(Err(e.context("transaction start")))
            } else {
                Step::Perform {
                    state: GuardedState::RollingBack(e),
                    action: GuardedStep::Rollback,
                }
            }
        },
        (_, GuardedEvent::Committed(Ok(()))) => Step::Finish(Ok(())),
        (_, GuardedEvent::Committed(Err(e))) => Step::Finish(Err(e.context("transaction commit"))),
        (GuardedState::RollingBack(e), GuardedEvent::RolledBack(Ok(()))) => Step::Finish(Err(e)),
        (_, GuardedEvent::RolledBack(Err(e))) => Step::Finish(
            Err(e.context("transaction rollback")),
        ),
        (_, _) => {
            assert(false);
            Step::Finish(Ok(()))
        },
    }
}

/// Whether steps are those of a guarded write, each from the one before and an event.
pub open spec fn guarded_run(
    write: GuardedWrite,
    events: Seq<GuardedEvent>,
    steps: Seq<GuardedWriteStep>,
) -> bool {
    &&& steps.len() == events.len() + 1
    &&& acts_at(write, 0, steps[0])
    &&& forall|k: int|
        0 <= k < events.len() ==> {
            &&& (#[trigger] steps[k]) is Perform
            &&& steps[k]->state.awaits(write, events[k])
            &&& guarded_next(write, steps[k]->state, events[k], steps[k + 1])
        }
}

/// Whether what an event tells of went well.
pub open spec fn succeeded(event: GuardedEvent) -> bool {
    match event {
        GuardedEvent::Acted(result) => result is Ok,
        GuardedEvent::Committed(result) => result is Ok,
        GuardedEvent::RolledBack(result) => result is Ok,
    }
}

/// Whether a step performs an action.
pub open spec fn performs(step: GuardedWriteStep, wanted: GuardedAction) -> bool {
    step matches Step::Perform { action, .. } && action == GuardedStep::Act(wanted)
}

/// Whether a step performs the action of its place in the order, or none.
spec fn acts_in_order(write: GuardedWrite, k: int, step: GuardedWriteStep) -> bool {
    step matches Step::Perform { state, action } ==> (if state is Acting {
        k < guarded_plan(write).len() && acts_at(write, k, step)
    } else {
        !(action is Act)
    })
}

proof fn lemma_guarded_run_in_order(
    write: GuardedWrite,
    events: Seq<GuardedEvent>,
    steps: Seq<GuardedWriteStep>,
    k: int,
)
    requires
        guarded_run(write, events, steps),
        0 <= k < steps.len(),
    ensures
        acts_in_order(write, k, steps[k]),
    decreases k,
{
    if k > 0 {
        lemma_guarded_run_in_order(write, events, steps, k - 1);
        assert(steps[k - 1] is Perform);
        assert(guarded_next(write, steps[k - 1]->state, events[k - 1], steps[k]));
    }
}

/// A guarded write whose guard does not hold never writes: its transaction is rolled
/// back next, and the write ends with the guard's own error.
pub proof fn law_failed_guard_writes_nothing(
    write: GuardedWrite,
    events: Seq<GuardedEvent>,
    steps: Seq<GuardedWriteStep>,
    j: int,
    error: StorageError,
)
    requires
        guarded_run(write, events, steps),
        0 <= j < events.len(),
        performs(steps[j], GuardedAction::ValidateGuard),
        events[j] == GuardedEvent::Acted(Err(error)),
    ensures
        forall|k: int| 0 <= k < steps.len() ==> !performs(#[trigger] steps[k], GuardedAction::Write),
        steps[j + 1] matches Step::Perform { action, .. } && action == GuardedStep::Rollback,
        j + 1 < events.len() && succeeded(events[j + 1]) ==> (steps.len() == j + 3 && (steps.last() matches Step::Finish(Err(e)) && e == error)),
{
    lemma_guarded_run_in_order(write, events, steps, j);
    assert(steps[j] is Perform);
    assert(guarded_next(write, steps[j]->state, events[j], steps[j + 1]));
    if j + 1 < events.len() {
        assert(steps[j + 1] is Perform);
        assert(guarded_next(write, steps[j + 1]->state, events[j + 1], steps[j + 2]));
        assert(steps[j + 2] is Finish);
        if j + 2 < events.len() {
            assert(steps[j + 2] is Perform);
        }
    }
    assert forall|k: int| 0 <= k < steps.len() implies !performs(
        #[trigger] steps[k],
        GuardedAction::Write,
    ) by {
        lemma_guarded_run_in_order(write, events, steps, k);
    }
}

/// A guarded write succeeds only where all its actions did, the guard among them, and its
/// transaction was committed.
pub proof fn law_guarded_success_follows_commit(
    write: GuardedWrite,
    events: Seq<GuardedEvent>,
    steps: Seq<GuardedWriteStep>,
)
    requires
        guarded_run(write, events, steps),
        steps.last() matches Step::Finish(Ok(_)),
    ensures
        events.len() == guarded_plan(write).len() + 1,
        events.last() is Committed && succeeded(events.last()),
        forall|k: int|
            0 <= k < guarded_plan(write).len() ==> succeeded(#[trigger] events[k]) && performs(
                steps[k],
                guarded_plan(write)[k],
            ),
{
    let last = events.len() - 1;
    if events.len() == 0 {
        assert(acts_at(write, 0, steps[0]));
    }
    assert(steps[last] is Perform);
    assert(guarded_next(write, steps[last]->state, events[last], steps[last + 1]));
    assert(steps[last]->state is Committing);
    lemma_committing_follows_all(write, events, steps, last);
}

proof fn lemma_committing_follows_all(
    write: GuardedWrite,
    events: Seq<GuardedEvent>,
    steps: Seq<GuardedWriteStep>,
    k: int,
)
    requires
        guarded_run(write, events, steps),
        0 <= k < steps.len(),
        steps[k] is Perform,
        !(steps[k]->state is RollingBack),
    ensures
        steps[k]->state is Committing ==> k == guarded_plan(write).len(),
        steps[k]->state is Acting ==> acts_at(write, k, steps[k]),
        forall|i: int|
            0 <= i < k ==> succeeded(#[trigger] events[i]) && performs(
                steps[i],
                guarded_plan(write)[i],
            ),
    decreases k,
{
    if k > 0 {
        assert(steps[k - 1] is Perform);
        assert(steps[k - 1]->state.awaits(write, events[k - 1]));
        assert(guarded_next(write, steps[k - 1]->state, events[k - 1], steps[k]));
        assert(steps[k - 1]->state is Acting);
        lemma_committing_follows_all(write, events, steps, k - 1);
    }
}

/// What a put answers: the item that was stored before, where it was asked for.
pub fn put_item_response(return_old: bool, old_item: Option<Item>) -> (r: Option<Item>)
    ensures
        r == (if return_old {
            old_item
        } else {
            None
        }),
{
    if return_old {
        old_item
    } else {
        None
    }
}

/// Whether the first items could be decoded, as far as a number of them.
pub open spec fn decoded_before(items: Seq<Result<Item, StorageError>>, n: int) -> bool {
    forall|i: int| 0 <= i < n ==> (#[trigger] items[i]) is Ok
}

/// Whether an error is that of the first item that could not be decoded.
pub open spec fn first_refusal(
    items: Seq<Result<Item, StorageError>>,
    i: int,
    error: StorageError,
) -> bool {
    0 <= i < items.len() && decoded_before(items, i) && items[i] == Err::<Item, StorageError>(error)
}

/// Whether items are those that were decoded.
pub open spec fn decoded_items(items: Seq<Result<Item, StorageError>>, decoded: Seq<Item>) -> bool {
    decoded.len() == items.len() && forall|i: int|
        0 <= i < items.len() ==> items[i] == Ok::<Item, StorageError>(#[trigger] decoded[i])
}

fn decode_items(items: Vec<Result<Item, StorageError>>) -> (r: Result<Vec<Item>, StorageError>)
    ensures
        match r {
            Ok(decoded) => decoded_items(items@, decoded@),
            Err(e) => exists|i: int| first_refusal(items@, i, e),
        },
{
    let ghost given = items@;
    let mut left = items;
    let n: usize = left.len();
    let mut decoded: Vec<Item> = Vec::new();
    let mut i: usize = 0;
    while i < n
        invariant
            i <= n == given.len(),
            given == items@,
            left@ == given.skip(i as int),
            decoded@.len() == i,
            decoded_before(given, i as int),
            forall|j: int|
                0 <= j < i ==> given[j] == Ok::<Item, StorageError>(#[trigger] decoded@[j]),
        decreases n - i,
    {
        let item = left.remove(0);
        assert(item == given[i as int]);
        assert(left@ =~= given.skip(i + 1));
        match item {
            Ok(item) => {
                decoded.push(item);
            },
            Err(e) => {
                assert(first_refusal(items@, i as int, e));
                return Err(e);
            },
        }
        i = i + 1;
    }
    Ok(decoded)
}

/// What reading a page of a table answers.
pub open spec fn page_answer(
    items: Seq<Result<Item, StorageError>>,
    last_evaluated_key: Option<String>,
    answer: Result<(Vec<Item>, Option<String>), StorageError>,
) -> bool {
    match answer {
        Ok((decoded, last)) => decoded_items(items, decoded@) && last == last_evaluated_key,
        Err(e) => exists|i: int| first_refusal(items, i, e),
    }
}

/// The items of one table, each as far as it could be decoded.
pub struct TableItems {
    pub table_name: String,
    pub items: Vec<Result<Item, StorageError>>,
}

/// The items of one table.
#[derive(Debug, PartialEq, Eq)]
pub struct DecodedTableItems {
    pub table_name: String,
    pub items: Vec<Item>,
}

/// Whether every item of the first tables could be decoded, as far as a number of them.
pub open spec fn tables_decoded_before(tables: Seq<TableItems>, n: int) -> bool {
    forall|i: int|
        0 <= i < n ==> decoded_before(
            (#[trigger] tables[i]).items@,
            tables[i].items@.len() as int,
        )
}

/// Whether an error is that of the first item, over the tables in order, that could not
/// be decoded.
pub open spec fn first_table_refusal(
    tables: Seq<TableItems>,
    t: int,
    i: int,
    error: StorageError,
) -> bool {
    0 <= t < tables.len() && tables_decoded_before(tables, t) && first_refusal(
        tables[t].items@,
        i,
        error,
    )
}

/// Whether the items of a table are those that were decoded.
pub open spec fn decoded_table(table: TableItems, decoded: DecodedTableItems) -> bool {
    decoded.table_name == table.table_name && decoded_items(table.items@, decoded.items@)
}

fn decode_tables(tables: Vec<TableItems>) -> (r: Result<Vec<DecodedTableItems>, StorageError>)
    ensures
        match r {
            Ok(decoded) => decoded@.len() == tables@.len() && forall|t: int|
                0 <= t < tables@.len() ==> decoded_table(tables@[t], #[trigger] decoded@[t]),
            Err(e) => exists|t: int, i: int| first_table_refusal(tables@, t, i, e),
        },
{
    let ghost given = tables@;
    let mut left = tables;
    let n: usize = left.len();
    let mut decoded: Vec<DecodedTableItems> = Vec::new();
    let mut t: usize = 0;
    while t < n
        invariant
            t <= n == given.len(),
            given == tables@,
            left@ == given.skip(t as int),
            decoded@.len() == t,
            tables_decoded_before(given, t as int),
            forall|j: int| 0 <= j < t ==> decoded_table(given[j], #[trigger] decoded@[j]),
        decreases n - t,
    {
        let table = left.remove(0);
        assert(table == given[t as int]);
        assert(left@ =~= given.skip(t + 1));
        match decode_items(table.items) {
            Ok(items) => {
                assert forall|i: int| 0 <= i < table.items@.len() implies (
                #[trigger] table.items@[i]) is Ok by {
                    assert(table.items@[i] == Ok::<Item, StorageError>(items@[i]));
                }
                assert(tables_decoded_before(given, t + 1));
                decoded.push(DecodedTableItems { table_name: table.table_name, items });
            },
            Err(e) => {
                proof {
                    let i = choose|i: int| first_refusal(table.items@, i, e);
                    assert(first_table_refusal(tables@, t as int, i, e));
                }
                return Err(e);
            },
        }
        t = t + 1;
    }
    Ok(decoded)
}

impl SQLiteStorageProvider {
    /// What a scan answers, from its page: the items, and the key to go on from. The
    /// first item that could not be decoded decides the error.
    pub fn scan_table(
        &self,
        items: Vec<Result<Item, StorageError>>,
        last_evaluated_key: Option<String>,
    ) -> (r: Result<(Vec<Item>, Option<String>), StorageError>)
        ensures
            page_answer(items@, last_evaluated_key, r),
    {
        match decode_items(items) {
            Ok(decoded) => Ok((decoded, last_evaluated_key)),
            Err(e) => Err(e),
        }
    }

    /// What a query answers, from its page, as a scan does.
    pub fn query_table(
        &self,
        items: Vec<Result<Item, StorageError>>,
        last_evaluated_key: Option<String>,
    ) -> (r: Result<(Vec<Item>, Option<String>), StorageError>)
        ensures
            page_answer(items@, last_evaluated_key, r),
    {
        match decode_items(items) {
            Ok(decoded) => Ok((decoded, last_evaluated_key)),
            Err(e) => Err(e),
        }
    }

    /// What a read of many items answers, table by table. The first item that could not
    /// be decoded decides the error.
    pub fn batch_get_item(&self, responses: Option<Vec<TableItems>>) -> (r: Result<
        Option<Vec<DecodedTableItems>>,
        StorageError,
    >)
        ensures
            match (responses, r) {
                (None, r) => r matches Ok(None),
                (Some(tables), Ok(decoded)) => decoded matches Some(decoded) && decoded@.len()
                    == tables@.len() && forall|t: int|
                    0 <= t < tables@.len() ==> decoded_table(tables@[t], #[trigger] decoded@[t]),
                (Some(tables), Err(e)) => exists|t: int, i: int|
                    first_table_refusal(tables@, t, i, e),
            },
    {
        match responses {
            None => Ok(None),
            Some(tables) => match decode_tables(tables) {
                Ok(decoded) => Ok(Some(decoded)),
                Err(e) => Err(e),
            },
        }
    }
}

/// What a replicated change does: store the new image, or remove the item where there is
/// none.
pub enum ReplicationWrite {
    Put { new_image: Item, bytes: usize },
    Delete,
}

/// What a replicated change does, and what it is told as.
pub fn apply_replication_mutation(new_image: Option<(Item, usize)>) -> (r: (
    ReplicationWrite,
    (usize, usize),
))
    ensures
        match new_image {
            Some((image, size)) => r.0 == (ReplicationWrite::Put { new_image: image, bytes: size })
                && r.1 == (1usize, size),
            None => r.0 == ReplicationWrite::Delete && r.1 == (1usize, 0usize),
        },
{
    match new_image {
        Some((new_image, bytes)) => (ReplicationWrite::Put { new_image, bytes }, (1, bytes)),
        None => (ReplicationWrite::Delete, (1, 0)),
    }
}

/// A change of a table.
#[derive(Debug, PartialEq, Eq)]
pub struct ChangeIndexMarker {
    pub slot: u16,
    pub versionstamp: String,
    pub table_id: String,
}

/// A change of a table, as it is stored.
pub struct ChangeIndexRow {
    pub slot: i64,
    pub versionstamp: String,
    pub table_id: String,
}

/// Reads the first changes of a slot after a given one, or from the start.
pub fn list_change_index_markers_statement(
    slot: u16,
    after_versionstamp: Option<&str>,
    limit: usize,
) -> (r: Result<Statement, StorageError>)
    ensures
        if limit <= i64::MAX {
            r matches Ok(s) && s@ == (StatementView {
                sql: LIST_CHANGE_INDEX_MARKERS@,
                args: seq![
                    SqlArg::Integer(slot as int),
                    SqlArg::Text(
                        match after_versionstamp {
                            Some(after) => after@,
                            None => Seq::empty(),
                        },
                    ),
                    SqlArg::Integer(limit as int),
                ],
            })
        } else {
            r matches Err(e) && e.is_validation("change index list limit exceeds i64"@)
        },
{
    if limit as u64 > i64::MAX as u64 {
        return Err(StorageError::validation("change index list limit exceeds i64"));
    }
    let after = match after_versionstamp {
        Some(after) => after.to_owned(),
        None => String::new(),
    };
    Ok(statement(list_change_index_markers(slot, after.as_str(), limit as i64)))
}

/// Whether a marker is that of a stored row.
pub open spec fn marker_of(row: ChangeIndexRow, marker: ChangeIndexMarker) -> bool {
    row.slot == marker.slot && row.versionstamp == marker.versionstamp && row.table_id
        == marker.table_id
}

/// The changes, from the rows as they are stored: every slot must be in range.
pub fn change_index_markers(rows: Vec<ChangeIndexRow>) -> (r: Result<
    Vec<ChangeIndexMarker>,
    StorageError,
>)
    ensures
        r is Ok <==> forall|i: int|
            0 <= i < rows@.len() ==> 0 <= (#[trigger] rows@[i]).slot <= u16::MAX,
        r matches Ok(markers) ==> markers@.len() == rows@.len() && forall|i: int|
            0 <= i < rows@.len() ==> marker_of(rows@[i], #[trigger] markers@[i]),
        r matches Err(e) ==> e.is_internal("change index slot is outside u16 range"@),
{
    let ghost given = rows@;
    let mut left = rows;
    let n: usize = left.len();
    let mut markers: Vec<ChangeIndexMarker> = Vec::new();
    let mut i: usize = 0;
    while i < n
        invariant
            i <= n == given.len(),
            given == rows@,
            left@ == given.skip(i as int),
            markers@.len() == i,
            forall|j: int| 0 <= j < i ==> 0 <= (#[trigger] given[j]).slot <= u16::MAX,
            forall|j: int| 0 <= j < i ==> marker_of(given[j], #[trigger] markers@[j]),
        decreases n - i,
    {
        let row = left.remove(0);
        assert(row == given[i as int]);
        assert(left@ =~= given.skip(i + 1));
        if row.slot < 0 || row.slot > 65535 {
            return Err(StorageError::internal("change index slot is outside u16 range"));
        }
        markers.push(
            ChangeIndexMarker {
                slot: row.slot as u16,
                versionstamp: row.versionstamp,
                table_id: row.table_id,
            },
        );
        i = i + 1;
    }
    Ok(markers)
}

/// A transactional sequence of reads that could be begun is never refused a read.
pub proof fn law_begun_contexts_are_supported(
    provider: SQLiteStorageProvider,
    consistency: ReadSequenceConsistency,
    begun: (ReadSequenceConnection, ReadSequenceContext),
)
    requires
        call_ensures(
            SQLiteStorageProvider::begin_read_sequence_read_context,
            (&provider, consistency),
            Ok::<(ReadSequenceConnection, ReadSequenceContext), StorageError>(begun),
        ),
    ensures
        !(begun.1.consistency == ReadSequenceConsistency::Transactional
            && !begun.1.has_snapshot_lease),
{
}

} // verus!
