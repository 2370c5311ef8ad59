//! Running an operation inside a database transaction.
use crate::error::StorageError;
use crate::machine::Step;
use vstd::prelude::*;

verus! {

/// How far a transaction has come. `T` is what the operation inside it yields.
pub enum TransactionState<T> {
    Starting,
    Operating,
    Committing(T),
    RollingBack(StorageError),
}

/// What a transaction needs done.
#[derive(Clone, Copy, Debug, PartialEq, Eq, Structural)]
pub enum TransactionAction {
    Begin,
    Operate,
    Commit,
    Rollback,
}

/// What came of an action.
pub enum TransactionEvent<T> {
    Began(Result<(), StorageError>),
    Operated(Result<T, StorageError>),
    Committed(Result<(), StorageError>),
    RolledBack(Result<(), StorageError>),
}

impl<T> TransactionState<T> {
    /// The action whose outcome the state waits for.
    pub open spec fn awaited(self) -> TransactionAction {
        match self {
            TransactionState::Starting => TransactionAction::Begin,
            TransactionState::Operating => TransactionAction::Operate,
            TransactionState::Committing(_) => TransactionAction::Commit,
            TransactionState::RollingBack(_) => TransactionAction::Rollback,
        }
    }
}

impl<T> TransactionEvent<T> {
    /// The action that the event is the outcome of.
    pub open spec fn of(self) -> TransactionAction {
        match self {
            TransactionEvent::Began(_) => TransactionAction::Begin,
            TransactionEvent::Operated(_) => TransactionAction::Operate,
            TransactionEvent::Committed(_) => TransactionAction::Commit,
            TransactionEvent::RolledBack(_) => TransactionAction::Rollback,
        }
    }
}

/// How a transaction goes on after an event.
pub open spec fn transaction_next<T>(
    state: TransactionState<T>,
    event: TransactionEvent<T>,
    step: Step<TransactionState<T>, TransactionAction, Result<T, StorageError>>,
) -> bool {
    match (state, event) {
        (_, TransactionEvent::Began(Ok(_))) => step matches Step::Perform {
            state: TransactionState::Operating,
            action: TransactionAction::Operate,
        },
        (_, TransactionEvent::Began(Err(e))) => step matches Step::Finish(Err(out))
            && out.is_context("transaction start"@, e),
        (_, TransactionEvent::Operated(Ok(value))) => step matches Step::Perform {
            state: TransactionState::Committing(kept),
            action: TransactionAction::Commit,
        } && kept == value,
        (_, TransactionEvent::Operated(Err(e))) => step matches Step::Perform {
            state: TransactionState::RollingBack(kept),
            action: TransactionAction::Rollback,
        } && kept == e,
        (TransactionState::Committing(value), TransactionEvent::Committed(Ok(_))) => step matches
            Step::Finish(Ok(out)) && out == value,
        (_, TransactionEvent::Committed(Err(e))) => step matches Step::Finish(Err(out))
            && out.is_context("transaction commit"@, e),
        (TransactionState::RollingBack(e), TransactionEvent::RolledBack(Ok(_))) => step matches
            Step::Finish(Err(out)) && out == e,
        (_, TransactionEvent::RolledBack(Err(e))) => step matches Step::Finish(Err(out))
            && out.is_context("transaction rollback"@, e),
        _ => false,
    }
}

/// The first action of a transaction.
pub fn start_transaction<T>() -> (r: Step<TransactionState<T>, TransactionAction, Result<T, StorageError>>)
    ensures
        r matches Step::Perform {
            state: TransactionState::Starting,
            action: TransactionAction::Begin,
        },
{
    Step::Perform { state: TransactionState::Starting, action: TransactionAction::Begin }
}

/// Runs an operation in a transaction: begins it, and commits it where the
/// operation succeeds and rolls it back where it fails. The result is the
/// operation's, unless beginning, committing or rolling back fails itself.
pub fn with_transaction<T>(state: TransactionState<T>, event: TransactionEvent<T>) -> (r: Step<
    TransactionState<T>,
    TransactionAction,
    Result<T, StorageError>,
>)
    requires
        state.awaited() == event.of(),
    ensures
        transaction_next(state, event, r),
{
    match (state, event) {
        (TransactionState::Starting, TransactionEvent::Began(Ok(()))) => Step::Perform {
            state: TransactionState::Operating,
            action: TransactionAction::Operate,
        },
        (_, TransactionEvent::Began(Err(error))) => Step::Finish(
            Err(error.context("transaction start")),
        ),
        (TransactionState::Operating, TransactionEvent::Operated(Ok(value))) => Step::Perform {
            state: TransactionState::Committing(value),
            action: TransactionAction::Commit,
        },
        (_, TransactionEvent::Operated(Err(error))) => Step::Perform {
            state: TransactionState::RollingBack(error),
            action: TransactionAction::Rollback,
        },
        (TransactionState::Committing(value), TransactionEvent::Committed(Ok(()))) => Step::Finish(
            Ok(value),
        ),
        (_, TransactionEvent::Committed(Err(error))) => Step::Finish(
            Err(error.context("transaction commit")),
        ),
        (TransactionState::RollingBack(error), TransactionEvent::RolledBack(Ok(()))) => Step::Finish(
            Err(error),
        ),
        (_, TransactionEvent::RolledBack(Err(error))) => Step::Finish(
            Err(error.context("transaction rollback")),
        ),
        (_, _) => {
            assert(false);
            Step::Finish(Err(StorageError::internal("transaction event out of turn")))
        },
    }
}

/// A transaction is committed only where its operation has succeeded, and rolled
/// back only where it has failed.
pub proof fn law_commit_follows_success<T>(
    state: TransactionState<T>,
    event: TransactionEvent<T>,
    step: Step<TransactionState<T>, TransactionAction, Result<T, StorageError>>,
)
    requires
        state.awaited() == event.of(),
        transaction_next(state, event, step),
    ensures
        (step matches Step::Perform { action, .. } && action == TransactionAction::Commit) <==> (
        event matches TransactionEvent::Operated(Ok(_))),
        (step matches Step::Perform { action, .. } && action == TransactionAction::Rollback) <==> (
        event matches TransactionEvent::Operated(Err(_))),
{
}

/// A transaction yields a value only where it was committed, and then the value
/// that its operation had yielded; one whose rollback went well ends with the
/// error that its operation had ended with.
pub proof fn law_result_is_the_operations<T>(
    operated: TransactionEvent<T>,
    asked: Step<TransactionState<T>, TransactionAction, Result<T, StorageError>>,
    event: TransactionEvent<T>,
    step: Step<TransactionState<T>, TransactionAction, Result<T, StorageError>>,
)
    requires
        operated is Operated,
        transaction_next(TransactionState::Operating, operated, asked),
        asked->state.awaited() == event.of(),
        transaction_next(asked->state, event, step),
    ensures
        step is Finish,
        step->Finish_0 is Ok <==> (operated->Operated_0 is Ok && (event matches
            TransactionEvent::Committed(Ok(_)))),
        step->Finish_0 is Ok ==> step->Finish_0 == operated->Operated_0,
        (event matches TransactionEvent::RolledBack(Ok(_))) ==> step->Finish_0
            == operated->Operated_0,
{
}

} // verus!
