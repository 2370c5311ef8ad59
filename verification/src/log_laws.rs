//! What the log of a replication group comes to, over what its statements store and read.
use crate::error::{tells_step, tells_validation, StorageError};
use crate::machine::Step;
use crate::sql::{statements, Script, SqlArg, Statement, StatementView};
use crate::sync_raft_log_store::{
    append_changes, change_views, in_range, optional_log_id_json, purge_changes, read_metadata,
    starts_beyond, stored_entries, truncate_changes, LogBound, LogEntry, LogId, LogState,
    SqliteSyncRaftLogStore, Vote, PURGE_ENTRIES, READ_ENTRIES, READ_METADATA, READ_RESPONSE,
    TRUNCATE_ENTRIES, UPSERT_ENTRY, UPSERT_METADATA, UPSERT_RESPONSE,
};
use crate::transaction_manager::{
    start_transaction, transaction_next, with_transaction, TransactionAction, TransactionEvent,
    TransactionState,
};
use vstd::prelude::*;

verus! {

/// Whether the statement that reads entries reads that of an index: one from its first
/// argument on, and before its second, where that is a number.
pub open spec fn reads_index(s: StatementView, index: int) -> bool {
    s.args[0]->Integer_0 <= index && (s.args[1] matches SqlArg::Integer(end) ==> index < end)
}

/// Whether a statement stores a piece of metadata.
pub open spec fn notes(s: StatementView, key: Seq<char>) -> bool {
    s.sql == UPSERT_METADATA@ && s.args.len() == 2 && s.args[0] == SqlArg::Text(key)
        && s.args[1] is Text
}

/// The statement of a read reads exactly the stored indexes that lie in the range. Left out
/// is the largest index that SQLite has, where the range starts beyond it: it is read.
pub proof fn law_reads_bind_their_range(
    store: SqliteSyncRaftLogStore,
    start: LogBound,
    end: LogBound,
    s: Statement,
    index: int,
)
    requires
        call_ensures(SqliteSyncRaftLogStore::try_get_log_entries, (&store, start, end), s),
        0 <= index <= i64::MAX,
        !(index == i64::MAX && starts_beyond(start)),
    ensures
        s@.sql == READ_ENTRIES@,
        s@.args.len() == 2,
        s@.args[0] is Integer,
        reads_index(s@, index) <==> in_range(start, end, index),
        reads_index(s@, index) <==> {
            &&& start matches LogBound::Included(first) ==> first <= index
            &&& start matches LogBound::Excluded(before) ==> before < index
            &&& end matches LogBound::Included(last) ==> index <= last
            &&& end matches LogBound::Excluded(after) ==> index < after
        },
{
}

/// Each entry is stored under its own index, as it was given, with the text of its own id:
/// read as that of the last entry, this text gives the id back. Entries are stored in
/// their order, up to the first whose index SQLite cannot hold.
pub proof fn law_entries_are_stored_under_their_index(
    store: SqliteSyncRaftLogStore,
    entries: Vec<LogEntry>,
    script: Script,
    i: int,
    stored: &str,
    state: Result<LogState, StorageError>,
)
    requires
        call_ensures(SqliteSyncRaftLogStore::append_entries, (&store, entries), script),
        0 <= i < script.statements@.len(),
        stored@ == script.statements@[i]@.args[1]->Text_0,
        call_ensures(
            SqliteSyncRaftLogStore::get_log_state,
            (&store, None::<&str>, Some(stored)),
            state,
        ),
    ensures
        i < entries@.len(),
        script.statements@[i]@.sql == UPSERT_ENTRY@,
        script.statements@[i]@.args.len() == 3,
        script.statements@[i]@.args[0] == SqlArg::Integer(entries@[i].log_id.index as int),
        script.statements@[i]@.args[1] is Text,
        script.statements@[i]@.args[2] == SqlArg::Text(entries@[i].entry_json@),
        state == Ok::<LogState, StorageError>(
            LogState { last_purged_log_id: None, last_log_id: Some(entries@[i].log_id) },
        ),
{
    let list = script.statements@;
    let n = list.len() as int;
    let views = change_views(append_changes(stored_entries(entries@.take(n))));
    assert(statements(list)[i] == list[i]@);
    assert(views[i] == append_changes(stored_entries(entries@.take(n)))[i].view());
    assert(entries@.take(n)[i] == entries@[i]);
}

/// Appending stops at the first entry whose index SQLite cannot hold, and only there.
pub proof fn law_appending_stops_at_an_index_beyond(
    store: SqliteSyncRaftLogStore,
    entries: Vec<LogEntry>,
    script: Script,
)
    requires
        call_ensures(SqliteSyncRaftLogStore::append_entries, (&store, entries), script),
    ensures
        script.failure is None <==> forall|i: int|
            0 <= i < entries@.len() ==> (#[trigger] entries@[i]).log_id.index <= i64::MAX,
        script.failure is None ==> script.statements@.len() == entries@.len(),
        script.failure matches Some(e) ==> {
            &&& script.statements@.len() < entries@.len()
            &&& entries@[script.statements@.len() as int].log_id.index > i64::MAX
            &&& tells_validation(e, "raft log index does not fit sqlite integer"@)
        },
        forall|i: int|
            0 <= i < script.statements@.len() ==> (#[trigger] entries@[i]).log_id.index <= i64::MAX,
{
    if script.failure is Some {
        assert(entries@[script.statements@.len() as int].log_id.index > i64::MAX);
    }
}

/// Truncating at an id removes exactly the entries from its index on: those that a read of
/// everything before it does not read.
pub proof fn law_truncating_removes_from_its_index(
    store: SqliteSyncRaftLogStore,
    log_id: LogId,
    removed: Result<Statement, StorageError>,
    read: Statement,
    index: int,
)
    requires
        call_ensures(SqliteSyncRaftLogStore::truncate, (&store, log_id), removed),
        call_ensures(
            SqliteSyncRaftLogStore::try_get_log_entries,
            (&store, LogBound::Unbounded, LogBound::Excluded(log_id.index)),
            read,
        ),
        0 <= index <= i64::MAX,
    ensures
        removed is Ok <==> log_id.index <= i64::MAX,
        removed matches Err(e) ==> tells_validation(
            e,
            "raft truncate index does not fit sqlite integer"@,
        ),
        removed matches Ok(s) ==> {
            &&& s@.sql == TRUNCATE_ENTRIES@
            &&& s@.args == seq![SqlArg::Integer(log_id.index as int)]
            &&& index >= s@.args[0]->Integer_0 <==> !reads_index(read@, index)
        },
{
    if removed is Ok {
        let s = removed->Ok_0@;
        assert(seq![s][0] == change_views(truncate_changes(log_id))[0]);
    }
}

/// Purging up to an id removes exactly the entries up to its index, and notes the id: a log
/// without entries then ends there.
pub proof fn law_purging_removes_up_to_its_index(
    store: SqliteSyncRaftLogStore,
    log_id: LogId,
    removed: Result<Vec<Statement>, StorageError>,
    stored: &str,
    state: Result<LogState, StorageError>,
)
    requires
        call_ensures(SqliteSyncRaftLogStore::purge, (&store, log_id), removed),
        removed is Ok ==> stored@ == removed->Ok_0@[1]@.args[1]->Text_0,
        call_ensures(
            SqliteSyncRaftLogStore::get_log_state,
            (&store, Some(stored), None::<&str>),
            state,
        ),
    ensures
        removed is Ok <==> log_id.index <= i64::MAX,
        removed matches Err(e) ==> tells_validation(
            e,
            "raft purge index does not fit sqlite integer"@,
        ),
        removed matches Ok(list) ==> {
            &&& list@.len() == 2
            &&& list@[0]@.sql == PURGE_ENTRIES@
            &&& list@[0]@.args == seq![SqlArg::Integer(log_id.index as int)]
            &&& notes(list@[1]@, "last_purged"@)
            &&& state == Ok::<LogState, StorageError>(
                LogState { last_purged_log_id: Some(log_id), last_log_id: Some(log_id) },
            )
        },
{
    if removed is Ok {
        let list = removed->Ok_0@;
        assert(statements(list).len() == list.len());
        assert(statements(list)[0] == list[0]@);
        assert(statements(list)[1] == list[1]@);
        assert(change_views(purge_changes(log_id))[0] == purge_changes(log_id)[0].view());
        assert(change_views(purge_changes(log_id))[1] == purge_changes(log_id)[1].view());
    }
}

/// The ends of a log are those of its stored ids: its last entry, or where it was purged to.
pub proof fn law_ends_of_the_log_are_those_stored(
    store: SqliteSyncRaftLogStore,
    purged: LogId,
    purged_text: Result<Vec<Statement>, StorageError>,
    last: LogEntry,
    script: Script,
    one: &str,
    other: &str,
    state: Result<LogState, StorageError>,
    empty: Result<LogState, StorageError>,
)
    requires
        purged.index <= i64::MAX,
        last.log_id.index <= i64::MAX,
        call_ensures(SqliteSyncRaftLogStore::purge, (&store, purged), purged_text),
        exists|entries: Vec<LogEntry>|
            entries@ == seq![last] && #[trigger] call_ensures(
                SqliteSyncRaftLogStore::append_entries,
                (&store, entries),
                script,
            ),
        one@ == purged_text->Ok_0@[1]@.args[1]->Text_0,
        other@ == script.statements@[0]@.args[1]->Text_0,
        call_ensures(
            SqliteSyncRaftLogStore::get_log_state,
            (&store, Some(one), Some(other)),
            state,
        ),
        call_ensures(
            SqliteSyncRaftLogStore::get_log_state,
            (&store, None::<&str>, None::<&str>),
            empty,
        ),
    ensures
        state == Ok::<LogState, StorageError>(
            LogState { last_purged_log_id: Some(purged), last_log_id: Some(last.log_id) },
        ),
        empty == Ok::<LogState, StorageError>(
            LogState { last_purged_log_id: None, last_log_id: None },
        ),
{
    let entries = choose|entries: Vec<LogEntry>|
        entries@ == seq![last] && #[trigger] call_ensures(
            SqliteSyncRaftLogStore::append_entries,
            (&store, entries),
            script,
        );
    let list = purged_text->Ok_0@;
    assert(statements(list).len() == list.len());
    assert(change_views(purge_changes(purged)).len() == 2);
    assert(statements(list)[1] == list[1]@);
    assert(change_views(purge_changes(purged))[1] == purge_changes(purged)[1].view());
    let stored = script.statements@;
    if stored.len() == 0 {
        assert(entries@[0].log_id.index > i64::MAX);
    }
    assert(stored.len() == 1);
    assert(statements(stored).len() == 1);
    let views = change_views(append_changes(stored_entries(entries@.take(1))));
    assert(statements(stored)[0] == stored[0]@);
    assert(views[0] == append_changes(stored_entries(entries@.take(1)))[0].view());
    assert(entries@.take(1)[0] == last);
}

/// A vote that was saved is the one that is read, and none was read before any was saved.
pub proof fn law_votes_read_as_saved(
    store: SqliteSyncRaftLogStore,
    vote: Vote,
    saved: Result<Statement, StorageError>,
    key: &str,
    asked: Statement,
    stored: &str,
    read: Result<Option<Vote>, StorageError>,
    none: Result<Option<Vote>, StorageError>,
)
    requires
        call_ensures(SqliteSyncRaftLogStore::save_vote, (&store, vote), saved),
        key@ == "vote"@,
        call_ensures(read_metadata, (key,), asked),
        stored@ == saved->Ok_0@.args[1]->Text_0,
        call_ensures(SqliteSyncRaftLogStore::read_vote, (&store, Some(stored)), read),
        call_ensures(SqliteSyncRaftLogStore::read_vote, (&store, None::<&str>), none),
    ensures
        saved is Ok && notes(saved->Ok_0@, "vote"@),
        asked@.sql == READ_METADATA@,
        asked@.args == seq![saved->Ok_0@.args[0]],
        read == Ok::<Option<Vote>, StorageError>(Some(vote)),
        none == Ok::<Option<Vote>, StorageError>(None),
{
}

/// The last committed id that was saved is the one that is read, also where it is none.
pub proof fn law_committed_ids_read_as_saved(
    store: SqliteSyncRaftLogStore,
    committed: Option<LogId>,
    saved: Result<Statement, StorageError>,
    stored: &str,
    read: Result<Option<LogId>, StorageError>,
    none: Result<Option<LogId>, StorageError>,
)
    requires
        call_ensures(SqliteSyncRaftLogStore::save_committed, (&store, committed), saved),
        stored@ == saved->Ok_0@.args[1]->Text_0,
        call_ensures(SqliteSyncRaftLogStore::read_committed, (&store, Some(stored)), read),
        call_ensures(SqliteSyncRaftLogStore::read_committed, (&store, None::<&str>), none),
    ensures
        saved is Ok && notes(saved->Ok_0@, "committed"@),
        read == Ok::<Option<LogId>, StorageError>(committed),
        none == Ok::<Option<LogId>, StorageError>(None),
{
    assert(stored@ == optional_log_id_json(committed));
}

/// The response to a proposal is read by what it was saved under.
pub proof fn law_responses_are_found_by_their_proposal(
    store: SqliteSyncRaftLogStore,
    proposal_id: &str,
    response: &str,
    saved: Statement,
    read: Statement,
)
    requires
        call_ensures(
            SqliteSyncRaftLogStore::save_sync_command_response,
            (&store, proposal_id, response),
            saved,
        ),
        call_ensures(
            SqliteSyncRaftLogStore::load_sync_command_response,
            (&store, proposal_id),
            read,
        ),
    ensures
        saved@.sql == UPSERT_RESPONSE@,
        saved@.args == seq![SqlArg::Text(proposal_id@), SqlArg::Text(response@)],
        read@.sql == READ_RESPONSE@,
        read@.args == seq![saved@.args[0]],
{
}

/// Whether an event is what came of an action of a transaction.
pub open spec fn outcome_of<T>(action: TransactionAction, event: TransactionEvent<T>) -> bool {
    match action {
        TransactionAction::Begin => event is Began,
        TransactionAction::Operate => event is Operated,
        TransactionAction::Commit => event is Committed,
        TransactionAction::Rollback => event is RolledBack,
    }
}

/// An operation runs once, in a transaction that has begun, which is then committed where
/// the operation succeeded and rolled back where it failed. The result is the operation's,
/// unless beginning, committing or rolling back failed, which is told as such.
pub proof fn law_operations_run_once_in_their_transaction<T>(
    events: Seq<TransactionEvent<T>>,
    steps: Seq<Step<TransactionState<T>, TransactionAction, Result<T, StorageError>>>,
)
    requires
        steps.len() == events.len() + 1,
        call_ensures(start_transaction::<T>, (), steps[0]),
        forall|k: int|
            0 <= k < events.len() ==> {
                &&& steps[k] is Perform
                &&& outcome_of(steps[k]->action, #[trigger] events[k])
                &&& call_ensures(with_transaction::<T>, (steps[k]->state, events[k]), steps[k + 1])
            },
        steps.last() is Finish,
    ensures
        0 < events.len() <= 3,
        steps[0]->action == TransactionAction::Begin,
        events[0] matches TransactionEvent::Began(Err(e)) ==> events.len() == 1
            && steps.last()->Finish_0 is Err && tells_step(
            steps.last()->Finish_0->Err_0,
            "transaction start"@,
            e,
        ),
        events[0]->Began_0 is Ok ==> events.len() == 3 && steps[1]->action
            == TransactionAction::Operate,
        events.len() == 3 ==> {
            let result = steps.last()->Finish_0;
            match (events[1], events[2]) {
                (TransactionEvent::Operated(Ok(value)), TransactionEvent::Committed(Ok(_))) => {
                    result == Ok::<T, StorageError>(value)
                },
                (TransactionEvent::Operated(Ok(_)), TransactionEvent::Committed(Err(cause))) => {
                    result matches Err(e) && tells_step(e, "transaction commit"@, cause)
                },
                (TransactionEvent::Operated(Err(cause)), TransactionEvent::RolledBack(Ok(_))) => {
                    result == Err::<T, StorageError>(cause)
                },
                (TransactionEvent::Operated(Err(_)), TransactionEvent::RolledBack(Err(cause))) => {
                    result matches Err(e) && tells_step(e, "transaction rollback"@, cause)
                },
                _ => false,
            }
        },
{
    assert(events.len() > 0);
    let first = events[0];
    assert(transaction_next(steps[0]->state, events[0], steps[1]));
    if events.len() > 1 {
        let second = events[1];
        assert(transaction_next(steps[1]->state, events[1], steps[2]));
        if events.len() > 2 {
            let third = events[2];
            assert(transaction_next(steps[2]->state, events[2], steps[3]));
            if events.len() > 3 {
                let fourth = events[3];
            }
        }
    }
}

} // verus!
