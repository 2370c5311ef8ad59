//! The log, vote and metadata of a replication group, kept in SQLite.
use crate::error::StorageError;
use crate::provider::SQLiteStorageProvider;
use crate::sql::{
    integer, optional_integer, optional_integer_arg, statement, statements, text, Script, SqlArg,
    SqlValue, Statement, StatementView,
};
use crate::text::decimal;
use vstd::prelude::*;

verus! {

/// Identifies an entry of the log: the leader that proposed it, and its index.
#[derive(Clone, Copy, Debug, PartialEq, Eq, Structural)]
pub struct LogId {
    pub term: u64,
    pub node_id: u64,
    pub index: u64,
}

/// A vote for a leader.
#[derive(Clone, Copy, Debug, PartialEq, Eq, Structural)]
pub struct Vote {
    pub term: u64,
    pub node_id: u64,
    pub committed: bool,
}

/// An entry to append: its id, and the entry as JSON.
pub struct LogEntry {
    pub log_id: LogId,
    pub entry_json: String,
}

/// The ends of the log.
#[derive(Clone, Copy, Debug, PartialEq, Eq, Structural)]
pub struct LogState {
    pub last_purged_log_id: Option<LogId>,
    pub last_log_id: Option<LogId>,
}

/// The text of a leader's identity.
pub open spec fn leader_json(term: u64, node_id: u64) -> Seq<char> {
    "{\"term\":"@ + decimal(term as nat) + ",\"node_id\":"@ + decimal(node_id as nat) + "}"@
}

/// The text of a log id.
pub open spec fn log_id_json(id: LogId) -> Seq<char> {
    "{\"leader_id\":"@ + leader_json(id.term, id.node_id) + ",\"index\":"@ + decimal(
        id.index as nat,
    ) + "}"@
}

/// The text of a log id that may be missing.
pub open spec fn optional_log_id_json(id: Option<LogId>) -> Seq<char> {
    match id {
        Some(id) => log_id_json(id),
        None => "null"@,
    }
}

/// The log id of a term, node and index, where they are given.
pub open spec fn optional_log_id(parts: Option<(u64, u64, u64)>) -> Option<LogId> {
    match parts {
        Some((term, node_id, index)) => Some(LogId { term, node_id, index }),
        None => None,
    }
}

/// The text of a vote.
pub open spec fn vote_json(vote: Vote) -> Seq<char> {
    "{\"leader_id\":"@ + leader_json(vote.term, vote.node_id) + ",\"committed\":"@ + (
    if vote.committed {
        "true"@
    } else {
        "false"@
    }) + "}"@
}

/// What `serde_json::from_str` reads a text as, where a log id is expected: its
/// term, node and index, or the text of the error.
pub uninterp spec fn log_id_of_json(json: Seq<char>) -> Result<(u64, u64, u64), Seq<char>>;

/// What `serde_json::from_str` reads a text as, where a log id or `null` is expected.
pub uninterp spec fn optional_log_id_of_json(json: Seq<char>) -> Result<
    Option<(u64, u64, u64)>,
    Seq<char>,
>;

/// What `serde_json::from_str` reads a text as, where a vote is expected: its term,
/// node and whether it is committed, or the text of the error.
pub uninterp spec fn vote_of_json(json: Seq<char>) -> Result<(u64, u64, bool), Seq<char>>;

/// Calls `serde_json::to_string` on an `openraft::LogId`. The claim: it succeeds,
/// and writes the fields as an object in the order of their declaration.
#[verifier::external_body]
fn write_log_id(term: u64, node_id: u64, index: u64) -> (r: Result<String, String>)
    ensures
        r is Ok,
        r->Ok_0@ == log_id_json((LogId { term, node_id, index })),
{
    let id = openraft::LogId::new(openraft::CommittedLeaderId::new(term, node_id), index);
    serde_json::to_string(&id).map_err(|e| e.to_string())
}

/// Calls `serde_json::to_string` on an optional `openraft::LogId`. The claim: it
/// succeeds, and writes the log id alone, or `null`.
#[verifier::external_body]
fn write_optional_log_id(id: Option<(u64, u64, u64)>) -> (r: Result<String, String>)
    ensures
        r is Ok,
        r->Ok_0@ == optional_log_id_json(optional_log_id(id)),
{
    let id = id.map(|(term, node, index)| openraft::LogId::new(
        openraft::CommittedLeaderId::new(term, node), index));
    serde_json::to_string(&id).map_err(|e| e.to_string())
}

/// Calls `serde_json::to_string` on an `openraft::Vote`. The claim: it succeeds,
/// and writes the fields as an object in the order of their declaration.
#[verifier::external_body]
fn write_vote(term: u64, node_id: u64, committed: bool) -> (r: Result<String, String>)
    ensures
        r is Ok,
        r->Ok_0@ == vote_json((Vote { term, node_id, committed })),
{
    let leader_id = openraft::LeaderId::new(term, node_id);
    serde_json::to_string(&openraft::Vote { leader_id, committed }).map_err(|e| e.to_string())
}

/// The view of what reading a text gave.
pub open spec fn outcome<T>(r: Result<T, String>) -> Result<T, Seq<char>> {
    match r {
        Ok(value) => Ok(value),
        Err(e) => Err(e@),
    }
}

/// Reading a log id succeeded and gave its parts.
pub open spec fn parsed_log_id(id: LogId) -> Result<(u64, u64, u64), Seq<char>> {
    Ok((id.term, id.node_id, id.index))
}

/// Reading a log id where one may be missing succeeded and gave its parts.
pub open spec fn parsed_optional_log_id(id: LogId) -> Result<Option<(u64, u64, u64)>, Seq<char>> {
    Ok(Some((id.term, id.node_id, id.index)))
}

/// Reading a vote succeeded and gave its parts.
pub open spec fn parsed_vote(vote: Vote) -> Result<(u64, u64, bool), Seq<char>> {
    Ok((vote.term, vote.node_id, vote.committed))
}

/// Calls `serde_json::from_str` for an `openraft::LogId`. The claim: what comes out
/// depends on the text alone, and the text of a log id reads as that log id.
#[verifier::external_body]
fn parse_log_id(json: &str) -> (r: Result<(u64, u64, u64), String>)
    ensures
        outcome(r) == log_id_of_json(json@),
        forall|id: LogId|
            json@ == #[trigger] log_id_json(id) ==> outcome(r) == parsed_log_id(id),
{
    match serde_json::from_str::<openraft::LogId<u64>>(json) {
        Ok(id) => Ok((id.leader_id.term, id.leader_id.node_id, id.index)),
        Err(e) => Err(e.to_string()),
    }
}

/// Calls `serde_json::from_str` for an optional `openraft::LogId`. The claim: what
/// comes out depends on the text alone, the text of a log id reads as that log id,
/// and `null` reads as none.
#[verifier::external_body]
fn parse_optional_log_id(json: &str) -> (r: Result<Option<(u64, u64, u64)>, String>)
    ensures
        outcome(r) == optional_log_id_of_json(json@),
        forall|id: LogId|
            json@ == #[trigger] log_id_json(id) ==> outcome(r) == parsed_optional_log_id(id),
        json@ == "null"@ ==> r is Ok && r->Ok_0 is None,
{
    match serde_json::from_str::<Option<openraft::LogId<u64>>>(json) {
        Ok(id) => Ok(id.map(|id| (id.leader_id.term, id.leader_id.node_id, id.index))),
        Err(e) => Err(e.to_string()),
    }
}

/// Calls `serde_json::from_str` for an `openraft::Vote`. The claim: what comes out
/// depends on the text alone, and the text of a vote reads as that vote.
#[verifier::external_body]
fn parse_vote(json: &str) -> (r: Result<(u64, u64, bool), String>)
    ensures
        outcome(r) == vote_of_json(json@),
        forall|vote: Vote|
            json@ == #[trigger] vote_json(vote) ==> outcome(r) == parsed_vote(vote),
{
    match serde_json::from_str::<openraft::Vote<u64>>(json) {
        Ok(vote) => Ok((vote.leader_id.term, vote.leader_id.node_id, vote.committed)),
        Err(e) => Err(e.to_string()),
    }
}

/// Creates the table of log entries.
pub const CREATE_LOG_TABLE: &'static str =
    "CREATE TABLE IF NOT EXISTS sys_sync_raft_log (
                log_index INTEGER PRIMARY KEY,
                log_id_json TEXT NOT NULL,
                entry_json TEXT NOT NULL
            )";

/// Creates the table of metadata.
pub const CREATE_METADATA_TABLE: &'static str =
    "CREATE TABLE IF NOT EXISTS sys_sync_raft_metadata (
                metadata_key TEXT PRIMARY KEY,
                metadata_json TEXT NOT NULL
            )";

/// Creates the table of command results.
pub const CREATE_COMMAND_RESULTS_TABLE: &'static str =
    "CREATE TABLE IF NOT EXISTS sys_sync_raft_command_results (
                proposal_id TEXT PRIMARY KEY,
                response_json TEXT NOT NULL
            )";

/// Stores an entry under its index.
pub const UPSERT_ENTRY: &'static str =
    "INSERT INTO sys_sync_raft_log (log_index, log_id_json, entry_json)
                          VALUES (?1, ?2, ?3)
                          ON CONFLICT(log_index)
                          DO UPDATE SET
                            log_id_json = excluded.log_id_json,
                            entry_json = excluded.entry_json";

/// Reads the entries of a range.
pub const READ_ENTRIES: &'static str =
    "SELECT entry_json FROM sys_sync_raft_log
                      WHERE log_index >= ?1
                        AND (?2 IS NULL OR log_index < ?2)
                      ORDER BY log_index ASC";

/// Reads the id of the last entry.
pub const READ_LAST_LOG_ID: &'static str =
    "SELECT log_id_json FROM sys_sync_raft_log ORDER BY log_index DESC LIMIT 1";

/// Removes the entries from an index on.
pub const TRUNCATE_ENTRIES: &'static str = "DELETE FROM sys_sync_raft_log WHERE log_index >= ?1";

/// Removes the entries up to an index.
pub const PURGE_ENTRIES: &'static str = "DELETE FROM sys_sync_raft_log WHERE log_index <= ?1";

/// Stores a piece of metadata.
pub const UPSERT_METADATA: &'static str =
    "INSERT INTO sys_sync_raft_metadata (metadata_key, metadata_json)
              VALUES (?1, ?2)
              ON CONFLICT(metadata_key)
              DO UPDATE SET metadata_json = excluded.metadata_json";

/// Reads a piece of metadata.
pub const READ_METADATA: &'static str =
    "SELECT metadata_json FROM sys_sync_raft_metadata WHERE metadata_key = ?1";

/// Stores the response to a proposal.
pub const UPSERT_RESPONSE: &'static str =
    "INSERT INTO sys_sync_raft_command_results (proposal_id, response_json)
                      VALUES (?1, ?2)
                      ON CONFLICT(proposal_id)
                      DO UPDATE SET response_json = excluded.response_json";

/// Reads the response to a proposal.
pub const READ_RESPONSE: &'static str =
    "SELECT response_json FROM sys_sync_raft_command_results WHERE proposal_id = ?1";

/// The key of the vote among the metadata.
pub const VOTE_KEY: &'static str = "vote";

/// The key of the last committed log id among the metadata.
pub const COMMITTED_KEY: &'static str = "committed";

/// The key of the last purged log id among the metadata.
pub const LAST_PURGED_KEY: &'static str = "last_purged";

/// The statement that stores a piece of metadata.
pub open spec fn upsert_metadata_view(key: Seq<char>, json: Seq<char>) -> StatementView {
    StatementView {
        sql: UPSERT_METADATA@,
        args: seq![SqlArg::Text(key), SqlArg::Text(json)],
    }
}

/// An entry of the stored log.
pub struct StoredEntry {
    pub log_id: LogId,
    pub entry_json: Seq<char>,
}

/// The stored log: its entries by their indexes, and the last purged id.
#[verifier::ext_equal]
pub struct StoredLog {
    pub entries: Map<int, StoredEntry>,
    pub last_purged: Option<LogId>,
}

impl StoredLog {
    /// The log before anything was stored.
    pub open spec fn empty() -> StoredLog {
        StoredLog { entries: Map::empty(), last_purged: None }
    }

    /// A log has finitely many entries, each under its own index.
    pub open spec fn wf(self) -> bool {
        &&& self.entries.dom().finite()
        &&& forall|i: int| #[trigger]
            self.entries.contains_key(i) ==> self.entries[i].log_id.index == i
    }

    /// Whether an index is that of the last entry.
    pub open spec fn ends_at(self, index: int) -> bool {
        self.entries.contains_key(index) && forall|i: int| #[trigger]
            self.entries.contains_key(i) ==> i <= index
    }

    /// The id of the last entry, where there is one.
    pub open spec fn last_entry(self) -> Option<LogId> {
        if exists|i: int| self.ends_at(i) {
            Some(self.entries[choose|i: int| self.ends_at(i)].log_id)
        } else {
            None
        }
    }

    /// The ends of the log: one without entries ends where it was purged to.
    pub open spec fn state(self) -> LogState {
        LogState {
            last_purged_log_id: self.last_purged,
            last_log_id: if self.last_entry() is Some {
                self.last_entry()
            } else {
                self.last_purged
            },
        }
    }
}

/// A change of the stored log, which one statement makes.
pub enum LogChange {
    /// Store an entry, in the place of the one that had its index.
    Store(StoredEntry),
    /// Remove the entries from an index on.
    RemoveFrom(int),
    /// Remove the entries up to an index.
    RemoveUpTo(int),
    /// Note the last purged id.
    NotePurged(LogId),
}

impl LogChange {
    /// The statement that makes the change.
    pub open spec fn view(self) -> StatementView {
        match self {
            LogChange::Store(entry) => StatementView {
                sql: UPSERT_ENTRY@,
                args: seq![
                    SqlArg::Integer(entry.log_id.index as int),
                    SqlArg::Text(log_id_json(entry.log_id)),
                    SqlArg::Text(entry.entry_json),
                ],
            },
            LogChange::RemoveFrom(index) => StatementView {
                sql: TRUNCATE_ENTRIES@,
                args: seq![SqlArg::Integer(index)],
            },
            LogChange::RemoveUpTo(index) => StatementView {
                sql: PURGE_ENTRIES@,
                args: seq![SqlArg::Integer(index)],
            },
            LogChange::NotePurged(log_id) => upsert_metadata_view(
                LAST_PURGED_KEY@,
                log_id_json(log_id),
            ),
        }
    }

    /// The log after the change.
    pub open spec fn applied(self, log: StoredLog) -> StoredLog {
        match self {
            LogChange::Store(entry) => StoredLog {
                entries: log.entries.insert(entry.log_id.index as int, entry),
                ..log
            },
            LogChange::RemoveFrom(index) => StoredLog {
                entries: log.entries.remove_keys(
                    log.entries.dom().filter(|i: int| i >= index),
                ),
                ..log
            },
            LogChange::RemoveUpTo(index) => StoredLog {
                entries: log.entries.remove_keys(
                    log.entries.dom().filter(|i: int| i <= index),
                ),
                ..log
            },
            LogChange::NotePurged(log_id) => StoredLog { last_purged: Some(log_id), ..log },
        }
    }
}

/// The statements that make changes, in their order.
pub open spec fn change_views(changes: Seq<LogChange>) -> Seq<StatementView> {
    changes.map_values(|change: LogChange| change.view())
}

/// The log after changes, in their order.
pub open spec fn log_after(log: StoredLog, changes: Seq<LogChange>) -> StoredLog
    decreases changes.len(),
{
    if changes.len() == 0 {
        log
    } else {
        changes.last().applied(log_after(log, changes.drop_last()))
    }
}

/// The entry as it is stored.
pub open spec fn stored_entry(entry: LogEntry) -> StoredEntry {
    StoredEntry { log_id: entry.log_id, entry_json: entry.entry_json@ }
}

/// The changes that appending entries makes.
pub open spec fn append_changes(entries: Seq<StoredEntry>) -> Seq<LogChange> {
    entries.map_values(|entry: StoredEntry| LogChange::Store(entry))
}

/// The entries as they are stored.
pub open spec fn stored_entries(entries: Seq<LogEntry>) -> Seq<StoredEntry> {
    entries.map_values(|entry: LogEntry| stored_entry(entry))
}

/// The changes that truncating at an id makes.
pub open spec fn truncate_changes(log_id: LogId) -> Seq<LogChange> {
    seq![LogChange::RemoveFrom(log_id.index as int)]
}

/// The changes that purging up to an id makes.
pub open spec fn purge_changes(log_id: LogId) -> Seq<LogChange> {
    seq![LogChange::RemoveUpTo(log_id.index as int), LogChange::NotePurged(log_id)]
}

/// Whether a text is that of a log id, where there is one.
pub open spec fn stores_log_id(json: Option<&str>, id: Option<LogId>) -> bool {
    match (json, id) {
        (Some(s), Some(id)) => s@ == log_id_json(id),
        (None, None) => true,
        _ => false,
    }
}

/// Whether texts are those that the reads of the last purged id and of the last entry
/// give of a log.
pub open spec fn read_from_log(
    log: StoredLog,
    last_purged: Option<&str>,
    last_entry: Option<&str>,
) -> bool {
    stores_log_id(last_purged, log.last_purged) && stores_log_id(last_entry, log.last_entry())
}

/// The statement that reads the entries of a range.
pub open spec fn read_entries_view(range: SqliteLogRange) -> StatementView {
    StatementView {
        sql: READ_ENTRIES@,
        args: seq![
            SqlArg::Integer(range.start_inclusive as int),
            optional_integer_arg(range.end_exclusive),
        ],
    }
}

/// One end of a range of log indexes.
#[derive(Clone, Copy, Debug, PartialEq, Eq, Structural)]
pub enum LogBound {
    Included(u64),
    Excluded(u64),
    Unbounded,
}

/// Whether an index lies in a range.
pub open spec fn in_range(start: LogBound, end: LogBound, index: int) -> bool {
    &&& match start {
        LogBound::Included(value) => value <= index,
        LogBound::Excluded(value) => value < index,
        LogBound::Unbounded => true,
    }
    &&& match end {
        LogBound::Included(value) => index <= value,
        LogBound::Excluded(value) => index < value,
        LogBound::Unbounded => true,
    }
}

/// A range of log indexes, in the integers that SQLite has.
#[derive(Clone, Copy, Debug, PartialEq, Eq, Structural)]
pub struct SqliteLogRange {
    pub start_inclusive: i64,
    pub end_exclusive: Option<i64>,
}

impl SqliteLogRange {
    /// Whether the read of the range selects a stored index.
    pub open spec fn selects(self, index: int) -> bool {
        &&& self.start_inclusive <= index
        &&& self.end_exclusive matches Some(end) ==> index < end
    }

    /// The range of SQLite's integers for a range of log indexes: a start beyond them
    /// becomes the largest, an end beyond them none.
    pub open spec fn spanning(start: LogBound, end: LogBound) -> SqliteLogRange {
        let first: int = match start {
            LogBound::Included(value) => value as int,
            LogBound::Excluded(value) => value + 1,
            LogBound::Unbounded => 0,
        };
        let last: Option<int> = match end {
            LogBound::Included(value) => Some(value + 1),
            LogBound::Excluded(value) => Some(value as int),
            LogBound::Unbounded => None,
        };
        SqliteLogRange {
            start_inclusive: if first <= i64::MAX { first as i64 } else { i64::MAX },
            end_exclusive: match last {
                Some(value) => if value <= i64::MAX { Some(value as i64) } else { None },
                None => None,
            },
        }
    }

    /// The range of SQLite's integers for a range of log indexes.
    pub fn from_bounds(start: LogBound, end: LogBound) -> (r: SqliteLogRange)
        ensures
            r == SqliteLogRange::spanning(start, end),
    {
        let first: u64 = match start {
            LogBound::Included(value) => value,
            LogBound::Excluded(value) => value.saturating_add(1),
            LogBound::Unbounded => 0,
        };
        let last: Option<u64> = match end {
            LogBound::Included(value) => Some(value.saturating_add(1)),
            LogBound::Excluded(value) => Some(value),
            LogBound::Unbounded => None,
        };
        SqliteLogRange {
            start_inclusive: if first <= i64::MAX as u64 { first as i64 } else { i64::MAX },
            end_exclusive: match last {
                Some(value) => if value <= i64::MAX as u64 { Some(value as i64) } else { None },
                None => None,
            },
        }
    }
}

/// Whether a range starts beyond the integers that SQLite has.
pub open spec fn starts_beyond(start: LogBound) -> bool {
    match start {
        LogBound::Included(value) => value > i64::MAX,
        LogBound::Excluded(value) => value >= i64::MAX,
        LogBound::Unbounded => false,
    }
}

/// A read of a range selects exactly the stored indexes that lie in it. Left out is the
/// largest index that SQLite has, where the range starts beyond it: it is selected.
pub proof fn law_range_selects_its_indexes(start: LogBound, end: LogBound, index: int)
    requires
        0 <= index <= i64::MAX,
        !(index == i64::MAX && starts_beyond(start)),
    ensures
        SqliteLogRange::spanning(start, end).selects(index) <==> in_range(start, end, index),
{
}

/// The log store of a provider.
#[derive(Clone, Copy)]
pub struct SqliteSyncRaftLogStore {
    provider: SQLiteStorageProvider,
}

impl SqliteSyncRaftLogStore {
    /// The provider whose database holds the log.
    pub closed spec fn provider(self) -> SQLiteStorageProvider {
        self.provider
    }

    /// The log store of a provider.
    pub fn new(provider: SQLiteStorageProvider) -> (r: Self)
        ensures
            r.provider() == provider,
    {
        SqliteSyncRaftLogStore { provider }
    }

    /// What keeps an entry from being stored.
    pub open spec fn append_fails(entry: LogEntry, error: StorageError) -> bool {
        entry.log_id.index > i64::MAX && error.is_validation(
            "raft log index does not fit sqlite integer"@,
        )
    }

    /// Stores entries, each in the place of the one that had its index, up to the
    /// first whose index SQLite cannot hold.
    pub fn append_entries(&self, entries: Vec<LogEntry>) -> (r: Script)
        ensures
            r.statements@.len() <= entries@.len(),
            statements(r.statements@) == change_views(
                append_changes(stored_entries(entries@.take(r.statements@.len() as int))),
            ),
            forall|i: int|
                0 <= i < r.statements@.len() ==> (#[trigger] entries@[i]).log_id.index <= i64::MAX,
            r.failure is None <==> r.statements@.len() == entries@.len(),
            r.failure matches Some(e) ==> Self::append_fails(
                entries@[r.statements@.len() as int],
                e,
            ),
    {
        let mut list: Vec<Statement> = Vec::new();
        let mut i: usize = 0;
        while i < entries.len()
            invariant
                i <= entries@.len(),
                list@.len() == i,
                statements(list@) == change_views(
                    append_changes(stored_entries(entries@.take(i as int))),
                ),
                forall|j: int| 0 <= j < i ==> (#[trigger] entries@[j]).log_id.index <= i64::MAX,
            decreases entries@.len() - i,
        {
            let id = entries[i].log_id;
            if id.index > i64::MAX as u64 {
                return Script {
                    statements: list,
                    failure: Some(
                        StorageError::validation("raft log index does not fit sqlite integer"),
                    ),
                };
            }
            match write_log_id(id.term, id.node_id, id.index) {
                Ok(log_id) => {
                    let next = statement(
                        (
                            UPSERT_ENTRY,
                            vec![
                                integer(id.index as i64),
                                SqlValue::Text(log_id),
                                text(entries[i].entry_json.as_str()),
                            ],
                        ),
                    );
                    let ghost stored = stored_entry(entries@[i as int]);
                    assert(next@ == LogChange::Store(stored).view());
                    let ghost before = list@;
                    list.push(next);
                    assert(statements(list@) =~= statements(before).push(next@));
                    assert(change_views(append_changes(stored_entries(entries@.take(i + 1))))
                        =~= change_views(
                        append_changes(stored_entries(entries@.take(i as int))),
                    ).push(LogChange::Store(stored).view()));
                },
                Err(message) => {
                    return Script {
                        statements: list,
                        failure: Some(StorageError::Internal { message }),
                    };
                },
            }
            i = i + 1;
        }
        Script { statements: list, failure: None }
    }

    /// Reads the entries of a range, in order.
    pub fn try_get_log_entries(&self, start: LogBound, end: LogBound) -> (r: Statement)
        ensures
            r@ == read_entries_view(SqliteLogRange::spanning(start, end)),
    {
        let range = SqliteLogRange::from_bounds(start, end);
        let read = statement(
            (
                READ_ENTRIES,
                vec![integer(range.start_inclusive), optional_integer(range.end_exclusive)],
            ),
        );
        assert(read@ == read_entries_view(range));
        read
    }

    /// The ends of the log, from the last purged id and the id of the last entry as
    /// they are stored: an empty log ends where it was purged to. What was stored reads
    /// back as the ends of the log.
    pub fn get_log_state(&self, last_purged: Option<&str>, last_entry: Option<&str>) -> (r: Result<
        LogState,
        StorageError,
    >)
        ensures
            match (read_as_log_id(last_purged), read_as_log_id(last_entry)) {
                (Err(e), _) => r matches Err(out) && out.is_internal(e),
                (Ok(_), Err(e)) => r matches Err(out) && out.is_internal(e),
                (Ok(purged), Ok(last)) => r == Ok::<LogState, StorageError>(
                    LogState {
                        last_purged_log_id: purged,
                        last_log_id: if last is Some { last } else { purged },
                    },
                ),
            },
            forall|to: LogId, end: LogId|
                last_purged matches Some(p) && p@ == #[trigger] log_id_json(to) && (
                last_entry matches Some(l) && l@ == #[trigger] log_id_json(end)) ==> r == Ok::<
                    LogState,
                    StorageError,
                >(LogState { last_purged_log_id: Some(to), last_log_id: Some(end) }),
            forall|to: LogId|
                last_purged matches Some(p) && p@ == #[trigger] log_id_json(to) && last_entry
                    is None ==> r == Ok::<LogState, StorageError>(
                    LogState { last_purged_log_id: Some(to), last_log_id: Some(to) },
                ),
            forall|end: LogId|
                last_purged is None && (last_entry matches Some(l) && l@ == #[trigger] log_id_json(
                    end,
                )) ==> r == Ok::<LogState, StorageError>(
                    LogState { last_purged_log_id: None, last_log_id: Some(end) },
                ),
            forall|log: StoredLog| #[trigger]
                read_from_log(log, last_purged, last_entry) ==> r == Ok::<LogState, StorageError>(
                    log.state(),
                ),
    {
        let purged = match read_log_id(last_purged) {
            Ok(purged) => purged,
            Err(e) => {
                return Err(e);
            },
        };
        let last = match read_log_id(last_entry) {
            Ok(last) => last,
            Err(e) => {
                return Err(e);
            },
        };
        Ok(
            LogState {
                last_purged_log_id: purged,
                last_log_id: match last {
                    Some(id) => Some(id),
                    None => purged,
                },
            },
        )
    }

    /// Stores the vote.
    pub fn save_vote(&self, vote: Vote) -> (r: Result<Statement, StorageError>)
        ensures
            r matches Ok(s) && s@ == upsert_metadata_view(VOTE_KEY@, vote_json(vote)),
    {
        match write_vote(vote.term, vote.node_id, vote.committed) {
            Ok(json) => Ok(upsert_metadata(VOTE_KEY, json)),
            Err(message) => Err(StorageError::Internal { message }),
        }
    }

    /// The vote, from its text as it is stored. What `save_vote` stored reads back as
    /// the vote that was saved.
    pub fn read_vote(&self, json: Option<&str>) -> (r: Result<Option<Vote>, StorageError>)
        ensures
            match json {
                None => r == Ok::<Option<Vote>, StorageError>(None),
                Some(s) => match vote_of_json(s@) {
                    Ok((term, node_id, committed)) => r == Ok::<Option<Vote>, StorageError>(
                        Some(Vote { term, node_id, committed }),
                    ),
                    Err(e) => r matches Err(out) && out.is_internal(e),
                },
            },
            forall|vote: Vote|
                json matches Some(s) && s@ == #[trigger] vote_json(vote) ==> r == Ok::<
                    Option<Vote>,
                    StorageError,
                >(Some(vote)),
    {
        match json {
            None => Ok(None),
            Some(s) => match parse_vote(s) {
                Ok((term, node_id, committed)) => Ok(Some(Vote { term, node_id, committed })),
                Err(message) => Err(StorageError::Internal { message }),
            },
        }
    }

    /// Removes the entries from an id on.
    pub fn truncate(&self, log_id: LogId) -> (r: Result<Statement, StorageError>)
        ensures
            if log_id.index <= i64::MAX {
                r matches Ok(s) && seq![s@] == change_views(truncate_changes(log_id))
            } else {
                r matches Err(e) && e.is_validation(
                    "raft truncate index does not fit sqlite integer"@,
                )
            },
    {
        if log_id.index > i64::MAX as u64 {
            return Err(
                StorageError::validation("raft truncate index does not fit sqlite integer"),
            );
        }
        let s = statement((TRUNCATE_ENTRIES, vec![integer(log_id.index as i64)]));
        assert(s@ == LogChange::RemoveFrom(log_id.index as int).view());
        assert(seq![s@] =~= change_views(truncate_changes(log_id)));
        Ok(s)
    }

    /// Removes the entries up to an id, and notes the id as the last purged one.
    pub fn purge(&self, log_id: LogId) -> (r: Result<Vec<Statement>, StorageError>)
        ensures
            if log_id.index <= i64::MAX {
                r matches Ok(list) && statements(list@) == change_views(purge_changes(log_id))
            } else {
                r matches Err(e) && e.is_validation(
                    "raft purge index does not fit sqlite integer"@,
                )
            },
    {
        if log_id.index > i64::MAX as u64 {
            return Err(StorageError::validation("raft purge index does not fit sqlite integer"));
        }
        let json = match write_log_id(log_id.term, log_id.node_id, log_id.index) {
            Ok(json) => json,
            Err(message) => {
                return Err(StorageError::Internal { message });
            },
        };
        let remove = statement((PURGE_ENTRIES, vec![integer(log_id.index as i64)]));
        assert(remove@ == LogChange::RemoveUpTo(log_id.index as int).view());
        let list = vec![remove, upsert_metadata(LAST_PURGED_KEY, json)];
        assert(statements(list@) =~= change_views(purge_changes(log_id)));
        Ok(list)
    }

    /// Stores the last committed id.
    pub fn save_committed(&self, committed: Option<LogId>) -> (r: Result<Statement, StorageError>)
        ensures
            r matches Ok(s) && s@ == upsert_metadata_view(
                COMMITTED_KEY@,
                optional_log_id_json(committed),
            ),
    {
        let parts = match committed {
            Some(id) => Some((id.term, id.node_id, id.index)),
            None => None,
        };
        match write_optional_log_id(parts) {
            Ok(json) => Ok(upsert_metadata(COMMITTED_KEY, json)),
            Err(message) => Err(StorageError::Internal { message }),
        }
    }

    /// The last committed id, from its text as it is stored. What `save_committed`
    /// stored reads back as what was saved.
    pub fn read_committed(&self, json: Option<&str>) -> (r: Result<Option<LogId>, StorageError>)
        ensures
            match json {
                None => r == Ok::<Option<LogId>, StorageError>(None),
                Some(s) => match optional_log_id_of_json(s@) {
                    Ok(Some((term, node_id, index))) => r == Ok::<Option<LogId>, StorageError>(
                        Some(LogId { term, node_id, index }),
                    ),
                    Ok(None) => r == Ok::<Option<LogId>, StorageError>(None),
                    Err(e) => r matches Err(out) && out.is_internal(e),
                },
            },
            forall|committed: Option<LogId>|
                json matches Some(s) && s@ == #[trigger] optional_log_id_json(committed) ==> r == Ok::<
                    Option<LogId>,
                    StorageError,
                >(committed),
    {
        match json {
            None => Ok(None),
            Some(s) => match parse_optional_log_id(s) {
                Ok(Some((term, node_id, index))) => {
                    let found = Some(LogId { term, node_id, index });
                    assert forall|committed: Option<LogId>| s@ == #[trigger] optional_log_id_json(
                        committed,
                    ) implies found == committed by {
                        if committed is Some {
                            assert(s@ == log_id_json(committed->Some_0));
                        }
                    }
                    Ok(found)
                },
                Ok(None) => {
                    assert forall|committed: Option<LogId>| s@ == #[trigger] optional_log_id_json(
                        committed,
                    ) implies committed is None by {
                        if committed is Some {
                            assert(s@ == log_id_json(committed->Some_0));
                        }
                    }
                    Ok(None)
                },
                Err(message) => {
                    assert forall|committed: Option<LogId>| s@ == #[trigger] optional_log_id_json(
                        committed,
                    ) implies false by {
                        if committed is Some {
                            assert(s@ == log_id_json(committed->Some_0));
                        }
                    }
                    Err(StorageError::Internal { message })
                },
            },
        }
    }

    /// Reads the response to a proposal.
    pub fn load_sync_command_response(&self, proposal_id: &str) -> (r: Statement)
        ensures
            r@ == (StatementView { sql: READ_RESPONSE@, args: seq![SqlArg::Text(proposal_id@)] }),
    {
        let s = statement((READ_RESPONSE, vec![text(proposal_id)]));
        assert(s@.args =~= seq![SqlArg::Text(proposal_id@)]);
        s
    }

    /// Stores the response to a proposal.
    pub fn save_sync_command_response(&self, proposal_id: &str, response_json: &str) -> (r:
        Statement)
        ensures
            r@ == (StatementView {
                sql: UPSERT_RESPONSE@,
                args: seq![SqlArg::Text(proposal_id@), SqlArg::Text(response_json@)],
            }),
    {
        let s = statement((UPSERT_RESPONSE, vec![text(proposal_id), text(response_json)]));
        assert(s@.args =~= seq![SqlArg::Text(proposal_id@), SqlArg::Text(response_json@)]);
        s
    }
}

/// What the text of a log id reads as, where there is one.
pub open spec fn read_as_log_id(json: Option<&str>) -> Result<Option<LogId>, Seq<char>> {
    match json {
        None => Ok(None),
        Some(s) => match log_id_of_json(s@) {
            Ok((term, node_id, index)) => Ok(Some(LogId { term, node_id, index })),
            Err(e) => Err(e),
        },
    }
}

fn read_log_id(json: Option<&str>) -> (r: Result<Option<LogId>, StorageError>)
    ensures
        match read_as_log_id(json) {
            Ok(id) => r == Ok::<Option<LogId>, StorageError>(id),
            Err(e) => r matches Err(out) && out.is_internal(e),
        },
        forall|id: LogId|
            json matches Some(s) && s@ == #[trigger] log_id_json(id) ==> r == Ok::<
                Option<LogId>,
                StorageError,
            >(Some(id)),
{
    match json {
        None => Ok(None),
        Some(s) => match parse_log_id(s) {
            Ok((term, node_id, index)) => Ok(Some(LogId { term, node_id, index })),
            Err(message) => Err(StorageError::Internal { message }),
        },
    }
}

fn upsert_metadata(key: &str, json: String) -> (r: Statement)
    ensures
        r@ == upsert_metadata_view(key@, json@),
{
    let s = statement((UPSERT_METADATA, vec![text(key), SqlValue::Text(json)]));
    assert(s@.args =~= upsert_metadata_view(key@, json@).args);
    s
}

/// Reads a piece of metadata.
pub fn read_metadata(key: &str) -> (r: Statement)
    ensures
        r@ == (StatementView { sql: READ_METADATA@, args: seq![SqlArg::Text(key@)] }),
{
    let s = statement((READ_METADATA, vec![text(key)]));
    assert(s@.args =~= seq![SqlArg::Text(key@)]);
    s
}

/// Reads the id of the last entry.
pub fn read_last_log_id() -> (r: Statement)
    ensures
        r@ == (StatementView { sql: READ_LAST_LOG_ID@, args: Seq::empty() }),
{
    let s = statement((READ_LAST_LOG_ID, Vec::new()));
    assert(s@.args =~= Seq::<SqlArg>::empty());
    s
}

/// Creates the tables of the log, which every use of it begins with.
pub fn ensure_sync_raft_tables() -> (r: Vec<Statement>)
    ensures
        statements(r@) == seq![
            StatementView { sql: CREATE_LOG_TABLE@, args: Seq::empty() },
            StatementView { sql: CREATE_METADATA_TABLE@, args: Seq::empty() },
        ],
{
    let log = statement((CREATE_LOG_TABLE, Vec::new()));
    let metadata = statement((CREATE_METADATA_TABLE, Vec::new()));
    assert(log@.args =~= Seq::<SqlArg>::empty());
    assert(metadata@.args =~= Seq::<SqlArg>::empty());
    vec![log, metadata]
}

/// Creates the table of command results, which every use of it begins with.
pub fn ensure_sync_raft_command_results_table() -> (r: Statement)
    ensures
        r@ == (StatementView { sql: CREATE_COMMAND_RESULTS_TABLE@, args: Seq::empty() }),
{
    let s = statement((CREATE_COMMAND_RESULTS_TABLE, Vec::new()));
    assert(s@.args =~= Seq::<SqlArg>::empty());
    s
}

/// The entry that a list of entries leaves under an index: the last of those that have it.
pub open spec fn entry_for(entries: Seq<StoredEntry>, index: int) -> Option<StoredEntry>
    decreases entries.len(),
{
    if entries.len() == 0 {
        None
    } else if entries.last().log_id.index == index {
        Some(entries.last())
    } else {
        entry_for(entries.drop_last(), index)
    }
}

/// Whether no two entries have one index.
pub open spec fn indexes_distinct(entries: Seq<StoredEntry>) -> bool {
    forall|i: int, j: int|
        0 <= i < j < entries.len() ==> (#[trigger] entries[i]).log_id.index != (
        #[trigger] entries[j]).log_id.index
}

/// A log overwritten by entries: each is in the place of the one that had its index, and
/// every other index is as it was.
pub open spec fn overwritten(log: StoredLog, entries: Seq<StoredEntry>, after: StoredLog) -> bool {
    &&& after.last_purged == log.last_purged
    &&& forall|i: int| #[trigger]
        after.entries.contains_key(i) <==> log.entries.contains_key(i) || entry_for(entries, i)
            is Some
    &&& forall|i: int| #[trigger]
        after.entries.contains_key(i) ==> after.entries[i] == (match entry_for(entries, i) {
            Some(entry) => entry,
            None => log.entries[i],
        })
}

proof fn lemma_append_overwrites(log: StoredLog, entries: Seq<StoredEntry>)
    ensures
        overwritten(log, entries, log_after(log, append_changes(entries))),
    decreases entries.len(),
{
    if entries.len() > 0 {
        let before = entries.drop_last();
        lemma_append_overwrites(log, before);
        assert(append_changes(entries).drop_last() =~= append_changes(before));
        assert(append_changes(entries).last() == LogChange::Store(entries.last()));
    }
}

proof fn lemma_entry_for(entries: Seq<StoredEntry>, k: int)
    requires
        indexes_distinct(entries),
        0 <= k < entries.len(),
    ensures
        entry_for(entries, entries[k].log_id.index as int) == Some(entries[k]),
    decreases entries.len(),
{
    if k < entries.len() - 1 {
        let before = entries.drop_last();
        assert forall|i: int, j: int| 0 <= i < j < before.len() implies (
        #[trigger] before[i]).log_id.index != (#[trigger] before[j]).log_id.index by {
            assert(entries[i].log_id.index != entries[j].log_id.index);
        }
        lemma_entry_for(before, k);
        assert(before[k] == entries[k]);
        assert(entries[k].log_id.index != entries[entries.len() - 1].log_id.index);
    }
}

/// Appending overwrites the log: an entry replaces the one that had its index, every
/// other index keeps its entry, nothing is stored twice, and appending the same entries
/// again changes nothing. Where no two entries have one index, each is stored under its
/// own.
pub proof fn law_append_overwrites_its_indexes(log: StoredLog, entries: Seq<StoredEntry>)
    ensures
        ({
            let after = log_after(log, append_changes(entries));
            &&& overwritten(log, entries, after)
            &&& log_after(after, append_changes(entries)) == after
            &&& indexes_distinct(entries) ==> forall|k: int|
                0 <= k < entries.len() ==> after.entries.contains_key(
                    (#[trigger] entries[k]).log_id.index as int,
                ) && after.entries[entries[k].log_id.index as int] == entries[k]
        }),
{
    let after = log_after(log, append_changes(entries));
    lemma_append_overwrites(log, entries);
    lemma_append_overwrites(after, entries);
    let again = log_after(after, append_changes(entries));
    assert forall|i: int| #[trigger] again.entries.contains_key(i)
        == after.entries.contains_key(i) && (after.entries.contains_key(i) ==> again.entries[i]
        == after.entries[i]) by {
        let given = entry_for(entries, i);
        assert(after.entries.contains_key(i) <==> log.entries.contains_key(i) || given is Some);
        assert(again.entries.contains_key(i) <==> after.entries.contains_key(i) || given is Some);
        if after.entries.contains_key(i) {
            assert(after.entries[i] == (match given {
                Some(entry) => entry,
                None => log.entries[i],
            }));
            assert(again.entries[i] == (match given {
                Some(entry) => entry,
                None => after.entries[i],
            }));
        }
    }
    assert(again.entries =~= after.entries);
    if indexes_distinct(entries) {
        assert forall|k: int| 0 <= k < entries.len() implies after.entries.contains_key(
            (#[trigger] entries[k]).log_id.index as int,
        ) && after.entries[entries[k].log_id.index as int] == entries[k] by {
            lemma_entry_for(entries, k);
        }
    }
}

/// Whether truncating at an id removes a stored index.
pub open spec fn truncated(log_id: LogId, index: int) -> bool {
    index >= log_id.index
}

/// Whether purging up to an id removes a stored index.
pub open spec fn purged(log_id: LogId, index: int) -> bool {
    index <= log_id.index
}

/// Truncating at an id leaves exactly the entries that a read of everything before it
/// selects, and leaves them as they were.
pub proof fn law_truncate_keeps_what_comes_before(log: StoredLog, log_id: LogId, index: int)
    requires
        log_id.index <= i64::MAX,
        0 <= index <= i64::MAX,
    ensures
        SqliteLogRange::spanning(LogBound::Unbounded, LogBound::Excluded(log_id.index)).selects(
            index,
        ) <==> !truncated(log_id, index),
        ({
            let after = log_after(log, truncate_changes(log_id));
            &&& after.last_purged == log.last_purged
            &&& after.entries.contains_key(index) <==> log.entries.contains_key(index)
                && !truncated(log_id, index)
            &&& after.entries.contains_key(index) ==> after.entries[index] == log.entries[index]
        }),
{
    lemma_truncate(log, log_id);
}

/// Purging up to an id leaves exactly the entries that a read of everything after it
/// selects, leaves them as they were, and notes the id. Left out is the largest index
/// that SQLite has, purged itself: the read still selects it.
pub proof fn law_purge_keeps_what_comes_after(log: StoredLog, log_id: LogId, index: int)
    requires
        log_id.index <= i64::MAX,
        0 <= index <= i64::MAX,
        !(log_id.index == i64::MAX && index == i64::MAX),
    ensures
        SqliteLogRange::spanning(LogBound::Excluded(log_id.index), LogBound::Unbounded).selects(
            index,
        ) <==> !purged(log_id, index),
        ({
            let after = log_after(log, purge_changes(log_id));
            &&& after.last_purged == Some(log_id)
            &&& after.entries.contains_key(index) <==> log.entries.contains_key(index) && !purged(
                log_id,
                index,
            )
            &&& after.entries.contains_key(index) ==> after.entries[index] == log.entries[index]
        }),
{
    lemma_purge(log, log_id);
}

proof fn lemma_truncate(log: StoredLog, log_id: LogId)
    ensures
        log_after(log, truncate_changes(log_id)) == LogChange::RemoveFrom(
            log_id.index as int,
        ).applied(log),
{
    let changes = truncate_changes(log_id);
    assert(changes.drop_last() =~= Seq::empty());
    assert(log_after(log, changes.drop_last()) == log);
}

proof fn lemma_purge(log: StoredLog, log_id: LogId)
    ensures
        log_after(log, purge_changes(log_id)) == LogChange::NotePurged(log_id).applied(
            LogChange::RemoveUpTo(log_id.index as int).applied(log),
        ),
{
    let changes = purge_changes(log_id);
    let first = changes.drop_last();
    assert(first.drop_last() =~= Seq::empty());
    assert(log_after(log, first.drop_last()) == log);
    assert(log_after(log, first) == LogChange::RemoveUpTo(log_id.index as int).applied(log));
}

/// An operation on the log.
pub enum LogOperation {
    Append(Seq<StoredEntry>),
    Truncate(LogId),
    Purge(LogId),
}

impl LogOperation {
    /// The changes that the operation makes.
    pub open spec fn changes(self) -> Seq<LogChange> {
        match self {
            LogOperation::Append(entries) => append_changes(entries),
            LogOperation::Truncate(log_id) => truncate_changes(log_id),
            LogOperation::Purge(log_id) => purge_changes(log_id),
        }
    }
}

/// The log after operations on an empty one, in their order.
pub open spec fn log_after_operations(operations: Seq<LogOperation>) -> StoredLog
    decreases operations.len(),
{
    if operations.len() == 0 {
        StoredLog::empty()
    } else {
        log_after(
            log_after_operations(operations.drop_last()),
            operations.last().changes(),
        )
    }
}

/// The id that was purged up to last, where anything was purged.
pub open spec fn latest_purge(operations: Seq<LogOperation>) -> Option<LogId>
    decreases operations.len(),
{
    if operations.len() == 0 {
        None
    } else {
        match operations.last() {
            LogOperation::Purge(log_id) => Some(log_id),
            _ => latest_purge(operations.drop_last()),
        }
    }
}

proof fn lemma_change_keeps_wf(log: StoredLog, change: LogChange)
    requires
        log.wf(),
    ensures
        change.applied(log).wf(),
{
    let after = change.applied(log);
    match change {
        LogChange::RemoveFrom(_) | LogChange::RemoveUpTo(_) => {
            assert(after.entries.dom().subset_of(log.entries.dom()));
            vstd::set_lib::lemma_set_subset_finite(log.entries.dom(), after.entries.dom());
        },
        _ => {},
    }
}

proof fn lemma_changes_keep_wf(log: StoredLog, changes: Seq<LogChange>)
    requires
        log.wf(),
    ensures
        log_after(log, changes).wf(),
    decreases changes.len(),
{
    if changes.len() > 0 {
        lemma_changes_keep_wf(log, changes.drop_last());
        lemma_change_keeps_wf(log_after(log, changes.drop_last()), changes.last());
    }
}

proof fn lemma_operations_keep_wf(operations: Seq<LogOperation>)
    ensures
        log_after_operations(operations).wf(),
        log_after_operations(operations).last_purged == latest_purge(operations),
    decreases operations.len(),
{
    if operations.len() > 0 {
        let before = log_after_operations(operations.drop_last());
        lemma_operations_keep_wf(operations.drop_last());
        lemma_changes_keep_wf(before, operations.last().changes());
        match operations.last() {
            LogOperation::Append(entries) => lemma_append_overwrites(before, entries),
            LogOperation::Truncate(log_id) => lemma_truncate(before, log_id),
            LogOperation::Purge(log_id) => lemma_purge(before, log_id),
        }
    }
}

proof fn lemma_greatest(indexes: Set<int>) -> (greatest: int)
    requires
        indexes.finite(),
        indexes.len() > 0,
    ensures
        indexes.contains(greatest),
        forall|i: int| #[trigger] indexes.contains(i) ==> i <= greatest,
    decreases indexes.len(),
{
    let one = indexes.choose();
    let rest = indexes.remove(one);
    if rest.len() == 0 {
        assert forall|i: int| #[trigger] indexes.contains(i) implies i <= one by {
            if i != one {
                assert(rest.contains(i));
            }
        }
        one
    } else {
        let other = lemma_greatest(rest);
        let greatest = if one <= other {
            other
        } else {
            one
        };
        assert forall|i: int| #[trigger] indexes.contains(i) implies i <= greatest by {
            if i != one {
                assert(rest.contains(i));
            }
        }
        greatest
    }
}

/// The ends of the log after any operations: the last purged id is that of the latest
/// purge, and the last id is that of the stored entry with the greatest index, or, where
/// no entry is stored, the last purged one.
pub proof fn law_log_state_after_operations(operations: Seq<LogOperation>)
    ensures
        ({
            let log = log_after_operations(operations);
            &&& log.wf()
            &&& log.state().last_purged_log_id == latest_purge(operations)
            &&& (forall|i: int| !log.entries.contains_key(i)) ==> log.state().last_log_id
                == latest_purge(operations)
            &&& (exists|i: int| log.entries.contains_key(i)) ==> exists|i: int|
                log.ends_at(i) && log.state().last_log_id == Some(
                    (#[trigger] log.entries[i]).log_id,
                )
        }),
{
    let log = log_after_operations(operations);
    lemma_operations_keep_wf(operations);
    if exists|i: int| log.entries.contains_key(i) {
        let some = choose|i: int| log.entries.contains_key(i);
        assert(log.entries.dom().contains(some));
        assert(log.entries.dom().len() > 0) by {
            if log.entries.dom().len() == 0 {
                assert(log.entries.dom() =~= Set::empty());
            }
        }
        let greatest = lemma_greatest(log.entries.dom());
        assert(log.ends_at(greatest)) by {
            assert forall|i: int| #[trigger] log.entries.contains_key(i) implies i <= greatest by {
                assert(log.entries.dom().contains(i));
            }
        }
        let last = choose|i: int| log.ends_at(i);
        assert(log.ends_at(last));
        assert(log.state().last_log_id == Some(log.entries[last].log_id));
    }
}

} // verus!
