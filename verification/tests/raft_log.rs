use rusqlite::types::Value;
use rusqlite::{params_from_iter, Connection};
use sqlite_backend::error::StorageError;
use sqlite_backend::provider::SQLiteStorageProvider;
use sqlite_backend::sql::{SqlValue, Statement};
use sqlite_backend::sync_raft_log_store::{
    ensure_sync_raft_command_results_table, ensure_sync_raft_tables, read_last_log_id,
    read_metadata, LogBound, LogEntry, LogId, LogState, SqliteLogRange, SqliteSyncRaftLogStore,
    Vote, COMMITTED_KEY, LAST_PURGED_KEY, VOTE_KEY,
};

fn values(params: &[SqlValue]) -> Vec<Value> {
    params
        .iter()
        .map(|p| match p {
            SqlValue::Null => Value::Null,
            SqlValue::Integer(n) => Value::Integer(*n),
            SqlValue::Text(s) => Value::Text(s.clone()),
            SqlValue::Blob(b) => Value::Blob(b.clone()),
        })
        .collect()
}

fn run(conn: &Connection, s: &Statement) {
    conn.execute(&s.sql, params_from_iter(values(&s.params))).unwrap();
}

fn texts(conn: &Connection, s: &Statement) -> Vec<String> {
    let mut prepared = conn.prepare(&s.sql).unwrap();
    let rows = prepared
        .query_map(params_from_iter(values(&s.params)), |row| row.get::<_, String>(0))
        .unwrap();
    rows.map(|row| row.unwrap()).collect()
}

fn first(conn: &Connection, s: &Statement) -> Option<String> {
    texts(conn, s).into_iter().next()
}

fn store() -> SqliteSyncRaftLogStore {
    SqliteSyncRaftLogStore::new(SQLiteStorageProvider {
        immediate_gsi_consistency: false,
        has_snapshot_connections: true,
    })
}

struct SharedDatabase {
    name: String,
    _keeper: Connection,
}

impl SharedDatabase {
    fn new() -> Self {
        let name = format!("file:sync-raft-{}?mode=memory&cache=shared", uuid::Uuid::new_v4());
        let _keeper = Connection::open(&name).unwrap();
        SharedDatabase { name, _keeper }
    }

    fn open(&self) -> Connection {
        prepare(Connection::open(&self.name).unwrap())
    }
}

fn database() -> Connection {
    prepare(Connection::open_in_memory().unwrap())
}

fn prepare(conn: Connection) -> Connection {
    for s in ensure_sync_raft_tables() {
        run(&conn, &s);
    }
    run(&conn, &ensure_sync_raft_command_results_table());
    conn
}

fn log_id(term: u64, node_id: u64, index: u64) -> LogId {
    LogId { term, node_id, index }
}

fn entry_json(id: LogId) -> String {
    format!("blank {} {} {}", id.term, id.node_id, id.index)
}

fn append(conn: &Connection, ids: &[LogId]) {
    let entries = ids
        .iter()
        .map(|id| LogEntry { log_id: *id, entry_json: entry_json(*id) })
        .collect();
    let script = store().append_entries(entries);
    assert_eq!(script.failure, None);
    for s in &script.statements {
        run(conn, s);
    }
}

fn entries(conn: &Connection, start: u64, end: u64) -> Vec<String> {
    texts(
        conn,
        &store().try_get_log_entries(LogBound::Included(start), LogBound::Excluded(end)),
    )
}

#[test]
fn vote_log_entries_and_committed_metadata_persist_across_reopen() {
    let shared = SharedDatabase::new();
    let conn = shared.open();
    let first_entry = log_id(1, 7, 1);
    let second_entry = log_id(1, 7, 2);
    let vote = Vote { term: 3, node_id: 7, committed: false };

    run(&conn, &store().save_vote(vote).unwrap());
    append(&conn, &[first_entry, second_entry]);
    run(&conn, &store().save_committed(Some(second_entry)).unwrap());
    drop(conn);

    let conn = shared.open();

    let vote_json = first(&conn, &read_metadata(VOTE_KEY));
    assert_eq!(store().read_vote(vote_json.as_deref()), Ok(Some(vote)));
    let committed_json = first(&conn, &read_metadata(COMMITTED_KEY));
    assert_eq!(store().read_committed(committed_json.as_deref()), Ok(Some(second_entry)));
    assert_eq!(
        entries(&conn, 1, 3),
        vec![entry_json(first_entry), entry_json(second_entry)]
    );
}

#[test]
fn truncate_and_purge_update_persistent_log_state() {
    let shared = SharedDatabase::new();
    let conn = shared.open();
    let first_entry = log_id(1, 7, 1);
    let second_entry = log_id(1, 7, 2);
    let third_entry = log_id(2, 7, 3);

    append(&conn, &[first_entry, second_entry, third_entry]);
    run(&conn, &store().truncate(second_entry).unwrap());
    assert_eq!(entries(&conn, 1, 4), vec![entry_json(first_entry)]);

    append(&conn, &[second_entry, third_entry]);
    for s in store().purge(second_entry).unwrap() {
        run(&conn, &s);
    }

    drop(conn);

    let conn = shared.open();
    let last_purged = first(&conn, &read_metadata(LAST_PURGED_KEY));
    let last_entry = first(&conn, &read_last_log_id());
    assert_eq!(
        store().get_log_state(last_purged.as_deref(), last_entry.as_deref()),
        Ok(LogState {
            last_purged_log_id: Some(second_entry),
            last_log_id: Some(third_entry),
        })
    );
    assert_eq!(entries(&conn, 1, 4), vec![entry_json(third_entry)]);
}

#[test]
fn command_dedupe_response_persists_across_reopen() {
    let shared = SharedDatabase::new();
    let conn = shared.open();
    let proposal_id = "TransactWriteItems#client_request_token#token-1";
    let response = r#"{"responses":[{"response_json":"{\"ConsumedCapacity\":[]}"}]}"#;
    assert_eq!(first(&conn, &store().load_sync_command_response(proposal_id)), None);
    run(&conn, &store().save_sync_command_response(proposal_id, response));
    drop(conn);

    let conn = shared.open();
    assert_eq!(
        first(&conn, &store().load_sync_command_response(proposal_id)),
        Some(response.to_string())
    );
}

#[test]
fn appended_entries_replace_those_of_their_index() {
    let conn = database();
    append(&conn, &[log_id(1, 7, 1), log_id(1, 7, 2)]);
    append(&conn, &[log_id(2, 8, 2)]);
    append(&conn, &[log_id(2, 8, 2)]);
    assert_eq!(
        entries(&conn, 0, 10),
        vec![entry_json(log_id(1, 7, 1)), entry_json(log_id(2, 8, 2))]
    );
}

#[test]
fn an_empty_log_ends_where_it_was_purged() {
    let conn = database();
    assert_eq!(
        store().get_log_state(None, None),
        Ok(LogState { last_purged_log_id: None, last_log_id: None })
    );
    append(&conn, &[log_id(1, 7, 1)]);
    for s in store().purge(log_id(1, 7, 1)).unwrap() {
        run(&conn, &s);
    }
    let last_purged = first(&conn, &read_metadata(LAST_PURGED_KEY));
    let last_entry = first(&conn, &read_last_log_id());
    assert_eq!(last_entry, None);
    assert_eq!(
        store().get_log_state(last_purged.as_deref(), None),
        Ok(LogState {
            last_purged_log_id: Some(log_id(1, 7, 1)),
            last_log_id: Some(log_id(1, 7, 1)),
        })
    );
}

fn state(conn: &Connection) -> LogState {
    let last_purged = first(conn, &read_metadata(LAST_PURGED_KEY));
    let last_entry = first(conn, &read_last_log_id());
    store().get_log_state(last_purged.as_deref(), last_entry.as_deref()).unwrap()
}

#[test]
fn the_log_ends_at_the_greatest_index_whatever_was_done() {
    let conn = database();
    let ends = |purged: Option<LogId>, last: Option<LogId>| LogState {
        last_purged_log_id: purged,
        last_log_id: last,
    };
    append(&conn, &[log_id(1, 7, 10), log_id(1, 7, 9)]);
    assert_eq!(state(&conn), ends(None, Some(log_id(1, 7, 10))));
    run(&conn, &store().truncate(log_id(1, 7, 10)).unwrap());
    assert_eq!(state(&conn), ends(None, Some(log_id(1, 7, 9))));
    for s in store().purge(log_id(1, 7, 20)).unwrap() {
        run(&conn, &s);
    }
    assert_eq!(state(&conn), ends(Some(log_id(1, 7, 20)), Some(log_id(1, 7, 20))));
    append(&conn, &[log_id(2, 7, 3)]);
    assert_eq!(state(&conn), ends(Some(log_id(1, 7, 20)), Some(log_id(2, 7, 3))));
    for s in store().purge(log_id(2, 7, 2)).unwrap() {
        run(&conn, &s);
    }
    assert_eq!(state(&conn), ends(Some(log_id(2, 7, 2)), Some(log_id(2, 7, 3))));
}

#[test]
fn written_ids_and_votes_are_those_of_the_log_format() {
    let s = store().save_committed(Some(log_id(1, 2, 3))).unwrap();
    let id: openraft::LogId<u64> =
        openraft::LogId::new(openraft::CommittedLeaderId::new(1, 2), 3);
    assert_eq!(
        s.params,
        vec![
            SqlValue::Text("committed".to_string()),
            SqlValue::Text(serde_json::to_string(&Some(id)).unwrap()),
        ]
    );
    let s = store().save_vote(Vote { term: 4, node_id: 5, committed: true }).unwrap();
    let vote: openraft::Vote<u64> = openraft::Vote::new_committed(4, 5);
    assert_eq!(
        s.params,
        vec![
            SqlValue::Text("vote".to_string()),
            SqlValue::Text(serde_json::to_string(&vote).unwrap()),
        ]
    );
}

#[test]
fn committed_can_be_cleared() {
    let conn = database();
    run(&conn, &store().save_committed(Some(log_id(1, 2, 3))).unwrap());
    run(&conn, &store().save_committed(None).unwrap());
    let json = first(&conn, &read_metadata(COMMITTED_KEY));
    assert_eq!(store().read_committed(json.as_deref()), Ok(None));
    assert_eq!(store().read_committed(None), Ok(None));
    assert_eq!(store().read_vote(None), Ok(None));
}

#[test]
fn metadata_that_is_no_json_cannot_be_read() {
    assert!(store().read_vote(Some("{")).is_err());
    assert!(store().read_committed(Some("{")).is_err());
    assert!(store().get_log_state(Some("{"), None).is_err());
    assert!(store().get_log_state(None, Some("{")).is_err());
}

#[test]
fn indexes_beyond_the_integers_of_the_database_are_refused() {
    let beyond = log_id(1, 1, u64::MAX);
    let refusal = |what: &str| StorageError::Validation {
        message: format!("raft {what} index does not fit sqlite integer"),
    };
    assert_eq!(store().truncate(beyond), Err(refusal("truncate")));
    assert_eq!(store().purge(beyond), Err(refusal("purge")));
    let script = store().append_entries(vec![
        LogEntry { log_id: log_id(1, 1, 5), entry_json: "a".to_string() },
        LogEntry { log_id: beyond, entry_json: "b".to_string() },
    ]);
    assert!(script.failure.is_some());
}

#[test]
fn ranges_are_half_open() {
    assert_eq!(
        SqliteLogRange::from_bounds(LogBound::Included(1), LogBound::Excluded(3)),
        SqliteLogRange { start_inclusive: 1, end_exclusive: Some(3) }
    );
    assert_eq!(
        SqliteLogRange::from_bounds(LogBound::Excluded(1), LogBound::Included(3)),
        SqliteLogRange { start_inclusive: 2, end_exclusive: Some(4) }
    );
    assert_eq!(
        SqliteLogRange::from_bounds(LogBound::Unbounded, LogBound::Unbounded),
        SqliteLogRange { start_inclusive: 0, end_exclusive: None }
    );
}
