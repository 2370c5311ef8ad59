use rusqlite::types::Value;
use rusqlite::{params_from_iter, Connection};
use sqlite_backend::error::StorageError;
use sqlite_backend::ids::StreamItemId;
use sqlite_backend::machine::Step;
use sqlite_backend::sql::{statement, SqlValue, Statement};
use sqlite_backend::sql_statements::{
    create_stream_items_table, insert_stream_entry,
};
use sqlite_backend::stream_duration::{
    decode_marker_failed, decode_state_failed, finish_stream_trim_marker,
    initialize_stream_duration_tables, insert_stream_pointer_index, item_stream_key_hash,
    item_stream_policy_version, list_due_stream_trim_markers, load_stream_trim_state,
    plan_item_stream_duration, prepare_due_marker, stream_name_for_scope,
    write_stream_trim_state, ItemStreamName, StreamTrimDueMarker, StreamTrimScope,
    StreamTrimScopeKind, StreamTrimStateWrite,
};
use sqlite_backend::stream_trim::{
    load_stream_trim_boundaries, retained_item_pointer_boundary, start_trim_stream_page,
    stream_item_id_from_hex, trim_stream_page, BoundariesAction, BoundariesEvent,
    BoundariesState, StreamDurationTrimPageRequest, StreamDurationTrimPageResult, StreamTrimRow,
    StreamTrimScopeBoundaries, TrimAction, TrimEvent,
};
use sqlite_backend::types::{StreamDataType, StreamRetentionDuration};

fn values(params: &[SqlValue]) -> Vec<Value> {
    params
        .iter()
        .map(|p| match p {
            SqlValue::Null => Value::Null,
            SqlValue::Integer(n) => Value::Integer(*n),
            SqlValue::Text(s) => Value::Text(s.clone()),
            SqlValue::Blob(b) => Value::Blob(b.clone()),
        })
        .collect()
}

fn run(conn: &Connection, s: &Statement) {
    conn.execute(&s.sql, params_from_iter(values(&s.params))).unwrap();
}

fn all<T>(
    conn: &Connection,
    s: &Statement,
    read: impl Fn(&rusqlite::Row<'_>) -> rusqlite::Result<T>,
) -> Vec<T> {
    let mut prepared = conn.prepare(&s.sql).unwrap();
    let rows = prepared.query_map(params_from_iter(values(&s.params)), |row| read(row)).unwrap();
    rows.map(|row| row.unwrap()).collect()
}

fn trim_row(row: &rusqlite::Row<'_>) -> rusqlite::Result<StreamTrimRow> {
    Ok(StreamTrimRow { item_id: row.get(0)?, created_at: row.get(1)? })
}

fn database() -> Connection {
    let conn = Connection::open_in_memory().unwrap();
    run(&conn, &statement(create_stream_items_table()));
    for s in initialize_stream_duration_tables() {
        run(&conn, &s);
    }
    conn
}

fn add(conn: &Connection, stream_name: &str, version: u64, created_at: i64) {
    let id = StreamItemId::from_version(version);
    run(
        conn,
        &statement(insert_stream_entry(stream_name, &id, b"row", created_at, StreamDataType::Text)),
    );
}

fn point(conn: &Connection, item_stream: &str, version: u64, table_id: u64, system_id: u64) {
    run(
        conn,
        &insert_stream_pointer_index(
            "orders",
            item_stream,
            version,
            StreamItemId::from_version(table_id),
            StreamItemId::from_version(system_id),
            1,
        ),
    );
}

fn versions(conn: &Connection, stream_name: &str) -> Vec<u64> {
    let mut prepared = conn
        .prepare("SELECT item_id FROM sys_stream_items WHERE stream_name = ?1 ORDER BY item_id")
        .unwrap();
    let rows = prepared.query_map([stream_name], |row| row.get::<_, String>(0)).unwrap();
    rows.map(|id| StreamItemId::parse(&id.unwrap()).unwrap().version()).collect()
}

fn count(conn: &Connection, table: &str) -> i64 {
    conn.query_row(&format!("SELECT COUNT(*) FROM {table}"), [], |row| row.get(0)).unwrap()
}

fn table_scope() -> StreamTrimScope {
    StreamTrimScope {
        kind: StreamTrimScopeKind::Table,
        scope_id: "table:orders".to_string(),
        table_name: "orders".to_string(),
        table_stream_name: "orders-stream".to_string(),
    }
}

fn item_scope() -> StreamTrimScope {
    StreamTrimScope {
        kind: StreamTrimScopeKind::Item,
        scope_id: "orders/1".to_string(),
        table_name: "orders".to_string(),
        table_stream_name: "orders-stream".to_string(),
    }
}

fn trim(
    conn: &Connection,
    request: &StreamDurationTrimPageRequest,
) -> Result<StreamDurationTrimPageResult, StorageError> {
    let mut step = start_trim_stream_page(request);
    loop {
        let (state, action) = match step {
            Step::Finish(result) => return result,
            Step::Perform { state, action } => (state, action),
        };
        let event = match action {
            TrimAction::QueryRows(s) => TrimEvent::RowsRead(Ok(all(conn, &s, trim_row))),
            TrimAction::Run(list) => {
                for s in &list {
                    run(conn, s);
                }
                TrimEvent::Deleted(Ok(()))
            }
            TrimAction::QueryFirst(s) => {
                TrimEvent::FirstRead(Ok(all(conn, &s, trim_row).into_iter().next()))
            }
        };
        step = trim_stream_page(request, state, event);
    }
}

fn boundaries(
    conn: &Connection,
    scope: &StreamTrimScope,
    floor: Option<StreamItemId>,
) -> Result<StreamTrimScopeBoundaries, StorageError> {
    let mut step = load_stream_trim_boundaries(
        scope,
        BoundariesState::LoadingFloor,
        BoundariesEvent::FloorLoaded(Ok(floor)),
    );
    loop {
        let (state, action) = match step {
            Step::Finish(result) => return result,
            Step::Perform { state, action } => (state, action),
        };
        let event = match action {
            BoundariesAction::LoadProtectedFloor => BoundariesEvent::FloorLoaded(Ok(floor)),
            BoundariesAction::Query(s) => BoundariesEvent::RowRead(Ok(all(conn, &s, |row| {
                row.get::<_, String>(0)
            })
            .into_iter()
            .next())),
        };
        step = load_stream_trim_boundaries(scope, state, event);
    }
}

#[test]
fn scopes_name_their_streams() {
    assert_eq!(stream_name_for_scope(&table_scope()), "orders-stream");
    assert_eq!(stream_name_for_scope(&item_scope()), "orders/1");
}

#[test]
fn table_trim_deletes_a_bounded_page_of_old_rows() {
    let conn = database();
    for (version, created_at) in [(1, 10), (2, 20), (3, 30), (4, 40)] {
        add(&conn, "orders-stream", version, created_at);
        point(&conn, "orders/1", version, version, version);
    }
    let request = StreamDurationTrimPageRequest {
        scope: table_scope(),
        cutoff_timestamp: 30,
        max_deleted_item_id: None,
        page_limit: 2,
    };
    assert_eq!(
        trim(&conn, &request),
        Ok(StreamDurationTrimPageResult {
            deleted_rows: 2,
            first_remaining_version: Some(3),
            first_remaining_timestamp: Some(30),
        })
    );
    assert_eq!(versions(&conn, "orders-stream"), vec![3, 4]);
    assert_eq!(count(&conn, "sys_stream_pointer_index"), 2);
    trim(&conn, &request).unwrap();
    assert_eq!(versions(&conn, "orders-stream"), vec![4]);
}

#[test]
fn item_trim_keeps_the_index_of_pointers() {
    let conn = database();
    add(&conn, "orders/1", 1, 10);
    point(&conn, "orders/1", 1, 5, 6);
    let request = StreamDurationTrimPageRequest {
        scope: item_scope(),
        cutoff_timestamp: 30,
        max_deleted_item_id: None,
        page_limit: 10,
    };
    assert_eq!(
        trim(&conn, &request),
        Ok(StreamDurationTrimPageResult {
            deleted_rows: 1,
            first_remaining_version: None,
            first_remaining_timestamp: None,
        })
    );
    assert_eq!(count(&conn, "sys_stream_pointer_index"), 1);
}

#[test]
fn trim_keeps_rows_beyond_the_greatest_id_that_may_go() {
    let conn = database();
    for version in 1..=4 {
        add(&conn, "orders/1", version, 10);
    }
    let request = StreamDurationTrimPageRequest {
        scope: item_scope(),
        cutoff_timestamp: 30,
        max_deleted_item_id: Some(StreamItemId::from_version(2)),
        page_limit: 10,
    };
    assert_eq!(trim(&conn, &request).unwrap().deleted_rows, 2);
    assert_eq!(versions(&conn, "orders/1"), vec![3, 4]);
}

#[test]
fn rows_that_cannot_be_read_stop_a_trim() {
    let conn = database();
    conn.execute(
        "INSERT INTO sys_stream_items (stream_name, item_id, data, created_at, data_type) \
         VALUES ('orders/1', 'old-id', x'01', 1, 2)",
        [],
    )
    .unwrap();
    let request = StreamDurationTrimPageRequest {
        scope: item_scope(),
        cutoff_timestamp: 30,
        max_deleted_item_id: None,
        page_limit: 10,
    };
    assert_eq!(
        trim(&conn, &request),
        Err(StorageError::Database {
            message: "Conversion error from type Text at index: 0, decode stream item id failed: \
                      invalid stream item id"
                .to_string()
        })
    );
    assert_eq!(count(&conn, "sys_stream_items"), 1);
}

#[test]
fn table_boundaries_follow_the_floor() {
    let conn = database();
    point(&conn, "orders/1", 1, 11, 21);
    point(&conn, "orders/1", 2, 12, 22);
    let none = StreamTrimScopeBoundaries {
        latest_item_id: None,
        protected_boundary: None,
        retained_table_pointer_boundary: None,
    };
    assert_eq!(boundaries(&conn, &table_scope(), None), Ok(none));
    assert_eq!(
        boundaries(&conn, &table_scope(), Some(StreamItemId::from_version(22))),
        Ok(StreamTrimScopeBoundaries {
            protected_boundary: Some(StreamItemId::from_version(12)),
            ..none
        })
    );
    assert_eq!(
        boundaries(&conn, &table_scope(), Some(StreamItemId::from_version(23))),
        Ok(none)
    );
}

#[test]
fn item_boundaries_follow_the_retained_pointers() {
    let conn = database();
    add(&conn, "orders/1", 7, 10);
    add(&conn, "orders/1", 9, 10);
    assert_eq!(
        boundaries(&conn, &item_scope(), None),
        Ok(StreamTrimScopeBoundaries {
            latest_item_id: Some(StreamItemId::from_version(9)),
            protected_boundary: None,
            retained_table_pointer_boundary: None,
        })
    );
    point(&conn, "orders/1", 8, 1, 2);
    assert_eq!(
        boundaries(&conn, &item_scope(), None).unwrap().retained_table_pointer_boundary,
        retained_item_pointer_boundary(Some("8")).unwrap()
    );
}

#[test]
fn ids_and_versions_that_cannot_be_read_are_refused() {
    assert_eq!(
        stream_item_id_from_hex("000000000000000000000009"),
        Ok(StreamItemId::from_version(9))
    );
    assert!(stream_item_id_from_hex("9").is_err());
    assert_eq!(retained_item_pointer_boundary(None), Ok(None));
    assert!(retained_item_pointer_boundary(Some("x")).is_err());
    assert!(retained_item_pointer_boundary(Some("")).is_err());
    assert!(retained_item_pointer_boundary(Some("18446744073709551616")).is_err());
}

fn write(scope_id: &str, blob: &[u8], marker: Option<StreamTrimDueMarker>) -> StreamTrimStateWrite {
    StreamTrimStateWrite {
        scope_id: scope_id.to_string(),
        updated_at: 3,
        encoded: Ok(blob.to_vec()),
        next_marker: marker,
    }
}

fn marker(due_bucket: i64, scope_id: &str, policy_version: u64) -> StreamTrimDueMarker {
    StreamTrimDueMarker {
        due_bucket,
        scope_id: scope_id.to_string(),
        policy_version,
        encoded: Ok(format!("{due_bucket}/{scope_id}/{policy_version}").into_bytes()),
    }
}

fn due(conn: &Connection, before: i64, limit: usize) -> Vec<String> {
    all(conn, &list_due_stream_trim_markers(before, limit).unwrap(), |row| {
        Ok(String::from_utf8(row.get::<_, Vec<u8>>(0)?).unwrap())
    })
}

#[test]
fn sqlite_stream_trim_state_round_trips_by_scope() {
    let conn = database();
    let state = b"table/orders at policy 7";
    for s in write_stream_trim_state(write("table/orders", state, None)).unwrap() {
        run(&conn, &s);
    }
    let loaded = all(&conn, &load_stream_trim_state("table/orders"), |row| {
        row.get::<_, Vec<u8>>(0)
    });
    assert_eq!(loaded, vec![state.to_vec()]);
}

#[test]
fn sqlite_due_markers_are_ordered_and_bounded() {
    let conn = database();
    for late_or_early in [marker(7_200_000, "table/late", 2), marker(3_600_000, "table/early", 1)] {
        run(&conn, &prepare_due_marker(late_or_early).unwrap().apply());
    }
    assert_eq!(due(&conn, 7_200_000, 1), vec!["3600000/table/early/1"]);
    assert_eq!(
        due(&conn, i64::MAX, 10),
        vec!["3600000/table/early/1", "7200000/table/late/2"]
    );
}

#[test]
fn trim_states_are_kept_by_scope() {
    let conn = database();
    for s in write_stream_trim_state(write("a", b"one", None)).unwrap() {
        run(&conn, &s);
    }
    for s in write_stream_trim_state(write("a", b"two", None)).unwrap() {
        run(&conn, &s);
    }
    for s in write_stream_trim_state(write("b", b"three", None)).unwrap() {
        run(&conn, &s);
    }
    let load = |scope: &str| {
        all(&conn, &load_stream_trim_state(scope), |row| row.get::<_, Vec<u8>>(0))
    };
    assert_eq!(load("a"), vec![b"two".to_vec()]);
    assert_eq!(load("b"), vec![b"three".to_vec()]);
    assert_eq!(load("c"), Vec::<Vec<u8>>::new());
}

#[test]
fn finished_markers_are_no_longer_due() {
    let conn = database();
    for (bucket, scope) in [(30, "a"), (10, "b"), (20, "c"), (10, "a")] {
        let next = Some(marker(bucket, scope, 1));
        for s in write_stream_trim_state(write(scope, b"state", next)).unwrap() {
            run(&conn, &s);
        }
    }
    assert_eq!(due(&conn, 20, 10), vec!["10/a/1", "10/b/1", "20/c/1"]);
    assert_eq!(due(&conn, 20, 2), vec!["10/a/1", "10/b/1"]);

    let next = Some(marker(40, "b", 2));
    let finish = finish_stream_trim_marker(
        10,
        "b".to_string(),
        1,
        Some(write("b", b"later", next)),
    );
    for s in finish.unwrap() {
        run(&conn, &s);
    }
    assert_eq!(due(&conn, 20, 10), vec!["10/a/1", "20/c/1"]);
    assert_eq!(due(&conn, 40, 10), vec!["10/a/1", "20/c/1", "30/a/1", "40/b/2"]);
}

#[test]
fn policy_versions_and_limits_must_fit() {
    let too_large = StorageError::Validation {
        message: "stream trim policy version is too large: out of range integral type \
                  conversion attempted"
            .to_string(),
    };
    assert_eq!(prepare_due_marker(marker(1, "a", u64::MAX)).err(), Some(too_large));
    assert!(finish_stream_trim_marker(1, "a".to_string(), u64::MAX, None).is_err());
    assert!(list_due_stream_trim_markers(1, usize::MAX).is_err());
    let mut failed = marker(1, "a", 1);
    failed.encoded = Err(StorageError::internal("encoder"));
    assert_eq!(prepare_due_marker(failed).err(), Some(StorageError::internal("encoder")));
}

#[test]
fn decoding_failures_are_told() {
    assert_eq!(
        decode_state_failed("eof"),
        StorageError::internal("decode stream trim state failed: eof")
    );
    assert_eq!(
        decode_marker_failed("eof"),
        StorageError::internal("decode stream trim marker failed: eof")
    );
}

#[test]
fn item_streams_are_kept_the_longer_of_two_durations() {
    let hours = StreamRetentionDuration::FiniteHours;
    let longer = StreamRetentionDuration::effective_item_retention;
    assert_eq!(longer(hours(24), hours(48)), hours(48));
    assert_eq!(longer(hours(48), hours(24)), hours(48));
    assert_eq!(longer(StreamRetentionDuration::Forever, hours(1)), StreamRetentionDuration::Forever);
    assert_eq!(longer(hours(1), StreamRetentionDuration::Forever), StreamRetentionDuration::Forever);
}

#[test]
fn policy_versions_tell_policies_apart() {
    let hours = StreamRetentionDuration::FiniteHours;
    let forever = StreamRetentionDuration::Forever;
    assert_eq!(item_stream_policy_version(hours(1), hours(24)), (1 << 32) + 24);
    assert_eq!(item_stream_policy_version(hours(48), hours(24)), (48 << 32) + 48);
    assert_eq!(item_stream_policy_version(hours(1), forever), (1 << 32) + u64::from(u32::MAX));
    assert_eq!(item_stream_policy_version(forever, hours(1)), u64::MAX);
    assert_eq!(
        item_stream_policy_version(hours(48), hours(1)),
        item_stream_policy_version(hours(48), hours(24))
    );
    assert_ne!(
        item_stream_policy_version(hours(1), hours(24)),
        item_stream_policy_version(hours(2), hours(24))
    );
}

#[test]
fn item_stream_durations_are_planned_where_asked_for() {
    let hours = StreamRetentionDuration::FiniteHours;
    let named = || ItemStreamName::Named("orders/1".to_string());
    assert!(plan_item_stream_duration(hours(24), None, named()).unwrap().is_none());
    let plan = plan_item_stream_duration(hours(24), Some(hours(48)), named()).unwrap().unwrap();
    assert_eq!(plan.scope_id, "orders/1");
    assert_eq!(plan.retention, hours(48));
    assert_eq!(plan.table_retention, hours(24));
    assert_eq!(plan.policy_version, item_stream_policy_version(hours(48), hours(24)));
    let again = plan_item_stream_duration(hours(24), Some(hours(48)), named()).unwrap().unwrap();
    assert_eq!(plan.policy_version, again.policy_version);
    assert_eq!(plan.item_key_hash, again.item_key_hash);

    let failed = ItemStreamName::KeyFailed("no key".to_string());
    assert_eq!(
        plan_item_stream_duration(hours(24), Some(hours(48)), failed).err(),
        Some(StorageError::validation("custom item stream TTL key failed: no key"))
    );
    let failed = ItemStreamName::ScopeFailed("no scope".to_string());
    assert_eq!(
        plan_item_stream_duration(hours(24), Some(hours(48)), failed).err(),
        Some(StorageError::validation("custom item stream TTL scope failed: no scope"))
    );
}

#[test]
fn key_hashes_are_name_uuids() {
    let expected = uuid::Uuid::new_v5(&uuid::Uuid::NAMESPACE_OID, b"orders/1");
    assert_eq!(item_stream_key_hash("orders/1"), format!("sqlite-key:{expected}"));
    assert_ne!(item_stream_key_hash("orders/1"), item_stream_key_hash("orders/2"));
}
