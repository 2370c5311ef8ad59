use rusqlite::types::Value;
use rusqlite::{params_from_iter, Connection};
use sqlite_backend::error::{StorageError, StreamError};
use sqlite_backend::ids::StreamItemId;
use sqlite_backend::machine::Step;
use sqlite_backend::sql::{statement, SqlValue, Statement};
use sqlite_backend::sql_statements::{
    create_stream_format_metadata_table, create_stream_items_table, create_user_streams_table,
    get_cursor_details, get_stream_info, insert_stream_entry, upsert_stream_format_version,
};
use sqlite_backend::stream_cursor::{
    self, AdvanceCursorEvent, AdvanceCursorState, CreateCursorEvent, CursorPage, CursorPosition,
    CursorRef, CursorRow, ReadCursorEvent, StreamCursor,
};
use sqlite_backend::stream_provider::{
    self, CreateStreamEvent, InitializeAction, InitializeEvent, PointerRow, Stream, StreamAction,
    StreamItem, StreamItemRow, StreamPage,
};
use sqlite_backend::types::{ReadDirection, StreamDataType};

fn values(params: &[SqlValue]) -> Vec<Value> {
    params
        .iter()
        .map(|p| match p {
            SqlValue::Null => Value::Null,
            SqlValue::Integer(n) => Value::Integer(*n),
            SqlValue::Text(s) => Value::Text(s.clone()),
            SqlValue::Blob(b) => Value::Blob(b.clone()),
        })
        .collect()
}

fn run(conn: &Connection, s: &Statement) -> Result<usize, String> {
    conn.execute(&s.sql, params_from_iter(values(&s.params))).map_err(|e| e.to_string())
}

fn first<T>(
    conn: &Connection,
    s: &Statement,
    read: impl Fn(&rusqlite::Row<'_>) -> rusqlite::Result<T>,
) -> Result<Option<T>, String> {
    let mut found = all(conn, s, read)?;
    if found.is_empty() {
        return Ok(None);
    }
    Ok(Some(found.remove(0)))
}

fn all<T>(
    conn: &Connection,
    s: &Statement,
    read: impl Fn(&rusqlite::Row<'_>) -> rusqlite::Result<T>,
) -> Result<Vec<T>, String> {
    let mut prepared = conn.prepare(&s.sql).map_err(|e| e.to_string())?;
    let rows = prepared
        .query_map(params_from_iter(values(&s.params)), |row| read(row))
        .map_err(|e| e.to_string())?;
    rows.collect::<Result<Vec<T>, rusqlite::Error>>().map_err(|e| e.to_string())
}

fn database(message: String) -> StorageError {
    StorageError::Database { message }
}

fn item_row(row: &rusqlite::Row<'_>) -> rusqlite::Result<StreamItemRow> {
    Ok(StreamItemRow {
        item_id: row.get(0)?,
        stream_name: row.get(1)?,
        data: row.get(2)?,
        created_at: row.get(3)?,
        data_type: row.get(4)?,
    })
}

fn pointer_row(row: &rusqlite::Row<'_>) -> rusqlite::Result<PointerRow> {
    let data: Vec<u8> = row.get(2)?;
    let pointer: serde_json::Value = serde_json::from_slice(&data).unwrap();
    let decode_error = if pointer.get("target_item_stream_version").is_some() {
        None
    } else {
        Some("missing field `target_item_stream_version`".to_string())
    };
    Ok(PointerRow { stream_name: row.get(0)?, item_id: row.get(1)?, decode_error })
}

fn initialize(conn: &Connection) -> Result<(), StorageError> {
    let mut step = stream_provider::start_initialize_stream();
    loop {
        let (state, action) = match step {
            Step::Finish(result) => return result,
            Step::Perform { state, action } => (state, action),
        };
        let event = match action {
            InitializeAction::Run(list) => InitializeEvent::Ran(
                list.iter().try_for_each(|s| run(conn, s).map(|_| ())).map_err(database),
            ),
            InitializeAction::QueryInteger(s) => InitializeEvent::IntegerRead(
                first(conn, &s, |row| row.get::<_, i64>(0)).map_err(database),
            ),
            InitializeAction::QueryPointers(s) => InitializeEvent::PointersRead(
                all(conn, &s, pointer_row)
                    .map(|rows| rows.into_iter().map(Ok).collect())
                    .map_err(database),
            ),
        };
        step = stream_provider::initialize_stream(state, event);
    }
}

fn test_database() -> Connection {
    let conn = Connection::open_in_memory().unwrap();
    initialize(&conn).unwrap();
    conn
}

fn has_row(conn: &Connection, s: &Statement) -> Result<bool, String> {
    first(conn, s, |_| Ok(())).map(|found| found.is_some())
}

fn make_stream(conn: &Connection, name: &str, ttl: Option<u32>) -> Result<String, StreamError> {
    let (stream, mut step) = stream_provider::start_create_stream(name, ttl, 7);
    loop {
        let (state, action) = match step {
            Step::Finish(result) => return result,
            Step::Perform { state, action } => (state, action),
        };
        let event = match action {
            StreamAction::Exists(s) => CreateStreamEvent::Checked(has_row(conn, &s)),
            StreamAction::Run(s) => CreateStreamEvent::Inserted(run(conn, &s)),
            _ => panic!("creating a stream reads no rows"),
        };
        step = stream_provider::create_stream(&stream, state, event);
    }
}

fn find_stream(conn: &Connection, name: &str) -> Option<Stream> {
    let row = first(conn, &statement(get_stream_info(name)), |row| {
        Ok(Stream {
            name: row.get(0)?,
            internal_id: row.get(1)?,
            ttl_seconds: row.get(2)?,
            created_at: row.get(3)?,
        })
    });
    stream_provider::get_stream_result(row).unwrap()
}

fn append(conn: &Connection, stream_name: &str, data: &[u8]) -> StreamItemId {
    let (id, s) = stream_provider::append_item(stream_name, data, 11);
    stream_provider::append_item_result(id, run(conn, &s)).unwrap()
}

fn forward(
    conn: &Connection,
    stream_name: &str,
    after: Option<StreamItemId>,
    limit: u32,
) -> Result<StreamPage, StreamError> {
    let s = stream_provider::read_forward(stream_name, after, limit)?;
    stream_provider::read_result(all(conn, &s, item_row), limit, ReadDirection::Forward)
}

fn backward(
    conn: &Connection,
    stream_name: &str,
    from: Option<StreamItemId>,
    limit: u32,
) -> Result<StreamPage, StreamError> {
    let s = stream_provider::read_backward(stream_name, from, limit)?;
    stream_provider::read_result(all(conn, &s, item_row), limit, ReadDirection::Backward)
}

fn cursor_of(stream_name: &str, cursor_name: &str) -> CursorRef {
    CursorRef { cursor_name: cursor_name.to_string(), stream_name: stream_name.to_string() }
}

fn make_cursor(
    conn: &Connection,
    cursor: &CursorRef,
    position: CursorPosition,
) -> Result<(), StreamError> {
    let mut step = stream_cursor::start_create_cursor(cursor);
    loop {
        let (state, action) = match step {
            Step::Finish(result) => return result,
            Step::Perform { state, action } => (state, action),
        };
        let event = match action {
            StreamAction::Exists(s) => CreateCursorEvent::Checked(has_row(conn, &s)),
            StreamAction::Run(s) => CreateCursorEvent::Inserted(run(conn, &s)),
            StreamAction::QueryText(s) => {
                CreateCursorEvent::LatestRead(first(conn, &s, |row| row.get::<_, String>(0)))
            }
            StreamAction::QueryRows(_) => panic!("creating a cursor reads no rows"),
        };
        step = stream_cursor::create_cursor(cursor, position, 13, state, event);
    }
}

fn read_cursor(
    conn: &Connection,
    cursor: &CursorRef,
    limit: u32,
) -> Result<CursorPage, StreamError> {
    let mut step = stream_cursor::start_read_from_cursor(cursor, limit);
    loop {
        let (state, action) = match step {
            Step::Finish(result) => return result,
            Step::Perform { state, action } => (state, action),
        };
        let event = match action {
            StreamAction::QueryText(s) => {
                ReadCursorEvent::PositionRead(first(conn, &s, |row| row.get::<_, String>(0)))
            }
            StreamAction::QueryRows(s) => ReadCursorEvent::RowsRead(all(conn, &s, item_row)),
            _ => panic!("reading changes nothing"),
        };
        step = stream_cursor::read_from_cursor(cursor, limit, state, event);
    }
}

fn move_cursor(
    conn: &Connection,
    cursor: &CursorRef,
    to_item_id: StreamItemId,
) -> Result<(), StreamError> {
    let mut step = stream_cursor::start_advance_cursor(cursor);
    loop {
        let (state, action) = match step {
            Step::Finish(result) => return result,
            Step::Perform { state, action } => (state, action),
        };
        let event = match action {
            StreamAction::Exists(s) if state == AdvanceCursorState::CheckingCursor => {
                AdvanceCursorEvent::CursorChecked(has_row(conn, &s))
            }
            StreamAction::Exists(s) => AdvanceCursorEvent::ItemChecked(has_row(conn, &s)),
            StreamAction::Run(s) => AdvanceCursorEvent::Moved(run(conn, &s)),
            _ => panic!("moving a cursor reads no rows"),
        };
        step = stream_cursor::advance_cursor(cursor, to_item_id, state, event);
    }
}

fn find_cursor(conn: &Connection, cursor: &CursorRef) -> Option<StreamCursor> {
    let s = statement(get_cursor_details(&cursor.stream_name, &cursor.cursor_name));
    let row = first(conn, &s, |row| {
        Ok(CursorRow {
            name: row.get(0)?,
            stream_name: row.get(1)?,
            position: row.get(2)?,
            created_at: row.get(3)?,
        })
    });
    stream_cursor::get_cursor_result(row).unwrap()
}

fn assert_unsupported_contains(err: &StorageError, expected: &str) {
    let StorageError::Unsupported { message } = err else {
        panic!("expected unsupported storage error, got {err:?}");
    };
    assert!(message.contains(expected), "expected '{message}' to contain '{expected}'");
}

fn prepare(conn: &Connection) {
    run(conn, &statement(create_user_streams_table())).unwrap();
    run(conn, &statement(create_stream_items_table())).unwrap();
}

#[test]
fn stream_initialization() {
    let _conn = test_database();
}

#[test]
fn stream_initialization_can_be_repeated() {
    let conn = test_database();
    append(&conn, "s", b"row");
    assert_eq!(initialize(&conn), Ok(()));
}

#[test]
fn stream_initialization_writes_item_versioned_format_metadata() {
    let conn = test_database();
    let version = conn
        .query_row(
            "SELECT format_version FROM sys_stream_format_metadata WHERE format_key = \
             'item_versioned_stream'",
            [],
            |row| row.get::<_, i64>(0),
        )
        .unwrap();
    assert_eq!(version, 1);
}

#[test]
fn stream_initialization_rejects_nonempty_stream_items_without_format_metadata() {
    let conn = Connection::open_in_memory().unwrap();
    prepare(&conn);
    conn.execute(
        "INSERT INTO sys_stream_items (stream_name, item_id, data, created_at, data_type) \
         VALUES ('old-stream', 'old-id', x'01', 1, 2)",
        [],
    )
    .unwrap();

    let err = initialize(&conn).expect_err("old stream rows should be rejected");
    assert_unsupported_contains(&err, "in-place upgrade");
}

#[test]
fn stream_initialization_rejects_missing_metadata_without_migration_or_payload() {
    let conn = Connection::open_in_memory().unwrap();
    prepare(&conn);
    conn.execute(
        "INSERT INTO sys_stream_items (stream_name, item_id, data, created_at, data_type) \
         VALUES ('old-stream', 'old-id', x'534543524554', 1, 2)",
        [],
    )
    .unwrap();

    let err = initialize(&conn).expect_err("old stream rows should be rejected");
    assert_unsupported_contains(&err, "in-place upgrade");
    let err_text = format!("{err:?}");
    assert!(!err_text.contains("SECRET"));
    assert!(!err_text.contains("534543524554"));

    let metadata_rows = conn
        .query_row("SELECT COUNT(*) FROM sys_stream_format_metadata", [], |row| {
            row.get::<_, i64>(0)
        })
        .unwrap();
    let stream_rows = conn
        .query_row(
            "SELECT COUNT(*) FROM sys_stream_items WHERE stream_name = 'old-stream' AND \
             item_id = 'old-id'",
            [],
            |row| row.get::<_, i64>(0),
        )
        .unwrap();
    assert_eq!(metadata_rows, 0);
    assert_eq!(stream_rows, 1);
}

#[test]
fn stream_initialization_rejects_incompatible_format_metadata() {
    let conn = Connection::open_in_memory().unwrap();
    prepare(&conn);
    run(&conn, &statement(create_stream_format_metadata_table())).unwrap();
    conn.execute(
        "INSERT INTO sys_stream_format_metadata (format_key, format_version) VALUES \
         ('item_versioned_stream', 999)",
        [],
    )
    .unwrap();

    let err = initialize(&conn).expect_err("incompatible format metadata should be rejected");
    assert_unsupported_contains(&err, "unsupported stream format metadata version");
    assert_eq!(
        err,
        StorageError::Unsupported {
            message: "unsupported stream format metadata version 999; expected item-versioned \
                      stream format version 1"
                .to_string()
        }
    );
}

fn database_with_old_pointer(stream_name: &str, table_name: &str) -> Connection {
    let conn = Connection::open_in_memory().unwrap();
    prepare(&conn);
    run(&conn, &statement(create_stream_format_metadata_table())).unwrap();
    run(&conn, &statement(upsert_stream_format_version())).unwrap();
    let old_pointer = format!(
        "{{\"type\":\"pointer\",\"stream_name\":\"{stream_name}\",\"table_name\":\"{table_name}\"}}"
    );
    conn.execute(
        "INSERT INTO sys_stream_items (stream_name, item_id, data, created_at, data_type) \
         VALUES (?1, ?2, ?3, ?4, ?5)",
        (
            "system",
            "pointer-id",
            old_pointer.as_bytes(),
            1_i64,
            StreamDataType::StreamPointer.code(),
        ),
    )
    .unwrap();
    conn
}

#[test]
fn stream_initialization_rejects_old_format_pointer_payload_with_metadata() {
    let conn = database_with_old_pointer("item-stream", "OldPointerTable");
    let err = initialize(&conn).expect_err("old pointer payload should be rejected");
    assert_unsupported_contains(&err, "old-format stream pointer payload");
}

#[test]
fn stream_initialization_rejects_old_pointer_without_repair_or_payload() {
    let conn = database_with_old_pointer("secret-item-stream", "SecretPointerTable");
    let err = initialize(&conn).expect_err("old pointer payload should be rejected");
    assert_unsupported_contains(&err, "old-format stream pointer payload");
    let err_text = format!("{err:?}");
    assert!(!err_text.contains("SecretPointerTable"));
    assert!(!err_text.contains("secret-item-stream"));

    let stream_rows = conn
        .query_row(
            "SELECT COUNT(*) FROM sys_stream_items WHERE stream_name = 'system' AND item_id = \
             'pointer-id'",
            [],
            |row| row.get::<_, i64>(0),
        )
        .unwrap();
    assert_eq!(stream_rows, 1);
}

#[test]
fn create_stream() {
    let conn = test_database();
    let stream_name = make_stream(&conn, "stream-name", Some(3600)).unwrap();

    let stream = find_stream(&conn, "stream-name").unwrap();
    assert_eq!(stream.name, "stream-name");
    assert_eq!(stream.internal_id, stream_name);
    assert_eq!(stream.ttl_seconds, Some(3600));

    append(&conn, &stream_name, b"test data");
}

#[test]
fn stream_ids_are_texts_of_uuids() {
    let conn = test_database();
    let one = make_stream(&conn, "one", None).unwrap();
    let two = make_stream(&conn, "two", None).unwrap();
    assert_ne!(one, two);
    let parsed = uuid::Uuid::parse_str(&one).unwrap();
    assert_eq!(parsed.to_string(), one);
    assert_eq!(parsed.get_version_num(), 7);
}

#[test]
fn create_duplicate_stream() {
    let conn = test_database();
    make_stream(&conn, "stream-name", Some(3600)).unwrap();
    let result = make_stream(&conn, "stream-name", None);
    assert_eq!(
        result,
        Err(StreamError::StreamAlreadyExists { name: "stream-name".to_string() })
    );
}

#[test]
fn append_and_read_items() {
    let conn = test_database();
    let stream_name = make_stream(&conn, "stream-name", Some(3600)).unwrap();
    let item1_id = append(&conn, &stream_name, b"item1 data");
    let item2_id = append(&conn, &stream_name, b"item2 data");

    let page = forward(&conn, &stream_name, None, 10).unwrap();

    assert_eq!(page.items.len(), 2);
    assert_eq!(page.items[0].id, item1_id);
    assert_eq!(page.items[1].id, item2_id);
    assert_eq!(page.items[0].data, b"item1 data");
    assert_eq!(page.items[1].data, b"item2 data");
    assert!(!page.has_more);
    assert!(page.last_evaluated_key.is_some());
}

#[test]
fn read_backward() {
    let conn = test_database();
    let stream_name = make_stream(&conn, "stream-name", Some(3600)).unwrap();
    let item1_id = append(&conn, &stream_name, b"item1 data");
    let item2_id = append(&conn, &stream_name, b"item2 data");

    let page = backward(&conn, &stream_name, None, 10).unwrap();

    assert_eq!(page.items.len(), 2);
    assert_eq!(page.items[0].id, item2_id);
    assert_eq!(page.items[1].id, item1_id);
}

#[test]
fn create_cursor_at_head() {
    let conn = test_database();
    let stream_name = make_stream(&conn, "stream-name", Some(3600)).unwrap();
    append(&conn, &stream_name, b"item1");
    append(&conn, &stream_name, b"item2");

    let cursor = cursor_of(&stream_name, "consumer1");
    make_cursor(&conn, &cursor, CursorPosition::Head).unwrap();

    let found = find_cursor(&conn, &cursor).unwrap();
    assert_eq!(found.name, "consumer1");
    assert_eq!(found.stream_name, stream_name);
    let page = read_cursor(&conn, &cursor, 10).unwrap();
    assert_eq!(page.items.len(), 2);
}

#[test]
fn create_duplicate_cursor() {
    let conn = test_database();
    let stream_name = make_stream(&conn, "stream-name", Some(3600)).unwrap();
    let cursor = cursor_of(&stream_name, "consumer1");
    make_cursor(&conn, &cursor, CursorPosition::Head).unwrap();
    let result = make_cursor(&conn, &cursor, CursorPosition::Head);
    assert_eq!(
        result,
        Err(StreamError::CursorAlreadyExists { name: "consumer1".to_string() })
    );
}

#[test]
fn read_from_cursor() {
    let conn = test_database();
    let stream_name = make_stream(&conn, "stream-name", Some(3600)).unwrap();
    let cursor = cursor_of(&stream_name, "consumer1");
    append(&conn, &stream_name, b"item1");
    append(&conn, &stream_name, b"item2");
    make_cursor(&conn, &cursor, CursorPosition::Tail).unwrap();
    let item3_id = append(&conn, &stream_name, b"item3");
    let item4_id = append(&conn, &stream_name, b"item4");

    let page = read_cursor(&conn, &cursor, 10).unwrap();
    assert_eq!(page.items.len(), 2);
    assert_eq!(page.items[0].id, item3_id);
    assert_eq!(page.items[1].id, item4_id);
    assert!(!page.has_more);

    move_cursor(&conn, &cursor, item4_id).unwrap();
    assert_eq!(find_cursor(&conn, &cursor).unwrap().position, item4_id);
}

#[test]
fn cursor_pages_tell_whether_there_is_more() {
    let conn = test_database();
    let stream_name = make_stream(&conn, "stream-name", None).unwrap();
    let cursor = cursor_of(&stream_name, "consumer1");
    make_cursor(&conn, &cursor, CursorPosition::Head).unwrap();
    for i in 0..5 {
        append(&conn, &stream_name, format!("item{i}").as_bytes());
    }
    let page = read_cursor(&conn, &cursor, 3).unwrap();
    assert_eq!(page.items.len(), 3);
    assert!(page.has_more);
    move_cursor(&conn, &cursor, page.items[2].id).unwrap();
    let rest = read_cursor(&conn, &cursor, 3).unwrap();
    assert_eq!(rest.items.len(), 2);
    assert!(!rest.has_more);
    assert_eq!(rest.items[0].data, b"item3");
}

#[test]
fn advance_cursor() {
    let conn = test_database();
    let stream_name = make_stream(&conn, "stream-name", Some(3600)).unwrap();
    let cursor = cursor_of(&stream_name, "consumer1");
    append(&conn, &stream_name, b"item1");
    let item2_id = append(&conn, &stream_name, b"item2");
    let item3_id = append(&conn, &stream_name, b"item3");
    make_cursor(&conn, &cursor, CursorPosition::Head).unwrap();

    move_cursor(&conn, &cursor, item2_id).unwrap();
    assert_eq!(find_cursor(&conn, &cursor).unwrap().position, item2_id);

    let page = read_cursor(&conn, &cursor, 10).unwrap();
    assert_eq!(page.items.len(), 1);
    assert_eq!(page.items[0].id, item3_id);
}

#[test]
fn advance_cursor_errors() {
    let conn = test_database();
    let stream_name = make_stream(&conn, "stream-name", Some(3600)).unwrap();
    let cursor = cursor_of(&stream_name, "consumer1");
    let item_id = append(&conn, &stream_name, b"item1");
    make_cursor(&conn, &cursor, CursorPosition::Head).unwrap();

    let result = move_cursor(&conn, &cursor_of(&stream_name, "DoesNotExist"), item_id);
    assert_eq!(result, Err(StreamError::CursorNotFound { name: "DoesNotExist".to_string() }));

    let missing_item_id = StreamItemId::from_uuid(uuid::Uuid::new_v4().as_u128());
    let result = move_cursor(&conn, &cursor, missing_item_id);
    assert!(result.is_err());
}

#[test]
fn delete_cursor() {
    let conn = test_database();
    let stream_name = make_stream(&conn, "stream-name", Some(3600)).unwrap();
    let cursor = cursor_of(&stream_name, "consumer1");
    make_cursor(&conn, &cursor, CursorPosition::Head).unwrap();

    let removed = run(&conn, &stream_cursor::delete_cursor_statement(&cursor));
    assert_eq!(stream_cursor::delete_cursor_result(&cursor, removed), Ok(()));
    assert_eq!(find_cursor(&conn, &cursor), None);

    let removed = run(&conn, &stream_cursor::delete_cursor_statement(&cursor));
    assert_eq!(
        stream_cursor::delete_cursor_result(&cursor, removed),
        Err(StreamError::CursorNotFound { name: "consumer1".to_string() })
    );
}

#[test]
fn delete_stream() {
    let conn = test_database();
    let stream_name = make_stream(&conn, "stream-name", Some(3600)).unwrap();
    let cursor = cursor_of(&stream_name, "consumer1");
    append(&conn, &stream_name, b"item1");
    make_cursor(&conn, &cursor, CursorPosition::Head).unwrap();

    let found = first(&conn, &stream_provider::read_stream_to_delete("stream-name"), |row| {
        row.get::<_, String>(0)
    })
    .unwrap()
    .unwrap();
    assert_eq!(found, stream_name);
    let mut removed = 0;
    for s in stream_provider::delete_stream("stream-name", &found) {
        removed = run(&conn, &s).unwrap();
    }
    assert_eq!(stream_provider::delete_stream_result("stream-name", Ok(removed)), Ok(()));

    assert_eq!(find_stream(&conn, "stream-name"), None);
    assert_eq!(find_cursor(&conn, &cursor), None);
    assert_eq!(forward(&conn, &stream_name, None, 10).unwrap().items, Vec::new());
    assert_eq!(
        stream_provider::delete_stream_result("stream-name", Ok(0)),
        Err(StreamError::StreamNotFound { name: "stream-name".to_string() })
    );
}

#[test]
fn pagination() {
    let conn = test_database();
    let stream_name = make_stream(&conn, "stream-name", Some(3600)).unwrap();
    for i in 0..10 {
        append(&conn, &stream_name, format!("item{i}").as_bytes());
    }

    let page1 = forward(&conn, &stream_name, None, 3).unwrap();
    assert_eq!(page1.items.len(), 3);
    assert!(page1.has_more);
    assert!(page1.last_evaluated_key.is_some());

    let page2 = forward(&conn, &stream_name, page1.last_evaluated_key, 3).unwrap();
    assert_eq!(page2.items.len(), 3);
    assert!(page2.has_more);
    assert_ne!(page1.items[0].id, page2.items[0].id);
}

#[test]
fn forward_reads_go_on_from_the_id_after_the_key() {
    let conn = test_database();
    for version in [1, 3, 5, 7, 8] {
        let id = StreamItemId::from_version(version);
        run(&conn, &stream_provider::append_item_with_id("s", id, b"row", 1)).unwrap();
    }
    let versions = |page: &StreamPage| {
        page.items.iter().map(|item| item.id.version()).collect::<Vec<u64>>()
    };
    let page1 = forward(&conn, "s", None, 2).unwrap();
    assert_eq!(versions(&page1), vec![1, 3]);
    let page2 = forward(&conn, "s", page1.last_evaluated_key, 2).unwrap();
    assert_eq!(versions(&page2), vec![5, 7]);
    assert!(page2.has_more);
    let page3 = forward(&conn, "s", page2.last_evaluated_key, 2).unwrap();
    assert_eq!(versions(&page3), Vec::<u64>::new());
}

#[test]
fn limits_of_reads_are_checked() {
    for limit in [0, 10001] {
        assert_eq!(
            stream_provider::read_forward("s", None, limit),
            Err(StreamError::Validation {
                message: "Limit must be between 1 and 10000".to_string()
            })
        );
    }
    for limit in [0, 1001] {
        assert_eq!(
            stream_provider::read_backward("s", None, limit),
            Err(StreamError::Validation {
                message: "Limit must be between 1 and 1000".to_string()
            })
        );
    }
    assert!(stream_provider::read_forward("s", None, 10000).is_ok());
    assert!(stream_provider::read_backward("s", None, 1000).is_ok());
}

#[test]
fn failures_of_the_database_are_told() {
    assert_eq!(
        stream_provider::read_result(Err("disk".to_string()), 3, ReadDirection::Forward),
        Err(StreamError::Internal { message: "read stream forward failed: disk".to_string() })
    );
    assert_eq!(
        stream_provider::read_result(Err("disk".to_string()), 3, ReadDirection::Backward),
        Err(StreamError::Internal { message: "read stream backward failed: disk".to_string() })
    );
    assert_eq!(
        stream_provider::get_stream_result(Err("disk".to_string())),
        Err(StreamError::Internal { message: "get stream failed: disk".to_string() })
    );
}

#[test]
fn pages_cut_off_what_is_over_the_limit() {
    let item = |version: u64| StreamItem {
        id: StreamItemId::from_version(version),
        stream_name: "s".to_string(),
        data: Vec::new(),
        data_type: StreamDataType::Text,
        created_at: 0,
    };
    let page = stream_provider::stream_page(vec![item(1), item(2), item(3)], 2);
    assert_eq!(page.items, vec![item(1), item(2)]);
    assert!(page.has_more);
    assert_eq!(page.last_evaluated_key, Some(StreamItemId::from_version(2)));

    let page = stream_provider::stream_page(vec![item(1)], 2);
    assert!(!page.has_more);
    assert_eq!(page.last_evaluated_key, Some(StreamItemId::from_version(1)));
}

#[test]
fn rows_with_other_ids_cannot_be_read() {
    let rows = vec![StreamItemRow {
        item_id: "not-an-id".to_string(),
        stream_name: "s".to_string(),
        data: Vec::new(),
        created_at: 0,
        data_type: 0,
    }];
    assert!(stream_provider::parse_stream_item_rows(rows).is_err());
}

#[test]
fn appended_rows_hold_what_was_given() {
    let conn = test_database();
    let id = StreamItemId::from_version(5);
    let s = statement(insert_stream_entry("s", &id, b"payload", 99, StreamDataType::DeleteMarker));
    run(&conn, &s).unwrap();
    let page = forward(&conn, "s", None, 1).unwrap();
    assert_eq!(
        page.items,
        vec![StreamItem {
            id,
            stream_name: "s".to_string(),
            data: b"payload".to_vec(),
            data_type: StreamDataType::DeleteMarker,
            created_at: 99,
        }]
    );
}
