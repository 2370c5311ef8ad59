use rusqlite::types::Value;
use rusqlite::{params_from_iter, Connection};
use sqlite_backend::batch_write::{
    batch_write_item, batch_write_response, PreparedBatchOperation, WriteRequest,
};
use sqlite_backend::error::{Attribute, Item, StorageError};
use sqlite_backend::ids::StreamItemId;
use sqlite_backend::machine::Step;
use sqlite_backend::provider::SQLiteStorageProvider;
use sqlite_backend::put_item::{
    conditional_failure, execute_put_item, KeyColumn, PutItemAction, PutItemEvent, PutItemInput,
    PutItemState,
};
use sqlite_backend::sql::{statement, SqlValue, Statement};
use sqlite_backend::sql_statements::{
    create_change_index_created_at_index, create_change_index_table, create_stream_items_table,
};
use sqlite_backend::storage_provider::{
    apply_replication_mutation, change_index_markers, compute_items_bytes, delete_item_totals,
    delete_item_writes, get_item_reads, get_item_totals, get_item_with_durable_proof,
    guarded_write, guarded_write_actions, list_change_index_markers_statement, ms_u64,
    parse_optional_condition, put_item_response, record_read, record_write, start_guarded_write,
    ChangeIndexMarker, ChangeIndexRow, DecodedTableItems, GuardedAction, GuardedEvent,
    GuardedState, GuardedStep, GuardedWrite, ReadSequenceConnection,
    ReadSequenceConsistency, ReadSequenceContext, ReplicationWrite, TableItems,
};
use sqlite_backend::stream_duration::initialize_stream_duration_tables;
use sqlite_backend::stream_writer::{
    fresh_stream_item_id, pointer_entries, resume_stream_write, should_write_stream_entries,
    should_write_stream_entries_for_gsi_mode, stored_stream_pointer, wire_key_attributes,
    write_stream_entries, write_stream_entries_wire, Resolution, StreamImages, StreamWrite,
    StreamWriteAction, StreamWriteEvent, WriteStreamEntriesInput, WriteWireStreamEntriesInput,
};
use sqlite_backend::types::{
    GlobalSecondaryIndex, Projection, StreamDataType, StreamRetentionDuration, StreamSpecification, TableInfo,
};

fn values(params: &[SqlValue]) -> Vec<Value> {
    params
        .iter()
        .map(|p| match p {
            SqlValue::Null => Value::Null,
            SqlValue::Integer(n) => Value::Integer(*n),
            SqlValue::Text(s) => Value::Text(s.clone()),
            SqlValue::Blob(b) => Value::Blob(b.clone()),
        })
        .collect()
}

fn run(conn: &Connection, s: &Statement) -> usize {
    conn.execute(&s.sql, params_from_iter(values(&s.params))).unwrap()
}

fn provider(immediate: bool, snapshots: bool) -> SQLiteStorageProvider {
    SQLiteStorageProvider {
        immediate_gsi_consistency: immediate,
        has_snapshot_connections: snapshots,
    }
}

fn item(pk: &str) -> Item {
    Item { attributes: vec![Attribute { name: "pk".to_string(), value: pk.to_string() }] }
}

fn no_attributes() -> Item {
    Item { attributes: Vec::new() }
}

fn table(stream: Option<bool>, indexes: Option<Vec<bool>>) -> TableInfo {
    TableInfo {
        table_name: "orders".to_string(),
        created_at: 1,
        attribute_definitions: Vec::new(),
        key_schema: Vec::new(),
        global_secondary_indexes: indexes.map(|list| {
            list.into_iter()
                .map(|is_ttl_index| GlobalSecondaryIndex {
                    index_name: "index".to_string(),
                    key_schema: Vec::new(),
                    projection: Projection::All,
                    is_ttl_index,
                })
                .collect()
        }),
        stream_specification: stream.map(|stream_enabled| StreamSpecification { stream_enabled }),
        deletion_protection_enabled: false,
        table_stream_duration: StreamRetentionDuration::FiniteHours(24),
        default_item_stream_duration: StreamRetentionDuration::FiniteHours(24),
        table_size_bytes: 0,
        item_count: 0,
    }
}

#[test]
fn tables_without_streams_and_indexes_are_not_noted() {
    assert!(!should_write_stream_entries(&table(None, None)));
    assert!(!should_write_stream_entries(&table(Some(false), Some(Vec::new()))));
    assert!(should_write_stream_entries(&table(Some(true), None)));
    assert!(should_write_stream_entries(&table(None, Some(vec![false]))));
    assert!(!should_write_stream_entries(&table(None, Some(vec![true]))));
    assert!(!should_write_stream_entries_for_gsi_mode(&table(None, Some(vec![false])), true));
    assert!(should_write_stream_entries_for_gsi_mode(&table(Some(true), None), true));
}

fn input(has_condition: bool, return_old: bool) -> PutItemInput {
    PutItemInput {
        item: item("a"),
        has_condition,
        immediate_gsi_consistency: false,
        return_old_on_condition_failure: return_old,
        item_stream_ttl_hours: None,
    }
}

fn put(
    input: &PutItemInput,
    table_info: TableInfo,
    old: Option<Item>,
    holds: bool,
    fail_at: Option<PutItemAction>,
) -> (Vec<PutItemAction>, Result<Option<Item>, StorageError>) {
    let mut table_info = Some(table_info);
    let mut old = Some(old);
    let mut performed = Vec::new();
    let mut state = PutItemState::LoadingTable;
    let mut action = PutItemAction::LoadTable;
    loop {
        performed.push(action);
        let done = || {
            if fail_at == Some(action) {
                Err(StorageError::internal("disk"))
            } else {
                Ok(())
            }
        };
        let event = match action {
            PutItemAction::LoadTable => PutItemEvent::TableLoaded(Ok(table_info.take().unwrap())),
            PutItemAction::LoadOldItem => PutItemEvent::OldItemLoaded(Ok(old.take().unwrap())),
            PutItemAction::EvaluateCondition => PutItemEvent::ConditionEvaluated(holds),
            PutItemAction::BumpRevision => PutItemEvent::RevisionBumped(done().map(|()| 4)),
            _ => PutItemEvent::Done(done()),
        };
        match SQLiteStorageProvider::do_put_item(input, state, event) {
            Step::Finish(result) => return (performed, result),
            Step::Perform { state: s, action: a } => {
                state = s;
                action = a;
            }
        }
    }
}

#[test]
fn puts_note_their_writes_in_order() {
    let (performed, result) =
        put(&input(true, false), table(Some(true), None), Some(item("old")), true, None);
    assert_eq!(result, Ok(Some(item("old"))));
    assert_eq!(
        performed,
        vec![
            PutItemAction::LoadTable,
            PutItemAction::SplitItem,
            PutItemAction::LoadOldItem,
            PutItemAction::EvaluateCondition,
            PutItemAction::ExtractIndexers,
            PutItemAction::Insert,
            PutItemAction::BumpRevision,
            PutItemAction::WriteStreamEntries(4),
            PutItemAction::LoadTtlConfig,
            PutItemAction::UpdateTtlIndex,
            PutItemAction::ApplyItemStreamDuration,
        ]
    );
}

#[test]
fn puts_without_streams_note_nothing() {
    let (performed, result) = put(&input(false, false), table(None, None), None, true, None);
    assert_eq!(result, Ok(None));
    assert!(!performed.contains(&PutItemAction::WriteStreamEntries(4)));
    assert!(!performed.contains(&PutItemAction::EvaluateCondition));
}

#[test]
fn immediate_puts_update_indexes_themselves() {
    let mut immediate = input(false, false);
    immediate.immediate_gsi_consistency = true;
    let (performed, _) = put(&immediate, table(None, Some(vec![false])), None, true, None);
    assert!(performed.contains(&PutItemAction::ApplyImmediateGsiUpdates(4)));
    assert!(!performed.contains(&PutItemAction::WriteStreamEntries(4)));
}

#[test]
fn failed_conditions_of_puts_give_no_revision() {
    let (performed, result) =
        put(&input(true, true), table(Some(true), None), Some(item("old")), false, None);
    assert!(!performed.contains(&PutItemAction::Insert));
    assert!(!performed.contains(&PutItemAction::BumpRevision));
    assert_eq!(
        result,
        Err(StorageError::ConditionalCheckFailed { item: Some(item("old")) })
    );
    let (_, result) =
        put(&input(true, false), table(Some(true), None), Some(item("old")), false, None);
    assert_eq!(result, Err(conditional_failure(None, false)));
}

#[test]
fn puts_of_nothing_are_refused() {
    let mut nothing = input(false, false);
    nothing.item = no_attributes();
    let (_, result) = put(&nothing, table(None, None), None, true, None);
    assert_eq!(result, Err(StorageError::validation("Item is empty")));
}

#[test]
fn failures_of_puts_tell_their_step() {
    let (_, result) = put(
        &input(false, false),
        table(Some(true), None),
        None,
        true,
        Some(PutItemAction::Insert),
    );
    assert_eq!(
        result,
        Err(StorageError::internal("disk").context("put item transaction insert execute"))
    );
    let (_, result) = put(
        &input(false, false),
        table(Some(true), None),
        None,
        true,
        Some(PutItemAction::WriteStreamEntries(4)),
    );
    assert_eq!(result, Err(StorageError::internal("disk").context("write stream entries")));
}

fn key(value: &str) -> Vec<KeyColumn> {
    vec![
        KeyColumn { name: "pk".to_string(), value: Ok(value.to_string()) },
        KeyColumn { name: "sk".to_string(), value: Ok("1".to_string()) },
    ]
}

#[test]
fn items_are_stored_in_their_columns() {
    let s = execute_put_item(
        "orders",
        &key("a"),
        "{}",
        &vec![Some("x".to_string()), None],
        &vec!["idx_0".to_string(), "idx_1".to_string(), "idx_2".to_string()],
    )
    .unwrap();
    assert_eq!(
        s.sql,
        "INSERT OR REPLACE INTO \"table_orders\" (pk, sk, attributes_blob, idx_0, idx_1, idx_2) \
         VALUES (?1, ?2, ?3, ?4, ?5, ?6)"
    );
    assert_eq!(
        s.params,
        vec![
            SqlValue::Text("a".to_string()),
            SqlValue::Text("1".to_string()),
            SqlValue::Text("{}".to_string()),
            SqlValue::Text("x".to_string()),
            SqlValue::Null,
            SqlValue::Null,
        ]
    );
}

#[test]
fn keys_must_be_scalar() {
    let refused = |pk: Result<&str, &str>, sk: Result<&str, &str>| {
        let column = |name: &str, value: Result<&str, &str>| KeyColumn {
            name: name.to_string(),
            value: value.map(str::to_string).map_err(str::to_string),
        };
        let key = vec![column("pk", pk), column("sk", sk)];
        execute_put_item("orders", &key, "{}", &Vec::new(), &Vec::new()).err()
    };
    let error = |text: &str| {
        Some(StorageError::validation(&format!("key attribute must be scalar: {text}")))
    };
    assert_eq!(refused(Ok("a"), Ok("1")), None);
    assert_eq!(refused(Ok("a"), Err("a list")), error("a list"));
    assert_eq!(refused(Err("a map"), Err("a list")), error("a map"));

    let step = SQLiteStorageProvider::do_put_item(
        &input(false, false),
        PutItemState::Inserting { writes_stream: false, old_item: None },
        PutItemEvent::InsertRefused(StorageError::validation("refused")),
    );
    let Step::Finish(Err(e)) = step else {
        panic!("a refused key should end the put");
    };
    assert_eq!(e, StorageError::validation("refused"));
}

#[test]
fn stored_items_replace_those_of_their_key() {
    let conn = Connection::open_in_memory().unwrap();
    conn.execute(
        "CREATE TABLE table_orders (pk TEXT, sk TEXT, attributes_blob TEXT, idx_0 TEXT, \
         PRIMARY KEY (pk, sk))",
        [],
    )
    .unwrap();
    let columns = vec!["idx_0".to_string()];
    for (pk, residual) in [("a", "one"), ("a", "two"), ("b", "three")] {
        run(
            &conn,
            &execute_put_item("orders", &key(pk), residual, &Vec::new(), &columns).unwrap(),
        );
    }
    let stored: Vec<String> = conn
        .prepare("SELECT attributes_blob FROM table_orders ORDER BY pk")
        .unwrap()
        .query_map([], |row| row.get(0))
        .unwrap()
        .map(|row| row.unwrap())
        .collect();
    assert_eq!(stored, vec!["two".to_string(), "three".to_string()]);
}

fn images(len: usize, old: Option<usize>) -> StreamImages {
    StreamImages {
        item_stream: "orders/a".to_string(),
        table_stream: "orders".to_string(),
        system_stream: "system".to_string(),
        created_at: 9,
        slot: 3,
        data: vec![1; len],
        old_data: old.map(|len| vec![2; len]),
    }
}

fn note(version: u64, is_deleted: bool, with_old_image: bool) -> StreamWrite {
    StreamWrite {
        table_name: "orders".to_string(),
        with_old_image,
        is_deleted,
        item_stream_version: version,
        replication: Some("meta".to_string()),
    }
}

#[test]
fn small_images_are_embedded_in_pointers() {
    let pointer = stored_stream_pointer(&note(4, false, true), images(1000, Some(24)));
    let embedded = pointer.embedded.unwrap();
    assert_eq!(embedded.len(), 2);
    assert_eq!(embedded[0].data, vec![1; 1000]);
    assert_eq!(embedded[0].data_type, StreamDataType::DynamoDbJson);
    assert_eq!(embedded[1].data_type, StreamDataType::DynamoDbJson);
    assert_eq!(pointer.target_item_stream_version, 4);
    assert_eq!(pointer.stream_name, "orders/a");
    assert_eq!(pointer.table_name, "orders");
    assert_eq!(pointer.replication, Some("meta".to_string()));

    assert!(stored_stream_pointer(&note(4, false, true), images(1000, Some(25))).embedded.is_none());
    let embedded = stored_stream_pointer(&note(4, true, false), images(0, None)).embedded.unwrap();
    assert_eq!(embedded[0].data_type, StreamDataType::DeleteMarker);
}

fn streams() -> Connection {
    let conn = Connection::open_in_memory().unwrap();
    run(&conn, &statement(create_stream_items_table()));
    run(&conn, &statement(create_change_index_table()));
    run(&conn, &statement(create_change_index_created_at_index()));
    for s in initialize_stream_duration_tables() {
        run(&conn, &s);
    }
    conn
}

fn write_to(
    conn: &Connection,
    write: &StreamWrite,
    mut step: sqlite_backend::stream_writer::StreamWriteStep,
    resolved: Resolution,
) -> Result<(), StorageError> {
    let mut resolved = Some(resolved);
    loop {
        let (state, action) = match step {
            Step::Finish(result) => return result,
            Step::Perform { state, action } => (state, action),
        };
        let event = match action {
            StreamWriteAction::CheckTables(s) => {
                let found = conn.prepare(&s.sql).unwrap().exists([]).unwrap();
                StreamWriteEvent::TablesChecked(found)
            }
            StreamWriteAction::Resolve { with_old_image } => {
                assert_eq!(with_old_image, write.with_old_image);
                StreamWriteEvent::Resolved(resolved.take().unwrap())
            }
            StreamWriteAction::Run(s) => {
                run(conn, &s);
                StreamWriteEvent::ItemInserted(Ok(()))
            }
            StreamWriteAction::EncodePointer(pointer) => StreamWriteEvent::PointerEncoded(Ok(
                format!("{}@{}", pointer.stream_name, pointer.target_item_stream_version)
                    .into_bytes(),
            )),
            StreamWriteAction::RunAll(list) => {
                for s in &list {
                    run(conn, s);
                }
                StreamWriteEvent::PointersInserted(Ok(()))
            }
        };
        step = resume_stream_write(write, state, event);
    }
}

fn rows(conn: &Connection, stream_name: &str) -> Vec<(String, Vec<u8>, i64)> {
    conn.prepare(
        "SELECT item_id, data, data_type FROM sys_stream_items WHERE stream_name = ?1 \
         ORDER BY item_id",
    )
    .unwrap()
    .query_map([stream_name], |row| Ok((row.get(0)?, row.get(1)?, row.get(2)?)))
    .unwrap()
    .map(|row| row.unwrap())
    .collect()
}

#[test]
fn writes_are_noted_in_the_item_the_table_and_the_system_stream() {
    let conn = streams();
    for version in [1, 2] {
        let (write, step) = write_stream_entries(
            &table(Some(true), None),
            WriteStreamEntriesInput {
                old_item: None,
                is_deleted: false,
                item_stream_version: version,
                replication: None,
            },
        );
        write_to(&conn, &write, step, Resolution::Resolved(images(3, None))).unwrap();
    }
    assert_eq!(
        rows(&conn, "orders/a"),
        vec![
            ("000000000000000000000001".to_string(), vec![1; 3], 1),
            ("000000000000000000000002".to_string(), vec![1; 3], 1),
        ]
    );
    for stream in ["orders", "system"] {
        let noted = rows(&conn, stream);
        assert_eq!(noted.len(), 2);
        assert_eq!(noted[0].1, b"orders/a@1".to_vec());
        assert_eq!(noted[1].1, b"orders/a@2".to_vec());
        assert_eq!(noted[0].2, 2);
    }
    let pointers: i64 = conn
        .query_row("SELECT COUNT(*) FROM sys_stream_pointer_index", [], |row| row.get(0))
        .unwrap();
    assert_eq!(pointers, 2);

    let s = list_change_index_markers_statement(3, None, 10).unwrap();
    let changes: Vec<ChangeIndexRow> = conn
        .prepare(&s.sql)
        .unwrap()
        .query_map(params_from_iter(values(&s.params)), |row| {
            Ok(ChangeIndexRow {
                slot: row.get(0)?,
                versionstamp: row.get(1)?,
                table_id: row.get(2)?,
            })
        })
        .unwrap()
        .map(|row| row.unwrap())
        .collect();
    let markers = change_index_markers(changes).unwrap();
    assert_eq!(markers.len(), 2);
    assert_eq!(markers[0].slot, 3);
    assert_eq!(markers[0].versionstamp, rows(&conn, "orders")[0].0);
}

#[test]
fn writes_are_not_noted_where_there_are_no_streams() {
    let conn = Connection::open_in_memory().unwrap();
    let (write, step) = write_stream_entries(
        &table(Some(true), None),
        WriteStreamEntriesInput {
            old_item: Some(&no_attributes()),
            is_deleted: true,
            item_stream_version: 1,
            replication: None,
        },
    );
    assert!(!write.with_old_image);
    assert_eq!(write_to(&conn, &write, step, Resolution::Resolved(images(3, None))), Ok(()));

    let (write, step) = write_stream_entries_wire(
        &table(None, None),
        WriteWireStreamEntriesInput {
            old_item: Some(&no_attributes()),
            is_deleted: false,
            item_stream_version: 1,
            replication: Some("meta"),
        },
    );
    assert!(write.with_old_image);
    assert_eq!(write.replication, Some("meta".to_string()));
    assert!(matches!(step, Step::Finish(Ok(()))));
}

#[test]
fn failures_of_noting_tell_what_failed() {
    let conn = streams();
    let failure = |is_deleted: bool, resolution: Resolution| {
        let (write, step) = write_stream_entries(
            &table(Some(true), None),
            WriteStreamEntriesInput {
                old_item: Some(&item("old")),
                is_deleted,
                item_stream_version: 1,
                replication: None,
            },
        );
        assert!(write.with_old_image);
        write_to(&conn, &write, step, resolution).unwrap_err()
    };
    assert_eq!(
        failure(false, Resolution::KeyFailed("no".to_string())),
        StorageError::internal("stream item key error: no")
    );
    assert_eq!(
        failure(false, Resolution::StreamNameFailed("no".to_string())),
        StorageError::internal("stream name error: no")
    );
    assert_eq!(
        failure(false, Resolution::OldImageFailed("no".to_string())),
        StorageError::internal("stream old image encode error: no")
    );
    assert_eq!(
        failure(true, Resolution::Failed(StorageError::InvalidOrMissingKey)),
        StorageError::InvalidOrMissingKey
    );
    let put = failure(false, Resolution::ImageFailed("no".to_string()));
    let delete = failure(true, Resolution::ImageFailed("no".to_string()));
    assert_ne!(put, delete);
}

#[test]
fn pointers_get_ids_of_their_own() {
    let list = pointer_entries(
        &note(4, false, false),
        "orders/a",
        "orders",
        "system",
        9,
        3,
        b"pointer",
        StreamItemId::from_version(1),
        StreamItemId::from_version(2),
    );
    assert_eq!(list.len(), 4);
    assert_eq!(list[0].params[1], SqlValue::Text("000000000000000000000001".to_string()));
    assert_eq!(list[1].params[1], SqlValue::Text("000000000000000000000002".to_string()));
    assert_ne!(fresh_stream_item_id(), StreamItemId::nil());
    let id = fresh_stream_item_id();
    assert_ne!(id, fresh_stream_item_id());
    assert_eq!(&id.to_text()[12..13], "7");
}

#[test]
fn key_attributes_must_all_be_there() {
    let found = |value: &str| Ok(Some(value.to_string()));
    assert_eq!(
        wire_key_attributes(vec![found("a"), found("b")]),
        Ok(vec!["a".to_string(), "b".to_string()])
    );
    assert_eq!(
        wire_key_attributes(vec![found("a"), Ok(None), Err(StorageError::internal("later"))]),
        Err(StorageError::internal("stream item missing key attributes"))
    );
    assert_eq!(
        wire_key_attributes(vec![Err(StorageError::internal("first")), Ok(None)]),
        Err(StorageError::internal("first"))
    );
}

fn operation(table_name: &str, pk: &str, bytes: usize, delete: bool) -> PreparedBatchOperation {
    PreparedBatchOperation {
        table_name: table_name.to_string(),
        request: if delete { WriteRequest::Delete(item(pk)) } else { WriteRequest::Put(item(pk)) },
        put_bytes: Ok(bytes),
    }
}

#[test]
fn batches_hand_back_what_was_not_performed() {
    let operations = vec![
        operation("a", "1", 10, false),
        operation("b", "2", 20, false),
        operation("a", "3", 40, true),
        operation("b", "4", 80, false),
    ];
    let outcome = batch_write_item(operations, &vec![true, false, true, false]).unwrap();
    assert_eq!(outcome.applied_items, 2);
    assert_eq!(outcome.applied_bytes, 10);
    assert_eq!(outcome.unprocessed.len(), 1);
    assert_eq!(outcome.unprocessed[0].table_name, "b");
    assert_eq!(outcome.unprocessed[0].requests.len(), 2);
    assert_eq!(batch_write_response(outcome).unwrap().len(), 1);
    let done = batch_write_item(vec![operation("a", "1", 10, false)], &vec![true]).unwrap();
    assert!(batch_write_response(done).is_none());
}

#[test]
fn items_that_cannot_be_measured_fail_a_batch() {
    let mut operations = vec![operation("a", "1", 10, false), operation("a", "2", 10, false)];
    operations[1].put_bytes = Err(StorageError::internal("size"));
    assert_eq!(
        batch_write_item(operations, &vec![true, true]).err(),
        Some(StorageError::internal("size"))
    );
}

#[test]
fn operations_are_told_by_items_and_bytes() {
    let [items, bytes] = record_read(2, 30);
    assert_eq!((items.name, items.value), ("items_returned", 2));
    assert_eq!((bytes.name, bytes.value), ("bytes_read", 30));
    let [items, bytes] = record_write(4, 50);
    assert_eq!((items.name, items.value), ("items_updated", 4));
    assert_eq!((bytes.name, bytes.value), ("bytes_written", 50));
    assert_eq!(get_item_totals(Some(7)), (1, 7));
    assert_eq!(get_item_totals(None), (0, 0));
    assert_eq!(delete_item_totals(true), (1, 0));
    assert_eq!(delete_item_totals(false), (0, 0));
    assert_eq!(compute_items_bytes(&vec![1, 20, 300]), 321);
    assert_eq!(ms_u64(-5), 0);
    assert_eq!(ms_u64(5), 5);
}

#[test]
fn empty_keys_name_no_item() {
    assert!(!get_item_reads(&no_attributes()));
    assert!(get_item_reads(&item("a")));
    assert!(!delete_item_writes(&no_attributes()));
    assert!(delete_item_writes(&item("a")));
    assert_eq!(
        get_item_with_durable_proof(&no_attributes()),
        Err(StorageError::InvalidOrMissingKey)
    );
    assert_eq!(get_item_with_durable_proof(&item("a")), Ok(()));
}

#[test]
fn conditions_that_cannot_be_parsed_do_not_hold() {
    assert_eq!(parse_optional_condition::<u8>(None), Ok(None));
    assert_eq!(parse_optional_condition(Some(Ok(3))), Ok(Some(3)));
    assert_eq!(
        parse_optional_condition::<u8>(Some(Err("syntax".to_string()))),
        Err(StorageError::ConditionalCheckFailed { item: None })
    );
}

#[test]
fn sqlite_capabilities_advertise_durable_guards_and_transactions() {
    let provider = provider(false, false);
    assert!(provider.supports_guarded_writes());
    assert!(provider.supports_guarded_transaction_writes());
    assert!(provider.supports_custom_stream_duration());
    assert!(provider.supports_change_index());
}

#[test]
fn transactional_reads_need_snapshots() {
    let eventual = ReadSequenceConsistency::Eventual;
    let transactional = ReadSequenceConsistency::Transactional;
    assert_eq!(
        provider(false, false).begin_read_sequence_read_context(eventual),
        Ok((
            ReadSequenceConnection::Own,
            ReadSequenceContext { consistency: eventual, has_snapshot_lease: false },
        ))
    );
    let (connection, context) =
        provider(false, true).begin_read_sequence_read_context(transactional).unwrap();
    assert_eq!(connection, ReadSequenceConnection::Snapshot);
    assert_eq!(context.ensure_supported(), Ok(()));
    let unsupported = StorageError::unsupported(
        "sqlite read-sequence transactional contexts require a file-backed provider snapshot \
         connection",
    );
    assert_eq!(
        provider(false, false).begin_read_sequence_read_context(transactional),
        Err(StorageError::unsupported(
            "sqlite read-sequence transactional contexts require a file-backed provider \
             snapshot connection",
        ))
    );
    let context = ReadSequenceContext { consistency: transactional, has_snapshot_lease: false };
    assert_eq!(context.ensure_supported(), Err(unsupported));
}

#[test]
fn guards_are_held_right_before_the_write() {
    for write in [GuardedWrite::Put, GuardedWrite::Delete, GuardedWrite::Update] {
        let actions = guarded_write_actions(write);
        let n = actions.len();
        assert_eq!(actions[0], GuardedAction::ApplyGsiWritePressure);
        assert_eq!(actions[n - 2], GuardedAction::ValidateGuard);
        assert_eq!(actions[n - 1], GuardedAction::Write);
        assert!(actions[..n - 2].contains(&GuardedAction::BeginTransaction));
    }
}

fn guarded(
    write: GuardedWrite,
    mut act: impl FnMut(GuardedAction) -> Result<(), StorageError>,
    mut end: impl FnMut(GuardedStep) -> Result<(), StorageError>,
) -> (Vec<GuardedStep>, Result<(), StorageError>) {
    let mut performed = Vec::new();
    let mut step = start_guarded_write(write);
    loop {
        let (state, action) = match step {
            Step::Finish(result) => return (performed, result),
            Step::Perform { state, action } => (state, action),
        };
        performed.push(action);
        let event = match action {
            GuardedStep::Act(action) => GuardedEvent::Acted(act(action)),
            GuardedStep::Commit => GuardedEvent::Committed(end(action)),
            GuardedStep::Rollback => GuardedEvent::RolledBack(end(action)),
        };
        step = guarded_write(write, state, event);
    }
}

#[test]
fn sqlite_guarded_put_returns_guard_conflict_when_proof_is_stale() {
    let conn = Connection::open_in_memory().unwrap();
    conn.execute_batch(
        "CREATE TABLE table_guarded_put_conflict (pk TEXT PRIMARY KEY, attributes_blob TEXT);",
    )
    .unwrap();
    let store = |value: &str| {
        let key = vec![KeyColumn { name: "pk".to_string(), value: Ok("item#1".to_string()) }];
        let s = execute_put_item(
            "guarded_put_conflict",
            &key,
            value,
            &Vec::new(),
            &Vec::new(),
        );
        run(&conn, &s.unwrap());
    };
    let stored = || -> Option<String> {
        let mut prepared =
            conn.prepare("SELECT attributes_blob FROM table_guarded_put_conflict").unwrap();
        let mut rows = prepared.query([]).unwrap();
        rows.next().unwrap().map(|row| row.get(0).unwrap())
    };
    assert_eq!(stored(), None);
    store("alpha");

    let conflict = || StorageError::GuardConflict { message: "stale".to_string() };
    let (performed, result) = guarded(
        GuardedWrite::Put,
        |action| match action {
            GuardedAction::BeginTransaction => {
                conn.execute_batch("BEGIN").unwrap();
                Ok(())
            }
            GuardedAction::ValidateGuard if stored().is_some() => Err(conflict()),
            GuardedAction::Write => {
                store("bravo");
                Ok(())
            }
            _ => Ok(()),
        },
        |end| {
            let sql = if end == GuardedStep::Commit { "COMMIT" } else { "ROLLBACK" };
            conn.execute_batch(sql).unwrap();
            Ok(())
        },
    );
    assert_eq!(result, Err(conflict()));
    assert_eq!(stored(), Some("alpha".to_string()));
    assert!(!performed.contains(&GuardedStep::Act(GuardedAction::Write)));
    assert_eq!(performed.last(), Some(&GuardedStep::Rollback));
}

#[test]
fn guarded_writes_commit_what_succeeds() {
    for write in [GuardedWrite::Put, GuardedWrite::Delete, GuardedWrite::Update] {
        let (performed, result) = guarded(write, |_| Ok(()), |_| Ok(()));
        assert_eq!(result, Ok(()));
        let mut expected: Vec<GuardedStep> =
            guarded_write_actions(write).into_iter().map(GuardedStep::Act).collect();
        expected.push(GuardedStep::Commit);
        assert_eq!(performed, expected);
    }
}

#[test]
fn failures_of_guarded_writes_tell_their_step() {
    let failure = || StorageError::internal("disk");
    let failing = |at: GuardedAction| {
        move |action: GuardedAction| {
            if action == at {
                Err(StorageError::internal("disk"))
            } else {
                Ok(())
            }
        }
    };
    let (performed, result) =
        guarded(GuardedWrite::Put, failing(GuardedAction::ParseCondition), |_| Ok(()));
    assert_eq!(result, Err(failure()));
    assert!(!performed.contains(&GuardedStep::Rollback));
    let (performed, result) =
        guarded(GuardedWrite::Update, failing(GuardedAction::BeginTransaction), |_| Ok(()));
    assert_eq!(result, Err(failure().context("transaction start")));
    assert!(!performed.contains(&GuardedStep::Rollback));
    let (performed, result) =
        guarded(GuardedWrite::Update, failing(GuardedAction::PrepareUpdate), |_| Ok(()));
    assert_eq!(result, Err(failure()));
    assert_eq!(performed.last(), Some(&GuardedStep::Rollback));
    let (_, result) = guarded(GuardedWrite::Delete, |_| Ok(()), |_| {
        Err(StorageError::internal("full"))
    });
    assert_eq!(result, Err(StorageError::internal("full").context("transaction commit")));
    let step = guarded_write(
        GuardedWrite::Delete,
        GuardedState::RollingBack(failure()),
        GuardedEvent::RolledBack(Err(StorageError::internal("full"))),
    );
    let Step::Finish(Err(e)) = step else {
        panic!("a failing rollback should end the write");
    };
    assert_eq!(e, StorageError::internal("full").context("transaction rollback"));
}

#[test]
fn puts_answer_with_the_old_item_where_asked_for() {
    assert_eq!(put_item_response(true, Some(item("old"))), Some(item("old")));
    assert_eq!(put_item_response(false, Some(item("old"))), None);
}

#[test]
fn pages_answer_with_their_items() {
    let provider = provider(false, false);
    assert_eq!(
        provider.scan_table(vec![Ok(item("a")), Ok(item("b"))], Some("next".to_string())),
        Ok((vec![item("a"), item("b")], Some("next".to_string())))
    );
    assert_eq!(provider.query_table(Vec::new(), None), Ok((Vec::new(), None)));
    assert_eq!(
        provider.query_table(
            vec![
                Ok(item("a")),
                Err(StorageError::internal("first")),
                Err(StorageError::internal("second")),
            ],
            None,
        ),
        Err(StorageError::internal("first"))
    );
}

#[test]
fn batches_of_reads_answer_table_by_table() {
    let provider = provider(false, false);
    assert_eq!(provider.batch_get_item(None), Ok(None));
    let tables = |second: Result<Item, StorageError>| {
        Some(vec![
            TableItems { table_name: "a".to_string(), items: vec![Ok(item("1"))] },
            TableItems { table_name: "b".to_string(), items: vec![second] },
        ])
    };
    assert_eq!(
        provider.batch_get_item(tables(Ok(item("2")))),
        Ok(Some(vec![
            DecodedTableItems { table_name: "a".to_string(), items: vec![item("1")] },
            DecodedTableItems { table_name: "b".to_string(), items: vec![item("2")] },
        ]))
    );
    assert_eq!(
        provider.batch_get_item(tables(Err(StorageError::internal("decode")))),
        Err(StorageError::internal("decode"))
    );
}

#[test]
fn replicated_changes_store_or_remove() {
    let (write, totals) = apply_replication_mutation(Some((item("a"), 12)));
    let ReplicationWrite::Put { new_image, bytes } = write else {
        panic!("a new image should be stored");
    };
    assert_eq!((new_image, bytes), (item("a"), 12));
    assert_eq!(totals, (1, 12));
    let (write, totals) = apply_replication_mutation(None);
    assert!(matches!(write, ReplicationWrite::Delete));
    assert_eq!(totals, (1, 0));
}

#[test]
fn change_markers_must_be_in_range() {
    let row = |slot: i64| ChangeIndexRow {
        slot,
        versionstamp: "v".to_string(),
        table_id: "orders".to_string(),
    };
    assert_eq!(
        change_index_markers(vec![row(65535)]),
        Ok(vec![ChangeIndexMarker {
            slot: 65535,
            versionstamp: "v".to_string(),
            table_id: "orders".to_string(),
        }])
    );
    for slot in [-1, 65536] {
        assert_eq!(
            change_index_markers(vec![row(0), row(slot)]),
            Err(StorageError::internal("change index slot is outside u16 range"))
        );
    }
    assert_eq!(
        list_change_index_markers_statement(1, Some("v"), usize::MAX),
        Err(StorageError::validation("change index list limit exceeds i64"))
    );
}
