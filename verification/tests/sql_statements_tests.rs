use sqlite_backend::ids::StreamItemId;
use sqlite_backend::sql::SqlValue;
use sqlite_backend::sql_statements::{
    create_queues_table, drop_table, get_stream_format_version, insert_stream_entry,
    insert_table, list_all_tables, list_tables_after, read_stream_from_position,
    update_message_checkpoint, update_stream_durations, update_table_status,
};
use sqlite_backend::types::{ReadDirection, StreamDataType, StreamRetentionDuration, TableStatus};

#[test]
fn update_message_checkpoint_uses_queue_name_column() {
    let (sql, _) =
        update_message_checkpoint(r#"{"progress":"50"}"#, "checkpoint-queue", "receipt-handle");

    assert!(sql.contains("queue_name = ?2"));
    assert!(!sql.contains("queue_url = ?2"));
}

#[test]
fn read_stream_from_position_uses_item_id_range_predicate() {
    let item_id = StreamItemId::from_uuid(uuid::Uuid::nil().as_u128());

    let (forward_sql, _) =
        read_stream_from_position("system", &item_id, 100, ReadDirection::Forward);
    assert!(forward_sql.contains("stream_name = ?2 AND item_id > ?3"));
    assert!(!forward_sql.contains("IS NULL"));

    let (backward_sql, _) =
        read_stream_from_position("system", &item_id, 100, ReadDirection::Backward);
    assert!(backward_sql.contains("stream_name = ?2 AND item_id < ?3"));
    assert!(!backward_sql.contains("IS NULL"));
}

#[test]
fn list_tables_queries_use_distinct_sql_for_optional_start() {
    let (all_tables_sql, _) = list_all_tables(10);
    assert!(!all_tables_sql.contains("IS NULL"));
    assert!(!all_tables_sql.contains("WHERE table_name >"));

    let (tables_after_sql, _) = list_tables_after(10, "table_b".to_string());
    assert!(tables_after_sql.contains("WHERE table_name > ?1"));
    assert!(!tables_after_sql.contains("IS NULL"));
}

#[test]
fn statements_bind_their_arguments_in_order() {
    let (_, params) = insert_stream_entry(
        "orders",
        &StreamItemId::from_version(258),
        b"row",
        17,
        StreamDataType::StreamPointer,
    );
    assert_eq!(
        params,
        vec![
            SqlValue::Text("orders".to_string()),
            SqlValue::Text("000000000000000000000102".to_string()),
            SqlValue::Blob(b"row".to_vec()),
            SqlValue::Integer(17),
            SqlValue::Integer(2),
        ]
    );

    let (_, params) = update_table_status(TableStatus::Active, "orders");
    assert_eq!(
        params,
        vec![SqlValue::Text("ACTIVE".to_string()), SqlValue::Text("orders".to_string())]
    );

    let (_, params) = update_stream_durations(
        "orders",
        StreamRetentionDuration::Forever,
        StreamRetentionDuration::FiniteHours(48),
    );
    assert_eq!(
        params,
        vec![
            SqlValue::Integer(-1),
            SqlValue::Integer(48),
            SqlValue::Text("orders".to_string()),
        ]
    );
}

#[test]
fn statements_without_arguments_bind_none() {
    let (sql, params) = create_queues_table();
    assert!(sql.starts_with("CREATE TABLE IF NOT EXISTS sys_queues"));
    assert_eq!(params, Vec::<SqlValue>::new());

    let (_, params) = get_stream_format_version();
    assert_eq!(params, vec![SqlValue::Text("item_versioned_stream".to_string())]);
}

#[test]
fn dropping_a_table_names_it_in_quotes() {
    let (sql, params) = drop_table("orders");
    assert_eq!(sql, "DROP TABLE IF EXISTS \"table_orders\"");
    assert!(params.is_empty());
}

#[test]
fn new_tables_are_stored_under_the_number_of_their_id() {
    let (_, params) = insert_table(
        u128::MAX,
        "orders",
        5,
        "[]",
        "[]",
        None,
        None,
        true,
        StreamRetentionDuration::FiniteHours(24),
        StreamRetentionDuration::FiniteHours(24),
    );
    assert_eq!(
        params,
        vec![
            SqlValue::Text("340282366920938463463374607431768211455".to_string()),
            SqlValue::Text("orders".to_string()),
            SqlValue::Text("CREATING".to_string()),
            SqlValue::Integer(5),
            SqlValue::Text("[]".to_string()),
            SqlValue::Text("[]".to_string()),
            SqlValue::Null,
            SqlValue::Integer(0),
            SqlValue::Integer(0),
            SqlValue::Null,
            SqlValue::Integer(1),
            SqlValue::Integer(24),
            SqlValue::Integer(24),
        ]
    );
}
