use rusqlite::types::Value;
use rusqlite::{params_from_iter, Connection};
use sqlite_backend::error::StorageError;
use sqlite_backend::jobs::{BackgroundJobName, JobAction, JobEvent, JobFailure, JobStep};
use sqlite_backend::machine::Step;
use sqlite_backend::provider::SQLiteStorageProvider;
use sqlite_backend::sql::{statement, SqlValue, Statement};
use sqlite_backend::sql_statements::{
    check_table_exists, create_tables_table, delete_table, delete_ttl_config, get_gsi_backfill,
    get_table_info, get_ttl_config, insert_table, list_all_tables, list_pending_gsi_backfills,
    list_tables_after, list_ttl_configs, mark_gsi_backfill_done, update_gsi_backfill_progress,
    update_gsis, upsert_gsi_backfill_start, upsert_ttl_config, create_gsi_backfill_table,
    create_item_revisions_table, create_ttl_config_table,
};
use sqlite_backend::stream_duration::{initialize_stream_duration_tables, StreamTrimStateWrite};
use sqlite_backend::table_update::{
    update_table, update_table_response, write_stream_durations, BillingMode, TableUpdateAction,
    UpdateTableRequest,
};
use sqlite_backend::time_to_live::{
    backfill_page, backfill_ttl_index, describe_time_to_live, ensure_attribute_definition,
    persist_attribute_definitions, update_time_to_live, BackfillAction, BackfillEvent,
    BackfillState, TimeToLiveSpecification, TimeToLiveStatus, TtlAction, TtlConfigRecord, TtlEntry,
};
use sqlite_backend::types::{
    AttributeDefinition, KeyAttributeType, KeySchemaElement, KeyType, StreamRetentionDuration,
    StreamSpecification,
    TableInfo, TableStatus,
};

fn values(params: &[SqlValue]) -> Vec<Value> {
    params
        .iter()
        .map(|p| match p {
            SqlValue::Null => Value::Null,
            SqlValue::Integer(n) => Value::Integer(*n),
            SqlValue::Text(s) => Value::Text(s.clone()),
            SqlValue::Blob(b) => Value::Blob(b.clone()),
        })
        .collect()
}

fn run(conn: &Connection, s: &Statement) -> usize {
    conn.execute(&s.sql, params_from_iter(values(&s.params))).unwrap()
}

fn texts(conn: &Connection, s: &Statement, column: usize) -> Vec<String> {
    let mut prepared = conn.prepare(&s.sql).unwrap();
    let rows = prepared
        .query_map(params_from_iter(values(&s.params)), |row| row.get::<_, String>(column))
        .unwrap();
    rows.map(|row| row.unwrap()).collect()
}

fn hours(n: u16) -> StreamRetentionDuration {
    StreamRetentionDuration::FiniteHours(n)
}

fn database() -> Connection {
    let conn = Connection::open_in_memory().unwrap();
    run(&conn, &statement(create_tables_table()));
    run(&conn, &statement(create_gsi_backfill_table()));
    run(&conn, &statement(create_ttl_config_table()));
    run(&conn, &statement(create_item_revisions_table()));
    for s in initialize_stream_duration_tables() {
        run(&conn, &s);
    }
    conn
}

fn add(conn: &Connection, id: u128, name: &str) {
    let s = statement(insert_table(
        id,
        name,
        5,
        "[]",
        "[]",
        None,
        None,
        false,
        hours(24),
        hours(24),
    ));
    assert_eq!(run(conn, &s), 1);
}

fn table() -> TableInfo {
    TableInfo {
        table_name: "orders".to_string(),
        created_at: 5,
        attribute_definitions: Vec::new(),
        key_schema: vec![KeySchemaElement {
            attribute_name: "pk".to_string(),
            key_type: KeyType::Hash,
        }],
        global_secondary_indexes: None,
        stream_specification: None,
        deletion_protection_enabled: false,
        table_stream_duration: hours(24),
        default_item_stream_duration: hours(24),
        table_size_bytes: 7,
        item_count: 8,
    }
}

fn nothing() -> UpdateTableRequest {
    UpdateTableRequest {
        stream_specification: None,
        deletion_protection_enabled: None,
        stream_duration: None,
        default_item_stream_duration: None,
        has_index_updates: false,
    }
}

#[test]
fn list_tables_respects_exclusive_start_key() {
    let conn = database();
    for (i, name) in ["list_tables_a", "list_tables_b", "list_tables_c"].iter().enumerate() {
        add(&conn, i as u128, name);
    }
    assert_eq!(
        texts(&conn, &statement(list_tables_after(10, "list_tables_a".to_string())), 1),
        vec!["list_tables_b", "list_tables_c"]
    );
}

#[test]
fn tables_are_listed_by_name() {
    let conn = database();
    for (i, name) in ["table_c", "table_a", "table_b"].iter().enumerate() {
        add(&conn, i as u128, name);
    }
    let list = |s: Statement| texts(&conn, &s, 1);
    assert_eq!(list(statement(list_all_tables(10))), vec!["table_a", "table_b", "table_c"]);
    assert_eq!(list(statement(list_all_tables(2))), vec!["table_a", "table_b"]);
    assert_eq!(
        list(statement(list_tables_after(10, "table_b".to_string()))),
        vec!["table_c"]
    );
    assert_eq!(
        list(statement(list_tables_after(1, "table_a".to_string()))),
        vec!["table_b"]
    );
    run(&conn, &statement(delete_table("table_b")));
    assert_eq!(list(statement(list_all_tables(10))), vec!["table_a", "table_c"]);
    let found = conn
        .prepare(check_table_exists("table_b").0)
        .unwrap()
        .exists(["table_b"])
        .unwrap();
    assert!(!found);
}

fn apply(conn: &Connection, actions: Vec<TableUpdateAction>) -> Vec<String> {
    let mut told = Vec::new();
    for action in actions {
        match action {
            TableUpdateAction::Run(s) => {
                assert_eq!(run(conn, &s), 1);
                told.push(s.sql);
            }
            TableUpdateAction::WriteDurations {
                table_stream_duration,
                default_item_stream_duration,
            } => {
                let plan = StreamTrimStateWrite {
                    scope_id: "table:orders".to_string(),
                    updated_at: 1,
                    encoded: Ok(b"state".to_vec()),
                    next_marker: None,
                };
                let list = write_stream_durations(
                    "orders",
                    table_stream_duration,
                    default_item_stream_duration,
                    plan,
                );
                for s in list.unwrap() {
                    run(conn, &s);
                }
                told.push("durations".to_string());
            }
            TableUpdateAction::UpdateIndexes => told.push("indexes".to_string()),
        }
    }
    told
}

fn status(conn: &Connection) -> String {
    texts(conn, &statement(get_table_info("orders")), 2).remove(0)
}

#[test]
fn changed_tables_end_active() {
    let conn = database();
    add(&conn, 1, "orders");
    assert_eq!(status(&conn), "CREATING");
    let (updated, actions) = update_table(&nothing(), table(), None);
    assert_eq!(actions.len(), 2);
    apply(&conn, actions);
    assert_eq!(status(&conn), "ACTIVE");
    assert!(!updated.deletion_protection_enabled);
}

#[test]
fn changed_tables_are_stored_as_they_were_asked_for() {
    let conn = database();
    add(&conn, 1, "orders");
    let mut request = nothing();
    request.stream_specification = Some(StreamSpecification { stream_enabled: true });
    request.deletion_protection_enabled = Some(true);
    request.stream_duration = Some(StreamRetentionDuration::Forever);
    request.has_index_updates = true;
    let (updated, actions) = update_table(&request, table(), Some("{\"StreamEnabled\":true}"));
    assert_eq!(updated.table_stream_duration, StreamRetentionDuration::Forever);
    assert_eq!(updated.default_item_stream_duration, hours(24));
    assert!(updated.deletion_protection_enabled);
    assert_eq!(updated.stream_specification, request.stream_specification);
    let told = apply(&conn, actions);
    assert_eq!(told.len(), 6);
    assert_eq!(told[3], "durations");
    assert_eq!(told[4], "indexes");

    let (protection, table_hours, item_hours, stream): (i64, i64, i64, String) = conn
        .query_row(
            "SELECT deletion_protection_enabled, table_stream_duration_hours, \
             default_item_stream_duration_hours, stream_specification FROM tables",
            [],
            |row| Ok((row.get(0)?, row.get(1)?, row.get(2)?, row.get(3)?)),
        )
        .unwrap();
    assert_eq!((protection, table_hours, item_hours), (1, -1, 24));
    assert_eq!(stream, "{\"StreamEnabled\":true}");
    let states: i64 = conn
        .query_row("SELECT COUNT(*) FROM sys_stream_trim_state", [], |row| row.get(0))
        .unwrap();
    assert_eq!(states, 1);
}

#[test]
fn changing_a_table_twice_changes_it_once() {
    let mut request = nothing();
    request.deletion_protection_enabled = Some(true);
    request.default_item_stream_duration = Some(hours(48));
    let (once, _) = update_table(&request, table(), None);
    let protection = once.deletion_protection_enabled;
    let (twice, _) = update_table(&request, once, None);
    assert_eq!(twice.deletion_protection_enabled, protection);
    assert_eq!(twice.default_item_stream_duration, hours(48));
    assert_eq!(twice.table_stream_duration, hours(24));
}

#[test]
fn changed_tables_are_described() {
    let described = update_table_response(table());
    assert_eq!(described.table_name, "orders");
    assert_eq!(described.table_status, TableStatus::Active);
    assert_eq!(described.key_schema[0].attribute_name, "pk");
    assert_eq!(
        described.table_arn,
        "arn:aws:dynamodb:us-east-1:123456789012:table/orders"
    );
    assert_eq!(described.billing_mode, BillingMode::PayPerRequest);
    assert_eq!((described.table_size_bytes, described.item_count), (7, 8));
}

#[test]
fn index_metadata_is_replaced() {
    let conn = database();
    add(&conn, 1, "orders");
    run(&conn, &statement(update_gsis("orders", Some("[\"i\"]"))));
    assert_eq!(texts(&conn, &statement(get_table_info("orders")), 6), vec!["[\"i\"]"]);
}

#[test]
fn backfills_are_pending_until_they_are_done() {
    let conn = database();
    run(
        &conn,
        &statement(upsert_gsi_backfill_start("t", "i", "Backfilling", None, Some("tail"), 1, 1)),
    );
    run(&conn, &statement(update_gsi_backfill_progress("t", "i", Some("key"), 2)));
    assert_eq!(texts(&conn, &statement(get_gsi_backfill("t", "i")), 1), vec!["key"]);
    assert_eq!(texts(&conn, &statement(list_pending_gsi_backfills()), 0), vec!["t"]);
    run(&conn, &statement(mark_gsi_backfill_done("t", "i", 3)));
    assert!(texts(&conn, &statement(list_pending_gsi_backfills()), 0).is_empty());
}

#[test]
fn ttl_configurations_are_kept_by_table() {
    let conn = database();
    run(&conn, &statement(upsert_ttl_config("t", b"one")));
    run(&conn, &statement(upsert_ttl_config("t", b"two")));
    let (sql, params) = get_ttl_config("t");
    let stored: Vec<u8> =
        conn.query_row(sql, params_from_iter(values(&params)), |row| row.get(0)).unwrap();
    assert_eq!(stored, b"two");
    assert_eq!(texts(&conn, &statement(list_ttl_configs()), 0), vec!["t"]);
    run(&conn, &statement(delete_ttl_config("t")));
    assert!(texts(&conn, &statement(list_ttl_configs()), 0).is_empty());
}

fn specification(attribute_name: &str, enabled: bool) -> TimeToLiveSpecification {
    TimeToLiveSpecification { attribute_name: attribute_name.to_string(), enabled }
}

fn config(attribute_name: &str, status: TimeToLiveStatus) -> Option<TtlConfigRecord> {
    Some(TtlConfigRecord {
        attribute_name: attribute_name.to_string(),
        index_name: "ttl_index".to_string(),
        status,
    })
}

#[test]
fn enabling_ttl_backfills_before_it_is_enabled() {
    let plan = update_time_to_live(specification("expires", true), None).unwrap();
    assert_eq!(plan.response, specification("expires", true));
    assert_eq!(plan.actions.len(), 6);
    assert!(matches!(
        &plan.actions[0],
        TtlAction::PersistAttributeDefinitions { attribute_name, attribute_type }
            if attribute_name == "expires" && *attribute_type == KeyAttributeType::N
    ));
    assert!(matches!(
        &plan.actions[3],
        TtlAction::SaveConfig { status: TimeToLiveStatus::Enabling, .. }
    ));
    assert!(matches!(
        &plan.actions[4],
        TtlAction::BackfillIndex { attribute_name } if attribute_name == "expires"
    ));
    assert!(matches!(
        &plan.actions[5],
        TtlAction::SaveConfig { status: TimeToLiveStatus::Enabled, .. }
    ));
}

#[test]
fn enabling_ttl_is_refused_where_it_cannot_be() {
    let refused = |attribute: &str, existing: Option<TtlConfigRecord>| {
        update_time_to_live(specification(attribute, true), existing).err()
    };
    for blank in ["", "  ", "\t\n", "\u{3000}"] {
        assert_eq!(
            refused(blank, None),
            Some(StorageError::validation("Time to live attribute name must not be empty"))
        );
    }
    for status in [TimeToLiveStatus::Enabling, TimeToLiveStatus::Disabling] {
        assert_eq!(
            refused("expires", config("expires", status)),
            Some(StorageError::validation(
                "Time to live configuration update in progress; retry later"
            ))
        );
    }
    assert_eq!(
        refused("other", config("expires", TimeToLiveStatus::Enabled)),
        Some(StorageError::validation("Disable time to live before changing attribute name"))
    );
    assert_eq!(refused("other", config("expires", TimeToLiveStatus::Disabled)), None);
    let plan = update_time_to_live(
        specification("expires", true),
        config("expires", TimeToLiveStatus::Enabled),
    );
    assert!(plan.unwrap().actions.is_empty());
}

#[test]
fn disabling_ttl_removes_its_index() {
    let plan = update_time_to_live(
        specification("other", false),
        config("expires", TimeToLiveStatus::Enabled),
    )
    .unwrap();
    assert_eq!(plan.response, specification("expires", false));
    assert!(matches!(
        &plan.actions[0],
        TtlAction::DeleteIndex { index_name } if index_name == "ttl_index"
    ));
    assert!(matches!(plan.actions[3], TtlAction::DeleteConfig));
    let plan = update_time_to_live(specification("other", false), None).unwrap();
    assert_eq!(plan.response, specification("other", false));
    assert!(plan.actions.is_empty());
}

#[test]
fn ttl_is_described() {
    let described = describe_time_to_live(config("expires", TimeToLiveStatus::Enabling));
    assert_eq!(described.attribute_name, Some("expires".to_string()));
    assert_eq!(described.time_to_live_status, TimeToLiveStatus::Enabling);
    let described = describe_time_to_live(None);
    assert_eq!(described.attribute_name, None);
    assert_eq!(described.time_to_live_status, TimeToLiveStatus::Disabled);
}

#[test]
fn attributes_are_defined_once() {
    let mut definitions: Vec<AttributeDefinition> = Vec::new();
    ensure_attribute_definition(&mut definitions, "expires", KeyAttributeType::N);
    ensure_attribute_definition(&mut definitions, "expires", KeyAttributeType::S);
    assert_eq!(definitions.len(), 1);
    assert_eq!(definitions[0].attribute_type, KeyAttributeType::N);
    assert_eq!(
        persist_attribute_definitions("orders", Err("cycle")),
        Err(StorageError::internal("serialize defs: cycle"))
    );
    let s = persist_attribute_definitions("orders", Ok("[]")).unwrap();
    assert_eq!(
        s.params,
        vec![SqlValue::Text("[]".to_string()), SqlValue::Text("orders".to_string())]
    );
}

fn expires(seconds: u64, token: &str) -> TtlEntry {
    TtlEntry::Expires { seconds, token: Ok(token.to_string()) }
}

#[test]
fn backfilled_items_are_noted_until_one_cannot_be() {
    let conn = Connection::open_in_memory().unwrap();
    conn.execute(
        "CREATE TABLE \"ttl_orders\" (ttl_value INTEGER, key_token TEXT PRIMARY KEY)",
        [],
    )
    .unwrap();
    let script = backfill_page(
        "ttl_orders",
        vec![expires(10, "a"), TtlEntry::Lasting, expires(20, "b"), expires(30, "a")],
    );
    assert_eq!(script.failure, None);
    assert_eq!(script.statements.len(), 3);
    for s in &script.statements {
        run(&conn, s);
    }
    let total: i64 =
        conn.query_row("SELECT SUM(ttl_value) FROM ttl_orders", [], |row| row.get(0)).unwrap();
    assert_eq!(total, 50);

    let script = backfill_page("t", vec![expires(1, "a"), expires(u64::MAX, "b")]);
    assert_eq!(script.failure, Some(StorageError::internal("sqlite ttl normalize overflow")));
    assert_eq!(script.statements.len(), 1);
    let failed = TtlEntry::Expires { seconds: 1, token: Err(StorageError::InvalidOrMissingKey) };
    assert_eq!(
        backfill_page("t", vec![failed]).failure,
        Some(StorageError::InvalidOrMissingKey)
    );
}

#[test]
fn backfills_scan_page_by_page() {
    let mut pages = vec![
        (vec![expires(1, "a")], Some("a".to_string())),
        (vec![expires(2, "b")], None),
    ];
    let mut keys = Vec::new();
    let mut noted = 0;
    let mut state = BackfillState::Scanning;
    let mut event = BackfillEvent::Scanned(Ok(pages.remove(0)));
    let result = loop {
        match backfill_ttl_index("t", state, event) {
            Step::Finish(result) => break result,
            Step::Perform { state: s, action } => {
                state = s;
                event = match action {
                    BackfillAction::Scan { exclusive_start_key } => {
                        keys.push(exclusive_start_key);
                        BackfillEvent::Scanned(Ok(pages.remove(0)))
                    }
                    BackfillAction::Note(script) => {
                        noted += script.statements.len();
                        BackfillEvent::Noted(Ok(()))
                    }
                };
            }
        }
    };
    assert_eq!(result, Ok(()));
    assert_eq!(noted, 2);
    assert_eq!(keys, vec![Some("a".to_string())]);
    assert!(pages.is_empty());
}

fn provider(immediate_gsi_consistency: bool) -> SQLiteStorageProvider {
    SQLiteStorageProvider { immediate_gsi_consistency, has_snapshot_connections: false }
}

fn asked(step: JobStep) -> Option<JobAction> {
    match step {
        Step::Perform { action, .. } => Some(action),
        Step::Finish(_) => None,
    }
}

#[test]
fn jobs_start_with_what_there_is_to_do() {
    let deferred = provider(false);
    assert_eq!(
        asked(deferred.start_job(BackgroundJobName::GsiUpdate)),
        Some(JobAction::ProcessGsiUpdates)
    );
    assert_eq!(asked(provider(true).start_job(BackgroundJobName::GsiUpdate)), None);
    assert_eq!(
        asked(deferred.start_job(BackgroundJobName::TtlSweep)),
        Some(JobAction::TrimChangeMarkers)
    );
    assert_eq!(asked(deferred.start_job(BackgroundJobName::Other)), None);
}

#[test]
fn jobs_go_on_while_there_is_something_left() {
    let provider = provider(false);
    let more = || JobEvent::Progressed(Ok(true));
    assert_eq!(
        asked(provider.run_job(JobAction::RunStreamTrim, more())),
        Some(JobAction::RunStreamTrim)
    );
    assert_eq!(
        asked(provider.run_job(JobAction::RunTtlSweep, more())),
        Some(JobAction::TrimChangeMarkers)
    );
    assert!(matches!(
        provider.run_job(JobAction::RunTtlSweep, JobEvent::Progressed(Ok(false))),
        Step::Finish(Ok(()))
    ));
    let failure = || {
        JobEvent::Progressed(Err(JobFailure {
            error: StorageError::validation("v"),
            text: "told".to_string(),
        }))
    };
    let Step::Finish(Err(e)) = provider.run_job(JobAction::ProcessGsiBackfills, failure()) else {
        panic!("a failure ends a job");
    };
    assert_eq!(e, StorageError::internal("told"));
    let Step::Finish(Err(e)) = provider.run_job(JobAction::RunStreamTrim, failure()) else {
        panic!("a failure ends a job");
    };
    assert_eq!(e, StorageError::validation("v"));
}
