//! The statements that the backend runs.
//!
//! Each function gives the text of a statement, and the values of its placeholders
//! in the order of their numbers.
use crate::ids::StreamItemId;
use crate::sql::{
    args, blob, flag, flag_arg, integer, optional_seconds, optional_seconds_arg, optional_str,
    optional_text, optional_text_arg, text, SqlArg, SqlValue,
};
use crate::text::{decimal, decimal_text_u128};
use crate::types::{ReadDirection, StreamDataType, StreamRetentionDuration, TableStatus};
use vstd::prelude::*;
use vstd::string::*;

verus! {

/// The key under which the version of the stream format is stored.
pub const ITEM_VERSIONED_STREAM_FORMAT_KEY: &'static str = "item_versioned_stream";

/// The version of the stream format.
pub const ITEM_VERSIONED_STREAM_FORMAT_VERSION: i64 = 1;

// Tables

/// Creates the table of tables.
pub const CREATE_TABLES_TABLE: &'static str =
    "CREATE TABLE IF NOT EXISTS tables (
    table_id TEXT NOT NULL,
    table_name TEXT PRIMARY KEY,
    table_status TEXT NOT NULL,
    created_at INTEGER NOT NULL,
    attribute_definitions TEXT NOT NULL,
    key_schema TEXT NOT NULL,
    global_secondary_indexes TEXT,
    table_size_bytes INTEGER NOT NULL,
    item_count INTEGER NOT NULL,
    stream_specification TEXT,
    deletion_protection_enabled INTEGER NOT NULL DEFAULT 0,
    table_stream_duration_hours INTEGER NOT NULL DEFAULT 24,
    default_item_stream_duration_hours INTEGER NOT NULL DEFAULT 24
)";

/// Creates the table of tables.
pub fn create_tables_table() -> (r: (&'static str, Vec<SqlValue>))
    ensures
        r.0 == CREATE_TABLES_TABLE,
        args(r.1) == Seq::<SqlArg>::empty(),
{
    (CREATE_TABLES_TABLE, Vec::new())
}

/// Adds the deletion protection flag to a table of tables made without it.
pub const ADD_DELETION_PROTECTION_COLUMN: &'static str =
    "ALTER TABLE tables ADD COLUMN deletion_protection_enabled INTEGER NOT NULL DEFAULT 0";

/// Adds the deletion protection flag to a table of tables made without it.
pub fn add_deletion_protection_column() -> (r: (&'static str, Vec<SqlValue>))
    ensures
        r.0 == ADD_DELETION_PROTECTION_COLUMN,
        args(r.1) == Seq::<SqlArg>::empty(),
{
    (ADD_DELETION_PROTECTION_COLUMN, Vec::new())
}

/// Adds the retention of table streams to a table of tables made without it.
pub const ADD_TABLE_STREAM_DURATION_COLUMN: &'static str =
    "ALTER TABLE tables ADD COLUMN table_stream_duration_hours INTEGER NOT NULL DEFAULT 24";

/// Adds the retention of table streams to a table of tables made without it.
pub fn add_table_stream_duration_column() -> (r: (&'static str, Vec<SqlValue>))
    ensures
        r.0 == ADD_TABLE_STREAM_DURATION_COLUMN,
        args(r.1) == Seq::<SqlArg>::empty(),
{
    (ADD_TABLE_STREAM_DURATION_COLUMN, Vec::new())
}

/// Adds the default retention of item streams to a table of tables made without it.
pub const ADD_DEFAULT_ITEM_STREAM_DURATION_COLUMN: &'static str =
    "ALTER TABLE tables ADD COLUMN default_item_stream_duration_hours INTEGER NOT NULL DEFAULT 24";

/// Adds the default retention of item streams to a table of tables made without it.
pub fn add_default_item_stream_duration_column() -> (r: (&'static str, Vec<SqlValue>))
    ensures
        r.0 == ADD_DEFAULT_ITEM_STREAM_DURATION_COLUMN,
        args(r.1) == Seq::<SqlArg>::empty(),
{
    (ADD_DEFAULT_ITEM_STREAM_DURATION_COLUMN, Vec::new())
}

/// Creates the table of index backfills.
pub const CREATE_GSI_BACKFILL_TABLE: &'static str =
    "CREATE TABLE IF NOT EXISTS gsi_backfill (
    table_name TEXT NOT NULL,
    index_name TEXT NOT NULL,
    status TEXT NOT NULL,
    scan_lek TEXT,
    captured_stream_tail TEXT,
    created_at INTEGER NOT NULL,
    updated_at INTEGER NOT NULL,
    PRIMARY KEY (table_name, index_name)
)";

/// Creates the table of index backfills.
pub fn create_gsi_backfill_table() -> (r: (&'static str, Vec<SqlValue>))
    ensures
        r.0 == CREATE_GSI_BACKFILL_TABLE,
        args(r.1) == Seq::<SqlArg>::empty(),
{
    (CREATE_GSI_BACKFILL_TABLE, Vec::new())
}

/// Creates the table of time-to-live configurations.
pub const CREATE_TTL_CONFIG_TABLE: &'static str =
    "CREATE TABLE IF NOT EXISTS sys_ttl_configs (
    table_name TEXT PRIMARY KEY,
    config_blob BLOB NOT NULL
)";

/// Creates the table of time-to-live configurations.
pub fn create_ttl_config_table() -> (r: (&'static str, Vec<SqlValue>))
    ensures
        r.0 == CREATE_TTL_CONFIG_TABLE,
        args(r.1) == Seq::<SqlArg>::empty(),
{
    (CREATE_TTL_CONFIG_TABLE, Vec::new())
}

/// Creates the table of item revisions.
pub const CREATE_ITEM_REVISIONS_TABLE: &'static str =
    "CREATE TABLE IF NOT EXISTS item_revisions (
    table_name TEXT NOT NULL,
    item_key TEXT NOT NULL,
    revision INTEGER NOT NULL,
    PRIMARY KEY (table_name, item_key)
)";

/// Creates the table of item revisions.
pub fn create_item_revisions_table() -> (r: (&'static str, Vec<SqlValue>))
    ensures
        r.0 == CREATE_ITEM_REVISIONS_TABLE,
        args(r.1) == Seq::<SqlArg>::empty(),
{
    (CREATE_ITEM_REVISIONS_TABLE, Vec::new())
}

/// Stores the time-to-live configuration of a table.
pub const UPSERT_TTL_CONFIG: &'static str =
    "INSERT INTO sys_ttl_configs (table_name, config_blob) VALUES (?1, ?2) ON CONFLICT(table_name) DO UPDATE SET config_blob = excluded.config_blob";

/// Stores the time-to-live configuration of a table.
pub fn upsert_ttl_config(table_name: &str, config: &[u8]) -> (r: (&'static str, Vec<SqlValue>))
    ensures
        r.0 == UPSERT_TTL_CONFIG,
        args(r.1) == seq![SqlArg::Text(table_name@), SqlArg::Blob(config@)],
{
    (UPSERT_TTL_CONFIG, vec![text(table_name), blob(config)])
}

/// Removes the time-to-live configuration of a table.
pub const DELETE_TTL_CONFIG: &'static str =
    "DELETE FROM sys_ttl_configs WHERE table_name = ?1";

/// Removes the time-to-live configuration of a table.
pub fn delete_ttl_config(table_name: &str) -> (r: (&'static str, Vec<SqlValue>))
    ensures
        r.0 == DELETE_TTL_CONFIG,
        args(r.1) == seq![SqlArg::Text(table_name@)],
{
    (DELETE_TTL_CONFIG, vec![text(table_name)])
}

/// Reads the time-to-live configuration of a table.
pub const GET_TTL_CONFIG: &'static str =
    "SELECT config_blob FROM sys_ttl_configs WHERE table_name = ?1";

/// Reads the time-to-live configuration of a table.
pub fn get_ttl_config(table_name: &str) -> (r: (&'static str, Vec<SqlValue>))
    ensures
        r.0 == GET_TTL_CONFIG,
        args(r.1) == seq![SqlArg::Text(table_name@)],
{
    (GET_TTL_CONFIG, vec![text(table_name)])
}

/// Reads every time-to-live configuration.
pub const LIST_TTL_CONFIGS: &'static str =
    "SELECT table_name, config_blob FROM sys_ttl_configs ORDER BY table_name ASC";

/// Reads every time-to-live configuration.
pub fn list_ttl_configs() -> (r: (&'static str, Vec<SqlValue>))
    ensures
        r.0 == LIST_TTL_CONFIGS,
        args(r.1) == Seq::<SqlArg>::empty(),
{
    (LIST_TTL_CONFIGS, Vec::new())
}

/// Starts the backfill of an index, over again where it had one.
pub const UPSERT_GSI_BACKFILL_START: &'static str =
    "INSERT INTO gsi_backfill (table_name, index_name, status, scan_lek, captured_stream_tail, created_at, updated_at)
    VALUES (?1, ?2, ?3, ?4, ?5, ?6, ?7)
    ON CONFLICT(table_name, index_name) DO UPDATE SET status = excluded.status, scan_lek = excluded.scan_lek, captured_stream_tail = excluded.captured_stream_tail, updated_at = excluded.updated_at";

/// Starts the backfill of an index, over again where it had one.
pub fn upsert_gsi_backfill_start(
    table_name: &str,
    index_name: &str,
    status: &str,
    scan_lek: Option<&str>,
    captured_stream_tail: Option<&str>,
    created_at: i64,
    updated_at: i64,
) -> (r: (&'static str, Vec<SqlValue>))
    ensures
        r.0 == UPSERT_GSI_BACKFILL_START,
        args(r.1) == seq![
            SqlArg::Text(table_name@),
            SqlArg::Text(index_name@),
            SqlArg::Text(status@),
            optional_text_arg(optional_str(scan_lek)),
            optional_text_arg(optional_str(captured_stream_tail)),
            SqlArg::Integer(created_at as int),
            SqlArg::Integer(updated_at as int),
        ],
{
    (
        UPSERT_GSI_BACKFILL_START,
        vec![
            text(table_name),
            text(index_name),
            text(status),
            optional_text(scan_lek),
            optional_text(captured_stream_tail),
            integer(created_at),
            integer(updated_at),
        ],
    )
}

/// Notes how far the scan of a backfill has come.
pub const UPDATE_GSI_BACKFILL_PROGRESS: &'static str =
    "UPDATE gsi_backfill SET scan_lek = ?3, updated_at = ?4 WHERE table_name = ?1 AND index_name = ?2";

/// Notes how far the scan of a backfill has come.
pub fn update_gsi_backfill_progress(
    table_name: &str,
    index_name: &str,
    scan_lek: Option<&str>,
    updated_at: i64,
) -> (r: (&'static str, Vec<SqlValue>))
    ensures
        r.0 == UPDATE_GSI_BACKFILL_PROGRESS,
        args(r.1) == seq![
            SqlArg::Text(table_name@),
            SqlArg::Text(index_name@),
            optional_text_arg(optional_str(scan_lek)),
            SqlArg::Integer(updated_at as int),
        ],
{
    (
        UPDATE_GSI_BACKFILL_PROGRESS,
        vec![
            text(table_name),
            text(index_name),
            optional_text(scan_lek),
            integer(updated_at),
        ],
    )
}

/// Notes that a backfill is done.
pub const MARK_GSI_BACKFILL_DONE: &'static str =
    "UPDATE gsi_backfill SET status = 'Done', updated_at = ?3 WHERE table_name = ?1 AND index_name = ?2";

/// Notes that a backfill is done.
pub fn mark_gsi_backfill_done(table_name: &str, index_name: &str, updated_at: i64) -> (r: (&'static str, Vec<SqlValue>))
    ensures
        r.0 == MARK_GSI_BACKFILL_DONE,
        args(r.1) == seq![
            SqlArg::Text(table_name@),
            SqlArg::Text(index_name@),
            SqlArg::Integer(updated_at as int),
        ],
{
    (MARK_GSI_BACKFILL_DONE, vec![text(table_name), text(index_name), integer(updated_at)])
}

/// Reads the backfill of an index.
pub const GET_GSI_BACKFILL: &'static str =
    "SELECT status, scan_lek, captured_stream_tail, created_at, updated_at FROM gsi_backfill WHERE table_name = ?1 AND index_name = ?2";

/// Reads the backfill of an index.
pub fn get_gsi_backfill(table_name: &str, index_name: &str) -> (r: (&'static str, Vec<SqlValue>))
    ensures
        r.0 == GET_GSI_BACKFILL,
        args(r.1) == seq![SqlArg::Text(table_name@), SqlArg::Text(index_name@)],
{
    (GET_GSI_BACKFILL, vec![text(table_name), text(index_name)])
}

/// Reads the backfills that are not done.
pub const LIST_PENDING_GSI_BACKFILLS: &'static str =
    "SELECT table_name, index_name, status, scan_lek, captured_stream_tail, created_at, updated_at FROM gsi_backfill WHERE status = 'Backfilling'";

/// Reads the backfills that are not done.
pub fn list_pending_gsi_backfills() -> (r: (&'static str, Vec<SqlValue>))
    ensures
        r.0 == LIST_PENDING_GSI_BACKFILLS,
        args(r.1) == Seq::<SqlArg>::empty(),
{
    (LIST_PENDING_GSI_BACKFILLS, Vec::new())
}

/// Finds a table.
pub const CHECK_TABLE_EXISTS: &'static str =
    "SELECT 1 FROM tables WHERE table_name = ?1";

/// Finds a table.
pub fn check_table_exists(table_name: &str) -> (r: (&'static str, Vec<SqlValue>))
    ensures
        r.0 == CHECK_TABLE_EXISTS,
        args(r.1) == seq![SqlArg::Text(table_name@)],
{
    (CHECK_TABLE_EXISTS, vec![text(table_name)])
}

/// Stores a new table, in the state `CREATING`, without items.
pub const INSERT_TABLE: &'static str =
    "INSERT INTO tables (table_id, table_name, table_status, created_at, attribute_definitions, key_schema, global_secondary_indexes, table_size_bytes, item_count, stream_specification, deletion_protection_enabled, table_stream_duration_hours, default_item_stream_duration_hours)
    VALUES (?1, ?2, ?3, ?4, ?5, ?6, ?7, ?8, ?9, ?10, ?11, ?12, ?13)";

/// Stores a new table, in the state `CREATING`, without items.
pub fn insert_table(
    table_id: u128,
    table_name: &str,
    created_at: i64,
    attribute_definitions: &str,
    key_schema: &str,
    global_secondary_indexes: Option<&str>,
    stream_specification: Option<&str>,
    deletion_protection_enabled: bool,
    table_stream_duration: StreamRetentionDuration,
    default_item_stream_duration: StreamRetentionDuration,
) -> (r: (&'static str, Vec<SqlValue>))
    ensures
        r.0 == INSERT_TABLE,
        args(r.1) == seq![
            SqlArg::Text(decimal(table_id as nat)),
            SqlArg::Text(table_name@),
            SqlArg::Text("CREATING"@),
            SqlArg::Integer(created_at as int),
            SqlArg::Text(attribute_definitions@),
            SqlArg::Text(key_schema@),
            optional_text_arg(optional_str(global_secondary_indexes)),
            SqlArg::Integer(0),
            SqlArg::Integer(0),
            optional_text_arg(optional_str(stream_specification)),
            flag_arg(deletion_protection_enabled),
            SqlArg::Integer(table_stream_duration.wire_value()),
            SqlArg::Integer(default_item_stream_duration.wire_value()),
        ],
{
    (
        INSERT_TABLE,
        vec![
            SqlValue::Text(decimal_text_u128(table_id)),
            text(table_name),
            text("CREATING"),
            integer(created_at),
            text(attribute_definitions),
            text(key_schema),
            optional_text(global_secondary_indexes),
            integer(0),
            integer(0),
            optional_text(stream_specification),
            flag(deletion_protection_enabled),
            integer(table_stream_duration.as_hours_wire_value()),
            integer(default_item_stream_duration.as_hours_wire_value()),
        ],
    )
}

/// Moves a table to another state.
pub const UPDATE_TABLE_STATUS: &'static str =
    "UPDATE tables SET table_status = ?1 WHERE table_name = ?2";

/// Moves a table to another state.
pub fn update_table_status(table_status: TableStatus, table_name: &str) -> (r: (&'static str, Vec<SqlValue>))
    ensures
        r.0 == UPDATE_TABLE_STATUS,
        args(r.1) == seq![
            SqlArg::Text(table_status.spec_name()),
            SqlArg::Text(table_name@),
        ],
{
    (UPDATE_TABLE_STATUS, vec![text(table_status.name()), text(table_name)])
}

/// Protects a table from deletion, or no longer.
pub const UPDATE_DELETION_PROTECTION: &'static str =
    "UPDATE tables SET deletion_protection_enabled = ?1 WHERE table_name = ?2";

/// Protects a table from deletion, or no longer.
pub fn update_deletion_protection(table_name: &str, deletion_protection_enabled: bool) -> (r: (&'static str, Vec<SqlValue>))
    ensures
        r.0 == UPDATE_DELETION_PROTECTION,
        args(r.1) == seq![flag_arg(deletion_protection_enabled), SqlArg::Text(table_name@)],
{
    (UPDATE_DELETION_PROTECTION, vec![flag(deletion_protection_enabled), text(table_name)])
}

/// Sets how long the streams of a table are kept.
pub const UPDATE_STREAM_DURATIONS: &'static str =
    "UPDATE tables SET table_stream_duration_hours = ?1, default_item_stream_duration_hours = ?2 WHERE table_name = ?3";

/// Sets how long the streams of a table are kept.
pub fn update_stream_durations(
    table_name: &str,
    table_stream_duration: StreamRetentionDuration,
    default_item_stream_duration: StreamRetentionDuration,
) -> (r: (&'static str, Vec<SqlValue>))
    ensures
        r.0 == UPDATE_STREAM_DURATIONS,
        args(r.1) == seq![
            SqlArg::Integer(table_stream_duration.wire_value()),
            SqlArg::Integer(default_item_stream_duration.wire_value()),
            SqlArg::Text(table_name@),
        ],
{
    (
        UPDATE_STREAM_DURATIONS,
        vec![
            integer(table_stream_duration.as_hours_wire_value()),
            integer(default_item_stream_duration.as_hours_wire_value()),
            text(table_name),
        ],
    )
}

/// Sets the global secondary indexes of a table.
pub const UPDATE_GSIS: &'static str =
    "UPDATE tables SET global_secondary_indexes = ?1 WHERE table_name = ?2";

/// Sets the global secondary indexes of a table.
pub fn update_gsis(
    table_name: &str,
    global_secondary_indexes_json: Option<&str>,
) -> (r: (&'static str, Vec<SqlValue>))
    ensures
        r.0 == UPDATE_GSIS,
        args(r.1) == seq![
            optional_text_arg(optional_str(global_secondary_indexes_json)),
            SqlArg::Text(table_name@),
        ],
{
    (UPDATE_GSIS, vec![optional_text(global_secondary_indexes_json), text(table_name)])
}

/// Sets the attribute definitions of a table.
pub const UPDATE_ATTRIBUTE_DEFINITIONS: &'static str =
    "UPDATE tables SET attribute_definitions = ?1 WHERE table_name = ?2";

/// Sets the attribute definitions of a table.
pub fn update_attribute_definitions(table_name: &str, attribute_definitions_json: &str) -> (r: (&'static str, Vec<SqlValue>))
    ensures
        r.0 == UPDATE_ATTRIBUTE_DEFINITIONS,
        args(r.1) == seq![
            SqlArg::Text(attribute_definitions_json@),
            SqlArg::Text(table_name@),
        ],
{
    (UPDATE_ATTRIBUTE_DEFINITIONS, vec![text(attribute_definitions_json), text(table_name)])
}

/// Sets the stream specification of a table.
pub const UPDATE_STREAM_SPECIFICATION: &'static str =
    "UPDATE tables SET stream_specification = ?1 WHERE table_name = ?2";

/// Sets the stream specification of a table.
pub fn update_stream_specification(table_name: &str, stream_specification_json: Option<&str>) -> (r: (&'static str, Vec<SqlValue>))
    ensures
        r.0 == UPDATE_STREAM_SPECIFICATION,
        args(r.1) == seq![
            optional_text_arg(optional_str(stream_specification_json)),
            SqlArg::Text(table_name@),
        ],
{
    (UPDATE_STREAM_SPECIFICATION, vec![optional_text(stream_specification_json), text(table_name)])
}

/// Reads what is known of a table.
pub const GET_TABLE_INFO: &'static str =
    "SELECT table_id, table_name, table_status, created_at, attribute_definitions, key_schema, global_secondary_indexes, table_size_bytes, item_count, stream_specification, deletion_protection_enabled, table_stream_duration_hours, default_item_stream_duration_hours FROM tables WHERE table_name = ?1";

/// Reads what is known of a table.
pub fn get_table_info(table_name: &str) -> (r: (&'static str, Vec<SqlValue>))
    ensures
        r.0 == GET_TABLE_INFO,
        args(r.1) == seq![SqlArg::Text(table_name@)],
{
    (GET_TABLE_INFO, vec![text(table_name)])
}

/// Reads the first tables, by name.
pub const LIST_ALL_TABLES: &'static str =
    "SELECT table_id, table_name, table_status, created_at, attribute_definitions, key_schema, global_secondary_indexes, table_size_bytes, item_count, stream_specification, deletion_protection_enabled, table_stream_duration_hours, default_item_stream_duration_hours FROM tables ORDER BY table_name ASC LIMIT ?1";

/// Reads the first tables, by name.
pub fn list_all_tables(limit: u32) -> (r: (&'static str, Vec<SqlValue>))
    ensures
        r.0 == LIST_ALL_TABLES,
        args(r.1) == seq![SqlArg::Integer(limit as int)],
{
    (LIST_ALL_TABLES, vec![integer(limit as i64)])
}

/// Reads the first tables whose names come after a given one.
pub const LIST_TABLES_AFTER: &'static str =
    "SELECT table_id, table_name, table_status, created_at, attribute_definitions, key_schema, global_secondary_indexes, table_size_bytes, item_count, stream_specification, deletion_protection_enabled, table_stream_duration_hours, default_item_stream_duration_hours FROM tables WHERE table_name > ?1 ORDER BY table_name ASC LIMIT ?2";

/// Reads the first tables whose names come after a given one.
pub fn list_tables_after(limit: u32, exclusive_start_table_name: String) -> (r: (&'static str, Vec<SqlValue>))
    ensures
        r.0 == LIST_TABLES_AFTER,
        args(r.1) == seq![
            SqlArg::Text(exclusive_start_table_name@),
            SqlArg::Integer(limit as int),
        ],
{
    (
        LIST_TABLES_AFTER,
        vec![
            SqlValue::Text(exclusive_start_table_name),
            integer(limit as i64),
        ],
    )
}

/// Removes a table from the table of tables.
pub const DELETE_TABLE: &'static str =
    "DELETE FROM tables WHERE table_name = ?1";

/// Removes a table from the table of tables.
pub fn delete_table(table_name: &str) -> (r: (&'static str, Vec<SqlValue>))
    ensures
        r.0 == DELETE_TABLE,
        args(r.1) == seq![SqlArg::Text(table_name@)],
{
    (DELETE_TABLE, vec![text(table_name)])
}

/// The statement that drops the table of a sanitized name.
pub open spec fn drop_table_sql(table_name_safe: Seq<char>) -> Seq<char> {
    "DROP TABLE IF EXISTS \"table_"@ + table_name_safe + "\""@
}

/// Drops the table that holds the items of a table.
pub fn drop_table(table_name_safe: &str) -> (r: (String, Vec<SqlValue>))
    ensures
        r.0@ == drop_table_sql(table_name_safe@),
        args(r.1) == Seq::<SqlArg>::empty(),
{
    let mut sql = "DROP TABLE IF EXISTS \"table_".to_owned();
    sql.append(table_name_safe);
    sql.append("\"");
    (sql, Vec::new())
}

// Stream entries

/// Finds the table of stream items.
pub const CHECK_STREAM_TABLES_EXIST: &'static str =
    "SELECT name FROM sqlite_master WHERE type='table' AND name='sys_stream_items'";

/// Finds the table of stream items.
pub fn check_stream_tables_exist() -> (r: (&'static str, Vec<SqlValue>))
    ensures
        r.0 == CHECK_STREAM_TABLES_EXIST,
        args(r.1) == Seq::<SqlArg>::empty(),
{
    (CHECK_STREAM_TABLES_EXIST, Vec::new())
}

/// Stores a row of a stream.
pub const INSERT_STREAM_ENTRY: &'static str =
    "INSERT INTO sys_stream_items (stream_name, item_id, data, created_at, data_type) VALUES (?1, ?2, ?3, ?4, ?5)";

/// Stores a row of a stream.
pub fn insert_stream_entry(
    stream_name: &str,
    item_id: &StreamItemId,
    data: &[u8],
    created_at: i64,
    data_type: StreamDataType,
) -> (r: (&'static str, Vec<SqlValue>))
    ensures
        r.0 == INSERT_STREAM_ENTRY,
        args(r.1) == seq![
            SqlArg::Text(stream_name@),
            SqlArg::Text(item_id.text()),
            SqlArg::Blob(data@),
            SqlArg::Integer(created_at as int),
            SqlArg::Integer(data_type.spec_code() as int),
        ],
{
    (
        INSERT_STREAM_ENTRY,
        vec![
            text(stream_name),
            SqlValue::Text(item_id.to_text()),
            blob(data),
            integer(created_at),
            integer(data_type.code() as i64),
        ],
    )
}

/// Notes that a table has changed.
pub const INSERT_CHANGE_INDEX_MARKER: &'static str =
    "INSERT OR REPLACE INTO sys_change_index (slot, versionstamp, table_id, created_at) VALUES (?1, ?2, ?3, ?4)";

/// Notes that a table has changed.
pub fn insert_change_index_marker(
    slot: u16,
    versionstamp: &str,
    table_id: &str,
    created_at: i64,
) -> (r: (&'static str, Vec<SqlValue>))
    ensures
        r.0 == INSERT_CHANGE_INDEX_MARKER,
        args(r.1) == seq![
            SqlArg::Integer(slot as int),
            SqlArg::Text(versionstamp@),
            SqlArg::Text(table_id@),
            SqlArg::Integer(created_at as int),
        ],
{
    (
        INSERT_CHANGE_INDEX_MARKER,
        vec![
            integer(slot as i64),
            text(versionstamp),
            text(table_id),
            integer(created_at),
        ],
    )
}

/// Reads the first changes of a slot after a given one.
pub const LIST_CHANGE_INDEX_MARKERS: &'static str =
    "SELECT slot, versionstamp, table_id FROM sys_change_index WHERE slot = ?1 AND versionstamp > ?2 ORDER BY versionstamp ASC LIMIT ?3";

/// Reads the first changes of a slot after a given one.
pub fn list_change_index_markers(slot: u16, after_versionstamp: &str, limit: i64) -> (r: (&'static str, Vec<SqlValue>))
    ensures
        r.0 == LIST_CHANGE_INDEX_MARKERS,
        args(r.1) == seq![
            SqlArg::Integer(slot as int),
            SqlArg::Text(after_versionstamp@),
            SqlArg::Integer(limit as int),
        ],
{
    (LIST_CHANGE_INDEX_MARKERS, vec![integer(slot as i64), text(after_versionstamp), integer(limit)])
}

/// Forgets the changes from before a given time.
pub const TRIM_CHANGE_INDEX_MARKERS_OLDER_THAN: &'static str =
    "DELETE FROM sys_change_index WHERE created_at < ?1";

/// Forgets the changes from before a given time.
pub fn trim_change_index_markers_older_than(cutoff_created_at_ms: i64) -> (r: (&'static str, Vec<SqlValue>))
    ensures
        r.0 == TRIM_CHANGE_INDEX_MARKERS_OLDER_THAN,
        args(r.1) == seq![SqlArg::Integer(cutoff_created_at_ms as int)],
{
    (TRIM_CHANGE_INDEX_MARKERS_OLDER_THAN, vec![integer(cutoff_created_at_ms)])
}

// Queues

/// Creates the table of queues.
pub const CREATE_QUEUES_TABLE: &'static str =
    "CREATE TABLE IF NOT EXISTS sys_queues (
    queue_name TEXT PRIMARY KEY,
    queue_url TEXT NOT NULL,
    attributes TEXT NOT NULL,
    created_at INTEGER NOT NULL
)";

/// Creates the table of queues.
pub fn create_queues_table() -> (r: (&'static str, Vec<SqlValue>))
    ensures
        r.0 == CREATE_QUEUES_TABLE,
        args(r.1) == Seq::<SqlArg>::empty(),
{
    (CREATE_QUEUES_TABLE, Vec::new())
}

/// Creates the table of messages.
pub const CREATE_MESSAGES_TABLE: &'static str =
    "CREATE TABLE IF NOT EXISTS sys_messages (
    message_id TEXT PRIMARY KEY,
    queue_name TEXT NOT NULL,
    body TEXT NOT NULL,
    message_attributes TEXT,
    visibility_timestamp INTEGER NOT NULL,
    receipt_handle TEXT,
    receive_count INTEGER NOT NULL DEFAULT 0,
    checkpoint_data TEXT,
    created_at INTEGER NOT NULL
)";

/// Creates the table of messages.
pub fn create_messages_table() -> (r: (&'static str, Vec<SqlValue>))
    ensures
        r.0 == CREATE_MESSAGES_TABLE,
        args(r.1) == Seq::<SqlArg>::empty(),
{
    (CREATE_MESSAGES_TABLE, Vec::new())
}

/// Indexes messages by queue and visibility.
pub const CREATE_MESSAGES_QUEUE_VISIBILITY_INDEX: &'static str =
    "CREATE INDEX IF NOT EXISTS idx_messages_queue_visibility ON sys_messages(queue_name, visibility_timestamp)";

/// Indexes messages by queue and visibility.
pub fn create_messages_queue_visibility_index() -> (r: (&'static str, Vec<SqlValue>))
    ensures
        r.0 == CREATE_MESSAGES_QUEUE_VISIBILITY_INDEX,
        args(r.1) == Seq::<SqlArg>::empty(),
{
    (CREATE_MESSAGES_QUEUE_VISIBILITY_INDEX, Vec::new())
}

/// Indexes messages by queue and receipt.
pub const CREATE_MESSAGES_QUEUE_RECEIPT_INDEX: &'static str =
    "CREATE INDEX IF NOT EXISTS idx_messages_queue_receipt ON sys_messages(queue_name, receipt_handle)";

/// Indexes messages by queue and receipt.
pub fn create_messages_queue_receipt_index() -> (r: (&'static str, Vec<SqlValue>))
    ensures
        r.0 == CREATE_MESSAGES_QUEUE_RECEIPT_INDEX,
        args(r.1) == Seq::<SqlArg>::empty(),
{
    (CREATE_MESSAGES_QUEUE_RECEIPT_INDEX, Vec::new())
}

/// Stores a queue.
pub const INSERT_OR_REPLACE_QUEUE: &'static str =
    "INSERT OR REPLACE INTO sys_queues (queue_name, queue_url, attributes, created_at) VALUES (?1, ?2, ?3, ?4)";

/// Stores a queue.
pub fn insert_or_replace_queue(
    queue_name: &str,
    queue_url: &str,
    attributes_json: &str,
    created_at: i64,
) -> (r: (&'static str, Vec<SqlValue>))
    ensures
        r.0 == INSERT_OR_REPLACE_QUEUE,
        args(r.1) == seq![
            SqlArg::Text(queue_name@),
            SqlArg::Text(queue_url@),
            SqlArg::Text(attributes_json@),
            SqlArg::Integer(created_at as int),
        ],
{
    (
        INSERT_OR_REPLACE_QUEUE,
        vec![
            text(queue_name),
            text(queue_url),
            text(attributes_json),
            integer(created_at),
        ],
    )
}

/// Reads a queue by its URL.
pub const GET_QUEUE: &'static str =
    "SELECT queue_name, attributes, created_at FROM sys_queues WHERE queue_url = ?1";

/// Reads a queue by its URL.
pub fn get_queue(queue_url: &str) -> (r: (&'static str, Vec<SqlValue>))
    ensures
        r.0 == GET_QUEUE,
        args(r.1) == seq![SqlArg::Text(queue_url@)],
{
    (GET_QUEUE, vec![text(queue_url)])
}

/// Reads a queue by its name.
pub const GET_QUEUE_BY_NAME: &'static str =
    "SELECT queue_url, attributes, created_at FROM sys_queues WHERE queue_name = ?1";

/// Reads a queue by its name.
pub fn get_queue_by_name(queue_name: &str) -> (r: (&'static str, Vec<SqlValue>))
    ensures
        r.0 == GET_QUEUE_BY_NAME,
        args(r.1) == seq![SqlArg::Text(queue_name@)],
{
    (GET_QUEUE_BY_NAME, vec![text(queue_name)])
}

/// Reads every queue.
pub const LIST_ALL_QUEUES: &'static str =
    "SELECT queue_name, queue_url, attributes, created_at FROM sys_queues ORDER BY queue_name ASC";

/// Reads the queues whose names match a pattern.
pub const LIST_QUEUES_WITH_PREFIX: &'static str =
    "SELECT queue_name, queue_url, attributes, created_at FROM sys_queues WHERE queue_name LIKE ?1 ORDER BY queue_name ASC";

/// Reads the queues, all of them or those whose names have a prefix.
pub fn list_queues(queue_name_prefix: Option<&str>) -> (r: (&'static str, Vec<SqlValue>))
    ensures
        match queue_name_prefix {
            Some(prefix) => r.0 == LIST_QUEUES_WITH_PREFIX && args(r.1) == seq![
                SqlArg::Text(prefix@ + "%"@),
            ],
            None => r.0 == LIST_ALL_QUEUES && args(r.1) == Seq::<SqlArg>::empty(),
        },
{
    match queue_name_prefix {
        Some(prefix) => {
            let mut pattern = prefix.to_owned();
            pattern.append("%");
            (LIST_QUEUES_WITH_PREFIX, vec![SqlValue::Text(pattern)])
        },
        None => (LIST_ALL_QUEUES, Vec::new()),
    }
}

/// Removes the messages of a queue.
pub const PURGE_QUEUE: &'static str =
    "DELETE FROM sys_messages WHERE queue_name = ?1";

/// Removes the messages of a queue.
pub fn purge_queue(queue_name: &str) -> (r: (&'static str, Vec<SqlValue>))
    ensures
        r.0 == PURGE_QUEUE,
        args(r.1) == seq![SqlArg::Text(queue_name@)],
{
    (PURGE_QUEUE, vec![text(queue_name)])
}

/// Sets the attributes of a queue.
pub const SET_QUEUE_ATTRIBUTES: &'static str =
    "UPDATE sys_queues SET attributes = ?1 WHERE queue_url = ?2";

/// Sets the attributes of a queue.
pub fn set_queue_attributes(queue_url: &str, attributes_json: &str) -> (r: (&'static str, Vec<SqlValue>))
    ensures
        r.0 == SET_QUEUE_ATTRIBUTES,
        args(r.1) == seq![SqlArg::Text(attributes_json@), SqlArg::Text(queue_url@)],
{
    (SET_QUEUE_ATTRIBUTES, vec![text(attributes_json), text(queue_url)])
}

/// Stores a message.
pub const SEND_MESSAGE: &'static str =
    "INSERT INTO sys_messages (message_id, queue_name, body, message_attributes, visibility_timestamp, created_at) VALUES (?1, ?2, ?3, ?4, ?5, ?6)";

/// Stores a message.
pub fn send_message(
    message_id: &str,
    queue_name: &str,
    body: &str,
    message_attributes_json: Option<&str>,
    visibility_timestamp: i64,
    created_at: i64,
) -> (r: (&'static str, Vec<SqlValue>))
    ensures
        r.0 == SEND_MESSAGE,
        args(r.1) == seq![
            SqlArg::Text(message_id@),
            SqlArg::Text(queue_name@),
            SqlArg::Text(body@),
            optional_text_arg(optional_str(message_attributes_json)),
            SqlArg::Integer(visibility_timestamp as int),
            SqlArg::Integer(created_at as int),
        ],
{
    (
        SEND_MESSAGE,
        vec![
            text(message_id),
            text(queue_name),
            text(body),
            optional_text(message_attributes_json),
            integer(visibility_timestamp),
            integer(created_at),
        ],
    )
}

/// Reads the first messages of a queue that are visible.
pub const RECEIVE_MESSAGES: &'static str =
    "SELECT message_id, body, message_attributes, visibility_timestamp, receipt_handle, created_at FROM sys_messages WHERE queue_name = ?1 AND visibility_timestamp <= ?2 ORDER BY visibility_timestamp ASC, created_at ASC LIMIT ?3";

/// Reads the first messages of a queue that are visible.
pub fn receive_messages(queue_name: &str, now_timestamp: i64, max_messages: u32) -> (r: (&'static str, Vec<SqlValue>))
    ensures
        r.0 == RECEIVE_MESSAGES,
        args(r.1) == seq![
            SqlArg::Text(queue_name@),
            SqlArg::Integer(now_timestamp as int),
            SqlArg::Integer(max_messages as int),
        ],
{
    (
        RECEIVE_MESSAGES,
        vec![
            text(queue_name),
            integer(now_timestamp),
            integer(max_messages as i64),
        ],
    )
}

/// Claims a message, if nobody has claimed it since it was read.
pub const UPDATE_MESSAGE_VISIBILITY: &'static str =
    "UPDATE sys_messages SET visibility_timestamp = ?1, receipt_handle = ?2, receive_count = receive_count + 1 WHERE message_id = ?3 AND queue_name = ?4 AND receipt_handle IS ?5";

/// Claims a message, if nobody has claimed it since it was read.
pub fn update_message_visibility(
    next_visible: i64,
    next_receipt_handle: &str,
    message_id: &str,
    queue_name: &str,
    receipt_handle: Option<&str>,
) -> (r: (&'static str, Vec<SqlValue>))
    ensures
        r.0 == UPDATE_MESSAGE_VISIBILITY,
        args(r.1) == seq![
            SqlArg::Integer(next_visible as int),
            SqlArg::Text(next_receipt_handle@),
            SqlArg::Text(message_id@),
            SqlArg::Text(queue_name@),
            optional_text_arg(optional_str(receipt_handle)),
        ],
{
    (
        UPDATE_MESSAGE_VISIBILITY,
        vec![
            integer(next_visible),
            text(next_receipt_handle),
            text(message_id),
            text(queue_name),
            optional_text(receipt_handle),
        ],
    )
}

/// Removes the message that a receipt was given for.
pub const DELETE_MESSAGE: &'static str =
    "DELETE FROM sys_messages WHERE queue_name = ?1 AND receipt_handle = ?2";

/// Removes the message that a receipt was given for.
pub fn delete_message(queue_name: &str, receipt_handle: &str) -> (r: (&'static str, Vec<SqlValue>))
    ensures
        r.0 == DELETE_MESSAGE,
        args(r.1) == seq![SqlArg::Text(queue_name@), SqlArg::Text(receipt_handle@)],
{
    (DELETE_MESSAGE, vec![text(queue_name), text(receipt_handle)])
}

/// Sets when the message that a receipt was given for is visible again.
pub const CHANGE_MESSAGE_VISIBILITY: &'static str =
    "UPDATE sys_messages SET visibility_timestamp = ?1 WHERE queue_name = ?2 AND receipt_handle = ?3";

/// Sets when the message that a receipt was given for is visible again.
pub fn change_message_visibility(
    new_visibility_timestamp: i64,
    queue_name: &str,
    receipt_handle: &str,
) -> (r: (&'static str, Vec<SqlValue>))
    ensures
        r.0 == CHANGE_MESSAGE_VISIBILITY,
        args(r.1) == seq![
            SqlArg::Integer(new_visibility_timestamp as int),
            SqlArg::Text(queue_name@),
            SqlArg::Text(receipt_handle@),
        ],
{
    (
        CHANGE_MESSAGE_VISIBILITY,
        vec![
            integer(new_visibility_timestamp),
            text(queue_name),
            text(receipt_handle),
        ],
    )
}

/// Stores how far the work on the message that a receipt was given for has come.
pub const UPDATE_MESSAGE_CHECKPOINT: &'static str =
    "UPDATE sys_messages SET checkpoint_data = ?1 WHERE queue_name = ?2 AND receipt_handle = ?3";

/// Stores how far the work on the message that a receipt was given for has come.
pub fn update_message_checkpoint(
    checkpoint_data: &str,
    queue_name: &str,
    receipt_handle: &str,
) -> (r: (&'static str, Vec<SqlValue>))
    ensures
        r.0 == UPDATE_MESSAGE_CHECKPOINT,
        args(r.1) == seq![
            SqlArg::Text(checkpoint_data@),
            SqlArg::Text(queue_name@),
            SqlArg::Text(receipt_handle@),
        ],
{
    (UPDATE_MESSAGE_CHECKPOINT, vec![text(checkpoint_data), text(queue_name), text(receipt_handle)])
}

// Streams

/// Creates the table of streams.
pub const CREATE_USER_STREAMS_TABLE: &'static str =
    "CREATE TABLE IF NOT EXISTS sys_user_streams (
    user_stream_name TEXT PRIMARY KEY,
    stream_name TEXT NOT NULL,
    ttl_seconds INTEGER,
    created_at INTEGER NOT NULL,
    updated_at INTEGER NOT NULL
)";

/// Creates the table of streams.
pub fn create_user_streams_table() -> (r: (&'static str, Vec<SqlValue>))
    ensures
        r.0 == CREATE_USER_STREAMS_TABLE,
        args(r.1) == Seq::<SqlArg>::empty(),
{
    (CREATE_USER_STREAMS_TABLE, Vec::new())
}

/// Creates the table of stream items.
pub const CREATE_STREAM_ITEMS_TABLE: &'static str =
    "CREATE TABLE IF NOT EXISTS sys_stream_items (
    stream_name TEXT NOT NULL,
    item_id TEXT NOT NULL,
    data BLOB NOT NULL,
    created_at INTEGER NOT NULL,
    data_type INTEGER NOT NULL,
    PRIMARY KEY (stream_name, item_id)
)";

/// Creates the table of stream items.
pub fn create_stream_items_table() -> (r: (&'static str, Vec<SqlValue>))
    ensures
        r.0 == CREATE_STREAM_ITEMS_TABLE,
        args(r.1) == Seq::<SqlArg>::empty(),
{
    (CREATE_STREAM_ITEMS_TABLE, Vec::new())
}

/// Creates the table of cursors.
pub const CREATE_STREAM_CURSORS_TABLE: &'static str =
    "CREATE TABLE IF NOT EXISTS sys_stream_cursors (
    cursor_name TEXT NOT NULL,
    stream_name TEXT NOT NULL,
    position TEXT NOT NULL,
    created_at INTEGER NOT NULL,
    PRIMARY KEY (cursor_name, stream_name)
)";

/// Creates the table of cursors.
pub fn create_stream_cursors_table() -> (r: (&'static str, Vec<SqlValue>))
    ensures
        r.0 == CREATE_STREAM_CURSORS_TABLE,
        args(r.1) == Seq::<SqlArg>::empty(),
{
    (CREATE_STREAM_CURSORS_TABLE, Vec::new())
}

/// Creates the table of changes.
pub const CREATE_CHANGE_INDEX_TABLE: &'static str =
    "CREATE TABLE IF NOT EXISTS sys_change_index (
    slot INTEGER NOT NULL,
    versionstamp TEXT NOT NULL,
    table_id TEXT NOT NULL,
    created_at INTEGER NOT NULL,
    PRIMARY KEY (slot, versionstamp)
)";

/// Creates the table of changes.
pub fn create_change_index_table() -> (r: (&'static str, Vec<SqlValue>))
    ensures
        r.0 == CREATE_CHANGE_INDEX_TABLE,
        args(r.1) == Seq::<SqlArg>::empty(),
{
    (CREATE_CHANGE_INDEX_TABLE, Vec::new())
}

/// Creates the table of stream formats.
pub const CREATE_STREAM_FORMAT_METADATA_TABLE: &'static str =
    "CREATE TABLE IF NOT EXISTS sys_stream_format_metadata (
    format_key TEXT PRIMARY KEY,
    format_version INTEGER NOT NULL
)";

/// Creates the table of stream formats.
pub fn create_stream_format_metadata_table() -> (r: (&'static str, Vec<SqlValue>))
    ensures
        r.0 == CREATE_STREAM_FORMAT_METADATA_TABLE,
        args(r.1) == Seq::<SqlArg>::empty(),
{
    (CREATE_STREAM_FORMAT_METADATA_TABLE, Vec::new())
}

/// Reads the version of the stream format.
pub const GET_STREAM_FORMAT_VERSION: &'static str =
    "SELECT format_version FROM sys_stream_format_metadata WHERE format_key = ?1";

/// Reads the version of the stream format.
pub fn get_stream_format_version() -> (r: (&'static str, Vec<SqlValue>))
    ensures
        r.0 == GET_STREAM_FORMAT_VERSION,
        args(r.1) == seq![SqlArg::Text(ITEM_VERSIONED_STREAM_FORMAT_KEY@)],
{
    (GET_STREAM_FORMAT_VERSION, vec![text(ITEM_VERSIONED_STREAM_FORMAT_KEY)])
}

/// Stores the version of the stream format.
pub const UPSERT_STREAM_FORMAT_VERSION: &'static str =
    "INSERT INTO sys_stream_format_metadata (format_key, format_version) VALUES (?1, ?2) ON CONFLICT(format_key) DO UPDATE SET format_version = excluded.format_version";

/// Stores the version of the stream format.
pub fn upsert_stream_format_version() -> (r: (&'static str, Vec<SqlValue>))
    ensures
        r.0 == UPSERT_STREAM_FORMAT_VERSION,
        args(r.1) == seq![
            SqlArg::Text(ITEM_VERSIONED_STREAM_FORMAT_KEY@),
            SqlArg::Integer(ITEM_VERSIONED_STREAM_FORMAT_VERSION as int),
        ],
{
    (
        UPSERT_STREAM_FORMAT_VERSION,
        vec![
            text(ITEM_VERSIONED_STREAM_FORMAT_KEY),
            integer(ITEM_VERSIONED_STREAM_FORMAT_VERSION),
        ],
    )
}

/// Counts the rows of all streams.
pub const COUNT_STREAM_ITEMS: &'static str =
    "SELECT COUNT(*) FROM sys_stream_items";

/// Counts the rows of all streams.
pub fn count_stream_items() -> (r: (&'static str, Vec<SqlValue>))
    ensures
        r.0 == COUNT_STREAM_ITEMS,
        args(r.1) == Seq::<SqlArg>::empty(),
{
    (COUNT_STREAM_ITEMS, Vec::new())
}

/// Reads the pointers of all streams.
pub const LIST_STREAM_POINTER_PAYLOADS: &'static str =
    "SELECT stream_name, item_id, data FROM sys_stream_items WHERE data_type = ?1 ORDER BY stream_name ASC, item_id ASC";

/// Reads the pointers of all streams.
pub fn list_stream_pointer_payloads() -> (r: (&'static str, Vec<SqlValue>))
    ensures
        r.0 == LIST_STREAM_POINTER_PAYLOADS,
        args(r.1) == seq![
            SqlArg::Integer(StreamDataType::StreamPointer.spec_code() as int),
        ],
{
    (LIST_STREAM_POINTER_PAYLOADS, vec![integer(StreamDataType::StreamPointer.code() as i64)])
}

/// Indexes stream items by stream and time.
pub const CREATE_STREAM_ITEMS_INTERNAL_TIME_INDEX: &'static str =
    "CREATE INDEX IF NOT EXISTS idx_stream_items_stream_time ON sys_stream_items(stream_name, created_at)";

/// Indexes stream items by stream and time.
pub fn create_stream_items_internal_time_index() -> (r: (&'static str, Vec<SqlValue>))
    ensures
        r.0 == CREATE_STREAM_ITEMS_INTERNAL_TIME_INDEX,
        args(r.1) == Seq::<SqlArg>::empty(),
{
    (CREATE_STREAM_ITEMS_INTERNAL_TIME_INDEX, Vec::new())
}

/// Indexes cursors by stream.
pub const CREATE_STREAM_CURSORS_INTERNAL_INDEX: &'static str =
    "CREATE INDEX IF NOT EXISTS idx_stream_cursors_stream ON sys_stream_cursors(stream_name)";

/// Indexes cursors by stream.
pub fn create_stream_cursors_internal_index() -> (r: (&'static str, Vec<SqlValue>))
    ensures
        r.0 == CREATE_STREAM_CURSORS_INTERNAL_INDEX,
        args(r.1) == Seq::<SqlArg>::empty(),
{
    (CREATE_STREAM_CURSORS_INTERNAL_INDEX, Vec::new())
}

/// Indexes changes by time.
pub const CREATE_CHANGE_INDEX_CREATED_AT_INDEX: &'static str =
    "CREATE INDEX IF NOT EXISTS idx_change_index_created_at ON sys_change_index(created_at)";

/// Indexes changes by time.
pub fn create_change_index_created_at_index() -> (r: (&'static str, Vec<SqlValue>))
    ensures
        r.0 == CREATE_CHANGE_INDEX_CREATED_AT_INDEX,
        args(r.1) == Seq::<SqlArg>::empty(),
{
    (CREATE_CHANGE_INDEX_CREATED_AT_INDEX, Vec::new())
}

/// Finds a stream.
pub const CHECK_STREAM_EXISTS: &'static str =
    "SELECT 1 FROM sys_user_streams WHERE user_stream_name = ?1";

/// Finds a stream.
pub fn check_stream_exists(stream_name: &str) -> (r: (&'static str, Vec<SqlValue>))
    ensures
        r.0 == CHECK_STREAM_EXISTS,
        args(r.1) == seq![SqlArg::Text(stream_name@)],
{
    (CHECK_STREAM_EXISTS, vec![text(stream_name)])
}

/// Stores a stream.
pub const INSERT_NEW_STREAM: &'static str =
    "INSERT INTO sys_user_streams (user_stream_name, stream_name, ttl_seconds, created_at, updated_at) VALUES (?1, ?2, ?3, ?4, ?5)";

/// Stores a stream.
pub fn insert_new_stream(
    user_stream_name: &str,
    stream_name: &str,
    ttl_seconds: Option<u32>,
    created_at: i64,
    updated_at: i64,
) -> (r: (&'static str, Vec<SqlValue>))
    ensures
        r.0 == INSERT_NEW_STREAM,
        args(r.1) == seq![
            SqlArg::Text(user_stream_name@),
            SqlArg::Text(stream_name@),
            optional_seconds_arg(ttl_seconds),
            SqlArg::Integer(created_at as int),
            SqlArg::Integer(updated_at as int),
        ],
{
    (
        INSERT_NEW_STREAM,
        vec![
            text(user_stream_name),
            text(stream_name),
            optional_seconds(ttl_seconds),
            integer(created_at),
            integer(updated_at),
        ],
    )
}

/// Reads the internal name of a stream.
pub const GET_STREAM_INTERNAL_ID: &'static str =
    "SELECT stream_name FROM sys_user_streams WHERE user_stream_name = ?1";

/// Reads the internal name of a stream.
pub fn get_stream_internal_id(user_stream_name: &str) -> (r: (&'static str, Vec<SqlValue>))
    ensures
        r.0 == GET_STREAM_INTERNAL_ID,
        args(r.1) == seq![SqlArg::Text(user_stream_name@)],
{
    (GET_STREAM_INTERNAL_ID, vec![text(user_stream_name)])
}

/// Removes the cursors of a stream.
pub const DELETE_STREAM_CURSORS: &'static str =
    "DELETE FROM sys_stream_cursors WHERE stream_name = ?1";

/// Removes the cursors of a stream.
pub fn delete_stream_cursors(stream_name: &str) -> (r: (&'static str, Vec<SqlValue>))
    ensures
        r.0 == DELETE_STREAM_CURSORS,
        args(r.1) == seq![SqlArg::Text(stream_name@)],
{
    (DELETE_STREAM_CURSORS, vec![text(stream_name)])
}

/// Removes the rows of a stream.
pub const DELETE_STREAM_ITEMS: &'static str =
    "DELETE FROM sys_stream_items WHERE stream_name = ?1";

/// Removes the rows of a stream.
pub fn delete_stream_items(stream_name: &str) -> (r: (&'static str, Vec<SqlValue>))
    ensures
        r.0 == DELETE_STREAM_ITEMS,
        args(r.1) == seq![SqlArg::Text(stream_name@)],
{
    (DELETE_STREAM_ITEMS, vec![text(stream_name)])
}

/// Removes one row of a stream.
pub const DELETE_STREAM_ITEM: &'static str =
    "DELETE FROM sys_stream_items WHERE stream_name = ?1 AND item_id = ?2";

/// Removes one row of a stream.
pub fn delete_stream_item(stream_name: &str, item_id: &StreamItemId) -> (r: (&'static str, Vec<SqlValue>))
    ensures
        r.0 == DELETE_STREAM_ITEM,
        args(r.1) == seq![SqlArg::Text(stream_name@), SqlArg::Text(item_id.text())],
{
    (DELETE_STREAM_ITEM, vec![text(stream_name), SqlValue::Text(item_id.to_text())])
}

/// Removes a stream.
pub const DELETE_USER_STREAM: &'static str =
    "DELETE FROM sys_user_streams WHERE user_stream_name = ?1";

/// Removes a stream.
pub fn delete_user_stream(user_stream_name: &str) -> (r: (&'static str, Vec<SqlValue>))
    ensures
        r.0 == DELETE_USER_STREAM,
        args(r.1) == seq![SqlArg::Text(user_stream_name@)],
{
    (DELETE_USER_STREAM, vec![text(user_stream_name)])
}

/// Reads what is known of a stream.
pub const GET_STREAM_INFO: &'static str =
    "SELECT user_stream_name, stream_name, ttl_seconds, created_at FROM sys_user_streams WHERE user_stream_name = ?1";

/// Reads what is known of a stream.
pub fn get_stream_info(user_stream_name: &str) -> (r: (&'static str, Vec<SqlValue>))
    ensures
        r.0 == GET_STREAM_INFO,
        args(r.1) == seq![SqlArg::Text(user_stream_name@)],
{
    (GET_STREAM_INFO, vec![text(user_stream_name)])
}

// Cursors

/// Finds a cursor.
pub const CHECK_CURSOR_EXISTS: &'static str =
    "SELECT 1 FROM sys_stream_cursors WHERE cursor_name = ?1 AND stream_name = ?2";

/// Finds a cursor.
pub fn check_cursor_exists(cursor_name: &str, stream_name: &str) -> (r: (&'static str, Vec<SqlValue>))
    ensures
        r.0 == CHECK_CURSOR_EXISTS,
        args(r.1) == seq![SqlArg::Text(cursor_name@), SqlArg::Text(stream_name@)],
{
    (CHECK_CURSOR_EXISTS, vec![text(cursor_name), text(stream_name)])
}

/// Reads the last id of a stream.
pub const GET_LATEST_ITEM_FOR_CURSOR: &'static str =
    "SELECT item_id FROM sys_stream_items WHERE stream_name = ?1 ORDER BY item_id DESC LIMIT 1";

/// Reads the last id of a stream.
pub fn get_latest_item_for_cursor(stream_name: &str) -> (r: (&'static str, Vec<SqlValue>))
    ensures
        r.0 == GET_LATEST_ITEM_FOR_CURSOR,
        args(r.1) == seq![SqlArg::Text(stream_name@)],
{
    (GET_LATEST_ITEM_FOR_CURSOR, vec![text(stream_name)])
}

/// Stores a cursor.
pub const INSERT_CURSOR: &'static str =
    "INSERT INTO sys_stream_cursors (cursor_name, stream_name, position, created_at) VALUES (?1, ?2, ?3, ?4)";

/// Stores a cursor.
pub fn insert_cursor(
    cursor_name: &str,
    stream_name: &str,
    position_id: &StreamItemId,
    created_at: i64,
) -> (r: (&'static str, Vec<SqlValue>))
    ensures
        r.0 == INSERT_CURSOR,
        args(r.1) == seq![
            SqlArg::Text(cursor_name@),
            SqlArg::Text(stream_name@),
            SqlArg::Text(position_id.text()),
            SqlArg::Integer(created_at as int),
        ],
{
    (
        INSERT_CURSOR,
        vec![
            text(cursor_name),
            text(stream_name),
            SqlValue::Text(position_id.to_text()),
            integer(created_at),
        ],
    )
}

/// Removes a cursor.
pub const DELETE_CURSOR: &'static str =
    "DELETE FROM sys_stream_cursors WHERE cursor_name = ?1 AND stream_name = ?2";

/// Removes a cursor.
pub fn delete_cursor(cursor_name: &str, stream_name: &str) -> (r: (&'static str, Vec<SqlValue>))
    ensures
        r.0 == DELETE_CURSOR,
        args(r.1) == seq![SqlArg::Text(cursor_name@), SqlArg::Text(stream_name@)],
{
    (DELETE_CURSOR, vec![text(cursor_name), text(stream_name)])
}

/// Reads where a cursor stands.
pub const GET_CURSOR_POSITION: &'static str =
    "SELECT position FROM sys_stream_cursors WHERE cursor_name = ?1 AND stream_name = ?2";

/// Reads where a cursor stands.
pub fn get_cursor_position(cursor_name: &str, stream_name: &str) -> (r: (&'static str, Vec<SqlValue>))
    ensures
        r.0 == GET_CURSOR_POSITION,
        args(r.1) == seq![SqlArg::Text(cursor_name@), SqlArg::Text(stream_name@)],
{
    (GET_CURSOR_POSITION, vec![text(cursor_name), text(stream_name)])
}

/// Reads the first rows of a stream after a given id.
pub const READ_STREAM_FORWARD: &'static str =
    "SELECT item_id, ?1, data, created_at, data_type FROM sys_stream_items WHERE stream_name = ?2 AND item_id > ?3 ORDER BY item_id ASC LIMIT ?4";

/// Reads the last rows of a stream before a given id, the latest first.
pub const READ_STREAM_BACKWARD: &'static str =
    "SELECT item_id, ?1, data, created_at, data_type FROM sys_stream_items WHERE stream_name = ?2 AND item_id < ?3 ORDER BY item_id DESC LIMIT ?4";

/// The statement that reads a stream in a direction.
pub open spec fn read_stream_sql(direction: ReadDirection) -> Seq<char> {
    match direction {
        ReadDirection::Forward => READ_STREAM_FORWARD@,
        ReadDirection::Backward => READ_STREAM_BACKWARD@,
    }
}

/// Reads a page of a stream, and one row more that tells whether there is another.
pub fn read_stream_from_position(
    stream_name: &str,
    cursor_position: &StreamItemId,
    limit: u32,
    direction: ReadDirection,
) -> (r: (String, Vec<SqlValue>))
    requires
        limit < u32::MAX,
    ensures
        r.0@ == read_stream_sql(direction),
        args(r.1) == seq![
            SqlArg::Text(stream_name@),
            SqlArg::Text(stream_name@),
            SqlArg::Text(cursor_position.text()),
            SqlArg::Integer(limit + 1),
        ],
{
    let sql = match direction {
        ReadDirection::Forward => READ_STREAM_FORWARD.to_owned(),
        ReadDirection::Backward => READ_STREAM_BACKWARD.to_owned(),
    };
    (
        sql,
        vec![
            text(stream_name),
            text(stream_name),
            SqlValue::Text(cursor_position.to_text()),
            integer((limit + 1) as i64),
        ],
    )
}

/// Finds a cursor that is to move.
pub fn check_cursor_exists_for_advance(cursor_name: &str, stream_name: &str) -> (r: (&'static str, Vec<SqlValue>))
    ensures
        r.0 == CHECK_CURSOR_EXISTS,
        args(r.1) == seq![SqlArg::Text(cursor_name@), SqlArg::Text(stream_name@)],
{
    (CHECK_CURSOR_EXISTS, vec![text(cursor_name), text(stream_name)])
}

/// Finds the row that a cursor is to move to.
pub const CHECK_ITEM_EXISTS_FOR_ADVANCE: &'static str =
    "SELECT 1 FROM sys_stream_items WHERE item_id = ?1 AND stream_name = ?2";

/// Finds the row that a cursor is to move to.
pub fn check_item_exists_for_advance(item_id: &StreamItemId, stream_name: &str) -> (r: (&'static str, Vec<SqlValue>))
    ensures
        r.0 == CHECK_ITEM_EXISTS_FOR_ADVANCE,
        args(r.1) == seq![SqlArg::Text(item_id.text()), SqlArg::Text(stream_name@)],
{
    (CHECK_ITEM_EXISTS_FOR_ADVANCE, vec![SqlValue::Text(item_id.to_text()), text(stream_name)])
}

/// Moves a cursor.
pub const ADVANCE_CURSOR_POSITION: &'static str =
    "UPDATE sys_stream_cursors SET position = ?1 WHERE cursor_name = ?2 AND stream_name = ?3";

/// Moves a cursor.
pub fn advance_cursor_position(item_id: &StreamItemId, cursor_name: &str, stream_name: &str) -> (r: (&'static str, Vec<SqlValue>))
    ensures
        r.0 == ADVANCE_CURSOR_POSITION,
        args(r.1) == seq![
            SqlArg::Text(item_id.text()),
            SqlArg::Text(cursor_name@),
            SqlArg::Text(stream_name@),
        ],
{
    (
        ADVANCE_CURSOR_POSITION,
        vec![
            SqlValue::Text(item_id.to_text()),
            text(cursor_name),
            text(stream_name),
        ],
    )
}

/// Reads what is known of a cursor.
pub const GET_CURSOR_DETAILS: &'static str =
    "SELECT cursor_name, ?1, position, created_at FROM sys_stream_cursors WHERE cursor_name = ?2 AND stream_name = ?3";

/// Reads what is known of a cursor.
pub fn get_cursor_details(stream_name: &str, cursor_name: &str) -> (r: (&'static str, Vec<SqlValue>))
    ensures
        r.0 == GET_CURSOR_DETAILS,
        args(r.1) == seq![
            SqlArg::Text(stream_name@),
            SqlArg::Text(cursor_name@),
            SqlArg::Text(stream_name@),
        ],
{
    (GET_CURSOR_DETAILS, vec![text(stream_name), text(cursor_name), text(stream_name)])
}

} // verus!
