//! How long streams are kept, and trimming them.
use crate::error::StorageError;
use crate::ids::StreamItemId;
use crate::sql::{
    integer, statement, statements, text, SqlArg, SqlValue, Statement, StatementView,
};
use crate::text::{decimal, decimal_text};
use crate::types::StreamRetentionDuration;
use crate::uuids::{hyphenated, name_uuid, uuid_text, uuid_v5_in_oid};
use vstd::prelude::*;
use vstd::string::*;

verus! {

/// What the hash of an item's key starts with.
pub const ITEM_KEY_HASH_PREFIX: &'static str = "sqlite-key:";

/// Creates the table of trim states.
pub const CREATE_TRIM_STATE_TABLE: &'static str =
    "CREATE TABLE IF NOT EXISTS sys_stream_trim_state (
    scope_id TEXT PRIMARY KEY,
    state_blob BLOB NOT NULL,
    updated_at INTEGER NOT NULL
)";

/// Creates the table of markers of when trimming is due.
pub const CREATE_TRIM_DUE_MARKERS_TABLE: &'static str =
    "CREATE TABLE IF NOT EXISTS sys_stream_trim_due_markers (
    due_bucket INTEGER NOT NULL,
    scope_id TEXT NOT NULL,
    policy_version INTEGER NOT NULL,
    marker_blob BLOB NOT NULL,
    PRIMARY KEY (due_bucket, scope_id, policy_version)
)";

/// Indexes markers by scope.
pub const CREATE_TRIM_DUE_MARKERS_SCOPE_INDEX: &'static str =
    "CREATE INDEX IF NOT EXISTS idx_stream_trim_due_markers_scope ON sys_stream_trim_due_markers(scope_id)";

/// Creates the table that leads from versions of items to their pointers.
pub const CREATE_STREAM_POINTER_INDEX_TABLE: &'static str =
    "CREATE TABLE IF NOT EXISTS sys_stream_pointer_index (
    table_name TEXT NOT NULL,
    item_stream_name TEXT NOT NULL,
    item_stream_version TEXT NOT NULL,
    table_stream_item_id TEXT NOT NULL,
    system_stream_item_id TEXT NOT NULL,
    created_at INTEGER NOT NULL,
    PRIMARY KEY (table_name, item_stream_name, item_stream_version, table_stream_item_id)
)";

/// Indexes pointers by item stream.
pub const CREATE_STREAM_POINTER_INDEX_ITEM_INDEX: &'static str =
    "CREATE INDEX IF NOT EXISTS idx_stream_pointer_index_item ON sys_stream_pointer_index(item_stream_name, item_stream_version)";

/// Indexes pointers by table stream.
pub const CREATE_STREAM_POINTER_INDEX_TABLE_POINTER_INDEX: &'static str =
    "CREATE INDEX IF NOT EXISTS idx_stream_pointer_index_table_pointer ON sys_stream_pointer_index(table_name, table_stream_item_id)";

/// Stores which pointers lead to a version of an item.
pub const INSERT_STREAM_POINTER_INDEX: &'static str =
    "INSERT OR REPLACE INTO sys_stream_pointer_index (
                      table_name, item_stream_name, item_stream_version, table_stream_item_id,
                      system_stream_item_id, created_at
                  )
                  VALUES (?1, ?2, ?3, ?4, ?5, ?6)";

/// Reads the trim state of a scope.
pub const READ_TRIM_STATE: &'static str =
    "SELECT state_blob FROM sys_stream_trim_state WHERE scope_id = ?1";

/// Stores the trim state of a scope.
pub const UPSERT_TRIM_STATE: &'static str =
    "INSERT INTO sys_stream_trim_state (scope_id, state_blob, updated_at)
                  VALUES (?1, ?2, ?3)
                  ON CONFLICT(scope_id) DO UPDATE SET
                      state_blob = excluded.state_blob,
                      updated_at = excluded.updated_at";

/// Stores a marker of when trimming is due.
pub const UPSERT_DUE_MARKER: &'static str =
    "INSERT INTO sys_stream_trim_due_markers (
                  due_bucket, scope_id, policy_version, marker_blob
              )
              VALUES (?1, ?2, ?3, ?4)
              ON CONFLICT(due_bucket, scope_id, policy_version) DO UPDATE SET
                  marker_blob = excluded.marker_blob";

/// Removes a marker.
pub const DELETE_DUE_MARKER: &'static str =
    "DELETE FROM sys_stream_trim_due_markers
                 WHERE due_bucket = ?1 AND scope_id = ?2 AND policy_version = ?3";

/// Reads the first markers that are due.
pub const LIST_DUE_MARKERS: &'static str =
    "SELECT marker_blob
                      FROM sys_stream_trim_due_markers
                      WHERE due_bucket <= ?1
                      ORDER BY due_bucket ASC, scope_id ASC, policy_version ASC
                      LIMIT ?2";

/// Reads the last id of a stream.
pub const READ_LATEST_ITEM_ID: &'static str =
    "SELECT item_id FROM sys_stream_items WHERE stream_name = ?1 ORDER BY item_id DESC LIMIT 1";

/// Reads the first version of an item that a pointer leads to, in the order of the texts
/// of the versions: "10" comes before "9".
pub const READ_RETAINED_VERSION: &'static str =
    "SELECT item_stream_version FROM sys_stream_pointer_index
         WHERE item_stream_name = ?1
         ORDER BY item_stream_version ASC
         LIMIT 1";

/// Reads the first pointer of a table that must be kept.
pub const READ_PROTECTED_POINTER: &'static str =
    "SELECT table_stream_item_id FROM sys_stream_pointer_index
         WHERE table_name = ?1 AND system_stream_item_id >= ?2
         ORDER BY system_stream_item_id ASC
         LIMIT 1";

/// Reads the first rows of a stream up to a time.
pub const READ_ROWS_TO_TRIM: &'static str =
    "SELECT item_id, created_at
        FROM sys_stream_items
        WHERE stream_name = ?1 AND created_at <= ?2
        ORDER BY item_id ASC
        LIMIT ?3";

/// Reads the first rows of a stream up to a time and an id.
pub const READ_ROWS_TO_TRIM_UP_TO: &'static str =
    "SELECT item_id, created_at
        FROM sys_stream_items
        WHERE stream_name = ?1 AND created_at <= ?2 AND item_id <= ?3
        ORDER BY item_id ASC
        LIMIT ?4";

/// Removes a row of a stream.
pub const DELETE_STREAM_ROW: &'static str =
    "DELETE FROM sys_stream_items WHERE stream_name = ?1 AND item_id = ?2";

/// Removes a pointer of a table.
pub const DELETE_POINTER_ROW: &'static str =
    "DELETE FROM sys_stream_pointer_index
                         WHERE table_name = ?1 AND table_stream_item_id = ?2";

/// Reads the first row of a stream.
pub const READ_FIRST_ROW: &'static str =
    "SELECT item_id, created_at FROM sys_stream_items
         WHERE stream_name = ?1
         ORDER BY item_id ASC
         LIMIT 1";

fn plain(sql: &'static str) -> (r: Statement)
    ensures
        r@ == (StatementView { sql: sql@, args: Seq::empty() }),
{
    let s = statement((sql, Vec::new()));
    assert(s@.args =~= Seq::<SqlArg>::empty());
    s
}

/// A statement without placeholders.
pub open spec fn plain_view(sql: &'static str) -> StatementView {
    StatementView { sql: sql@, args: Seq::empty() }
}

/// Creates the tables that trimming uses, and their indexes.
pub fn initialize_stream_duration_tables() -> (r: Vec<Statement>)
    ensures
        statements(r@) == seq![
            plain_view(CREATE_TRIM_STATE_TABLE),
            plain_view(CREATE_TRIM_DUE_MARKERS_TABLE),
            plain_view(CREATE_TRIM_DUE_MARKERS_SCOPE_INDEX),
            plain_view(CREATE_STREAM_POINTER_INDEX_TABLE),
            plain_view(CREATE_STREAM_POINTER_INDEX_ITEM_INDEX),
            plain_view(CREATE_STREAM_POINTER_INDEX_TABLE_POINTER_INDEX),
        ],
{
    vec![
        plain(CREATE_TRIM_STATE_TABLE),
        plain(CREATE_TRIM_DUE_MARKERS_TABLE),
        plain(CREATE_TRIM_DUE_MARKERS_SCOPE_INDEX),
        plain(CREATE_STREAM_POINTER_INDEX_TABLE),
        plain(CREATE_STREAM_POINTER_INDEX_ITEM_INDEX),
        plain(CREATE_STREAM_POINTER_INDEX_TABLE_POINTER_INDEX),
    ]
}

/// The statement that stores which pointers lead to a version of an item.
pub open spec fn pointer_index_view(
    table_name: Seq<char>,
    item_stream: Seq<char>,
    item_stream_version: u64,
    table_stream_item_id: StreamItemId,
    system_stream_item_id: StreamItemId,
    created_at: i64,
) -> StatementView {
    StatementView {
        sql: INSERT_STREAM_POINTER_INDEX@,
        args: seq![
            SqlArg::Text(table_name),
            SqlArg::Text(item_stream),
            SqlArg::Text(decimal(item_stream_version as nat)),
            SqlArg::Text(table_stream_item_id.text()),
            SqlArg::Text(system_stream_item_id.text()),
            SqlArg::Integer(created_at as int),
        ],
    }
}

/// Stores which pointers lead to a version of an item.
pub fn insert_stream_pointer_index(
    table_name: &str,
    item_stream: &str,
    item_stream_version: u64,
    table_stream_item_id: StreamItemId,
    system_stream_item_id: StreamItemId,
    created_at: i64,
) -> (r: Statement)
    ensures
        r@ == pointer_index_view(
            table_name@,
            item_stream@,
            item_stream_version,
            table_stream_item_id,
            system_stream_item_id,
            created_at,
        ),
{
    let s = statement(
        (
            INSERT_STREAM_POINTER_INDEX,
            vec![
                text(table_name),
                text(item_stream),
                SqlValue::Text(decimal_text(item_stream_version)),
                SqlValue::Text(table_stream_item_id.to_text()),
                SqlValue::Text(system_stream_item_id.to_text()),
                integer(created_at),
            ],
        ),
    );
    assert(s@ == pointer_index_view(
        table_name@,
        item_stream@,
        item_stream_version,
        table_stream_item_id,
        system_stream_item_id,
        created_at,
    ));
    s
}

/// The number that stands for a duration in a policy version.
pub open spec fn policy_code(duration: StreamRetentionDuration) -> nat {
    match duration {
        StreamRetentionDuration::Forever => 0xffff_ffff,
        StreamRetentionDuration::FiniteHours(hours) => hours as nat,
    }
}

/// How long an item's stream is kept.
pub open spec fn effective_retention(
    table_retention: StreamRetentionDuration,
    requested_retention: StreamRetentionDuration,
) -> StreamRetentionDuration {
    if requested_retention.covers(table_retention) {
        requested_retention
    } else {
        table_retention
    }
}

/// The version of a policy: the requested duration in the high half, the one that
/// takes effect in the low half.
pub open spec fn policy_version(
    requested_retention: StreamRetentionDuration,
    table_retention: StreamRetentionDuration,
) -> nat {
    policy_code(requested_retention) * 0x1_0000_0000 + policy_code(
        effective_retention(table_retention, requested_retention),
    )
}

fn duration_policy_code(duration: StreamRetentionDuration) -> (r: u32)
    ensures
        r == policy_code(duration),
{
    match duration {
        StreamRetentionDuration::Forever => u32::MAX,
        StreamRetentionDuration::FiniteHours(hours) => hours as u32,
    }
}

/// The version of the policy of an item's stream.
pub fn item_stream_policy_version(
    requested_retention: StreamRetentionDuration,
    table_retention: StreamRetentionDuration,
) -> (r: u64)
    ensures
        r == policy_version(requested_retention, table_retention),
{
    let high: u32 = duration_policy_code(requested_retention);
    let low: u32 = duration_policy_code(
        StreamRetentionDuration::effective_item_retention(table_retention, requested_retention),
    );
    assert((high as u64) << 32 | (low as u64) == high * 0x1_0000_0000 + low) by (bit_vector);
    (high as u64) << 32 | (low as u64)
}

/// An item's stream is kept at least as long as its table's stream and as long as was
/// asked for, and no longer than the longer of the two.
pub proof fn law_effective_retention_is_the_longer(
    table_retention: StreamRetentionDuration,
    requested_retention: StreamRetentionDuration,
)
    ensures
        effective_retention(table_retention, requested_retention).covers(table_retention),
        effective_retention(table_retention, requested_retention).covers(requested_retention),
        effective_retention(table_retention, requested_retention) == table_retention
            || effective_retention(table_retention, requested_retention) == requested_retention,
{
}

/// A policy version tells the requested duration and the one that takes effect: two
/// policies have one version exactly where they agree in both.
pub proof fn law_policy_version_tells_policies_apart(
    requested: StreamRetentionDuration,
    table: StreamRetentionDuration,
    other_requested: StreamRetentionDuration,
    other_table: StreamRetentionDuration,
)
    ensures
        policy_version(requested, table) == policy_version(other_requested, other_table) <==> (
        requested == other_requested && effective_retention(table, requested)
            == effective_retention(other_table, other_requested)),
{
}

/// The hash of the key of an item, from the name of its stream.
pub fn item_stream_key_hash(stream_name: &str) -> (r: String)
    ensures
        r@ == ITEM_KEY_HASH_PREFIX@ + hyphenated(uuid_v5_in_oid(stream_name@)),
{
    let digest = uuid_text(name_uuid(stream_name));
    let mut key_hash = ITEM_KEY_HASH_PREFIX.to_owned();
    key_hash.append(digest.as_str());
    key_hash
}

/// What is trimmed: the stream of a table, or that of an item.
#[derive(Clone, Copy, Debug, PartialEq, Eq, Structural)]
pub enum StreamTrimScopeKind {
    Table,
    Item,
}

/// What is trimmed, and under which name its state is stored.
pub struct StreamTrimScope {
    pub kind: StreamTrimScopeKind,
    pub scope_id: String,
    pub table_name: String,
    /// The name of the table's stream.
    pub table_stream_name: String,
}

impl StreamTrimScope {
    /// The name of the stream that is trimmed.
    pub open spec fn stream_name(&self) -> Seq<char> {
        match self.kind {
            StreamTrimScopeKind::Table => self.table_stream_name@,
            StreamTrimScopeKind::Item => self.scope_id@,
        }
    }
}

/// The name of the stream that is trimmed.
pub fn stream_name_for_scope(scope: &StreamTrimScope) -> (r: String)
    ensures
        r@ == scope.stream_name(),
{
    match scope.kind {
        StreamTrimScopeKind::Table => scope.table_stream_name.clone(),
        StreamTrimScopeKind::Item => scope.scope_id.clone(),
    }
}

/// A text with another in front.
pub fn prefixed(prefix: &str, rest: &str) -> (r: String)
    ensures
        r@ == prefix@ + rest@,
{
    let mut all = prefix.to_owned();
    all.append(rest);
    all
}

/// What is known of how long an item's stream is to be kept, for the plan of trimming it.
pub struct ItemStreamDuration {
    pub scope_id: String,
    pub item_key_hash: String,
    pub policy_version: u64,
    pub retention: StreamRetentionDuration,
    pub table_retention: StreamRetentionDuration,
}

/// Where the name of an item's stream comes from: its key, then the name itself.
pub enum ItemStreamName {
    KeyFailed(String),
    ScopeFailed(String),
    Named(String),
}

/// Plans how long an item's stream is kept; nothing where no duration was asked for.
pub fn plan_item_stream_duration(
    table_retention: StreamRetentionDuration,
    requested_retention: Option<StreamRetentionDuration>,
    item_stream: ItemStreamName,
) -> (r: Result<Option<ItemStreamDuration>, StorageError>)
    ensures
        match (requested_retention, item_stream) {
            (None, _) => r matches Ok(None),
            (Some(_), ItemStreamName::KeyFailed(e)) => r matches Err(out) && out.is_validation(
                "custom item stream TTL key failed: "@ + e@,
            ),
            (Some(_), ItemStreamName::ScopeFailed(e)) => r matches Err(out) && out.is_validation(
                "custom item stream TTL scope failed: "@ + e@,
            ),
            (Some(retention), ItemStreamName::Named(name)) => r matches Ok(Some(plan))
                && plan.scope_id@ == name@ && plan.item_key_hash@ == ITEM_KEY_HASH_PREFIX@
                + hyphenated(uuid_v5_in_oid(name@)) && plan.policy_version == policy_version(
                retention,
                table_retention,
            ) && plan.retention == retention && plan.table_retention == table_retention,
        },
{
    let retention = match requested_retention {
        Some(retention) => retention,
        None => {
            return Ok(None);
        },
    };
    match item_stream {
        ItemStreamName::KeyFailed(e) => Err(
            StorageError::Validation {
                message: prefixed("custom item stream TTL key failed: ", e.as_str()),
            },
        ),
        ItemStreamName::ScopeFailed(e) => Err(
            StorageError::Validation {
                message: prefixed("custom item stream TTL scope failed: ", e.as_str()),
            },
        ),
        ItemStreamName::Named(scope_id) => {
            let item_key_hash = item_stream_key_hash(scope_id.as_str());
            Ok(
                Some(
                    ItemStreamDuration {
                        scope_id,
                        item_key_hash,
                        policy_version: item_stream_policy_version(retention, table_retention),
                        retention,
                        table_retention,
                    },
                ),
            )
        },
    }
}

/// A marker of when trimming is due, with its stored form.
pub struct StreamTrimDueMarker {
    pub due_bucket: i64,
    pub scope_id: String,
    pub policy_version: u64,
    pub encoded: Result<Vec<u8>, StorageError>,
}

/// A trim state to store, with its stored form and the marker that follows it.
pub struct StreamTrimStateWrite {
    pub scope_id: String,
    pub updated_at: i64,
    pub encoded: Result<Vec<u8>, StorageError>,
    pub next_marker: Option<StreamTrimDueMarker>,
}

/// A marker that can be stored.
pub struct PreparedDueMarker {
    pub due_bucket: i64,
    pub scope_id: String,
    pub policy_version: i64,
    pub marker_blob: Vec<u8>,
}

/// A trim state that can be stored.
pub struct PreparedStateWrite {
    pub scope_id: String,
    pub state_blob: Vec<u8>,
    pub updated_at: i64,
    pub next_marker: Option<PreparedDueMarker>,
}

/// Whether an error says that SQLite cannot hold a policy version.
pub open spec fn policy_version_refused(error: StorageError) -> bool {
    error.is_validation(
        "stream trim policy version is too large: out of range integral type conversion attempted"@,
    )
}

fn refuse_policy_version() -> (r: StorageError)
    ensures
        policy_version_refused(r),
{
    StorageError::validation(
        "stream trim policy version is too large: out of range integral type conversion attempted",
    )
}

/// Whether preparing a marker gives `out`.
pub open spec fn prepares_marker(
    marker: StreamTrimDueMarker,
    out: Result<PreparedDueMarker, StorageError>,
) -> bool {
    if marker.policy_version > i64::MAX {
        out matches Err(e) && policy_version_refused(e)
    } else {
        match marker.encoded {
            Err(e) => out == Err::<PreparedDueMarker, StorageError>(e),
            Ok(blob) => out == Ok::<PreparedDueMarker, StorageError>(
                PreparedDueMarker {
                    due_bucket: marker.due_bucket,
                    scope_id: marker.scope_id,
                    policy_version: marker.policy_version as i64,
                    marker_blob: blob,
                },
            ),
        }
    }
}

/// Makes a marker ready to be stored: SQLite must be able to hold its policy version.
pub fn prepare_due_marker(marker: StreamTrimDueMarker) -> (r: Result<
    PreparedDueMarker,
    StorageError,
>)
    ensures
        prepares_marker(marker, r),
{
    if marker.policy_version > i64::MAX as u64 {
        return Err(refuse_policy_version());
    }
    match marker.encoded {
        Err(e) => Err(e),
        Ok(marker_blob) => Ok(
            PreparedDueMarker {
                due_bucket: marker.due_bucket,
                scope_id: marker.scope_id,
                policy_version: marker.policy_version as i64,
                marker_blob,
            },
        ),
    }
}

/// Whether preparing a trim state gives `out`.
pub open spec fn prepares_state(
    write: StreamTrimStateWrite,
    out: Result<PreparedStateWrite, StorageError>,
) -> bool {
    match (write.encoded, write.next_marker) {
        (Err(e), _) => out == Err::<PreparedStateWrite, StorageError>(e),
        (Ok(blob), None) => out == Ok::<PreparedStateWrite, StorageError>(
            PreparedStateWrite {
                scope_id: write.scope_id,
                state_blob: blob,
                updated_at: write.updated_at,
                next_marker: None,
            },
        ),
        (Ok(blob), Some(marker)) => {
            &&& out is Err <==> marker.policy_version > i64::MAX || marker.encoded is Err
            &&& out matches Err(e) ==> prepares_marker(marker, Err(e))
            &&& out matches Ok(state) ==> state.scope_id == write.scope_id && state.state_blob
                == blob && state.updated_at == write.updated_at && (
            state.next_marker matches Some(prepared) && prepares_marker(marker, Ok(prepared)))
        },
    }
}

/// Makes a trim state ready to be stored.
pub fn prepare_state_write(write: StreamTrimStateWrite) -> (r: Result<
    PreparedStateWrite,
    StorageError,
>)
    ensures
        prepares_state(write, r),
{
    let state_blob = match write.encoded {
        Ok(blob) => blob,
        Err(e) => {
            return Err(e);
        },
    };
    let next_marker = match write.next_marker {
        Some(marker) => match prepare_due_marker(marker) {
            Ok(prepared) => Some(prepared),
            Err(e) => {
                return Err(e);
            },
        },
        None => None,
    };
    Ok(
        PreparedStateWrite {
            scope_id: write.scope_id,
            state_blob,
            updated_at: write.updated_at,
            next_marker,
        },
    )
}

impl PreparedDueMarker {
    /// The statement that stores the marker.
    pub open spec fn statement_view(&self) -> StatementView {
        StatementView {
            sql: UPSERT_DUE_MARKER@,
            args: seq![
                SqlArg::Integer(self.due_bucket as int),
                SqlArg::Text(self.scope_id@),
                SqlArg::Integer(self.policy_version as int),
                SqlArg::Blob(self.marker_blob@),
            ],
        }
    }

    /// Stores the marker.
    pub fn apply(self) -> (r: Statement)
        ensures
            r@ == self.statement_view(),
    {
        let s = statement(
            (
                UPSERT_DUE_MARKER,
                vec![
                    integer(self.due_bucket),
                    SqlValue::Text(self.scope_id),
                    integer(self.policy_version),
                    SqlValue::Blob(self.marker_blob),
                ],
            ),
        );
        assert(s@ == self.statement_view());
        s
    }
}

impl PreparedStateWrite {
    /// The statement that stores the state.
    pub open spec fn state_view(&self) -> StatementView {
        StatementView {
            sql: UPSERT_TRIM_STATE@,
            args: seq![
                SqlArg::Text(self.scope_id@),
                SqlArg::Blob(self.state_blob@),
                SqlArg::Integer(self.updated_at as int),
            ],
        }
    }

    /// The statements that store the state, and the marker that follows it.
    pub open spec fn statement_views(&self) -> Seq<StatementView> {
        match self.next_marker {
            Some(marker) => seq![self.state_view(), marker.statement_view()],
            None => seq![self.state_view()],
        }
    }

    /// Stores the state, and the marker that follows it.
    pub fn apply(self) -> (r: Vec<Statement>)
        ensures
            statements(r@) == self.statement_views(),
    {
        let state = statement(
            (
                UPSERT_TRIM_STATE,
                vec![
                    SqlValue::Text(self.scope_id),
                    SqlValue::Blob(self.state_blob),
                    integer(self.updated_at),
                ],
            ),
        );
        assert(state@ == self.state_view());
        match self.next_marker {
            Some(marker) => vec![state, marker.apply()],
            None => vec![state],
        }
    }
}

/// Whether storing a trim state gives `out`.
pub open spec fn writes_trim_state(
    write: StreamTrimStateWrite,
    out: Result<Vec<Statement>, StorageError>,
) -> bool {
    match out {
        Err(e) => prepares_state(write, Err(e)),
        Ok(list) => exists|prepared: PreparedStateWrite|
            prepares_state(write, Ok(prepared)) && statements(list@) == #[trigger] prepared.statement_views(),
    }
}

/// Stores a trim state, and the marker that follows it.
pub fn write_stream_trim_state(write: StreamTrimStateWrite) -> (r: Result<
    Vec<Statement>,
    StorageError,
>)
    ensures
        writes_trim_state(write, r),
{
    match prepare_state_write(write) {
        Ok(prepared) => {
            let ghost given = prepared;
            let list = prepared.apply();
            assert(statements(list@) == given.statement_views());
            Ok(list)
        },
        Err(e) => Err(e),
    }
}

/// The statement that removes a marker.
pub open spec fn delete_marker_view(
    due_bucket: i64,
    scope_id: Seq<char>,
    policy_version: u64,
) -> StatementView {
    StatementView {
        sql: DELETE_DUE_MARKER@,
        args: seq![
            SqlArg::Integer(due_bucket as int),
            SqlArg::Text(scope_id),
            SqlArg::Integer(policy_version as int),
        ],
    }
}

/// Removes a marker that was dealt with and stores the state that follows from it, all
/// in one transaction.
pub fn finish_stream_trim_marker(
    due_bucket: i64,
    scope_id: String,
    policy_version: u64,
    write: Option<StreamTrimStateWrite>,
) -> (r: Result<Vec<Statement>, StorageError>)
    ensures
        if policy_version > i64::MAX {
            r matches Err(e) && policy_version_refused(e)
        } else {
            match write {
                None => r matches Ok(list) && statements(list@) == seq![
                    delete_marker_view(due_bucket, scope_id@, policy_version),
                ],
                Some(write) => match r {
                    Err(e) => prepares_state(write, Err(e)),
                    Ok(list) => exists|prepared: PreparedStateWrite|
                        prepares_state(write, Ok(prepared)) && statements(list@) == seq![
                            delete_marker_view(due_bucket, scope_id@, policy_version),
                        ] + #[trigger] prepared.statement_views(),
                },
            }
        },
{
    if policy_version > i64::MAX as u64 {
        return Err(refuse_policy_version());
    }
    let remove = statement(
        (
            DELETE_DUE_MARKER,
            vec![integer(due_bucket), text(scope_id.as_str()), integer(policy_version as i64)],
        ),
    );
    assert(remove@ == delete_marker_view(due_bucket, scope_id@, policy_version));
    match write {
        None => Ok(vec![remove]),
        Some(write) => match prepare_state_write(write) {
            Err(e) => Err(e),
            Ok(prepared) => {
                let ghost given = prepared;
                let mut list = vec![remove];
                let mut rest = prepared.apply();
                list.append(&mut rest);
                assert(statements(list@) =~= seq![
                    delete_marker_view(due_bucket, scope_id@, policy_version),
                ] + given.statement_views());
                Ok(list)
            },
        },
    }
}

/// Reads the trim state of a scope.
pub fn load_stream_trim_state(scope_id: &str) -> (r: Statement)
    ensures
        r@ == (StatementView { sql: READ_TRIM_STATE@, args: seq![SqlArg::Text(scope_id@)] }),
{
    let s = statement((READ_TRIM_STATE, vec![text(scope_id)]));
    assert(s@.args =~= seq![SqlArg::Text(scope_id@)]);
    s
}

/// The error of a stored trim state that cannot be read.
pub fn decode_state_failed(err: &str) -> (r: StorageError)
    ensures
        r.is_internal("decode stream trim state failed: "@ + err@),
{
    StorageError::Internal { message: prefixed("decode stream trim state failed: ", err) }
}

/// The error of a stored marker that cannot be read.
pub fn decode_marker_failed(err: &str) -> (r: StorageError)
    ensures
        r.is_internal("decode stream trim marker failed: "@ + err@),
{
    StorageError::Internal { message: prefixed("decode stream trim marker failed: ", err) }
}

/// Reads the first markers that are due: those of the earliest time first.
pub fn list_due_stream_trim_markers(due_before: i64, limit: usize) -> (r: Result<
    Statement,
    StorageError,
>)
    ensures
        if limit <= i64::MAX {
            r matches Ok(s) && s@ == (StatementView {
                sql: LIST_DUE_MARKERS@,
                args: seq![SqlArg::Integer(due_before as int), SqlArg::Integer(limit as int)],
            })
        } else {
            r matches Err(e) && e.is_validation(
                "stream trim marker page limit is too large: out of range integral type conversion attempted"@,
            )
        },
{
    if limit as u64 > i64::MAX as u64 {
        return Err(
            StorageError::validation(
                "stream trim marker page limit is too large: out of range integral type conversion attempted",
            ),
        );
    }
    let s = statement((LIST_DUE_MARKERS, vec![integer(due_before), integer(limit as i64)]));
    assert(s@.args =~= seq![SqlArg::Integer(due_before as int), SqlArg::Integer(limit as int)]);
    Ok(s)
}

} // verus!
