//! Changing a table.
use crate::error::StorageError;
use crate::sql::{
    optional_str, optional_text_arg, statement, statements, SqlArg, Statement, StatementView,
};
use crate::sql_statements::{
    update_deletion_protection, update_stream_durations, update_stream_specification,
    update_table_status, UPDATE_DELETION_PROTECTION, UPDATE_STREAM_DURATIONS,
    UPDATE_STREAM_SPECIFICATION, UPDATE_TABLE_STATUS,
};
use crate::stream_duration::{
    prefixed, prepare_state_write, prepares_state, PreparedStateWrite, StreamTrimStateWrite,
};
use crate::types::{
    AttributeDefinition, GlobalSecondaryIndex, KeySchemaElement, StreamRetentionDuration, StreamSpecification,
    TableInfo, TableStatus,
};
use vstd::prelude::*;

verus! {

/// What is to change of a table.
pub struct UpdateTableRequest {
    pub stream_specification: Option<StreamSpecification>,
    pub deletion_protection_enabled: Option<bool>,
    pub stream_duration: Option<StreamRetentionDuration>,
    pub default_item_stream_duration: Option<StreamRetentionDuration>,
    pub has_index_updates: bool,
}

/// One thing to do for the change of a table; the first that fails ends the change.
pub enum TableUpdateAction {
    /// Run a statement.
    Run(Statement),
    /// Store how long the streams are kept, and plan trimming them.
    WriteDurations {
        table_stream_duration: StreamRetentionDuration,
        default_item_stream_duration: StreamRetentionDuration,
    },
    /// Create and delete global secondary indexes.
    UpdateIndexes,
}

/// What an action is.
#[verifier::ext_equal]
pub enum TableUpdateView {
    Run(StatementView),
    WriteDurations(StreamRetentionDuration, StreamRetentionDuration),
    UpdateIndexes,
}

impl View for TableUpdateAction {
    type V = TableUpdateView;

    open spec fn view(&self) -> TableUpdateView {
        match *self {
            TableUpdateAction::Run(s) => TableUpdateView::Run(s@),
            TableUpdateAction::WriteDurations {
                table_stream_duration,
                default_item_stream_duration,
            } => TableUpdateView::WriteDurations(
                table_stream_duration,
                default_item_stream_duration,
            ),
            TableUpdateAction::UpdateIndexes => TableUpdateView::UpdateIndexes,
        }
    }
}

/// What the actions of a list are.
pub open spec fn action_views(list: Seq<TableUpdateAction>) -> Seq<TableUpdateView> {
    list.map_values(|a: TableUpdateAction| a@)
}

/// The action that moves a table to another state.
pub open spec fn status_view(table_name: Seq<char>, status: TableStatus) -> TableUpdateView {
    TableUpdateView::Run(
        StatementView {
            sql: UPDATE_TABLE_STATUS@,
            args: seq![SqlArg::Text(status.spec_name()), SqlArg::Text(table_name)],
        },
    )
}

/// The actions for a new stream specification, where there is one.
pub open spec fn stream_specification_views(
    request: UpdateTableRequest,
    table_name: Seq<char>,
    json: Option<Seq<char>>,
) -> Seq<TableUpdateView> {
    if request.stream_specification is Some {
        seq![
            TableUpdateView::Run(
                StatementView {
                    sql: UPDATE_STREAM_SPECIFICATION@,
                    args: seq![optional_text_arg(json), SqlArg::Text(table_name)],
                },
            ),
        ]
    } else {
        Seq::empty()
    }
}

/// The actions for a new deletion protection, where there is one.
pub open spec fn deletion_protection_views(
    request: UpdateTableRequest,
    table_name: Seq<char>,
) -> Seq<TableUpdateView> {
    match request.deletion_protection_enabled {
        Some(enabled) => seq![
            TableUpdateView::Run(
                StatementView {
                    sql: UPDATE_DELETION_PROTECTION@,
                    args: seq![crate::sql::flag_arg(enabled), SqlArg::Text(table_name)],
                },
            ),
        ],
        None => Seq::empty(),
    }
}

/// Whether a change is about how long streams are kept.
pub open spec fn changes_durations(request: UpdateTableRequest) -> bool {
    request.stream_duration is Some || request.default_item_stream_duration is Some
}

/// The actions for new durations, where there is one.
pub open spec fn duration_views(request: UpdateTableRequest, updated: TableInfo) -> Seq<
    TableUpdateView,
> {
    if changes_durations(request) {
        seq![
            TableUpdateView::WriteDurations(
                updated.table_stream_duration,
                updated.default_item_stream_duration,
            ),
        ]
    } else {
        Seq::empty()
    }
}

/// The actions for index updates, where there are any.
pub open spec fn index_views(request: UpdateTableRequest) -> Seq<TableUpdateView> {
    if request.has_index_updates {
        seq![TableUpdateView::UpdateIndexes]
    } else {
        Seq::empty()
    }
}

/// The actions of a change: the table is updating first, then each thing that was asked
/// for is done, and the table is active last.
pub open spec fn update_views(
    request: UpdateTableRequest,
    updated: TableInfo,
    json: Option<Seq<char>>,
) -> Seq<TableUpdateView> {
    seq![status_view(updated.table_name@, TableStatus::Updating)] + stream_specification_views(
        request,
        updated.table_name@,
        json,
    ) + deletion_protection_views(request, updated.table_name@) + duration_views(request, updated)
        + index_views(request) + seq![status_view(updated.table_name@, TableStatus::Active)]
}

/// Whether `updated` is a table after a change, but for its indexes: what was asked for
/// is new, the rest is as it was.
pub open spec fn updates_table(
    request: UpdateTableRequest,
    table: TableInfo,
    updated: TableInfo,
) -> bool {
    updated == (TableInfo {
        stream_specification: if request.stream_specification is Some {
            request.stream_specification
        } else {
            table.stream_specification
        },
        deletion_protection_enabled: match request.deletion_protection_enabled {
            Some(enabled) => enabled,
            None => table.deletion_protection_enabled,
        },
        table_stream_duration: match request.stream_duration {
            Some(duration) => duration,
            None => table.table_stream_duration,
        },
        default_item_stream_duration: match request.default_item_stream_duration {
            Some(duration) => duration,
            None => table.default_item_stream_duration,
        },
        ..table
    })
}

fn set_status(table_name: &str, status: TableStatus) -> (r: TableUpdateAction)
    ensures
        r@ == status_view(table_name@, status),
{
    let s = statement(update_table_status(status, table_name));
    assert(s@.args =~= seq![SqlArg::Text(status.spec_name()), SqlArg::Text(table_name@)]);
    TableUpdateAction::Run(s)
}

/// Plans the change of a table. `stream_specification_json` is the new stream
/// specification as JSON, where it could be written.
pub fn update_table(
    request: &UpdateTableRequest,
    table_info: TableInfo,
    stream_specification_json: Option<&str>,
) -> (r: (TableInfo, Vec<TableUpdateAction>))
    ensures
        updates_table(*request, table_info, r.0),
        action_views(r.1@) == update_views(*request, r.0, optional_str(stream_specification_json)),
{
    let mut updated = table_info;
    let mut list: Vec<TableUpdateAction> = Vec::new();
    list.push(set_status(updated.table_name.as_str(), TableStatus::Updating));
    assert(action_views(list@) =~= seq![status_view(updated.table_name@, TableStatus::Updating)]);
    if let Some(spec) = request.stream_specification {
        let ghost before = action_views(list@);
        updated.stream_specification = Some(spec);
        let s = statement(
            update_stream_specification(updated.table_name.as_str(), stream_specification_json),
        );
        assert(s@.args =~= seq![
            optional_text_arg(optional_str(stream_specification_json)),
            SqlArg::Text(updated.table_name@),
        ]);
        list.push(TableUpdateAction::Run(s));
        assert(action_views(list@) =~= before + stream_specification_views(
            *request,
            updated.table_name@,
            optional_str(stream_specification_json),
        ));
    }
    let ghost before = action_views(list@);
    if let Some(enabled) = request.deletion_protection_enabled {
        updated.deletion_protection_enabled = enabled;
        let s = statement(update_deletion_protection(updated.table_name.as_str(), enabled));
        assert(s@.args =~= seq![
            crate::sql::flag_arg(enabled),
            SqlArg::Text(updated.table_name@),
        ]);
        list.push(TableUpdateAction::Run(s));
    }
    assert(action_views(list@) =~= before + deletion_protection_views(
        *request,
        updated.table_name@,
    ));
    let ghost before = action_views(list@);
    if request.stream_duration.is_some() || request.default_item_stream_duration.is_some() {
        if let Some(duration) = request.stream_duration {
            updated.table_stream_duration = duration;
        }
        if let Some(duration) = request.default_item_stream_duration {
            updated.default_item_stream_duration = duration;
        }
        list.push(
            TableUpdateAction::WriteDurations {
                table_stream_duration: updated.table_stream_duration,
                default_item_stream_duration: updated.default_item_stream_duration,
            },
        );
    }
    assert(action_views(list@) =~= before + duration_views(*request, updated));
    let ghost before = action_views(list@);
    if request.has_index_updates {
        list.push(TableUpdateAction::UpdateIndexes);
    }
    assert(action_views(list@) =~= before + index_views(*request));
    let ghost before = action_views(list@);
    list.push(set_status(updated.table_name.as_str(), TableStatus::Active));
    assert(action_views(list@) =~= before + seq![
        status_view(updated.table_name@, TableStatus::Active),
    ]);
    assert(action_views(list@) =~= update_views(
        *request,
        updated,
        optional_str(stream_specification_json),
    ));
    (updated, list)
}

/// The statement that stores how long the streams of a table are kept.
pub open spec fn stream_durations_view(
    table_name: Seq<char>,
    table_stream_duration: StreamRetentionDuration,
    default_item_stream_duration: StreamRetentionDuration,
) -> StatementView {
    StatementView {
        sql: UPDATE_STREAM_DURATIONS@,
        args: seq![
            SqlArg::Integer(table_stream_duration.wire_value()),
            SqlArg::Integer(default_item_stream_duration.wire_value()),
            SqlArg::Text(table_name),
        ],
    }
}

/// Stores how long the streams of a table are kept, with the plan of trimming them, all
/// in one transaction.
pub fn write_stream_durations(
    table_name: &str,
    table_stream_duration: StreamRetentionDuration,
    default_item_stream_duration: StreamRetentionDuration,
    plan: StreamTrimStateWrite,
) -> (r: Result<Vec<Statement>, StorageError>)
    ensures
        match r {
            Err(e) => prepares_state(plan, Err(e)),
            Ok(list) => exists|prepared: PreparedStateWrite|
                prepares_state(plan, Ok(prepared)) && statements(list@) == seq![
                    stream_durations_view(
                        table_name@,
                        table_stream_duration,
                        default_item_stream_duration,
                    ),
                ] + #[trigger] prepared.statement_views(),
        },
{
    let update = statement(
        update_stream_durations(table_name, table_stream_duration, default_item_stream_duration),
    );
    assert(update@ == stream_durations_view(
        table_name@,
        table_stream_duration,
        default_item_stream_duration,
    ));
    match prepare_state_write(plan) {
        Err(e) => Err(e),
        Ok(prepared) => {
            let ghost given = prepared;
            let mut list = vec![update];
            let mut rest = prepared.apply();
            list.append(&mut rest);
            assert(statements(list@) =~= seq![
                stream_durations_view(
                    table_name@,
                    table_stream_duration,
                    default_item_stream_duration,
                ),
            ] + given.statement_views());
            Ok(list)
        },
    }
}

/// How a table is paid for.
#[derive(Clone, Copy, Debug, PartialEq, Eq, Structural)]
pub enum BillingMode {
    PayPerRequest,
}

/// What is told of a table after a change.
pub struct TableDescription {
    pub table_name: String,
    pub table_status: TableStatus,
    pub created_at: i64,
    pub attribute_definitions: Vec<AttributeDefinition>,
    pub key_schema: Vec<KeySchemaElement>,
    pub table_size_bytes: i64,
    pub item_count: i64,
    pub table_arn: String,
    pub billing_mode: BillingMode,
    pub global_secondary_indexes: Option<Vec<GlobalSecondaryIndex>>,
    pub stream_specification: Option<StreamSpecification>,
    pub deletion_protection_enabled: bool,
}

/// What the name of a table is told as.
pub const TABLE_ARN_PREFIX: &'static str = "arn:aws:dynamodb:us-east-1:123456789012:table/";

/// What is told of a table once it was changed.
pub fn update_table_response(table_info: TableInfo) -> (r: TableDescription)
    ensures
        r.table_name == table_info.table_name,
        r.table_status == TableStatus::Active,
        r.created_at == table_info.created_at,
        r.attribute_definitions == table_info.attribute_definitions,
        r.key_schema == table_info.key_schema,
        r.table_size_bytes == table_info.table_size_bytes,
        r.item_count == table_info.item_count,
        r.table_arn@ == TABLE_ARN_PREFIX@ + table_info.table_name@,
        r.billing_mode == BillingMode::PayPerRequest,
        r.global_secondary_indexes == table_info.global_secondary_indexes,
        r.stream_specification == table_info.stream_specification,
        r.deletion_protection_enabled == table_info.deletion_protection_enabled,
{
    let table_arn = prefixed(TABLE_ARN_PREFIX, table_info.table_name.as_str());
    TableDescription {
        table_name: table_info.table_name,
        table_status: TableStatus::Active,
        created_at: table_info.created_at,
        attribute_definitions: table_info.attribute_definitions,
        key_schema: table_info.key_schema,
        table_size_bytes: table_info.table_size_bytes,
        item_count: table_info.item_count,
        table_arn,
        billing_mode: BillingMode::PayPerRequest,
        global_secondary_indexes: table_info.global_secondary_indexes,
        stream_specification: table_info.stream_specification,
        deletion_protection_enabled: table_info.deletion_protection_enabled,
    }
}

/// A change that goes through leaves the table active, having made it updating before
/// anything else; one that asks for nothing does nothing more.
pub proof fn law_update_ends_active(
    request: UpdateTableRequest,
    updated: TableInfo,
    json: Option<Seq<char>>,
)
    ensures
        update_views(request, updated, json).first() == status_view(
            updated.table_name@,
            TableStatus::Updating,
        ),
        update_views(request, updated, json).last() == status_view(
            updated.table_name@,
            TableStatus::Active,
        ),
        (request.stream_specification is None && request.deletion_protection_enabled is None
            && !changes_durations(request) && !request.has_index_updates) ==> update_views(
            request,
            updated,
            json,
        ) == seq![
            status_view(updated.table_name@, TableStatus::Updating),
            status_view(updated.table_name@, TableStatus::Active),
        ],
{
}

/// Repeating a change leaves what is known of the table as the first made it.
pub proof fn law_update_is_idempotent(
    request: UpdateTableRequest,
    table: TableInfo,
    once: TableInfo,
    twice: TableInfo,
)
    requires
        updates_table(request, table, once),
        updates_table(request, once, twice),
    ensures
        twice == once,
{
}

} // verus!
