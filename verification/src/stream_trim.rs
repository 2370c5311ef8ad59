//! Trimming streams: what bounds it, and one page of it.
use crate::error::StorageError;
use crate::ids::{law_stream_item_id_text_order, text_before, StreamItemId};
use crate::machine::Step;
use crate::sql::{
    integer, statement, statements, text, SqlArg, SqlValue, Statement, StatementView,
};
use crate::stream_duration::{
    prefixed, stream_name_for_scope, StreamTrimScope, StreamTrimScopeKind, DELETE_POINTER_ROW,
    DELETE_STREAM_ROW, READ_FIRST_ROW, READ_LATEST_ITEM_ID, READ_PROTECTED_POINTER,
    READ_RETAINED_VERSION, READ_ROWS_TO_TRIM, READ_ROWS_TO_TRIM_UP_TO,
};
use crate::text::{decimal_value, parse_decimal, DecimalError};
use vstd::prelude::*;
use vstd::string::*;

verus! {

/// What bounds the trimming of a scope.
#[derive(Clone, Copy, Debug, PartialEq, Eq, Structural)]
pub struct StreamTrimScopeBoundaries {
    /// The last row of an item's stream.
    pub latest_item_id: Option<StreamItemId>,
    /// The first row of a table's stream that replication still needs.
    pub protected_boundary: Option<StreamItemId>,
    /// The first row of an item's stream that a pointer leads to.
    pub retained_table_pointer_boundary: Option<StreamItemId>,
}

/// How far reading the bounds has come.
#[derive(Clone, Copy, Debug, PartialEq, Eq, Structural)]
pub enum BoundariesState {
    LoadingFloor,
    LoadingProtected,
    LoadingLatest,
    LoadingRetained { latest_item_id: Option<StreamItemId> },
}

/// What reading the bounds needs done.
pub enum BoundariesAction {
    /// Find the oldest row of the system stream that replication still needs.
    LoadProtectedFloor,
    /// Run a statement, and give the text in the first column of its row.
    Query(Statement),
}

/// What came of an action.
pub enum BoundariesEvent {
    FloorLoaded(Result<Option<StreamItemId>, StorageError>),
    RowRead(Result<Option<String>, StorageError>),
}

/// What reading the bounds does next.
pub type BoundariesStep = Step<
    BoundariesState,
    BoundariesAction,
    Result<StreamTrimScopeBoundaries, StorageError>,
>;

impl BoundariesState {
    /// Whether the state waits for an event.
    pub open spec fn awaits(self, event: BoundariesEvent) -> bool {
        match self {
            BoundariesState::LoadingFloor => event is FloorLoaded,
            _ => event is RowRead,
        }
    }
}

/// Whether an error says that a stored id cannot be read.
pub open spec fn id_refused(error: StorageError) -> bool {
    error.is_internal("decode stream item id failed: invalid stream item id"@)
}

/// Reads a stored id.
pub fn stream_item_id_from_hex(value: &str) -> (r: Result<StreamItemId, StorageError>)
    ensures
        match StreamItemId::from_text(value@) {
            Some(id) => r == Ok::<StreamItemId, StorageError>(id),
            None => r matches Err(e) && id_refused(e),
        },
{
    match StreamItemId::parse(value) {
        Some(id) => Ok(id),
        None => Err(
            StorageError::internal("decode stream item id failed: invalid stream item id"),
        ),
    }
}

/// The words for why a text is no number.
pub open spec fn decimal_error_text(error: DecimalError) -> Seq<char> {
    match error {
        DecimalError::Empty => "cannot parse integer from empty string"@,
        DecimalError::InvalidDigit => "invalid digit found in string"@,
        DecimalError::Overflow => "number too large to fit in target type"@,
    }
}

/// What the first version that a pointer leads to bounds.
pub open spec fn retained_boundary(
    version: Option<Seq<char>>,
    out: Result<Option<StreamItemId>, StorageError>,
) -> bool {
    match version {
        None => out matches Ok(None),
        Some(s) => match decimal_value(s) {
            Ok(v) => out matches Ok(Some(id)) && id == (StreamItemId { high: 0, low: v }),
            Err(kind) => out matches Err(e) && e.is_internal(
                "decode pointer item stream version failed: "@ + decimal_error_text(kind),
            ),
        },
    }
}

/// What the first version that a pointer leads to bounds.
pub fn retained_item_pointer_boundary(version: Option<&str>) -> (r: Result<
    Option<StreamItemId>,
    StorageError,
>)
    ensures
        retained_boundary(crate::sql::optional_str(version), r),
{
    match version {
        None => Ok(None),
        Some(s) => match parse_decimal(s) {
            Ok(version) => Ok(Some(StreamItemId::from_version(version))),
            Err(kind) => {
                let words = match kind {
                    DecimalError::Empty => "cannot parse integer from empty string",
                    DecimalError::InvalidDigit => "invalid digit found in string",
                    DecimalError::Overflow => "number too large to fit in target type",
                };
                Err(
                    StorageError::Internal {
                        message: prefixed("decode pointer item stream version failed: ", words),
                    },
                )
            },
        },
    }
}

/// The statement that reads the first pointer of a table that must be kept.
pub open spec fn protected_pointer_view(
    table_name: Seq<char>,
    floor: StreamItemId,
) -> StatementView {
    StatementView {
        sql: READ_PROTECTED_POINTER@,
        args: seq![SqlArg::Text(table_name), SqlArg::Text(floor.text())],
    }
}

/// A statement that looks into one stream.
pub open spec fn one_stream_view(sql: &'static str, stream_name: Seq<char>) -> StatementView {
    StatementView { sql: sql@, args: seq![SqlArg::Text(stream_name)] }
}

fn one_stream(sql: &'static str, scope: &StreamTrimScope) -> (r: Statement)
    ensures
        r@ == one_stream_view(sql, scope.stream_name()),
{
    let s = statement((sql, vec![SqlValue::Text(stream_name_for_scope(scope))]));
    assert(s@ == one_stream_view(sql, scope.stream_name()));
    s
}

/// How reading the bounds goes on after an event. The stream of a table is bounded by
/// what replication needs, that of an item by its last row and by its pointers.
pub open spec fn boundaries_next(
    scope: StreamTrimScope,
    state: BoundariesState,
    event: BoundariesEvent,
    step: BoundariesStep,
) -> bool {
    match (state, event) {
        (_, BoundariesEvent::FloorLoaded(Err(e))) => step matches Step::Finish(Err(out)) && out == e,
        (_, BoundariesEvent::RowRead(Err(e))) => step matches Step::Finish(Err(out)) && out == e,
        (_, BoundariesEvent::FloorLoaded(Ok(floor))) => match (scope.kind, floor) {
            (StreamTrimScopeKind::Table, None) => step matches Step::Finish(Ok(out)) && out == (
            StreamTrimScopeBoundaries {
                latest_item_id: None,
                protected_boundary: None,
                retained_table_pointer_boundary: None,
            }),
            (StreamTrimScopeKind::Table, Some(floor)) => step matches Step::Perform {
                state: BoundariesState::LoadingProtected,
                action: BoundariesAction::Query(s),
            } && s@ == protected_pointer_view(scope.table_name@, floor),
            (StreamTrimScopeKind::Item, _) => step matches Step::Perform {
                state: BoundariesState::LoadingLatest,
                action: BoundariesAction::Query(s),
            } && s@ == one_stream_view(READ_LATEST_ITEM_ID, scope.stream_name()),
        },
        (BoundariesState::LoadingProtected, BoundariesEvent::RowRead(Ok(row))) => match row {
            None => step matches Step::Finish(Ok(out)) && out == (StreamTrimScopeBoundaries {
                latest_item_id: None,
                protected_boundary: None,
                retained_table_pointer_boundary: None,
            }),
            Some(id) => match StreamItemId::from_text(id@) {
                Some(id) => step matches Step::Finish(Ok(out)) && out == (
                StreamTrimScopeBoundaries {
                    latest_item_id: None,
                    protected_boundary: Some(id),
                    retained_table_pointer_boundary: None,
                }),
                None => step matches Step::Finish(Err(e)) && id_refused(e),
            },
        },
        (BoundariesState::LoadingLatest, BoundariesEvent::RowRead(Ok(row))) => {
            if row matches Some(id) && StreamItemId::from_text(id@) is None {
                step matches Step::Finish(Err(e)) && id_refused(e)
            } else {
                step matches Step::Perform {
                    state: BoundariesState::LoadingRetained { latest_item_id },
                    action: BoundariesAction::Query(s),
                } && s@ == one_stream_view(READ_RETAINED_VERSION, scope.stream_name())
                    && latest_item_id == (match row {
                    Some(id) => StreamItemId::from_text(id@),
                    None => None,
                })
            }
        },
        (
            BoundariesState::LoadingRetained { latest_item_id },
            BoundariesEvent::RowRead(Ok(row)),
        ) => match step {
            Step::Finish(Ok(out)) => out.latest_item_id == latest_item_id
                && out.protected_boundary is None && retained_boundary(
                crate::sql::optional_string(row),
                Ok(out.retained_table_pointer_boundary),
            ),
            Step::Finish(Err(e)) => retained_boundary(crate::sql::optional_string(row), Err(e)),
            _ => false,
        },
        _ => false,
    }
}

/// Reads what bounds the trimming of a scope. The first action is to find what
/// replication still needs.
pub fn load_stream_trim_boundaries(
    scope: &StreamTrimScope,
    state: BoundariesState,
    event: BoundariesEvent,
) -> (r: BoundariesStep)
    requires
        state.awaits(event),
    ensures
        boundaries_next(*scope, state, event, r),
{
    match (state, event) {
        (_, BoundariesEvent::FloorLoaded(Err(e))) => Step::Finish(Err(e)),
        (_, BoundariesEvent::RowRead(Err(e))) => Step::Finish(Err(e)),
        (_, BoundariesEvent::FloorLoaded(Ok(floor))) => match (scope.kind, floor) {
            (StreamTrimScopeKind::Table, None) => Step::Finish(
                Ok(
                    StreamTrimScopeBoundaries {
                        latest_item_id: None,
                        protected_boundary: None,
                        retained_table_pointer_boundary: None,
                    },
                ),
            ),
            (StreamTrimScopeKind::Table, Some(floor)) => {
                let s = statement(
                    (
                        READ_PROTECTED_POINTER,
                        vec![text(scope.table_name.as_str()), SqlValue::Text(floor.to_text())],
                    ),
                );
                assert(s@ == protected_pointer_view(scope.table_name@, floor));
                Step::Perform {
                    state: BoundariesState::LoadingProtected,
                    action: BoundariesAction::Query(s),
                }
            },
            (StreamTrimScopeKind::Item, _) => Step::Perform {
                state: BoundariesState::LoadingLatest,
                action: BoundariesAction::Query(one_stream(READ_LATEST_ITEM_ID, scope)),
            },
        },
        (BoundariesState::LoadingProtected, BoundariesEvent::RowRead(Ok(row))) => {
            let protected_boundary = match row {
                None => None,
                Some(id) => match stream_item_id_from_hex(id.as_str()) {
                    Ok(id) => Some(id),
                    Err(e) => {
                        return Step::Finish(Err(e));
                    },
                },
            };
            Step::Finish(
                Ok(
                    StreamTrimScopeBoundaries {
                        latest_item_id: None,
                        protected_boundary,
                        retained_table_pointer_boundary: None,
                    },
                ),
            )
        },
        (BoundariesState::LoadingLatest, BoundariesEvent::RowRead(Ok(row))) => {
            let latest_item_id = match row {
                None => None,
                Some(id) => match stream_item_id_from_hex(id.as_str()) {
                    Ok(id) => Some(id),
                    Err(e) => {
                        return Step::Finish(Err(e));
                    },
                },
            };
            Step::Perform {
                state: BoundariesState::LoadingRetained { latest_item_id },
                action: BoundariesAction::Query(one_stream(READ_RETAINED_VERSION, scope)),
            }
        },
        (
            BoundariesState::LoadingRetained { latest_item_id },
            BoundariesEvent::RowRead(Ok(row)),
        ) => {
            let retained = match &row {
                Some(version) => retained_item_pointer_boundary(Some(version.as_str())),
                None => retained_item_pointer_boundary(None),
            };
            match retained {
                Ok(retained_table_pointer_boundary) => Step::Finish(
                    Ok(
                        StreamTrimScopeBoundaries {
                            latest_item_id,
                            protected_boundary: None,
                            retained_table_pointer_boundary,
                        },
                    ),
                ),
                Err(e) => Step::Finish(Err(e)),
            }
        },
        (_, _) => {
            assert(false);
            Step::Finish(Err(StorageError::internal("boundary event out of turn")))
        },
    }
}

/// One page of trimming: at most so many rows, none created after the cutoff, and none
/// beyond the last id that may go.
pub struct StreamDurationTrimPageRequest {
    pub scope: StreamTrimScope,
    pub cutoff_timestamp: i64,
    pub max_deleted_item_id: Option<StreamItemId>,
    pub page_limit: usize,
}

/// What a page of trimming did.
#[derive(Clone, Copy, Debug, PartialEq, Eq, Structural)]
pub struct StreamDurationTrimPageResult {
    pub deleted_rows: usize,
    pub first_remaining_version: Option<u64>,
    pub first_remaining_timestamp: Option<i64>,
}

/// A row of a stream, as trimming reads it.
pub struct StreamTrimRow {
    pub item_id: String,
    pub created_at: i64,
}

/// What a page of trimming needs done.
pub enum TrimAction {
    /// Run a statement, and give its rows.
    QueryRows(Statement),
    /// Run statements in order, up to the first that fails.
    Run(Vec<Statement>),
    /// Run a statement, and give its row.
    QueryFirst(Statement),
}

/// How far a page of trimming has come.
#[derive(Clone, Copy, Debug, PartialEq, Eq, Structural)]
pub enum TrimState {
    ReadingRows,
    Deleting { deleted_rows: usize },
    ReadingFirst { deleted_rows: usize },
}

/// What came of an action.
pub enum TrimEvent {
    RowsRead(Result<Vec<StreamTrimRow>, StorageError>),
    Deleted(Result<(), StorageError>),
    FirstRead(Result<Option<StreamTrimRow>, StorageError>),
}

/// What a page of trimming does next.
pub type TrimStep = Step<TrimState, TrimAction, Result<StreamDurationTrimPageResult, StorageError>>;

impl TrimState {
    /// Whether the state waits for an event.
    pub open spec fn awaits(self, event: TrimEvent) -> bool {
        match self {
            TrimState::ReadingRows => event is RowsRead,
            TrimState::Deleting { .. } => event is Deleted,
            TrimState::ReadingFirst { .. } => event is FirstRead,
        }
    }
}

/// The statement that reads the rows of a page.
pub open spec fn rows_to_trim_view(request: StreamDurationTrimPageRequest) -> StatementView {
    match request.max_deleted_item_id {
        Some(max) => StatementView {
            sql: READ_ROWS_TO_TRIM_UP_TO@,
            args: seq![
                SqlArg::Text(request.scope.stream_name()),
                SqlArg::Integer(request.cutoff_timestamp as int),
                SqlArg::Text(max.text()),
                SqlArg::Integer(request.page_limit as int),
            ],
        },
        None => StatementView {
            sql: READ_ROWS_TO_TRIM@,
            args: seq![
                SqlArg::Text(request.scope.stream_name()),
                SqlArg::Integer(request.cutoff_timestamp as int),
                SqlArg::Integer(request.page_limit as int),
            ],
        },
    }
}

/// Reads the rows of a page.
pub fn stream_rows_to_trim(request: &StreamDurationTrimPageRequest) -> (r: Result<
    Statement,
    StorageError,
>)
    ensures
        if request.page_limit <= i64::MAX {
            r matches Ok(s) && s@ == rows_to_trim_view(*request)
        } else {
            r matches Err(e) && e.is_validation(
                "stream trim page limit is too large: out of range integral type conversion attempted"@,
            )
        },
{
    if request.page_limit as u64 > i64::MAX as u64 {
        return Err(
            StorageError::validation(
                "stream trim page limit is too large: out of range integral type conversion attempted",
            ),
        );
    }
    let limit: i64 = request.page_limit as i64;
    let name = SqlValue::Text(stream_name_for_scope(&request.scope));
    let s = match request.max_deleted_item_id {
        Some(max) => statement(
            (
                READ_ROWS_TO_TRIM_UP_TO,
                vec![
                    name,
                    integer(request.cutoff_timestamp),
                    SqlValue::Text(max.to_text()),
                    integer(limit),
                ],
            ),
        ),
        None => statement(
            (READ_ROWS_TO_TRIM, vec![name, integer(request.cutoff_timestamp), integer(limit)]),
        ),
    };
    assert(s@ == rows_to_trim_view(*request));
    Ok(s)
}

/// The statements that remove one row: from a table's stream, the pointer goes too.
pub open spec fn delete_row_views(scope: StreamTrimScope, item_id: Seq<char>) -> Seq<StatementView> {
    let row = StatementView {
        sql: DELETE_STREAM_ROW@,
        args: seq![SqlArg::Text(scope.stream_name()), SqlArg::Text(item_id)],
    };
    let pointer = StatementView {
        sql: DELETE_POINTER_ROW@,
        args: seq![SqlArg::Text(scope.table_name@), SqlArg::Text(item_id)],
    };
    match scope.kind {
        StreamTrimScopeKind::Table => seq![row, pointer],
        StreamTrimScopeKind::Item => seq![row],
    }
}

/// The statements that remove rows, in their order.
pub open spec fn delete_rows_views(scope: StreamTrimScope, rows: Seq<StreamTrimRow>) -> Seq<
    StatementView,
>
    decreases rows.len(),
{
    if rows.len() == 0 {
        Seq::empty()
    } else {
        delete_rows_views(scope, rows.drop_last()) + delete_row_views(scope, rows.last().item_id@)
    }
}

/// Whether the ids of all rows can be read.
pub open spec fn ids_readable(rows: Seq<StreamTrimRow>) -> bool {
    forall|i: int|
        0 <= i < rows.len() ==> StreamItemId::from_text((#[trigger] rows[i]).item_id@) is Some
}

/// Whether an error says that a row cannot be read.
pub open spec fn row_refused(error: StorageError) -> bool {
    error matches StorageError::Database { message } && message@
        == "Conversion error from type Text at index: 0, decode stream item id failed: invalid stream item id"@
}

fn refuse_row() -> (r: StorageError)
    ensures
        row_refused(r),
{
    StorageError::Database {
        message: "Conversion error from type Text at index: 0, decode stream item id failed: invalid stream item id".to_owned(),
    }
}

fn rows_readable(rows: &Vec<StreamTrimRow>) -> (r: bool)
    ensures
        r == ids_readable(rows@),
{
    let mut i: usize = 0;
    while i < rows.len()
        invariant
            i <= rows@.len(),
            forall|j: int|
                0 <= j < i ==> StreamItemId::from_text((#[trigger] rows@[j]).item_id@) is Some,
        decreases rows@.len() - i,
    {
        if StreamItemId::parse(rows[i].item_id.as_str()).is_none() {
            return false;
        }
        i = i + 1;
    }
    true
}

/// Removes rows of a stream, in their order.
pub fn delete_stream_rows(scope: &StreamTrimScope, rows: &Vec<StreamTrimRow>) -> (r: Vec<Statement>)
    ensures
        statements(r@) == delete_rows_views(*scope, rows@),
{
    let mut list: Vec<Statement> = Vec::new();
    let mut i: usize = 0;
    while i < rows.len()
        invariant
            i <= rows@.len(),
            statements(list@) == delete_rows_views(*scope, rows@.take(i as int)),
        decreases rows@.len() - i,
    {
        let ghost before = list@;
        let ghost id = rows@[i as int].item_id@;
        let row = statement(
            (
                DELETE_STREAM_ROW,
                vec![
                    SqlValue::Text(stream_name_for_scope(scope)),
                    text(rows[i].item_id.as_str()),
                ],
            ),
        );
        assert(row@.args =~= seq![SqlArg::Text(scope.stream_name()), SqlArg::Text(id)]);
        list.push(row);
        match scope.kind {
            StreamTrimScopeKind::Table => {
                let pointer = statement(
                    (
                        DELETE_POINTER_ROW,
                        vec![text(scope.table_name.as_str()), text(rows[i].item_id.as_str())],
                    ),
                );
                assert(pointer@.args =~= seq![SqlArg::Text(scope.table_name@), SqlArg::Text(id)]);
                list.push(pointer);
            },
            StreamTrimScopeKind::Item => {},
        }
        assert(statements(list@) =~= statements(before) + delete_row_views(*scope, id));
        assert(rows@.take(i + 1).drop_last() =~= rows@.take(i as int));
        i = i + 1;
    }
    assert(rows@.take(rows@.len() as int) =~= rows@);
    list
}

/// How a page of trimming goes on after an event: all rows are read, then removed in
/// their order, then the first row that is left is read.
pub open spec fn trim_next(
    request: StreamDurationTrimPageRequest,
    state: TrimState,
    event: TrimEvent,
    step: TrimStep,
) -> bool {
    match (state, event) {
        (_, TrimEvent::RowsRead(Err(e))) => step matches Step::Finish(Err(out)) && out == e,
        (_, TrimEvent::Deleted(Err(e))) => step matches Step::Finish(Err(out)) && out == e,
        (_, TrimEvent::FirstRead(Err(e))) => step matches Step::Finish(Err(out)) && out == e,
        (_, TrimEvent::RowsRead(Ok(rows))) => if ids_readable(rows@) {
            step matches Step::Perform {
                state: TrimState::Deleting { deleted_rows },
                action: TrimAction::Run(list),
            } && deleted_rows == rows@.len() && statements(list@) == delete_rows_views(
                request.scope,
                rows@,
            )
        } else {
            step matches Step::Finish(Err(e)) && row_refused(e)
        },
        (TrimState::Deleting { deleted_rows: n }, TrimEvent::Deleted(Ok(_))) => step matches
            Step::Perform {
            state: TrimState::ReadingFirst { deleted_rows },
            action: TrimAction::QueryFirst(s),
        } && deleted_rows == n && s@ == one_stream_view(READ_FIRST_ROW, request.scope.stream_name()),
        (TrimState::ReadingFirst { deleted_rows }, TrimEvent::FirstRead(Ok(row))) => match row {
            None => step matches Step::Finish(Ok(out)) && out == (StreamDurationTrimPageResult {
                deleted_rows,
                first_remaining_version: None,
                first_remaining_timestamp: None,
            }),
            Some(row) => match StreamItemId::from_text(row.item_id@) {
                Some(id) => step matches Step::Finish(Ok(out)) && out == (
                StreamDurationTrimPageResult {
                    deleted_rows,
                    first_remaining_version: Some(id.low),
                    first_remaining_timestamp: Some(row.created_at),
                }),
                None => step matches Step::Finish(Err(e)) && row_refused(e),
            },
        },
        _ => false,
    }
}

/// Starts a page of trimming.
pub fn start_trim_stream_page(request: &StreamDurationTrimPageRequest) -> (r: TrimStep)
    ensures
        if request.page_limit <= i64::MAX {
            r matches Step::Perform {
                state: TrimState::ReadingRows,
                action: TrimAction::QueryRows(s),
            } && s@ == rows_to_trim_view(*request)
        } else {
            r matches Step::Finish(Err(e)) && e.is_validation(
                "stream trim page limit is too large: out of range integral type conversion attempted"@,
            )
        },
{
    match stream_rows_to_trim(request) {
        Ok(s) => Step::Perform { state: TrimState::ReadingRows, action: TrimAction::QueryRows(s) },
        Err(e) => Step::Finish(Err(e)),
    }
}

/// Trims a page of a stream.
pub fn trim_stream_page(
    request: &StreamDurationTrimPageRequest,
    state: TrimState,
    event: TrimEvent,
) -> (r: TrimStep)
    requires
        state.awaits(event),
    ensures
        trim_next(*request, state, event, r),
{
    match (state, event) {
        (_, TrimEvent::RowsRead(Err(e))) => Step::Finish(Err(e)),
        (_, TrimEvent::Deleted(Err(e))) => Step::Finish(Err(e)),
        (_, TrimEvent::FirstRead(Err(e))) => Step::Finish(Err(e)),
        (_, TrimEvent::RowsRead(Ok(rows))) => {
            if !rows_readable(&rows) {
                return Step::Finish(Err(refuse_row()));
            }
            Step::Perform {
                state: TrimState::Deleting { deleted_rows: rows.len() },
                action: TrimAction::Run(delete_stream_rows(&request.scope, &rows)),
            }
        },
        (TrimState::Deleting { deleted_rows }, TrimEvent::Deleted(Ok(()))) => Step::Perform {
            state: TrimState::ReadingFirst { deleted_rows },
            action: TrimAction::QueryFirst(one_stream(READ_FIRST_ROW, &request.scope)),
        },
        (TrimState::ReadingFirst { deleted_rows }, TrimEvent::FirstRead(Ok(row))) => match row {
            None => Step::Finish(
                Ok(
                    StreamDurationTrimPageResult {
                        deleted_rows,
                        first_remaining_version: None,
                        first_remaining_timestamp: None,
                    },
                ),
            ),
            Some(row) => match StreamItemId::parse(row.item_id.as_str()) {
                Some(id) => Step::Finish(
                    Ok(
                        StreamDurationTrimPageResult {
                            deleted_rows,
                            first_remaining_version: Some(id.version()),
                            first_remaining_timestamp: Some(row.created_at),
                        },
                    ),
                ),
                None => Step::Finish(Err(refuse_row())),
            },
        },
        (_, _) => {
            assert(false);
            Step::Finish(Err(StorageError::internal("trim event out of turn")))
        },
    }
}

/// Whether a page of trimming may remove a row: what the statement that reads the page
/// asks of it.
pub open spec fn may_trim(
    request: StreamDurationTrimPageRequest,
    id: StreamItemId,
    created_at: i64,
) -> bool {
    &&& created_at <= request.cutoff_timestamp
    &&& request.max_deleted_item_id matches Some(max) ==> !text_before(max.text(), id.text())
}

/// Trimming keeps every row created after the cutoff, and every row beyond the last id
/// that may go.
pub proof fn law_trim_keeps_recent_and_protected_rows(
    request: StreamDurationTrimPageRequest,
    id: StreamItemId,
    created_at: i64,
)
    ensures
        may_trim(request, id, created_at) <==> created_at <= request.cutoff_timestamp && (
        request.max_deleted_item_id matches Some(max) ==> id.number() <= max.number()),
{
    if let Some(max) = request.max_deleted_item_id {
        law_stream_item_id_text_order(max, id);
    }
}

/// Trimming touches the pointers of a table only where the table's own stream is
/// trimmed, and then one for each row that goes.
pub proof fn law_trim_statements(scope: StreamTrimScope, rows: Seq<StreamTrimRow>)
    ensures
        scope.kind == StreamTrimScopeKind::Item ==> delete_rows_views(scope, rows).len()
            == rows.len() && forall|i: int|
            0 <= i < rows.len() ==> #[trigger] delete_rows_views(scope, rows)[i]
                == delete_row_views(scope, rows[i].item_id@)[0],
        scope.kind == StreamTrimScopeKind::Table ==> delete_rows_views(scope, rows).len() == 2
            * rows.len() && forall|i: int|
            0 <= i < rows.len() ==> #[trigger] delete_rows_views(scope, rows).subrange(
                2 * i,
                2 * i + 2,
            ) == delete_row_views(scope, rows[i].item_id@),
    decreases rows.len(),
{
    if rows.len() > 0 {
        let shorter = rows.drop_last();
        law_trim_statements(scope, shorter);
        let all = delete_rows_views(scope, rows);
        let first = delete_rows_views(scope, shorter);
        if scope.kind == StreamTrimScopeKind::Table {
            assert forall|i: int| 0 <= i < rows.len() implies #[trigger] all.subrange(
                2 * i,
                2 * i + 2,
            ) == delete_row_views(scope, rows[i].item_id@) by {
                if i < shorter.len() {
                    assert(all.subrange(2 * i, 2 * i + 2) =~= first.subrange(2 * i, 2 * i + 2));
                    assert(shorter[i] == rows[i]);
                } else {
                    assert(all.subrange(2 * i, 2 * i + 2) =~= delete_row_views(
                        scope,
                        rows[i].item_id@,
                    ));
                }
            }
        } else {
            assert forall|i: int| 0 <= i < rows.len() implies #[trigger] all[i]
                == delete_row_views(scope, rows[i].item_id@)[0] by {
                if i < shorter.len() {
                    assert(all[i] == first[i]);
                    assert(shorter[i] == rows[i]);
                }
            }
        }
    }
}

} // verus!
