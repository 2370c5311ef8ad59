//! Cursors: positions in streams that are kept under a name.
use crate::error::StreamError;
use crate::ids::{law_stream_item_id_text_order, text_before, StreamItemId};
use crate::machine::Step;
use crate::sql::{statement, SqlArg, Statement, StatementView};
use crate::sql_statements::{
    advance_cursor_position, check_cursor_exists, check_cursor_exists_for_advance,
    check_item_exists_for_advance, delete_cursor, get_cursor_position, get_latest_item_for_cursor,
    insert_cursor, read_stream_from_position, ADVANCE_CURSOR_POSITION, CHECK_CURSOR_EXISTS,
    CHECK_ITEM_EXISTS_FOR_ADVANCE, DELETE_CURSOR, GET_CURSOR_POSITION, GET_LATEST_ITEM_FOR_CURSOR,
    INSERT_CURSOR,
};
use crate::stream_duration::prefixed;
use crate::stream_provider::{
    are_first, id_column_text, is_page, items_of, parse_stream_item_rows, read_page_view,
    row_ids_readable, stream_page, DatabaseResult, StreamAction, StreamItem, StreamItemRow,
    StreamPage,
};
use crate::stream_writer::fresh_stream_item_id;
use crate::types::ReadDirection;
use vstd::prelude::*;

verus! {

/// Where a cursor is to stand: before the first row of the stream, or after the last.
#[derive(Clone, Copy, Debug, PartialEq, Eq, Structural)]
pub enum CursorPosition {
    Head,
    Tail,
}

/// A cursor of a stream.
pub struct CursorRef {
    pub cursor_name: String,
    pub stream_name: String,
}

/// A statement that looks for a cursor.
pub open spec fn cursor_view(sql: &'static str, cursor: CursorRef) -> StatementView {
    StatementView {
        sql: sql@,
        args: seq![SqlArg::Text(cursor.cursor_name@), SqlArg::Text(cursor.stream_name@)],
    }
}

fn failed(prefix: &str, text: &str) -> (r: StreamError)
    ensures
        r.is_internal(prefix@ + text@),
{
    StreamError::Internal { message: prefixed(prefix, text) }
}

/// Whether an error says that there is no such cursor.
pub open spec fn cursor_missing(cursor: CursorRef, error: StreamError) -> bool {
    error matches StreamError::CursorNotFound { name } && name@ == cursor.cursor_name@
}

/// How far creating a cursor has come.
#[derive(Clone, Copy, Debug, PartialEq, Eq, Structural)]
pub enum CreateCursorState {
    Checking,
    ReadingLatest,
    Inserting,
}

/// What came of an action.
pub enum CreateCursorEvent {
    Checked(DatabaseResult<bool>),
    LatestRead(DatabaseResult<Option<String>>),
    Inserted(DatabaseResult<usize>),
}

/// What creating a cursor does next.
pub type CreateCursorStep = Step<CreateCursorState, StreamAction, Result<(), StreamError>>;

impl CreateCursorState {
    /// Whether the state waits for an event.
    pub open spec fn awaits(self, event: CreateCursorEvent) -> bool {
        match self {
            CreateCursorState::Checking => event is Checked,
            CreateCursorState::ReadingLatest => event is LatestRead,
            CreateCursorState::Inserting => event is Inserted,
        }
    }
}

/// Whether a step stores a cursor at a position.
pub open spec fn inserts_cursor(
    cursor: CursorRef,
    position: StreamItemId,
    created_at: i64,
    step: CreateCursorStep,
) -> bool {
    step matches Step::Perform {
        state: CreateCursorState::Inserting,
        action: StreamAction::Run(s),
    } && s@ == (StatementView {
        sql: INSERT_CURSOR@,
        args: seq![
            SqlArg::Text(cursor.cursor_name@),
            SqlArg::Text(cursor.stream_name@),
            SqlArg::Text(position.text()),
            SqlArg::Integer(created_at as int),
        ],
    })
}

fn insert_at(cursor: &CursorRef, position: StreamItemId, created_at: i64) -> (r: CreateCursorStep)
    ensures
        inserts_cursor(*cursor, position, created_at, r),
{
    Step::Perform {
        state: CreateCursorState::Inserting,
        action: StreamAction::Run(
            statement(
                insert_cursor(
                    cursor.cursor_name.as_str(),
                    cursor.stream_name.as_str(),
                    &position,
                    created_at,
                ),
            ),
        ),
    }
}

/// How creating a cursor goes on after an event. At the head it stands at the smallest
/// id; at the tail it stands at the last row, or at a new id where there is no row, so
/// that only rows stored later come after it.
pub open spec fn create_cursor_next(
    cursor: CursorRef,
    position: CursorPosition,
    created_at: i64,
    event: CreateCursorEvent,
    step: CreateCursorStep,
) -> bool {
    match event {
        CreateCursorEvent::Checked(Ok(true)) => step matches Step::Finish(
            Err(StreamError::CursorAlreadyExists { name }),
        ) && name@ == cursor.cursor_name@,
        CreateCursorEvent::Checked(Ok(false)) => match position {
            CursorPosition::Tail => step matches Step::Perform {
                state: CreateCursorState::ReadingLatest,
                action: StreamAction::QueryText(s),
            } && s@ == (StatementView {
                sql: GET_LATEST_ITEM_FOR_CURSOR@,
                args: seq![SqlArg::Text(cursor.stream_name@)],
            }),
            CursorPosition::Head => inserts_cursor(
                cursor,
                StreamItemId { high: 0, low: 0 },
                created_at,
                step,
            ),
        },
        CreateCursorEvent::LatestRead(Ok(None)) => exists|id: StreamItemId|
            id.is_version_7() && #[trigger] inserts_cursor(cursor, id, created_at, step),
        CreateCursorEvent::LatestRead(Ok(Some(latest))) => match StreamItemId::from_text(latest@) {
            Some(id) => inserts_cursor(cursor, id, created_at, step),
            None => step matches Step::Finish(Err(e)) && e.is_internal(
                "create cursor failed: "@ + id_column_text(),
            ),
        },
        CreateCursorEvent::Inserted(Ok(_)) => step matches Step::Finish(Ok(_)),
        CreateCursorEvent::Checked(Err(e)) => step matches Step::Finish(Err(out))
            && out.is_internal("create cursor failed: "@ + e@),
        CreateCursorEvent::LatestRead(Err(e)) => step matches Step::Finish(Err(out))
            && out.is_internal("create cursor failed: "@ + e@),
        CreateCursorEvent::Inserted(Err(e)) => step matches Step::Finish(Err(out))
            && out.is_internal("create cursor failed: "@ + e@),
    }
}

/// Starts to create a cursor.
pub fn start_create_cursor(cursor: &CursorRef) -> (r: CreateCursorStep)
    ensures
        r matches Step::Perform {
            state: CreateCursorState::Checking,
            action: StreamAction::Exists(s),
        } && s@ == cursor_view(CHECK_CURSOR_EXISTS, *cursor),
{
    Step::Perform {
        state: CreateCursorState::Checking,
        action: StreamAction::Exists(
            statement(
                check_cursor_exists(cursor.cursor_name.as_str(), cursor.stream_name.as_str()),
            ),
        ),
    }
}

/// Creates a cursor.
pub fn create_cursor(
    cursor: &CursorRef,
    position: CursorPosition,
    created_at: i64,
    state: CreateCursorState,
    event: CreateCursorEvent,
) -> (r: CreateCursorStep)
    requires
        state.awaits(event),
    ensures
        create_cursor_next(*cursor, position, created_at, event, r),
{
    match event {
        CreateCursorEvent::Checked(Ok(exists)) => {
            if exists {
                return Step::Finish(
                    Err(StreamError::CursorAlreadyExists { name: cursor.cursor_name.clone() }),
                );
            }
            match position {
                CursorPosition::Tail => Step::Perform {
                    state: CreateCursorState::ReadingLatest,
                    action: StreamAction::QueryText(
                        statement(get_latest_item_for_cursor(cursor.stream_name.as_str())),
                    ),
                },
                CursorPosition::Head => insert_at(cursor, StreamItemId::nil(), created_at),
            }
        },
        CreateCursorEvent::LatestRead(Ok(latest)) => match latest {
            None => {
                let id = fresh_stream_item_id();
                insert_at(cursor, id, created_at)
            },
            Some(latest) => match StreamItemId::parse(latest.as_str()) {
                Some(id) => insert_at(cursor, id, created_at),
                None => Step::Finish(
                    Err(
                        failed(
                            "create cursor failed: ",
                            "Invalid column type Text at index: 0, name: item_id",
                        ),
                    ),
                ),
            },
        },
        CreateCursorEvent::Inserted(Ok(_)) => Step::Finish(Ok(())),
        CreateCursorEvent::Checked(Err(e)) => Step::Finish(
            Err(failed("create cursor failed: ", e.as_str())),
        ),
        CreateCursorEvent::LatestRead(Err(e)) => Step::Finish(
            Err(failed("create cursor failed: ", e.as_str())),
        ),
        CreateCursorEvent::Inserted(Err(e)) => Step::Finish(
            Err(failed("create cursor failed: ", e.as_str())),
        ),
    }
}

/// Removes a cursor.
pub fn delete_cursor_statement(cursor: &CursorRef) -> (r: Statement)
    ensures
        r@ == cursor_view(DELETE_CURSOR, *cursor),
{
    statement(delete_cursor(cursor.cursor_name.as_str(), cursor.stream_name.as_str()))
}

/// What removing a cursor answers, from the number of rows that went.
pub fn delete_cursor_result(cursor: &CursorRef, removed: DatabaseResult<usize>) -> (r: Result<
    (),
    StreamError,
>)
    ensures
        match removed {
            Ok(n) => if n > 0 {
                r is Ok
            } else {
                r matches Err(e) && cursor_missing(*cursor, e)
            },
            Err(e) => r matches Err(out) && out.is_internal("delete cursor failed: "@ + e@),
        },
{
    match removed {
        Ok(n) => {
            if n > 0 {
                return Ok(());
            }
            Err(StreamError::CursorNotFound { name: cursor.cursor_name.clone() })
        },
        Err(e) => Err(failed("delete cursor failed: ", e.as_str())),
    }
}

/// A page of a stream from a cursor on, and where the cursor stands.
#[derive(Debug, PartialEq, Eq)]
pub struct CursorPage {
    pub items: Vec<StreamItem>,
    pub cursor_position: StreamItemId,
    pub has_more: bool,
}

/// How far reading from a cursor has come. The position is kept as it is stored.
pub enum ReadCursorState {
    ReadingPosition,
    ReadingRows { position: String },
}

/// What came of an action.
pub enum ReadCursorEvent {
    PositionRead(DatabaseResult<Option<String>>),
    RowsRead(DatabaseResult<Vec<StreamItemRow>>),
}

/// What reading from a cursor does next.
pub type ReadCursorStep = Step<ReadCursorState, StreamAction, Result<CursorPage, StreamError>>;

impl ReadCursorState {
    /// Whether the state waits for an event.
    pub open spec fn awaits(self, event: ReadCursorEvent) -> bool {
        match self {
            ReadCursorState::ReadingPosition => event is PositionRead,
            ReadCursorState::ReadingRows { .. } => event is RowsRead,
        }
    }
}

/// The id at a stored position; the smallest where it cannot be read.
pub open spec fn position_id(position: Seq<char>) -> StreamItemId {
    match StreamItemId::from_text(position) {
        Some(id) => id,
        None => StreamItemId { high: 0, low: 0 },
    }
}

/// Whether a page is that of a cursor.
pub open spec fn is_cursor_page(
    rows: Seq<StreamItemRow>,
    limit: nat,
    position: StreamItemId,
    page: CursorPage,
) -> bool {
    &&& page.cursor_position == position
    &&& exists|items: Seq<StreamItem>|
        items_of(rows, items) && #[trigger] are_first(items, limit, page.items@, page.has_more)
}

/// How reading from a cursor goes on after an event: the rows that come after its
/// position are read. A position that cannot be read is told in the end.
pub open spec fn read_cursor_next(
    cursor: CursorRef,
    limit: u32,
    state: ReadCursorState,
    event: ReadCursorEvent,
    step: ReadCursorStep,
) -> bool {
    match (state, event) {
        (_, ReadCursorEvent::PositionRead(Err(e))) => step matches Step::Finish(Err(out))
            && out.is_internal("read from cursor failed: "@ + e@),
        (_, ReadCursorEvent::RowsRead(Err(e))) => step matches Step::Finish(Err(out))
            && out.is_internal("read from cursor failed: "@ + e@),
        (_, ReadCursorEvent::PositionRead(Ok(None))) => step matches Step::Finish(Err(e))
            && cursor_missing(cursor, e),
        (_, ReadCursorEvent::PositionRead(Ok(Some(found)))) => step matches Step::Perform {
            state: ReadCursorState::ReadingRows { position },
            action: StreamAction::QueryRows(s),
        } && position == found && s@ == read_page_view(
            cursor.stream_name@,
            position_id(found@),
            limit,
            ReadDirection::Forward,
        ),
        (ReadCursorState::ReadingRows { position }, ReadCursorEvent::RowsRead(Ok(rows))) => if !row_ids_readable(
            rows@,
        ) {
            step matches Step::Finish(Err(e)) && e.is_internal(
                "read from cursor failed: "@ + id_column_text(),
            )
        } else {
            match StreamItemId::from_text(position@) {
                Some(id) => step matches Step::Finish(Ok(page)) && is_cursor_page(
                    rows@,
                    limit as nat,
                    id,
                    page,
                ),
                None => step matches Step::Finish(Err(e)) && e.is_internal(
                    "Unknown error during cursor read"@,
                ),
            }
        },
        _ => false,
    }
}

/// Starts to read from a cursor.
pub fn start_read_from_cursor(cursor: &CursorRef, limit: u32) -> (r: ReadCursorStep)
    ensures
        if 1 <= limit <= 1000 {
            r matches Step::Perform {
                state: ReadCursorState::ReadingPosition,
                action: StreamAction::QueryText(s),
            } && s@ == cursor_view(GET_CURSOR_POSITION, *cursor)
        } else {
            r matches Step::Finish(Err(e)) && e.is_validation("Limit must be between 1 and 1000"@)
        },
{
    if limit == 0 || limit > 1000 {
        return Step::Finish(Err(StreamError::validation("Limit must be between 1 and 1000")));
    }
    Step::Perform {
        state: ReadCursorState::ReadingPosition,
        action: StreamAction::QueryText(
            statement(
                get_cursor_position(cursor.cursor_name.as_str(), cursor.stream_name.as_str()),
            ),
        ),
    }
}

/// Reads from a cursor.
pub fn read_from_cursor(
    cursor: &CursorRef,
    limit: u32,
    state: ReadCursorState,
    event: ReadCursorEvent,
) -> (r: ReadCursorStep)
    requires
        1 <= limit <= 1000,
        state.awaits(event),
    ensures
        read_cursor_next(*cursor, limit, state, event, r),
{
    match (state, event) {
        (_, ReadCursorEvent::PositionRead(Err(e))) => Step::Finish(
            Err(failed("read from cursor failed: ", e.as_str())),
        ),
        (_, ReadCursorEvent::RowsRead(Err(e))) => Step::Finish(
            Err(failed("read from cursor failed: ", e.as_str())),
        ),
        (_, ReadCursorEvent::PositionRead(Ok(None))) => Step::Finish(
            Err(StreamError::CursorNotFound { name: cursor.cursor_name.clone() }),
        ),
        (_, ReadCursorEvent::PositionRead(Ok(Some(position)))) => {
            let start = match StreamItemId::parse(position.as_str()) {
                Some(id) => id,
                None => StreamItemId::nil(),
            };
            let parts = read_stream_from_position(
                cursor.stream_name.as_str(),
                &start,
                limit,
                ReadDirection::Forward,
            );
            let read = Statement { sql: parts.0, params: parts.1 };
            assert(read@ == read_page_view(
                cursor.stream_name@,
                position_id(position@),
                limit,
                ReadDirection::Forward,
            ));
            Step::Perform {
                state: ReadCursorState::ReadingRows { position },
                action: StreamAction::QueryRows(read),
            }
        },
        (ReadCursorState::ReadingRows { position }, ReadCursorEvent::RowsRead(Ok(rows))) => {
            let items = match parse_stream_item_rows(rows) {
                Ok(items) => items,
                Err(e) => {
                    return Step::Finish(Err(failed("read from cursor failed: ", e.as_str())));
                },
            };
            let ghost read = items@;
            let page = stream_page(items, limit);
            match StreamItemId::parse(position.as_str()) {
                Some(cursor_position) => {
                    let out = CursorPage {
                        items: page.items,
                        cursor_position,
                        has_more: page.has_more,
                    };
                    assert(items_of(rows@, read) && are_first(
                        read,
                        limit as nat,
                        out.items@,
                        out.has_more,
                    ));
                    Step::Finish(Ok(out))
                },
                None => Step::Finish(
                    Err(
                        StreamError::Internal {
                            message: "Unknown error during cursor read".to_owned(),
                        },
                    ),
                ),
            }
        },
        (_, _) => {
            assert(false);
            Step::Finish(Err(StreamError::validation("cursor event out of turn")))
        },
    }
}

/// How far moving a cursor has come.
#[derive(Clone, Copy, Debug, PartialEq, Eq, Structural)]
pub enum AdvanceCursorState {
    CheckingCursor,
    CheckingItem,
    Moving,
}

/// What came of an action.
pub enum AdvanceCursorEvent {
    CursorChecked(DatabaseResult<bool>),
    ItemChecked(DatabaseResult<bool>),
    Moved(DatabaseResult<usize>),
}

/// What moving a cursor does next.
pub type AdvanceCursorStep = Step<AdvanceCursorState, StreamAction, Result<(), StreamError>>;

impl AdvanceCursorState {
    /// Whether the state waits for an event.
    pub open spec fn awaits(self, event: AdvanceCursorEvent) -> bool {
        match self {
            AdvanceCursorState::CheckingCursor => event is CursorChecked,
            AdvanceCursorState::CheckingItem => event is ItemChecked,
            AdvanceCursorState::Moving => event is Moved,
        }
    }
}

/// How moving a cursor goes on after an event: it moves only where there is such a
/// cursor, and only to a row of the stream.
pub open spec fn advance_cursor_next(
    cursor: CursorRef,
    to_item_id: StreamItemId,
    event: AdvanceCursorEvent,
    step: AdvanceCursorStep,
) -> bool {
    match event {
        AdvanceCursorEvent::CursorChecked(Ok(false)) => step matches Step::Finish(Err(e))
            && cursor_missing(cursor, e),
        AdvanceCursorEvent::CursorChecked(Ok(true)) => step matches Step::Perform {
            state: AdvanceCursorState::CheckingItem,
            action: StreamAction::Exists(s),
        } && s@ == (StatementView {
            sql: CHECK_ITEM_EXISTS_FOR_ADVANCE@,
            args: seq![SqlArg::Text(to_item_id.text()), SqlArg::Text(cursor.stream_name@)],
        }),
        AdvanceCursorEvent::ItemChecked(Ok(false)) => step matches Step::Finish(Err(e))
            && e.is_validation("Target item not found in stream"@),
        AdvanceCursorEvent::ItemChecked(Ok(true)) => step matches Step::Perform {
            state: AdvanceCursorState::Moving,
            action: StreamAction::Run(s),
        } && s@ == (StatementView {
            sql: ADVANCE_CURSOR_POSITION@,
            args: seq![
                SqlArg::Text(to_item_id.text()),
                SqlArg::Text(cursor.cursor_name@),
                SqlArg::Text(cursor.stream_name@),
            ],
        }),
        AdvanceCursorEvent::Moved(Ok(_)) => step matches Step::Finish(Ok(_)),
        AdvanceCursorEvent::CursorChecked(Err(e)) => step matches Step::Finish(Err(out))
            && out.is_internal("advance cursor failed: "@ + e@),
        AdvanceCursorEvent::ItemChecked(Err(e)) => step matches Step::Finish(Err(out))
            && out.is_internal("advance cursor failed: "@ + e@),
        AdvanceCursorEvent::Moved(Err(e)) => step matches Step::Finish(Err(out))
            && out.is_internal("advance cursor failed: "@ + e@),
    }
}

/// Starts to move a cursor.
pub fn start_advance_cursor(cursor: &CursorRef) -> (r: AdvanceCursorStep)
    ensures
        r matches Step::Perform {
            state: AdvanceCursorState::CheckingCursor,
            action: StreamAction::Exists(s),
        } && s@ == cursor_view(CHECK_CURSOR_EXISTS, *cursor),
{
    Step::Perform {
        state: AdvanceCursorState::CheckingCursor,
        action: StreamAction::Exists(
            statement(
                check_cursor_exists_for_advance(
                    cursor.cursor_name.as_str(),
                    cursor.stream_name.as_str(),
                ),
            ),
        ),
    }
}

/// Moves a cursor to a row.
pub fn advance_cursor(
    cursor: &CursorRef,
    to_item_id: StreamItemId,
    state: AdvanceCursorState,
    event: AdvanceCursorEvent,
) -> (r: AdvanceCursorStep)
    requires
        state.awaits(event),
    ensures
        advance_cursor_next(*cursor, to_item_id, event, r),
{
    match event {
        AdvanceCursorEvent::CursorChecked(Ok(exists)) => {
            if !exists {
                return Step::Finish(
                    Err(StreamError::CursorNotFound { name: cursor.cursor_name.clone() }),
                );
            }
            Step::Perform {
                state: AdvanceCursorState::CheckingItem,
                action: StreamAction::Exists(
                    statement(
                        check_item_exists_for_advance(&to_item_id, cursor.stream_name.as_str()),
                    ),
                ),
            }
        },
        AdvanceCursorEvent::ItemChecked(Ok(exists)) => {
            if !exists {
                return Step::Finish(
                    Err(StreamError::validation("Target item not found in stream")),
                );
            }
            Step::Perform {
                state: AdvanceCursorState::Moving,
                action: StreamAction::Run(
                    statement(
                        advance_cursor_position(
                            &to_item_id,
                            cursor.cursor_name.as_str(),
                            cursor.stream_name.as_str(),
                        ),
                    ),
                ),
            }
        },
        AdvanceCursorEvent::Moved(Ok(_)) => Step::Finish(Ok(())),
        AdvanceCursorEvent::CursorChecked(Err(e)) => Step::Finish(
            Err(failed("advance cursor failed: ", e.as_str())),
        ),
        AdvanceCursorEvent::ItemChecked(Err(e)) => Step::Finish(
            Err(failed("advance cursor failed: ", e.as_str())),
        ),
        AdvanceCursorEvent::Moved(Err(e)) => Step::Finish(
            Err(failed("advance cursor failed: ", e.as_str())),
        ),
    }
}

/// A cursor, as it is stored.
pub struct CursorRow {
    pub name: String,
    pub stream_name: String,
    pub position: String,
    pub created_at: i64,
}

/// A cursor.
#[derive(Debug, PartialEq, Eq)]
pub struct StreamCursor {
    pub name: String,
    pub stream_name: String,
    pub position: StreamItemId,
    pub created_at: i64,
}

/// What reading a cursor answers, from its row or what the database failed with.
pub fn get_cursor_result(row: DatabaseResult<Option<CursorRow>>) -> (r: Result<
    Option<StreamCursor>,
    StreamError,
>)
    ensures
        match row {
            Err(e) => r matches Err(out) && out.is_internal("get cursor failed: "@ + e@),
            Ok(None) => r matches Ok(None),
            Ok(Some(row)) => match StreamItemId::from_text(row.position@) {
                Some(position) => r == Ok::<Option<StreamCursor>, StreamError>(
                    Some(
                        StreamCursor {
                            name: row.name,
                            stream_name: row.stream_name,
                            position,
                            created_at: row.created_at,
                        },
                    ),
                ),
                None => r matches Err(out) && out.is_internal(
                    "get cursor failed: Invalid column type Text at index: 0, name: position"@,
                ),
            },
        },
{
    match row {
        Err(e) => Err(failed("get cursor failed: ", e.as_str())),
        Ok(None) => Ok(None),
        Ok(Some(row)) => match StreamItemId::parse(row.position.as_str()) {
            Some(position) => Ok(
                Some(
                    StreamCursor {
                        name: row.name,
                        stream_name: row.stream_name,
                        position,
                        created_at: row.created_at,
                    },
                ),
            ),
            None => Err(
                StreamError::Internal {
                    message: "get cursor failed: Invalid column type Text at index: 0, name: position".to_owned(),
                },
            ),
        },
    }
}

/// Whether a forward read from a position selects a row: what the statement asks of it.
pub open spec fn reads_after(position: StreamItemId, id: StreamItemId) -> bool {
    text_before(position.text(), id.text())
}

/// Whether rows stand in the order of a stream.
pub open spec fn in_stream_order(rows: Seq<StreamItem>) -> bool {
    forall|i: int, j: int|
        0 <= i < j < rows.len() ==> (#[trigger] rows[i]).id.number() < (
        #[trigger] rows[j]).id.number()
}

/// What is read of a stream for a page: one row more than the page holds, where there
/// is one.
pub open spec fn read_for_page(rows: Seq<StreamItem>, limit: nat) -> Seq<StreamItem> {
    if rows.len() > limit {
        rows.take(limit as int + 1)
    } else {
        rows
    }
}

/// A page and the rows behind it are all the rows from the position on: whatever is not
/// on the page is exactly what a read from the last row of the page selects, and the
/// page tells whether there is any.
pub proof fn law_pages_follow_one_another(rows: Seq<StreamItem>, limit: nat, page: StreamPage)
    requires
        limit > 0,
        in_stream_order(rows),
        is_page(read_for_page(rows, limit), limit, page),
    ensures
        page.items@ == rows.take(page.items@.len() as int),
        page.items@.len() <= limit,
        page.has_more <==> page.items@.len() < rows.len(),
        forall|i: int|
            0 <= i < rows.len() && page.items@.len() > 0 ==> (reads_after(
                page.items@.last().id,
                (#[trigger] rows[i]).id,
            ) <==> i >= page.items@.len()),
{
    let read = read_for_page(rows, limit);
    let n = page.items@.len() as int;
    assert(page.items@ =~= rows.take(n));
    assert forall|i: int| 0 <= i < rows.len() && n > 0 implies (reads_after(
        page.items@.last().id,
        (#[trigger] rows[i]).id,
    ) <==> i >= n) by {
        let last = rows[n - 1];
        assert(page.items@.last() == last);
        law_stream_item_id_text_order(last.id, rows[i].id);
        if i >= n {
            assert(rows[n - 1].id.number() < rows[i].id.number());
        } else if i < n - 1 {
            assert(rows[i].id.number() < rows[n - 1].id.number());
        }
    }
}

/// The same of pages that are read by the key of the last: a forward read goes on from
/// the id that follows the key. Left out are streams in which that very id occurs: its
/// row is passed over.
pub proof fn law_forward_reads_follow_one_another(
    rows: Seq<StreamItem>,
    limit: nat,
    page: StreamPage,
)
    requires
        limit > 0,
        in_stream_order(rows),
        is_page(read_for_page(rows, limit), limit, page),
        page.items@.len() > 0,
        forall|i: int|
            0 <= i < rows.len() ==> (#[trigger] rows[i]).id != page.items@.last().id.next()
                || rows[i].id == page.items@.last().id,
    ensures
        forall|i: int|
            0 <= i < rows.len() ==> (reads_after(
                crate::stream_provider::forward_start(page.last_evaluated_key),
                (#[trigger] rows[i]).id,
            ) <==> i >= page.items@.len()),
{
    law_pages_follow_one_another(rows, limit, page);
    let key = page.items@.last().id;
    let n = page.items@.len() as int;
    assert forall|i: int| 0 <= i < rows.len() implies (reads_after(
        crate::stream_provider::forward_start(page.last_evaluated_key),
        (#[trigger] rows[i]).id,
    ) <==> i >= n) by {
        law_stream_item_id_text_order(key.next(), rows[i].id);
        law_stream_item_id_text_order(key, rows[i].id);
        assert(reads_after(key, rows[i].id) <==> i >= n);
        if rows[i].id.number() == key.next().number() {
            assert(rows[i].id == key.next());
        }
    }
}

/// A cursor at the head of a stream stands before every row that was appended: all their
/// ids are greater than the smallest.
pub proof fn law_head_cursor_stands_before_all_rows(id: StreamItemId)
    requires
        id.number() > 0,
    ensures
        reads_after(StreamItemId { high: 0, low: 0 }, id),
{
    law_stream_item_id_text_order(StreamItemId { high: 0, low: 0 }, id);
}

} // verus!
