//! Streams: their format, and their rows read page by page.
use crate::error::{StorageError, StreamError};
use crate::ids::{law_stream_item_id_round_trip, StreamItemId};
use crate::machine::Step;
use crate::sql::{
    optional_seconds_arg, statement, statements, SqlArg, Statement, StatementView,
};
use crate::sql_statements::{
    check_stream_exists, count_stream_items, create_stream_cursors_internal_index,
    create_stream_cursors_table, create_stream_format_metadata_table,
    create_stream_items_internal_time_index, create_stream_items_table, create_user_streams_table,
    delete_stream_cursors, delete_stream_items, delete_user_stream, get_stream_format_version,
    get_stream_internal_id, insert_new_stream, insert_stream_entry, list_stream_pointer_payloads,
    read_stream_from_position, read_stream_sql, upsert_stream_format_version, CHECK_STREAM_EXISTS,
    COUNT_STREAM_ITEMS, CREATE_STREAM_CURSORS_INTERNAL_INDEX, CREATE_STREAM_CURSORS_TABLE,
    CREATE_STREAM_FORMAT_METADATA_TABLE, CREATE_STREAM_ITEMS_INTERNAL_TIME_INDEX,
    CREATE_STREAM_ITEMS_TABLE, CREATE_USER_STREAMS_TABLE, DELETE_STREAM_CURSORS,
    DELETE_STREAM_ITEMS, DELETE_USER_STREAM, GET_STREAM_FORMAT_VERSION, GET_STREAM_INTERNAL_ID,
    INSERT_NEW_STREAM, INSERT_STREAM_ENTRY, ITEM_VERSIONED_STREAM_FORMAT_KEY, ITEM_VERSIONED_STREAM_FORMAT_VERSION,
    LIST_STREAM_POINTER_PAYLOADS, UPSERT_STREAM_FORMAT_VERSION,
};
use crate::stream_duration::{plain_view, prefixed};
use crate::stream_writer::{fresh_stream_item_id, stream_entry_view};
use crate::text::{signed_decimal, signed_decimal_text};
use crate::types::{ReadDirection, StreamDataType};
use crate::uuids::{fresh_uuid, hyphenated, is_version_7, uuid_text};
use vstd::prelude::*;
use vstd::string::*;

verus! {

// The format of the streams

/// A stored pointer: where it stands, and why it cannot be read, where it cannot.
pub struct PointerRow {
    pub stream_name: String,
    pub item_id: String,
    pub decode_error: Option<String>,
}

/// What preparing the tables of the streams needs done.
pub enum InitializeAction {
    /// Run statements in order, up to the first that fails.
    Run(Vec<Statement>),
    /// Run a statement, and give the integer in its row.
    QueryInteger(Statement),
    /// Run a statement, and give its rows, each as far as it can be read.
    QueryPointers(Statement),
}

/// How far preparing the tables has come.
#[derive(Clone, Copy, Debug, PartialEq, Eq, Structural)]
pub enum InitializeState {
    CreatingTables,
    ReadingVersion,
    CountingItems,
    WritingVersion,
    CheckingPointers,
    CreatingIndexes,
}

/// What came of an action.
pub enum InitializeEvent {
    Ran(Result<(), StorageError>),
    IntegerRead(Result<Option<i64>, StorageError>),
    PointersRead(Result<Vec<Result<PointerRow, StorageError>>, StorageError>),
}

/// What preparing the tables does next.
pub type InitializeStep = Step<InitializeState, InitializeAction, Result<(), StorageError>>;

impl InitializeState {
    /// Whether the state waits for an event.
    pub open spec fn awaits(self, event: InitializeEvent) -> bool {
        match self {
            InitializeState::ReadingVersion | InitializeState::CountingItems => event is IntegerRead,
            InitializeState::CheckingPointers => event is PointersRead,
            _ => event is Ran,
        }
    }
}

/// The statements that create the tables.
pub open spec fn create_table_views() -> Seq<StatementView> {
    seq![
        plain_view(CREATE_USER_STREAMS_TABLE),
        plain_view(CREATE_STREAM_ITEMS_TABLE),
        plain_view(CREATE_STREAM_CURSORS_TABLE),
        plain_view(CREATE_STREAM_FORMAT_METADATA_TABLE),
    ]
}

/// The statements that create the indexes.
pub open spec fn create_index_views() -> Seq<StatementView> {
    seq![
        plain_view(CREATE_STREAM_ITEMS_INTERNAL_TIME_INDEX),
        plain_view(CREATE_STREAM_CURSORS_INTERNAL_INDEX),
    ]
}

/// The statement that reads the version of the format.
pub open spec fn read_version_view() -> StatementView {
    StatementView {
        sql: GET_STREAM_FORMAT_VERSION@,
        args: seq![SqlArg::Text(ITEM_VERSIONED_STREAM_FORMAT_KEY@)],
    }
}

/// The statement that stores the version of the format.
pub open spec fn write_version_view() -> StatementView {
    StatementView {
        sql: UPSERT_STREAM_FORMAT_VERSION@,
        args: seq![
            SqlArg::Text(ITEM_VERSIONED_STREAM_FORMAT_KEY@),
            SqlArg::Integer(ITEM_VERSIONED_STREAM_FORMAT_VERSION as int),
        ],
    }
}

/// The statement that reads all pointers.
pub open spec fn read_pointers_view() -> StatementView {
    StatementView {
        sql: LIST_STREAM_POINTER_PAYLOADS@,
        args: seq![SqlArg::Integer(StreamDataType::StreamPointer.spec_code() as int)],
    }
}

/// The words that refuse a version of the format.
pub open spec fn version_refusal(version: int) -> Seq<char> {
    "unsupported stream format metadata version "@ + signed_decimal(version)
        + "; expected item-versioned stream format version "@ + signed_decimal(
        ITEM_VERSIONED_STREAM_FORMAT_VERSION as int,
    )
}

/// The words that refuse a pointer: they tell where it stands and why, not what it holds.
pub open spec fn pointer_refusal(
    stream_name: Seq<char>,
    item_id: Seq<char>,
    error: Seq<char>,
) -> Seq<char> {
    "item-versioned streams cannot start with old-format stream pointer payload at stream "@
        + stream_name + " item "@ + item_id + ": "@ + error
}

/// Whether a row keeps the streams from being used, and with which error.
pub open spec fn pointer_refused(
    row: Result<PointerRow, StorageError>,
    error: StorageError,
) -> bool {
    match row {
        Err(e) => error == e,
        Ok(row) => row.decode_error matches Some(e) && error.is_unsupported(
            pointer_refusal(row.stream_name@, row.item_id@, e@),
        ),
    }
}

/// Whether a row can be read.
pub open spec fn pointer_readable(row: Result<PointerRow, StorageError>) -> bool {
    row matches Ok(row) && row.decode_error is None
}

/// Whether the row at an index is the first that keeps the streams from being used.
pub open spec fn pointer_refused_at(
    rows: Seq<Result<PointerRow, StorageError>>,
    i: int,
    error: StorageError,
) -> bool {
    &&& 0 <= i < rows.len()
    &&& forall|j: int| 0 <= j < i ==> pointer_readable(#[trigger] rows[j])
    &&& pointer_refused(rows[i], error)
}

/// Refuses pointers that cannot be read: the first of them decides the error.
pub fn reject_old_pointer_payloads(rows: Vec<Result<PointerRow, StorageError>>) -> (r: Result<
    (),
    StorageError,
>)
    ensures
        match r {
            Ok(_) => forall|i: int| 0 <= i < rows@.len() ==> pointer_readable(#[trigger] rows@[i]),
            Err(e) => exists|i: int| #[trigger] pointer_refused_at(rows@, i, e),
        },
{
    let ghost given = rows@;
    let mut left = rows;
    let n: usize = left.len();
    let mut i: usize = 0;
    while i < n
        invariant
            i <= n == given.len(),
            given == rows@,
            left@ == given.skip(i as int),
            forall|j: int| 0 <= j < i ==> pointer_readable(#[trigger] given[j]),
        decreases n - i,
    {
        let row = left.remove(0);
        assert(row == given[i as int]);
        assert(left@ =~= given.skip(i + 1));
        match row {
            Err(e) => {
                assert(pointer_refused_at(rows@, i as int, e));
                return Err(e);
            },
            Ok(row) => match row.decode_error {
                Some(error) => {
                    let mut message = prefixed(
                        "item-versioned streams cannot start with old-format stream pointer payload at stream ",
                        row.stream_name.as_str(),
                    );
                    message.append(" item ");
                    message.append(row.item_id.as_str());
                    message.append(": ");
                    message.append(error.as_str());
                    let e = StorageError::Unsupported { message };
                    assert(pointer_refused_at(rows@, i as int, e));
                    return Err(e);
                },
                None => {},
            },
        }
        i = i + 1;
    }
    Ok(())
}

/// Whether a step creates the indexes.
pub open spec fn creates_indexes(step: InitializeStep) -> bool {
    step matches Step::Perform {
        state: InitializeState::CreatingIndexes,
        action: InitializeAction::Run(list),
    } && statements(list@) == create_index_views()
}

/// How preparing the tables goes on after an event. Streams of the expected format are
/// used if their pointers can be read; streams of another format are not; where no
/// format is stored, the expected one is stored, unless there are rows already.
pub open spec fn initialize_next(
    state: InitializeState,
    event: InitializeEvent,
    step: InitializeStep,
) -> bool {
    match (state, event) {
        (_, InitializeEvent::Ran(Err(e))) => step matches Step::Finish(Err(out)) && out == e,
        (_, InitializeEvent::IntegerRead(Err(e))) => step matches Step::Finish(Err(out)) && out == e,
        (_, InitializeEvent::PointersRead(Err(e))) => step matches Step::Finish(Err(out)) && out == e,
        (InitializeState::CreatingTables, InitializeEvent::Ran(Ok(_))) => step matches
            Step::Perform {
            state: InitializeState::ReadingVersion,
            action: InitializeAction::QueryInteger(s),
        } && s@ == read_version_view(),
        (InitializeState::ReadingVersion, InitializeEvent::IntegerRead(Ok(version))) => match version {
            Some(version) => if version == ITEM_VERSIONED_STREAM_FORMAT_VERSION {
                step matches Step::Perform {
                    state: InitializeState::CheckingPointers,
                    action: InitializeAction::QueryPointers(s),
                } && s@ == read_pointers_view()
            } else {
                step matches Step::Finish(Err(e)) && e.is_unsupported(
                    version_refusal(version as int),
                )
            },
            None => step matches Step::Perform {
                state: InitializeState::CountingItems,
                action: InitializeAction::QueryInteger(s),
            } && s@ == plain_view(COUNT_STREAM_ITEMS),
        },
        (InitializeState::CountingItems, InitializeEvent::IntegerRead(Ok(count))) => if count matches Some(n)
            && n > 0 {
            step matches Step::Finish(Err(e)) && e.is_unsupported(
                "item-versioned streams require empty stream tables or stream format metadata; in-place upgrade from old stream rows is unsupported"@,
            )
        } else {
            step matches Step::Perform {
                state: InitializeState::WritingVersion,
                action: InitializeAction::Run(list),
            } && statements(list@) == seq![write_version_view()]
        },
        (InitializeState::WritingVersion, InitializeEvent::Ran(Ok(_))) => creates_indexes(step),
        (_, InitializeEvent::PointersRead(Ok(rows))) => if forall|i: int|
            0 <= i < rows@.len() ==> pointer_readable(#[trigger] rows@[i]) {
            creates_indexes(step)
        } else {
            step matches Step::Finish(Err(e)) && exists|i: int|
                #[trigger] pointer_refused_at(rows@, i, e)
        },
        (InitializeState::CreatingIndexes, InitializeEvent::Ran(Ok(_))) => step matches
            Step::Finish(Ok(_)),
        _ => false,
    }
}

fn create_indexes() -> (r: InitializeStep)
    ensures
        creates_indexes(r),
{
    let list = vec![
        statement(create_stream_items_internal_time_index()),
        statement(create_stream_cursors_internal_index()),
    ];
    assert(statements(list@) =~= create_index_views());
    Step::Perform {
        state: InitializeState::CreatingIndexes,
        action: InitializeAction::Run(list),
    }
}

/// Starts to prepare the tables.
pub fn start_initialize_stream() -> (r: InitializeStep)
    ensures
        r matches Step::Perform {
            state: InitializeState::CreatingTables,
            action: InitializeAction::Run(list),
        } && statements(list@) == create_table_views(),
{
    let list = vec![
        statement(create_user_streams_table()),
        statement(create_stream_items_table()),
        statement(create_stream_cursors_table()),
        statement(create_stream_format_metadata_table()),
    ];
    assert(statements(list@) =~= create_table_views());
    Step::Perform { state: InitializeState::CreatingTables, action: InitializeAction::Run(list) }
}

/// Prepares the tables of the streams.
pub fn initialize_stream(state: InitializeState, event: InitializeEvent) -> (r: InitializeStep)
    requires
        state.awaits(event),
    ensures
        initialize_next(state, event, r),
{
    match (state, event) {
        (_, InitializeEvent::Ran(Err(e))) => Step::Finish(Err(e)),
        (_, InitializeEvent::IntegerRead(Err(e))) => Step::Finish(Err(e)),
        (_, InitializeEvent::PointersRead(Err(e))) => Step::Finish(Err(e)),
        (InitializeState::CreatingTables, InitializeEvent::Ran(Ok(()))) => Step::Perform {
            state: InitializeState::ReadingVersion,
            action: InitializeAction::QueryInteger(statement(get_stream_format_version())),
        },
        (InitializeState::ReadingVersion, InitializeEvent::IntegerRead(Ok(version))) => match version {
            Some(version) => {
                if version == ITEM_VERSIONED_STREAM_FORMAT_VERSION {
                    Step::Perform {
                        state: InitializeState::CheckingPointers,
                        action: InitializeAction::QueryPointers(
                            statement(list_stream_pointer_payloads()),
                        ),
                    }
                } else {
                    let mut message = prefixed(
                        "unsupported stream format metadata version ",
                        signed_decimal_text(version).as_str(),
                    );
                    message.append("; expected item-versioned stream format version ");
                    message.append(
                        signed_decimal_text(ITEM_VERSIONED_STREAM_FORMAT_VERSION).as_str(),
                    );
                    Step::Finish(Err(StorageError::Unsupported { message }))
                }
            },
            None => Step::Perform {
                state: InitializeState::CountingItems,
                action: InitializeAction::QueryInteger(statement(count_stream_items())),
            },
        },
        (InitializeState::CountingItems, InitializeEvent::IntegerRead(Ok(count))) => {
            if let Some(n) = count {
                if n > 0 {
                    return Step::Finish(
                        Err(
                            StorageError::unsupported(
                                "item-versioned streams require empty stream tables or stream format metadata; in-place upgrade from old stream rows is unsupported",
                            ),
                        ),
                    );
                }
            }
            let list = vec![statement(upsert_stream_format_version())];
            assert(statements(list@) =~= seq![write_version_view()]);
            Step::Perform {
                state: InitializeState::WritingVersion,
                action: InitializeAction::Run(list),
            }
        },
        (InitializeState::WritingVersion, InitializeEvent::Ran(Ok(()))) => create_indexes(),
        (_, InitializeEvent::PointersRead(Ok(rows))) => match reject_old_pointer_payloads(rows) {
            Ok(()) => create_indexes(),
            Err(e) => {
                assert(exists|i: int| #[trigger] pointer_refused_at(rows@, i, e));
                let ghost i = choose|i: int| #[trigger] pointer_refused_at(rows@, i, e);
                assert(!pointer_readable(rows@[i]));
                Step::Finish(Err(e))
            },
        },
        (InitializeState::CreatingIndexes, InitializeEvent::Ran(Ok(()))) => Step::Finish(Ok(())),
        (_, _) => {
            assert(false);
            Step::Finish(Ok(()))
        },
    }
}

/// Streams of another format than the expected one are never used, and nothing of
/// theirs is changed: no statement follows the one that reads the format.
pub proof fn law_other_formats_are_refused(version: i64, step: InitializeStep)
    requires
        version != ITEM_VERSIONED_STREAM_FORMAT_VERSION,
        initialize_next(
            InitializeState::ReadingVersion,
            InitializeEvent::IntegerRead(Ok(Some(version))),
            step,
        ),
    ensures
        step matches Step::Finish(Err(e)) && e is Unsupported,
{
}

/// Rows without a stored format keep the streams from being used, and no format is
/// stored then.
pub proof fn law_rows_without_format_are_refused(count: i64, step: InitializeStep)
    requires
        count > 0,
        initialize_next(
            InitializeState::CountingItems,
            InitializeEvent::IntegerRead(Ok(Some(count))),
            step,
        ),
    ensures
        step matches Step::Finish(Err(e)) && e is Unsupported,
{
}

// Streams

/// A failure of the database, in words.
pub type DatabaseResult<T> = Result<T, String>;

/// What an operation on streams needs done.
pub enum StreamAction {
    /// Run a statement, and tell whether it has a row.
    Exists(Statement),
    /// Run a statement, and tell how many rows it changed.
    Run(Statement),
    /// Run a statement, and give the text in its row.
    QueryText(Statement),
    /// Run a statement, and give its rows.
    QueryRows(Statement),
}

fn database_failed(prefix: &str, text: &str) -> (r: StreamError)
    ensures
        r.is_internal(prefix@ + text@),
{
    StreamError::Internal { message: prefixed(prefix, text) }
}

/// How far creating a stream has come.
#[derive(Clone, Copy, Debug, PartialEq, Eq, Structural)]
pub enum CreateStreamState {
    Checking,
    Inserting,
}

/// What came of an action.
pub enum CreateStreamEvent {
    Checked(DatabaseResult<bool>),
    Inserted(DatabaseResult<usize>),
}

/// What creating a stream does next; it yields the internal name of the stream.
pub type CreateStreamStep = Step<CreateStreamState, StreamAction, Result<String, StreamError>>;

/// A stream to create.
pub struct NewStream {
    pub user_stream_name: String,
    pub internal_id: String,
    pub ttl_seconds: Option<u32>,
    pub created_at: i64,
}

impl CreateStreamState {
    /// Whether the state waits for an event.
    pub open spec fn awaits(self, event: CreateStreamEvent) -> bool {
        match self {
            CreateStreamState::Checking => event is Checked,
            CreateStreamState::Inserting => event is Inserted,
        }
    }
}

/// The statement that stores a stream.
pub open spec fn insert_stream_view(stream: NewStream) -> StatementView {
    StatementView {
        sql: INSERT_NEW_STREAM@,
        args: seq![
            SqlArg::Text(stream.user_stream_name@),
            SqlArg::Text(stream.internal_id@),
            optional_seconds_arg(stream.ttl_seconds),
            SqlArg::Integer(stream.created_at as int),
            SqlArg::Integer(stream.created_at as int),
        ],
    }
}

/// How creating a stream goes on after an event: it is stored only where there is none
/// of its name.
pub open spec fn create_stream_next(
    stream: NewStream,
    event: CreateStreamEvent,
    step: CreateStreamStep,
) -> bool {
    match event {
        CreateStreamEvent::Checked(Ok(true)) => step matches Step::Finish(
            Err(StreamError::StreamAlreadyExists { name }),
        ) && name@ == stream.user_stream_name@,
        CreateStreamEvent::Checked(Ok(false)) => step matches Step::Perform {
            state: CreateStreamState::Inserting,
            action: StreamAction::Run(s),
        } && s@ == insert_stream_view(stream),
        CreateStreamEvent::Inserted(Ok(_)) => step matches Step::Finish(Ok(name)) && name@
            == stream.internal_id@,
        CreateStreamEvent::Checked(Err(e)) => step matches Step::Finish(Err(out))
            && out.is_internal("create stream failed: "@ + e@),
        CreateStreamEvent::Inserted(Err(e)) => step matches Step::Finish(Err(out))
            && out.is_internal("create stream failed: "@ + e@),
    }
}

/// Starts to create a stream, under an internal name of its own: the text of a new UUID.
pub fn start_create_stream(
    user_stream_name: &str,
    ttl_seconds: Option<u32>,
    created_at: i64,
) -> (r: (NewStream, CreateStreamStep))
    ensures
        r.0.user_stream_name@ == user_stream_name@,
        exists|uuid: u128| is_version_7(uuid) && r.0.internal_id@ == #[trigger] hyphenated(uuid),
        r.0.ttl_seconds == ttl_seconds,
        r.0.created_at == created_at,
        r.1 matches Step::Perform {
            state: CreateStreamState::Checking,
            action: StreamAction::Exists(s),
        } && s@ == (StatementView {
            sql: CHECK_STREAM_EXISTS@,
            args: seq![SqlArg::Text(user_stream_name@)],
        }),
{
    let internal_id = uuid_text(fresh_uuid());
    (
        NewStream {
            user_stream_name: user_stream_name.to_owned(),
            internal_id,
            ttl_seconds,
            created_at,
        },
        Step::Perform {
            state: CreateStreamState::Checking,
            action: StreamAction::Exists(statement(check_stream_exists(user_stream_name))),
        },
    )
}

/// Creates a stream.
pub fn create_stream(
    stream: &NewStream,
    state: CreateStreamState,
    event: CreateStreamEvent,
) -> (r: CreateStreamStep)
    requires
        state.awaits(event),
    ensures
        create_stream_next(*stream, event, r),
{
    match event {
        CreateStreamEvent::Checked(Ok(exists)) => {
            if exists {
                return Step::Finish(
                    Err(StreamError::StreamAlreadyExists { name: stream.user_stream_name.clone() }),
                );
            }
            Step::Perform {
                state: CreateStreamState::Inserting,
                action: StreamAction::Run(
                    statement(
                        insert_new_stream(
                            stream.user_stream_name.as_str(),
                            stream.internal_id.as_str(),
                            stream.ttl_seconds,
                            stream.created_at,
                            stream.created_at,
                        ),
                    ),
                ),
            }
        },
        CreateStreamEvent::Inserted(Ok(_)) => Step::Finish(Ok(stream.internal_id.clone())),
        CreateStreamEvent::Checked(Err(e)) => Step::Finish(
            Err(database_failed("create stream failed: ", e.as_str())),
        ),
        CreateStreamEvent::Inserted(Err(e)) => Step::Finish(
            Err(database_failed("create stream failed: ", e.as_str())),
        ),
    }
}

/// The statements that delete a stream: its cursors, its rows, then the stream itself.
pub open spec fn delete_stream_views(
    user_stream_name: Seq<char>,
    stream_name: Seq<char>,
) -> Seq<StatementView> {
    seq![
        StatementView { sql: DELETE_STREAM_CURSORS@, args: seq![SqlArg::Text(stream_name)] },
        StatementView { sql: DELETE_STREAM_ITEMS@, args: seq![SqlArg::Text(stream_name)] },
        StatementView { sql: DELETE_USER_STREAM@, args: seq![SqlArg::Text(user_stream_name)] },
    ]
}

/// Reads the internal name of a stream that is to be deleted.
pub fn read_stream_to_delete(user_stream_name: &str) -> (r: Statement)
    ensures
        r@ == (StatementView {
            sql: GET_STREAM_INTERNAL_ID@,
            args: seq![SqlArg::Text(user_stream_name@)],
        }),
{
    statement(get_stream_internal_id(user_stream_name))
}

/// Deletes a stream of an internal name, in the transaction that read the name.
pub fn delete_stream(user_stream_name: &str, stream_name: &str) -> (r: Vec<Statement>)
    ensures
        statements(r@) == delete_stream_views(user_stream_name@, stream_name@),
{
    let list = vec![
        statement(delete_stream_cursors(stream_name)),
        statement(delete_stream_items(stream_name)),
        statement(delete_user_stream(user_stream_name)),
    ];
    assert(statements(list@) =~= delete_stream_views(user_stream_name@, stream_name@));
    list
}

/// What deleting a stream answers, from the number of streams that its last statement
/// removed, or what its transaction failed with.
pub fn delete_stream_result(user_stream_name: &str, removed: DatabaseResult<usize>) -> (r: Result<
    (),
    StreamError,
>)
    ensures
        match removed {
            Ok(n) => if n > 0 {
                r is Ok
            } else {
                r matches Err(StreamError::StreamNotFound { name }) && name@ == user_stream_name@
            },
            Err(e) => r matches Err(out) && out.is_internal("delete stream failed: "@ + e@),
        },
{
    match removed {
        Ok(n) => {
            if n > 0 {
                return Ok(());
            }
            Err(StreamError::StreamNotFound { name: user_stream_name.to_owned() })
        },
        Err(e) => Err(database_failed("delete stream failed: ", e.as_str())),
    }
}

/// A stream, as it is stored.
#[derive(Debug, PartialEq, Eq)]
pub struct Stream {
    pub name: String,
    pub internal_id: String,
    pub ttl_seconds: Option<u32>,
    pub created_at: i64,
}

/// What reading a stream answers, from its row or what the database failed with.
pub fn get_stream_result(row: DatabaseResult<Option<Stream>>) -> (r: Result<
    Option<Stream>,
    StreamError,
>)
    ensures
        match row {
            Ok(stream) => r == Ok::<Option<Stream>, StreamError>(stream),
            Err(e) => r matches Err(out) && out.is_internal("get stream failed: "@ + e@),
        },
{
    match row {
        Ok(stream) => Ok(stream),
        Err(e) => Err(database_failed("get stream failed: ", e.as_str())),
    }
}

/// Stores a row of a stream under a given id.
pub fn append_item_with_id(
    stream_name: &str,
    item_id: StreamItemId,
    item_data: &[u8],
    created_at: i64,
) -> (r: Statement)
    ensures
        r@ == stream_entry_view(
            stream_name@,
            item_id,
            item_data@,
            created_at,
            StreamDataType::Text,
        ),
{
    statement(
        insert_stream_entry(stream_name, &item_id, item_data, created_at, StreamDataType::Text),
    )
}

/// Stores a row of a stream under a new id, which is never the smallest: a cursor at the
/// head of the stream stands before it.
pub fn append_item(stream_name: &str, item_data: &[u8], created_at: i64) -> (r: (
    StreamItemId,
    Statement,
))
    ensures
        r.0.is_version_7(),
        r.0.number() > 0,
        r.1@ == stream_entry_view(
            stream_name@,
            r.0,
            item_data@,
            created_at,
            StreamDataType::Text,
        ),
{
    let item_id = fresh_stream_item_id();
    (item_id, append_item_with_id(stream_name, item_id, item_data, created_at))
}

/// What storing a row answers: its id, or what the database failed with.
pub fn append_item_result(item_id: StreamItemId, stored: DatabaseResult<usize>) -> (r: Result<
    StreamItemId,
    StreamError,
>)
    ensures
        match stored {
            Ok(_) => r == Ok::<StreamItemId, StreamError>(item_id),
            Err(e) => r matches Err(out) && out.is_internal("append stream item failed: "@ + e@),
        },
{
    match stored {
        Ok(_) => Ok(item_id),
        Err(e) => Err(database_failed("append stream item failed: ", e.as_str())),
    }
}

// Pages

/// A row of a stream, as it is stored.
pub struct StreamItemRow {
    pub item_id: String,
    pub stream_name: String,
    pub data: Vec<u8>,
    pub created_at: i64,
    pub data_type: i32,
}

/// A row of a stream.
#[derive(Debug, PartialEq, Eq)]
pub struct StreamItem {
    pub id: StreamItemId,
    pub stream_name: String,
    pub data: Vec<u8>,
    pub data_type: StreamDataType,
    pub created_at: i64,
}

/// Whether an item is what a row holds.
pub open spec fn item_of(row: StreamItemRow, item: StreamItem) -> bool {
    &&& StreamItemId::from_text(row.item_id@) == Some(item.id)
    &&& item.stream_name == row.stream_name
    &&& item.data == row.data
    &&& item.created_at == row.created_at
    &&& item.data_type.spec_code() == row.data_type || (item.data_type == StreamDataType::Text
        && forall|t: StreamDataType| #[trigger] t.spec_code() != row.data_type)
}

/// Whether items are what rows hold, in their order.
pub open spec fn items_of(rows: Seq<StreamItemRow>, items: Seq<StreamItem>) -> bool {
    items.len() == rows.len() && forall|i: int|
        0 <= i < rows.len() ==> item_of(rows[i], #[trigger] items[i])
}

/// Whether the ids of all rows can be read.
pub open spec fn row_ids_readable(rows: Seq<StreamItemRow>) -> bool {
    forall|i: int|
        0 <= i < rows.len() ==> StreamItemId::from_text((#[trigger] rows[i]).item_id@) is Some
}

/// Whether a row is the one that a statement stores.
pub open spec fn row_stored_by(s: StatementView, row: StreamItemRow) -> bool {
    &&& s.sql == INSERT_STREAM_ENTRY@
    &&& s.args == seq![
        SqlArg::Text(row.stream_name@),
        SqlArg::Text(row.item_id@),
        SqlArg::Blob(row.data@),
        SqlArg::Integer(row.created_at as int),
        SqlArg::Integer(row.data_type as int),
    ]
}

/// What is stored in a stream is what is read from it: the row can be read, and the item
/// that it holds has the id, the data, the time and the type that were given.
pub proof fn law_stored_rows_read_back(
    stream_name: Seq<char>,
    id: StreamItemId,
    data: Seq<u8>,
    created_at: i64,
    data_type: StreamDataType,
    row: StreamItemRow,
    item: StreamItem,
)
    requires
        row_stored_by(stream_entry_view(stream_name, id, data, created_at, data_type), row),
    ensures
        StreamItemId::from_text(row.item_id@) == Some(id),
        item_of(row, item) ==> {
            &&& item.id == id
            &&& item.stream_name@ == stream_name
            &&& item.data@ == data
            &&& item.created_at == created_at
            &&& item.data_type == data_type
        },
{
    law_stream_item_id_round_trip(id);
    let s = stream_entry_view(stream_name, id, data, created_at, data_type);
    assert(s.args[0] == SqlArg::Text(row.stream_name@));
    assert(s.args[1] == SqlArg::Text(row.item_id@));
    assert(s.args[2] == SqlArg::Blob(row.data@));
    assert(s.args[3] == SqlArg::Integer(row.created_at as int));
    assert(s.args[4] == SqlArg::Integer(row.data_type as int));
    assert(data_type.spec_code() == row.data_type);
}

/// The words for an id that cannot be read.
pub open spec fn id_column_text() -> Seq<char> {
    "Invalid column type Text at index: 0, name: item_id"@
}

/// What rows of a stream hold; an id that cannot be read is told in words.
pub fn parse_stream_item_rows(rows: Vec<StreamItemRow>) -> (r: DatabaseResult<Vec<StreamItem>>)
    ensures
        r is Ok <==> row_ids_readable(rows@),
        r matches Ok(items) ==> items_of(rows@, items@),
        r matches Err(e) ==> e@ == id_column_text(),
{
    let ghost given = rows@;
    let mut left = rows;
    let n: usize = left.len();
    let mut items: Vec<StreamItem> = Vec::new();
    let mut i: usize = 0;
    while i < n
        invariant
            i <= n == given.len(),
            given == rows@,
            left@ == given.skip(i as int),
            items@.len() == i,
            forall|j: int| 0 <= j < i ==> item_of(given[j], #[trigger] items@[j]),
            forall|j: int|
                0 <= j < i ==> StreamItemId::from_text((#[trigger] given[j]).item_id@) is Some,
        decreases n - i,
    {
        let row = left.remove(0);
        assert(row == given[i as int]);
        assert(left@ =~= given.skip(i + 1));
        match StreamItemId::parse(row.item_id.as_str()) {
            Some(id) => {
                items.push(
                    StreamItem {
                        id,
                        stream_name: row.stream_name,
                        data: row.data,
                        data_type: StreamDataType::from_code(row.data_type),
                        created_at: row.created_at,
                    },
                );
            },
            None => {
                assert(!row_ids_readable(rows@));
                return Err("Invalid column type Text at index: 0, name: item_id".to_owned());
            },
        }
        i = i + 1;
    }
    Ok(items)
}

/// A page of a stream.
#[derive(Debug, PartialEq, Eq)]
pub struct StreamPage {
    pub items: Vec<StreamItem>,
    pub last_evaluated_key: Option<StreamItemId>,
    pub has_more: bool,
}

/// Whether items are the first `limit` of the rows that were read; the row after them
/// only tells that there are more.
pub open spec fn are_first(
    read: Seq<StreamItem>,
    limit: nat,
    items: Seq<StreamItem>,
    has_more: bool,
) -> bool {
    &&& has_more <==> read.len() > limit
    &&& items == (if read.len() > limit {
        read.take(limit as int)
    } else {
        read
    })
}

/// Whether a page holds the first `limit` of the rows that were read, and the key of the
/// last of them.
pub open spec fn is_page(read: Seq<StreamItem>, limit: nat, page: StreamPage) -> bool {
    &&& are_first(read, limit, page.items@, page.has_more)
    &&& page.last_evaluated_key == (if page.items@.len() > 0 {
        Some(page.items@.last().id)
    } else {
        None
    })
}

/// The page of the rows that were read for it.
pub fn stream_page(items: Vec<StreamItem>, limit: u32) -> (r: StreamPage)
    ensures
        is_page(items@, limit as nat, r),
{
    let n: usize = items.len();
    let has_more = n as u64 > limit as u64;
    let mut items = items;
    if has_more {
        items.truncate(limit as usize);
    }
    let len: usize = items.len();
    let last_evaluated_key = if len > 0 {
        Some(items[len - 1].id)
    } else {
        None
    };
    StreamPage { items, last_evaluated_key, has_more }
}

/// The statement that reads a page of a stream.
pub open spec fn read_page_view(
    stream_name: Seq<char>,
    position: StreamItemId,
    limit: u32,
    direction: ReadDirection,
) -> StatementView {
    StatementView {
        sql: read_stream_sql(direction),
        args: seq![
            SqlArg::Text(stream_name),
            SqlArg::Text(stream_name),
            SqlArg::Text(position.text()),
            SqlArg::Integer(limit + 1),
        ],
    }
}

fn read_page(
    stream_name: &str,
    position: StreamItemId,
    limit: u32,
    direction: ReadDirection,
) -> (r: Statement)
    requires
        limit < u32::MAX,
    ensures
        r@ == read_page_view(stream_name@, position, limit, direction),
{
    let parts = read_stream_from_position(stream_name, &position, limit, direction);
    Statement { sql: parts.0, params: parts.1 }
}

/// The position from which a forward read goes on: the id that follows the key, or the
/// smallest.
pub open spec fn forward_start(exclusive_start_key: Option<StreamItemId>) -> StreamItemId {
    match exclusive_start_key {
        Some(key) => key.next(),
        None => StreamItemId { high: 0, low: 0 },
    }
}

/// Reads a page of a stream from after a key on, or from its start. The read starts after
/// the id that directly follows the key: a row of that very id is passed over.
pub fn read_forward(
    stream_name: &str,
    exclusive_start_key: Option<StreamItemId>,
    limit: u32,
) -> (r: Result<Statement, StreamError>)
    ensures
        if 1 <= limit <= 10000 {
            r matches Ok(s) && s@ == read_page_view(
                stream_name@,
                forward_start(exclusive_start_key),
                limit,
                ReadDirection::Forward,
            )
        } else {
            r matches Err(e) && e.is_validation("Limit must be between 1 and 10000"@)
        },
{
    if limit == 0 || limit > 10000 {
        return Err(StreamError::validation("Limit must be between 1 and 10000"));
    }
    let start = match exclusive_start_key {
        Some(key) => key.increment(),
        None => StreamItemId::nil(),
    };
    Ok(read_page(stream_name, start, limit, ReadDirection::Forward))
}

/// Reads a page of a stream from before an id on, or from its end, the latest rows first.
pub fn read_backward(
    stream_name: &str,
    from_item_id: Option<StreamItemId>,
    limit: u32,
) -> (r: Result<Statement, StreamError>)
    ensures
        if 1 <= limit <= 1000 {
            r matches Ok(s) && s@ == read_page_view(
                stream_name@,
                match from_item_id {
                    Some(id) => id,
                    None => (StreamItemId { high: 0xffff_ffff, low: 0xffff_ffff_ffff_ffff }),
                },
                limit,
                ReadDirection::Backward,
            )
        } else {
            r matches Err(e) && e.is_validation("Limit must be between 1 and 1000"@)
        },
{
    if limit == 0 || limit > 1000 {
        return Err(StreamError::validation("Limit must be between 1 and 1000"));
    }
    let start = match from_item_id {
        Some(id) => id,
        None => StreamItemId::max(),
    };
    Ok(read_page(stream_name, start, limit, ReadDirection::Backward))
}

/// The words before a failed read of a stream.
pub open spec fn read_failure(direction: ReadDirection) -> Seq<char> {
    match direction {
        ReadDirection::Forward => "read stream forward failed: "@,
        ReadDirection::Backward => "read stream backward failed: "@,
    }
}

/// What a read of a stream answers, from its rows or what the database failed with.
pub fn read_result(
    rows: DatabaseResult<Vec<StreamItemRow>>,
    limit: u32,
    direction: ReadDirection,
) -> (r: Result<StreamPage, StreamError>)
    ensures
        match rows {
            Err(e) => r matches Err(out) && out.is_internal(read_failure(direction) + e@),
            Ok(rows) => if row_ids_readable(rows@) {
                r matches Ok(page) && exists|items: Seq<StreamItem>|
                    items_of(rows@, items) && #[trigger] is_page(items, limit as nat, page)
            } else {
                r matches Err(out) && out.is_internal(read_failure(direction) + id_column_text())
            },
        },
{
    let prefix = match direction {
        ReadDirection::Forward => "read stream forward failed: ",
        ReadDirection::Backward => "read stream backward failed: ",
    };
    match rows {
        Err(e) => Err(database_failed(prefix, e.as_str())),
        Ok(rows) => match parse_stream_item_rows(rows) {
            Ok(items) => Ok(stream_page(items, limit)),
            Err(e) => Err(database_failed(prefix, e.as_str())),
        },
    }
}

} // verus!
