//! What reading and writing streams comes to, over the rows that they hold.
use crate::error::StreamError;
use crate::ids::{
    law_stream_item_id_round_trip, law_stream_item_id_text_order, text_before, StreamItemId,
};
use crate::machine::Step;
use crate::sql::{statements, SqlArg, Statement, StatementView};
use crate::sql_statements::{
    ADVANCE_CURSOR_POSITION, CHECK_CURSOR_EXISTS, CHECK_ITEM_EXISTS_FOR_ADVANCE,
    CHECK_STREAM_EXISTS, DELETE_CURSOR, DELETE_STREAM_CURSORS, DELETE_STREAM_ITEMS,
    DELETE_USER_STREAM, GET_CURSOR_POSITION, GET_LATEST_ITEM_FOR_CURSOR, GET_STREAM_INTERNAL_ID,
    INSERT_CURSOR, INSERT_NEW_STREAM, READ_STREAM_BACKWARD, READ_STREAM_FORWARD,
};
use crate::stream_cursor::{
    advance_cursor, create_cursor, delete_cursor_result, delete_cursor_statement,
    get_cursor_result, read_from_cursor, start_advance_cursor, start_create_cursor,
    start_read_from_cursor, AdvanceCursorEvent, AdvanceCursorState, AdvanceCursorStep,
    CreateCursorEvent, CreateCursorState, CreateCursorStep, CursorPosition, CursorRef, CursorRow,
    ReadCursorEvent, ReadCursorState, ReadCursorStep, StreamCursor,
};
use crate::stream_provider::{
    append_item, append_item_result, append_item_with_id, are_first, create_stream, delete_stream,
    delete_stream_result, get_stream_result, is_page, item_of, items_of, law_stored_rows_read_back,
    read_backward, read_forward, read_result, read_stream_to_delete, row_ids_readable,
    row_stored_by, start_create_stream, CreateStreamEvent, CreateStreamState, CreateStreamStep,
    NewStream, Stream, StreamAction, StreamItem, StreamItemRow, StreamPage,
};
use crate::stream_writer::stores_row;
use crate::types::{ReadDirection, StreamDataType};
use vstd::prelude::*;

verus! {

/// Whether rows stand in the order of their ids.
pub open spec fn by_id(rows: Seq<StreamItem>) -> bool {
    forall|i: int, j: int|
        0 <= i < j < rows.len() ==> (#[trigger] rows[i]).id.number() < (
        #[trigger] rows[j]).id.number()
}

/// Whether the rows from a place on are those whose ids are greater than a number.
pub open spec fn greater_from(rows: Seq<StreamItem>, number: nat, m: int) -> bool {
    &&& 0 <= m <= rows.len()
    &&& forall|i: int| 0 <= i < m ==> (#[trigger] rows[i]).id.number() <= number
    &&& forall|i: int| m <= i < rows.len() ==> (#[trigger] rows[i]).id.number() > number
}

/// Whether the rows before a place are those whose ids are less than a number.
pub open spec fn less_before(rows: Seq<StreamItem>, number: nat, m: int) -> bool {
    &&& 0 <= m <= rows.len()
    &&& forall|i: int| 0 <= i < m ==> (#[trigger] rows[i]).id.number() < number
    &&& forall|i: int| m <= i < rows.len() ==> (#[trigger] rows[i]).id.number() >= number
}

/// Whether the texts of ids part rows at a place: those from it on come after a text.
pub open spec fn texts_after(rows: Seq<StreamItem>, text: Seq<char>, m: int) -> bool {
    &&& 0 <= m <= rows.len()
    &&& forall|i: int| 0 <= i < m ==> !text_before(text, (#[trigger] rows[i]).id.text())
    &&& forall|i: int| m <= i < rows.len() ==> text_before(text, (#[trigger] rows[i]).id.text())
}

/// Whether the texts of ids part rows at a place: those before it come before a text.
pub open spec fn texts_before(rows: Seq<StreamItem>, text: Seq<char>, m: int) -> bool {
    &&& 0 <= m <= rows.len()
    &&& forall|i: int| 0 <= i < m ==> text_before((#[trigger] rows[i]).id.text(), text)
    &&& forall|i: int| m <= i < rows.len() ==> !text_before((#[trigger] rows[i]).id.text(), text)
}

/// What the statement of a forward read gives of the rows of its stream: those whose ids
/// come after the third argument, in order, as many as the fourth says.
pub open spec fn gives_forward(s: StatementView, rows: Seq<StreamItem>, got: Seq<StreamItem>) -> bool {
    exists|m: int| #[trigger]
        texts_after(rows, s.args[2]->Text_0, m) && got == rows.subrange(
            m,
            if m + s.args[3]->Integer_0 < rows.len() {
                m + s.args[3]->Integer_0
            } else {
                rows.len() as int
            },
        )
}

/// What the statement of a backward read gives of the rows of its stream: those whose ids
/// come before the third argument, the last first, as many as the fourth says.
pub open spec fn gives_backward(
    s: StatementView,
    rows: Seq<StreamItem>,
    got: Seq<StreamItem>,
) -> bool {
    exists|m: int| #[trigger]
        texts_before(rows, s.args[2]->Text_0, m) && got == rows.subrange(
            if m - s.args[3]->Integer_0 > 0 {
                m - s.args[3]->Integer_0
            } else {
                0
            },
            m,
        ).reverse()
}

proof fn lemma_items_unique(
    rows: Seq<StreamItemRow>,
    one: Seq<StreamItem>,
    other: Seq<StreamItem>,
)
    requires
        items_of(rows, one),
        items_of(rows, other),
    ensures
        one == other,
        row_ids_readable(rows),
{
    assert forall|i: int| 0 <= i < rows.len() implies one[i] == other[i] by {
        assert(item_of(rows[i], one[i]));
        assert(item_of(rows[i], other[i]));
        assert(one[i].data_type.spec_code() == one[i].data_type.spec_code());
        assert(other[i].data_type.spec_code() == other[i].data_type.spec_code());
    }
    assert(one =~= other);
    assert forall|i: int| 0 <= i < rows.len() implies StreamItemId::from_text(
        (#[trigger] rows[i]).item_id@,
    ) is Some by {
        assert(item_of(rows[i], one[i]));
    }
}

/// The smaller of two lengths.
pub open spec fn at_most(n: int, limit: int) -> int {
    if n < limit {
        n
    } else {
        limit
    }
}

/// The number after which a forward read by a key starts: the one that follows the key's.
pub open spec fn starts_after(key: Option<StreamItemId>) -> nat {
    match key {
        None => 0,
        Some(key) => if key.number() < 0xffff_ffff_ffff_ffff_ffff_ffff {
            key.number() + 1
        } else {
            key.number()
        },
    }
}

/// The number before which a backward read by an id starts.
pub open spec fn starts_before(from: Option<StreamItemId>) -> nat {
    match from {
        None => 0xffff_ffff_ffff_ffff_ffff_ffff,
        Some(id) => id.number(),
    }
}

/// A forward read is of its stream, starts after the key, and asks for one row more than
/// the page holds; of limits only those from 1 to 10000 are accepted.
pub proof fn law_forward_reads_bind_their_key(
    stream_name: &str,
    key: Option<StreamItemId>,
    limit: u32,
    made: Result<Statement, StreamError>,
)
    requires
        call_ensures(read_forward, (stream_name, key, limit), made),
    ensures
        made is Ok <==> 1 <= limit <= 10000,
        made matches Err(e) ==> (e matches StreamError::Validation { message } && message@
            == "Limit must be between 1 and 10000"@),
        made matches Ok(s) ==> {
            &&& s@.sql == READ_STREAM_FORWARD@
            &&& s@.args.len() == 4
            &&& s@.args[0] == SqlArg::Text(stream_name@)
            &&& s@.args[1] == SqlArg::Text(stream_name@)
            &&& s@.args[3] == SqlArg::Integer(limit + 1)
            &&& exists|id: StreamItemId|
                id.number() == starts_after(key) && s@.args[2] == SqlArg::Text(
                    #[trigger] id.text(),
                )
        },
{
    if made is Ok {
        let id = match key {
            Some(key) => key.next(),
            None => StreamItemId { high: 0, low: 0 },
        };
        assert(made->Ok_0@.args[2] == SqlArg::Text(id.text()));
        assert(id.number() == starts_after(key));
    }
}

/// A page that is read forward holds exactly the rows whose ids are the least that are
/// greater than where it starts, in order; it tells whether there are more, and the key of
/// the last.
pub proof fn law_forward_pages_hold_what_comes_next(
    stream_name: &str,
    key: Option<StreamItemId>,
    limit: u32,
    made: Result<Statement, StreamError>,
    rows: Seq<StreamItem>,
    got: Seq<StreamItem>,
    read: Vec<StreamItemRow>,
    answer: Result<StreamPage, StreamError>,
    m: int,
)
    requires
        call_ensures(read_forward, (stream_name, key, limit), made),
        made is Ok,
        by_id(rows),
        gives_forward(made->Ok_0@, rows, got),
        items_of(read@, got),
        call_ensures(
            read_result,
            (Ok::<Vec<StreamItemRow>, String>(read), limit, ReadDirection::Forward),
            answer,
        ),
        greater_from(rows, starts_after(key), m),
    ensures
        answer is Ok,
        page_from(answer->Ok_0, rows, m, limit),
{
    law_forward_reads_bind_their_key(stream_name, key, limit, made);
    let s = made->Ok_0@;
    let id = choose|id: StreamItemId|
        id.number() == starts_after(key) && s.args[2] == SqlArg::Text(#[trigger] id.text());
    lemma_forward_cut(s, rows, got, id, m);
    lemma_page_of(read@, got, limit, ReadDirection::Forward, read, answer);
}

/// Whether a page holds the rows from a place on, as many as its limit says at most.
pub open spec fn page_from(page: StreamPage, rows: Seq<StreamItem>, m: int, limit: u32) -> bool {
    &&& page.items@.len() == at_most(rows.len() - m, limit as int)
    &&& forall|i: int| 0 <= i < page.items@.len() ==> #[trigger] page.items@[i] == rows[m + i]
    &&& page.has_more <==> rows.len() - m > limit
    &&& page.items@.len() == 0 ==> page.last_evaluated_key is None
    &&& page.items@.len() > 0 ==> page.last_evaluated_key == Some(page.items@.last().id)
}

/// Whether a page holds the rows before a place, the last first, as many as its limit says
/// at most.
pub open spec fn page_back_from(page: StreamPage, rows: Seq<StreamItem>, m: int, limit: u32) -> bool {
    &&& page.items@.len() == at_most(m, limit as int)
    &&& forall|i: int| 0 <= i < page.items@.len() ==> #[trigger] page.items@[i] == rows[m - 1 - i]
    &&& page.has_more <==> m > limit
    &&& page.items@.len() == 0 ==> page.last_evaluated_key is None
    &&& page.items@.len() > 0 ==> page.last_evaluated_key == Some(page.items@.last().id)
}

proof fn lemma_forward_cut(
    s: StatementView,
    rows: Seq<StreamItem>,
    got: Seq<StreamItem>,
    id: StreamItemId,
    m: int,
)
    requires
        s.args[2] == SqlArg::Text(id.text()),
        gives_forward(s, rows, got),
        greater_from(rows, id.number(), m),
    ensures
        got == rows.subrange(
            m,
            if m + s.args[3]->Integer_0 < rows.len() {
                m + s.args[3]->Integer_0
            } else {
                rows.len() as int
            },
        ),
{
    let k = choose|k: int| #[trigger]
        texts_after(rows, s.args[2]->Text_0, k) && got == rows.subrange(
            k,
            if k + s.args[3]->Integer_0 < rows.len() {
                k + s.args[3]->Integer_0
            } else {
                rows.len() as int
            },
        );
    if k < m {
        law_stream_item_id_text_order(id, rows[k].id);
    } else if m < k {
        law_stream_item_id_text_order(id, rows[m].id);
    }
}

proof fn lemma_backward_cut(
    s: StatementView,
    rows: Seq<StreamItem>,
    got: Seq<StreamItem>,
    id: StreamItemId,
    m: int,
)
    requires
        s.args[2] == SqlArg::Text(id.text()),
        gives_backward(s, rows, got),
        less_before(rows, id.number(), m),
    ensures
        got == rows.subrange(
            if m - s.args[3]->Integer_0 > 0 {
                m - s.args[3]->Integer_0
            } else {
                0
            },
            m,
        ).reverse(),
{
    let k = choose|k: int| #[trigger]
        texts_before(rows, s.args[2]->Text_0, k) && got == rows.subrange(
            if k - s.args[3]->Integer_0 > 0 {
                k - s.args[3]->Integer_0
            } else {
                0
            },
            k,
        ).reverse();
    if k < m {
        law_stream_item_id_text_order(rows[k].id, id);
    } else if m < k {
        law_stream_item_id_text_order(rows[m].id, id);
    }
}

proof fn lemma_page_of(
    rows: Seq<StreamItemRow>,
    got: Seq<StreamItem>,
    limit: u32,
    direction: ReadDirection,
    read: Vec<StreamItemRow>,
    answer: Result<StreamPage, StreamError>,
)
    requires
        read@ == rows,
        items_of(rows, got),
        call_ensures(
            read_result,
            (Ok::<Vec<StreamItemRow>, String>(read), limit, direction),
            answer,
        ),
    ensures
        answer is Ok,
        answer->Ok_0.has_more <==> got.len() > limit,
        answer->Ok_0.items@ == got.take(at_most(got.len() as int, limit as int)),
        answer->Ok_0.items@.len() == 0 ==> answer->Ok_0.last_evaluated_key is None,
        answer->Ok_0.items@.len() > 0 ==> answer->Ok_0.last_evaluated_key == Some(
            answer->Ok_0.items@.last().id,
        ),
{
    lemma_items_unique(rows, got, got);
    let page = answer->Ok_0;
    let items = choose|items: Seq<StreamItem>|
        items_of(read@, items) && #[trigger] is_page(items, limit as nat, page);
    lemma_items_unique(rows, got, items);
    assert(page.items@ =~= got.take(at_most(got.len() as int, limit as int)));
}

/// A backward read is of its stream, binds the very id that it is given as its position,
/// and asks for one row more than the page holds; of limits only those from 1 to 1000 are
/// accepted.
pub proof fn law_backward_reads_bind_their_id(
    stream_name: &str,
    from: Option<StreamItemId>,
    limit: u32,
    made: Result<Statement, StreamError>,
)
    requires
        call_ensures(read_backward, (stream_name, from, limit), made),
    ensures
        made is Ok <==> 1 <= limit <= 1000,
        made matches Err(e) ==> (e matches StreamError::Validation { message } && message@
            == "Limit must be between 1 and 1000"@),
        made matches Ok(s) ==> {
            &&& s@.sql == READ_STREAM_BACKWARD@
            &&& s@.args.len() == 4
            &&& s@.args[0] == SqlArg::Text(stream_name@)
            &&& s@.args[1] == SqlArg::Text(stream_name@)
            &&& s@.args[3] == SqlArg::Integer(limit + 1)
            &&& from matches Some(id) ==> s@.args[2] == SqlArg::Text(id.text())
            &&& exists|id: StreamItemId|
                id.number() == starts_before(from) && s@.args[2] == SqlArg::Text(
                    #[trigger] id.text(),
                )
        },
{
    if made is Ok {
        let id = match from {
            Some(id) => id,
            None => StreamItemId { high: 0xffff_ffff, low: 0xffff_ffff_ffff_ffff },
        };
        assert(made->Ok_0@.args[2] == SqlArg::Text(id.text()));
        assert(id.number() == starts_before(from));
    }
}

/// A page that is read backward holds exactly the rows with the greatest ids below the one
/// that it is read from, the greatest first; it tells whether there are more, and the key
/// of the last.
pub proof fn law_backward_pages_hold_what_comes_before(
    stream_name: &str,
    from: Option<StreamItemId>,
    limit: u32,
    made: Result<Statement, StreamError>,
    rows: Seq<StreamItem>,
    got: Seq<StreamItem>,
    read: Vec<StreamItemRow>,
    answer: Result<StreamPage, StreamError>,
    m: int,
)
    requires
        call_ensures(read_backward, (stream_name, from, limit), made),
        made is Ok,
        by_id(rows),
        gives_backward(made->Ok_0@, rows, got),
        items_of(read@, got),
        call_ensures(
            read_result,
            (Ok::<Vec<StreamItemRow>, String>(read), limit, ReadDirection::Backward),
            answer,
        ),
        less_before(rows, starts_before(from), m),
    ensures
        answer is Ok,
        page_back_from(answer->Ok_0, rows, m, limit),
{
    law_backward_reads_bind_their_id(stream_name, from, limit, made);
    let s = made->Ok_0@;
    let id = choose|id: StreamItemId|
        id.number() == starts_before(from) && s.args[2] == SqlArg::Text(#[trigger] id.text());
    lemma_backward_cut(s, rows, got, id, m);
    lemma_page_of(read@, got, limit, ReadDirection::Backward, read, answer);
}

/// The page that is read backward from the last key of a page shares no row with it.
pub proof fn law_backward_pages_share_no_row(
    rows: Seq<StreamItem>,
    limit: u32,
    m: int,
    page: StreamPage,
    n: int,
    next: StreamPage,
)
    requires
        by_id(rows),
        0 <= m <= rows.len(),
        page_back_from(page, rows, m, limit),
        page.last_evaluated_key is Some,
        less_before(rows, starts_before(page.last_evaluated_key), n),
        page_back_from(next, rows, n, limit),
    ensures
        n == m - page.items@.len(),
        forall|i: int, j: int|
            0 <= i < page.items@.len() && 0 <= j < next.items@.len() ==> (
            #[trigger] page.items@[i]).id != (#[trigger] next.items@[j]).id,
{
    let last = m - page.items@.len();
    assert(page.items@[page.items@.len() - 1] == rows[last]);
    if n < last {
        assert(rows[n].id.number() < rows[last].id.number());
    } else if n > last {
        assert(rows[last].id.number() < rows[last].id.number());
    }
    assert forall|i: int, j: int|
        0 <= i < page.items@.len() && 0 <= j < next.items@.len() implies (
    #[trigger] page.items@[i]).id != (#[trigger] next.items@[j]).id by {
        assert(rows[n - 1 - j].id.number() < rows[m - 1 - i].id.number());
    }
}

/// What a read fails with is told in words that name the direction.
pub proof fn law_failed_reads_are_told(
    words: String,
    limit: u32,
    direction: ReadDirection,
    answer: Result<StreamPage, StreamError>,
)
    requires
        call_ensures(
            read_result,
            (Err::<Vec<StreamItemRow>, String>(words), limit, direction),
            answer,
        ),
    ensures
        answer matches Err(StreamError::Internal { message }) && message@ == (match direction {
            ReadDirection::Forward => "read stream forward failed: "@,
            ReadDirection::Backward => "read stream backward failed: "@,
        }) + words@,
{
}

/// What is appended is stored in its stream under an id that the answer gives, as text
/// data, and reads back as it was given.
pub proof fn law_appended_rows_read_back(
    stream_name: &str,
    data: &[u8],
    created_at: i64,
    id: StreamItemId,
    appended: (StreamItemId, Statement),
    with_id: Statement,
    row: StreamItemRow,
    item: StreamItem,
    changed: usize,
    answer: Result<StreamItemId, StreamError>,
)
    requires
        call_ensures(append_item, (stream_name, data, created_at), appended),
        call_ensures(append_item_with_id, (stream_name, id, data, created_at), with_id),
        call_ensures(append_item_result, (appended.0, Ok::<usize, String>(changed)), answer),
        row_stored_by(appended.1@, row),
        item_of(row, item),
    ensures
        stores_row(appended.1@, stream_name@, appended.0, data@, created_at, 0),
        stores_row(with_id@, stream_name@, id, data@, created_at, 0),
        answer == Ok::<StreamItemId, StreamError>(appended.0),
        item.id == appended.0,
        item.stream_name@ == stream_name@,
        item.data@ == data@,
        item.created_at == created_at,
        item.data_type == StreamDataType::Text,
{
    law_stored_rows_read_back(
        stream_name@,
        appended.0,
        data@,
        created_at,
        StreamDataType::Text,
        row,
        item,
    );
}

/// A stream is created only where there is none of its name: it is stored under its name
/// and its internal name, which is the one that is answered.
pub proof fn law_created_streams_are_stored(
    name: &str,
    ttl_seconds: Option<u32>,
    created_at: i64,
    started: (NewStream, CreateStreamStep),
    found: bool,
    checked: CreateStreamStep,
    changed: usize,
    ended: CreateStreamStep,
)
    requires
        call_ensures(start_create_stream, (name, ttl_seconds, created_at), started),
        call_ensures(
            create_stream,
            (&started.0, CreateStreamState::Checking, CreateStreamEvent::Checked(Ok(found))),
            checked,
        ),
        call_ensures(
            create_stream,
            (&started.0, CreateStreamState::Inserting, CreateStreamEvent::Inserted(Ok(changed))),
            ended,
        ),
    ensures
        started.1 matches Step::Perform { action: StreamAction::Exists(s), .. } && s@ == (
        StatementView { sql: CHECK_STREAM_EXISTS@, args: seq![SqlArg::Text(name@)] }),
        found ==> (checked matches Step::Finish(
            Err(StreamError::StreamAlreadyExists { name: taken }),
        ) && taken@ == name@),
        !found ==> (checked matches Step::Perform { action: StreamAction::Run(s), .. } && s@.sql
            == INSERT_NEW_STREAM@ && s@.args.len() == 5 && s@.args[0] == SqlArg::Text(name@)
            && s@.args[1] == SqlArg::Text(started.0.internal_id@) && s@.args[2] == (
        match ttl_seconds {
            Some(n) => SqlArg::Integer(n as int),
            None => SqlArg::Null,
        }) && s@.args[3] == SqlArg::Integer(created_at as int) && s@.args[4] == SqlArg::Integer(
            created_at as int,
        )),
        ended matches Step::Finish(Ok(internal)) && internal@ == started.0.internal_id@,
{
}

/// Deleting a stream removes its cursors and rows by its internal name and the stream by
/// its own; it succeeds exactly where the stream was there.
pub proof fn law_deleted_streams_are_gone(
    name: &str,
    internal: &str,
    lookup: Statement,
    list: Vec<Statement>,
    removed: usize,
    answer: Result<(), StreamError>,
)
    requires
        call_ensures(read_stream_to_delete, (name,), lookup),
        call_ensures(delete_stream, (name, internal), list),
        call_ensures(delete_stream_result, (name, Ok::<usize, String>(removed)), answer),
    ensures
        lookup@ == (StatementView {
            sql: GET_STREAM_INTERNAL_ID@,
            args: seq![SqlArg::Text(name@)],
        }),
        list@.len() == 3,
        list@[0]@ == (StatementView {
            sql: DELETE_STREAM_CURSORS@,
            args: seq![SqlArg::Text(internal@)],
        }),
        list@[1]@ == (StatementView {
            sql: DELETE_STREAM_ITEMS@,
            args: seq![SqlArg::Text(internal@)],
        }),
        list@[2]@ == (StatementView { sql: DELETE_USER_STREAM@, args: seq![SqlArg::Text(name@)] }),
        answer is Ok <==> removed > 0,
        removed == 0 ==> (answer matches Err(StreamError::StreamNotFound { name: missing })
            && missing@ == name@),
{
    assert(statements(list@).len() == 3);
    assert(statements(list@)[0] == list@[0]@);
    assert(statements(list@)[1] == list@[1]@);
    assert(statements(list@)[2] == list@[2]@);
}

/// A stream reads as it is stored.
pub proof fn law_streams_read_as_stored(
    row: Option<Stream>,
    answer: Result<Option<Stream>, StreamError>,
)
    requires
        call_ensures(get_stream_result, (Ok::<Option<Stream>, String>(row),), answer),
    ensures
        answer == Ok::<Option<Stream>, StreamError>(row),
{
}

/// Whether a statement finds a cursor: by its name, then its stream.
pub open spec fn finds_cursor(s: StatementView, sql: Seq<char>, cursor: CursorRef) -> bool {
    s.sql == sql && s.args == seq![
        SqlArg::Text(cursor.cursor_name@),
        SqlArg::Text(cursor.stream_name@),
    ]
}

/// What is done to a cursor begins by finding it, by its name and its stream.
pub proof fn law_cursors_are_found_by_name_and_stream(
    cursor: CursorRef,
    limit: u32,
    created: CreateCursorStep,
    read: ReadCursorStep,
    advanced: AdvanceCursorStep,
    deleted: Statement,
    removed: usize,
    answer: Result<(), StreamError>,
)
    requires
        call_ensures(start_create_cursor, (&cursor,), created),
        call_ensures(start_read_from_cursor, (&cursor, limit), read),
        call_ensures(start_advance_cursor, (&cursor,), advanced),
        call_ensures(delete_cursor_statement, (&cursor,), deleted),
        call_ensures(delete_cursor_result, (&cursor, Ok::<usize, String>(removed)), answer),
    ensures
        created matches Step::Perform { action: StreamAction::Exists(s), .. } && finds_cursor(
            s@,
            CHECK_CURSOR_EXISTS@,
            cursor,
        ),
        advanced matches Step::Perform { action: StreamAction::Exists(s), .. } && finds_cursor(
            s@,
            CHECK_CURSOR_EXISTS@,
            cursor,
        ),
        1 <= limit <= 1000 ==> (read matches Step::Perform {
            action: StreamAction::QueryText(s),
            ..
        } && finds_cursor(s@, GET_CURSOR_POSITION@, cursor)),
        limit == 0 || limit > 1000 ==> (read matches Step::Finish(
            Err(StreamError::Validation { message }),
        ) && message@ == "Limit must be between 1 and 1000"@),
        finds_cursor(deleted@, DELETE_CURSOR@, cursor),
        answer is Ok <==> removed > 0,
        removed == 0 ==> (answer matches Err(StreamError::CursorNotFound { name }) && name@
            == cursor.cursor_name@),
{
}

/// Whether a step stores a cursor at a position.
pub open spec fn stores_cursor(
    step: CreateCursorStep,
    cursor: CursorRef,
    position: StreamItemId,
    created_at: i64,
) -> bool {
    step matches Step::Perform { action: StreamAction::Run(s), .. } && s@.sql == INSERT_CURSOR@
        && s@.args == seq![
        SqlArg::Text(cursor.cursor_name@),
        SqlArg::Text(cursor.stream_name@),
        SqlArg::Text(position.text()),
        SqlArg::Integer(created_at as int),
    ]
}

/// A cursor is created only where there is none of its name. At the head of a stream it
/// stands before every row; at the tail it stands at the last row, so that no row that is
/// there comes after it.
pub proof fn law_cursors_stand_at_the_head_or_the_tail(
    cursor: CursorRef,
    position: CursorPosition,
    created_at: i64,
    found: bool,
    checked: CreateCursorStep,
    latest: Option<String>,
    placed: CreateCursorStep,
    rows: Seq<StreamItem>,
    changed: usize,
    ended: CreateCursorStep,
)
    requires
        call_ensures(
            create_cursor,
            (
                &cursor,
                position,
                created_at,
                CreateCursorState::Checking,
                CreateCursorEvent::Checked(Ok(found)),
            ),
            checked,
        ),
        call_ensures(
            create_cursor,
            (
                &cursor,
                position,
                created_at,
                CreateCursorState::ReadingLatest,
                CreateCursorEvent::LatestRead(Ok(latest)),
            ),
            placed,
        ),
        call_ensures(
            create_cursor,
            (
                &cursor,
                position,
                created_at,
                CreateCursorState::Inserting,
                CreateCursorEvent::Inserted(Ok(changed)),
            ),
            ended,
        ),
        by_id(rows),
        latest is None ==> rows.len() == 0,
        latest matches Some(text) ==> rows.len() > 0 && text@ == rows.last().id.text(),
    ensures
        found ==> (checked matches Step::Finish(Err(StreamError::CursorAlreadyExists { name }))
            && name@ == cursor.cursor_name@),
        !found && position == CursorPosition::Head ==> exists|at: StreamItemId| #[trigger]
            stores_cursor(checked, cursor, at, created_at) && forall|i: int|
                0 <= i < rows.len() && (#[trigger] rows[i]).id.number() > 0 ==> text_before(
                    at.text(),
                    rows[i].id.text(),
                ),
        !found && position == CursorPosition::Tail ==> (checked matches Step::Perform {
            action: StreamAction::QueryText(s),
            ..
        } && s@ == (StatementView {
            sql: GET_LATEST_ITEM_FOR_CURSOR@,
            args: seq![SqlArg::Text(cursor.stream_name@)],
        })),
        exists|at: StreamItemId| #[trigger]
            stores_cursor(placed, cursor, at, created_at) && (latest is Some ==> at
                == rows.last().id) && (latest is None ==> 0 < at.number()
                < 0xffff_ffff_ffff_ffff_ffff_ffff) && forall|i: int|
                0 <= i < rows.len() ==> !text_before(at.text(), (#[trigger] rows[i]).id.text()),
        ended matches Step::Finish(Ok(_)),
{
    if !found && position == CursorPosition::Head {
        let at = StreamItemId { high: 0, low: 0 };
        assert(stores_cursor(checked, cursor, at, created_at));
        assert forall|i: int|
            0 <= i < rows.len() && (#[trigger] rows[i]).id.number() > 0 implies text_before(
            at.text(),
            rows[i].id.text(),
        ) by {
            law_stream_item_id_text_order(at, rows[i].id);
        }
    }
    if latest is Some {
        let at = rows.last().id;
        law_stream_item_id_round_trip(at);
        assert(stores_cursor(placed, cursor, at, created_at));
        assert forall|i: int| 0 <= i < rows.len() implies !text_before(
            at.text(),
            (#[trigger] rows[i]).id.text(),
        ) by {
            law_stream_item_id_text_order(at, rows[i].id);
            if i < rows.len() - 1 {
                assert(rows[i].id.number() < rows[rows.len() - 1].id.number());
            }
        }
    } else {
        let at = choose|at: StreamItemId|
            at.is_version_7() && #[trigger] crate::stream_cursor::inserts_cursor(
                cursor,
                at,
                created_at,
                placed,
            );
        assert(stores_cursor(placed, cursor, at, created_at));
    }
}

/// Reading from a cursor gives the rows that come after where it stands, in order, and
/// tells where it stands; the cursor itself stays.
pub proof fn law_cursors_read_what_comes_after_them(
    cursor: CursorRef,
    limit: u32,
    position: StreamItemId,
    found: String,
    asked: ReadCursorStep,
    rows: Seq<StreamItem>,
    got: Seq<StreamItem>,
    read: Vec<StreamItemRow>,
    ended: ReadCursorStep,
    m: int,
)
    requires
        1 <= limit <= 1000,
        found@ == position.text(),
        call_ensures(
            read_from_cursor,
            (
                &cursor,
                limit,
                ReadCursorState::ReadingPosition,
                ReadCursorEvent::PositionRead(Ok(Some(found))),
            ),
            asked,
        ),
        by_id(rows),
        gives_forward(asked->action->QueryRows_0@, rows, got),
        items_of(read@, got),
        call_ensures(
            read_from_cursor,
            (&cursor, limit, asked->state, ReadCursorEvent::RowsRead(Ok(read))),
            ended,
        ),
        greater_from(rows, position.number(), m),
    ensures
        asked matches Step::Perform { action: StreamAction::QueryRows(s), .. } && s@.sql
            == READ_STREAM_FORWARD@ && s@.args == seq![
            SqlArg::Text(cursor.stream_name@),
            SqlArg::Text(cursor.stream_name@),
            SqlArg::Text(position.text()),
            SqlArg::Integer(limit + 1),
        ],
        ended matches Step::Finish(Ok(page)) && page.cursor_position == position && page.items@.len()
            == at_most(rows.len() - m, limit as int) && page.has_more == (rows.len() - m > limit)
            && forall|i: int|
            0 <= i < page.items@.len() ==> #[trigger] page.items@[i] == rows[m + i],
{
    law_stream_item_id_round_trip(position);
    lemma_forward_cut(asked->action->QueryRows_0@, rows, got, position, m);
    lemma_items_unique(read@, got, got);
    let page = ended->Finish_0->Ok_0;
    let items = choose|items: Seq<StreamItem>|
        items_of(read@, items) && #[trigger] are_first(
            items,
            limit as nat,
            page.items@,
            page.has_more,
        );
    lemma_items_unique(read@, got, items);
}

/// Reading from a cursor that is not there says so.
pub proof fn law_missing_cursors_are_told(
    cursor: CursorRef,
    limit: u32,
    state: ReadCursorState,
    ended: ReadCursorStep,
)
    requires
        call_ensures(
            read_from_cursor,
            (&cursor, limit, state, ReadCursorEvent::PositionRead(Ok(None))),
            ended,
        ),
    ensures
        ended matches Step::Finish(Err(StreamError::CursorNotFound { name })) && name@
            == cursor.cursor_name@,
{
}

/// A cursor moves only where it is there and the row is in its stream, and then to that
/// very row.
pub proof fn law_cursors_move_to_rows_of_their_stream(
    cursor: CursorRef,
    to: StreamItemId,
    found: bool,
    looked: AdvanceCursorStep,
    there: bool,
    moved: AdvanceCursorStep,
    changed: usize,
    ended: AdvanceCursorStep,
)
    requires
        call_ensures(
            advance_cursor,
            (
                &cursor,
                to,
                AdvanceCursorState::CheckingCursor,
                AdvanceCursorEvent::CursorChecked(Ok(found)),
            ),
            looked,
        ),
        call_ensures(
            advance_cursor,
            (
                &cursor,
                to,
                AdvanceCursorState::CheckingItem,
                AdvanceCursorEvent::ItemChecked(Ok(there)),
            ),
            moved,
        ),
        call_ensures(
            advance_cursor,
            (&cursor, to, AdvanceCursorState::Moving, AdvanceCursorEvent::Moved(Ok(changed))),
            ended,
        ),
    ensures
        !found ==> (looked matches Step::Finish(Err(StreamError::CursorNotFound { name })) && name@
            == cursor.cursor_name@),
        found ==> (looked matches Step::Perform {
            state: AdvanceCursorState::CheckingItem,
            action: StreamAction::Exists(s),
        } && s@.sql == CHECK_ITEM_EXISTS_FOR_ADVANCE@ && s@.args == seq![
            SqlArg::Text(to.text()),
            SqlArg::Text(cursor.stream_name@),
        ]),
        !there ==> (moved matches Step::Finish(Err(StreamError::Validation { message })) && message@
            == "Target item not found in stream"@),
        there ==> (moved matches Step::Perform {
            state: AdvanceCursorState::Moving,
            action: StreamAction::Run(s),
        } && s@.sql == ADVANCE_CURSOR_POSITION@ && s@.args == seq![
            SqlArg::Text(to.text()),
            SqlArg::Text(cursor.cursor_name@),
            SqlArg::Text(cursor.stream_name@),
        ]),
        ended matches Step::Finish(Ok(_)),
{
}

/// A cursor that was stored at a position reads as standing there.
pub proof fn law_cursors_read_back_where_they_stand(
    row: CursorRow,
    position: StreamItemId,
    answer: Result<Option<StreamCursor>, StreamError>,
)
    requires
        row.position@ == position.text(),
        call_ensures(get_cursor_result, (Ok::<Option<CursorRow>, String>(Some(row)),), answer),
    ensures
        answer matches Ok(Some(cursor)) && cursor.position == position && cursor.name == row.name
            && cursor.stream_name == row.stream_name && cursor.created_at == row.created_at,
{
    law_stream_item_id_round_trip(position);
}

/// What the database fails with ends an operation on a cursor or a stream with that
/// failure, in words that name the operation.
pub proof fn law_failures_of_the_database_are_told(
    cursor: CursorRef,
    limit: u32,
    position: CursorPosition,
    created_at: i64,
    to: StreamItemId,
    stream: NewStream,
    words: String,
    created: CreateCursorStep,
    read: ReadCursorStep,
    advanced: AdvanceCursorStep,
    made: CreateStreamStep,
    appended: Result<StreamItemId, StreamError>,
)
    requires
        call_ensures(
            create_cursor,
            (
                &cursor,
                position,
                created_at,
                CreateCursorState::Checking,
                CreateCursorEvent::Checked(Err(words)),
            ),
            created,
        ) || call_ensures(
            create_cursor,
            (
                &cursor,
                position,
                created_at,
                CreateCursorState::ReadingLatest,
                CreateCursorEvent::LatestRead(Err(words)),
            ),
            created,
        ) || call_ensures(
            create_cursor,
            (
                &cursor,
                position,
                created_at,
                CreateCursorState::Inserting,
                CreateCursorEvent::Inserted(Err(words)),
            ),
            created,
        ),
        exists|state: ReadCursorState| #[trigger]
            call_ensures(
                read_from_cursor,
                (&cursor, limit, state, ReadCursorEvent::PositionRead(Err(words))),
                read,
            ) || call_ensures(
                read_from_cursor,
                (&cursor, limit, state, ReadCursorEvent::RowsRead(Err(words))),
                read,
            ),
        call_ensures(
            advance_cursor,
            (
                &cursor,
                to,
                AdvanceCursorState::CheckingCursor,
                AdvanceCursorEvent::CursorChecked(Err(words)),
            ),
            advanced,
        )
            || call_ensures(
                advance_cursor,
                (
                    &cursor,
                    to,
                    AdvanceCursorState::CheckingItem,
                    AdvanceCursorEvent::ItemChecked(Err(words)),
                ),
                advanced,
            )
            || call_ensures(
                advance_cursor,
                (&cursor, to, AdvanceCursorState::Moving, AdvanceCursorEvent::Moved(Err(words))),
                advanced,
            ),
        call_ensures(
            create_stream,
            (&stream, CreateStreamState::Checking, CreateStreamEvent::Checked(Err(words))),
            made,
        )
            || call_ensures(
                create_stream,
                (&stream, CreateStreamState::Inserting, CreateStreamEvent::Inserted(Err(words))),
                made,
            ),
        call_ensures(append_item_result, (to, Err::<usize, String>(words)), appended),
    ensures
        created matches Step::Finish(Err(StreamError::Internal { message })) && message@
            == "create cursor failed: "@ + words@,
        read matches Step::Finish(Err(StreamError::Internal { message })) && message@
            == "read from cursor failed: "@ + words@,
        advanced matches Step::Finish(Err(StreamError::Internal { message })) && message@
            == "advance cursor failed: "@ + words@,
        made matches Step::Finish(Err(StreamError::Internal { message })) && message@
            == "create stream failed: "@ + words@,
        appended matches Err(StreamError::Internal { message }) && message@
            == "append stream item failed: "@ + words@,
{
}


/// Two backward reads, the second from the last key of the first: the second page begins
/// right where the first ended, and no row is on both.
pub proof fn law_backward_reads_go_on_from_the_last_key(
    stream_name: &str,
    from: Option<StreamItemId>,
    limit: u32,
    rows: Seq<StreamItem>,
    m: int,
    made: Result<Statement, StreamError>,
    got: Seq<StreamItem>,
    read: Vec<StreamItemRow>,
    answer: Result<StreamPage, StreamError>,
    again: Result<Statement, StreamError>,
    got_again: Seq<StreamItem>,
    read_again: Vec<StreamItemRow>,
    next: Result<StreamPage, StreamError>,
)
    requires
        by_id(rows),
        less_before(rows, starts_before(from), m),
        m > 0,
        call_ensures(read_backward, (stream_name, from, limit), made),
        made is Ok,
        gives_backward(made->Ok_0@, rows, got),
        items_of(read@, got),
        call_ensures(
            read_result,
            (Ok::<Vec<StreamItemRow>, String>(read), limit, ReadDirection::Backward),
            answer,
        ),
        call_ensures(
            read_backward,
            (stream_name, answer->Ok_0.last_evaluated_key, limit),
            again,
        ),
        again is Ok,
        gives_backward(again->Ok_0@, rows, got_again),
        items_of(read_again@, got_again),
        call_ensures(
            read_result,
            (Ok::<Vec<StreamItemRow>, String>(read_again), limit, ReadDirection::Backward),
            next,
        ),
    ensures
        answer is Ok && answer->Ok_0.items@.len() > 0,
        again->Ok_0@.args[2] == SqlArg::Text(answer->Ok_0.items@.last().id.text()),
        next is Ok,
        page_back_from(next->Ok_0, rows, m - answer->Ok_0.items@.len(), limit),
        forall|i: int, j: int|
            0 <= i < answer->Ok_0.items@.len() && 0 <= j < next->Ok_0.items@.len() ==> (
            #[trigger] answer->Ok_0.items@[i]).id != (#[trigger] next->Ok_0.items@[j]).id,
{
    law_backward_reads_bind_their_id(stream_name, from, limit, made);
    law_backward_pages_hold_what_comes_before(
        stream_name,
        from,
        limit,
        made,
        rows,
        got,
        read,
        answer,
        m,
    );
    let page = answer->Ok_0;
    let n = m - page.items@.len();
    let key = page.items@.last().id;
    assert(page.items@[page.items@.len() - 1] == rows[n]);
    assert(page.last_evaluated_key == Some(key));
    assert(less_before(rows, key.number(), n)) by {
        assert forall|i: int| 0 <= i < n implies (#[trigger] rows[i]).id.number()
            < key.number() by {
            assert(rows[i].id.number() < rows[n].id.number());
        }
        assert forall|i: int| n <= i < rows.len() implies (#[trigger] rows[i]).id.number()
            >= key.number() by {
            if i > n {
                assert(rows[n].id.number() < rows[i].id.number());
            }
        }
    }
    law_backward_reads_bind_their_id(stream_name, page.last_evaluated_key, limit, again);
    law_backward_pages_hold_what_comes_before(
        stream_name,
        page.last_evaluated_key,
        limit,
        again,
        rows,
        got_again,
        read_again,
        next,
        n,
    );
    law_backward_pages_share_no_row(rows, limit, m, page, n, next->Ok_0);
}

/// Two forward reads, the second by the last key of the first: no row is on both.
pub proof fn law_forward_reads_share_no_row(
    rows: Seq<StreamItem>,
    limit: u32,
    m: int,
    page: StreamPage,
    n: int,
    next: StreamPage,
)
    requires
        by_id(rows),
        0 <= m <= rows.len(),
        page_from(page, rows, m, limit),
        page.last_evaluated_key is Some,
        greater_from(rows, starts_after(page.last_evaluated_key), n),
        page_from(next, rows, n, limit),
    ensures
        n >= m + page.items@.len(),
        forall|i: int, j: int|
            0 <= i < page.items@.len() && 0 <= j < next.items@.len() ==> (
            #[trigger] page.items@[i]).id != (#[trigger] next.items@[j]).id,
{
    let last = m + page.items@.len() - 1;
    assert(page.items@[page.items@.len() - 1] == rows[last]);
    if n <= last {
        assert(rows[last].id.number() > starts_after(page.last_evaluated_key));
    }
    assert forall|i: int, j: int|
        0 <= i < page.items@.len() && 0 <= j < next.items@.len() implies (
    #[trigger] page.items@[i]).id != (#[trigger] next.items@[j]).id by {
        assert(rows[m + i].id.number() < rows[n + j].id.number());
    }
}


} // verus!
