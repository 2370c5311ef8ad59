//! What texts of numbers and ids, and values of placeholders, come to.
use crate::error::{Item, StorageError, StreamError};
use crate::ids::{law_stream_item_id_round_trip, law_version_text_round_trip, StreamItemId};
use crate::machine::Step;
use crate::put_item::conditional_failure;
use crate::queue_provider::{
    attribute_map, attributes_of_json, get_queue_result, keys_distinct, queue_name_of_url,
    same_attributes, Queue, QueueAttribute, QueueError, QueueRow,
};
use crate::sql::{
    blob, flag, integer, optional_integer, optional_seconds, optional_text, statement, text,
    SqlValue, Statement,
};
use crate::stream_cursor::{
    create_cursor, delete_cursor_result, get_cursor_result, read_from_cursor, CreateCursorEvent,
    CreateCursorState, CreateCursorStep, CursorPosition, CursorRef, CursorRow, ReadCursorEvent,
    ReadCursorState, ReadCursorStep, StreamCursor,
};
use crate::stream_provider::{
    delete_stream_result, get_stream_result, parse_stream_item_rows, read_result, Stream,
    StreamItem, StreamItemRow, StreamPage,
};
use crate::text::{
    decimal, decimal_text, decimal_text_u128, hexadecimal, parse_decimal, signed_decimal_text,
    DecimalError,
};
use crate::types::ReadDirection;
use vstd::prelude::*;

verus! {

/// The number of a decimal digit.
pub open spec fn decimal_digit(c: char) -> int {
    c as int - '0' as int
}

/// The number of a hexadecimal digit in lower case.
pub open spec fn hexadecimal_digit(c: char) -> int {
    if c <= '9' {
        c as int - '0' as int
    } else {
        c as int - 'a' as int + 10
    }
}

/// The decimal text of a number ends with its last digit, after the text of the rest, where
/// there is a rest; the hexadecimal text likewise, in its width.
pub proof fn law_digits_are_those_of_the_number(n: nat, width: nat)
    ensures
        decimal(n).len() > 0,
        decimal_digit(decimal(n).last()) == n % 10,
        n < 10 ==> decimal(n).len() == 1,
        n >= 10 ==> decimal(n).drop_last() == decimal(n / 10),
        width > 0 ==> hexadecimal(n, width).len() > 0 && hexadecimal_digit(
            hexadecimal(n, width).last(),
        ) == n % 16 && hexadecimal(n, width).drop_last() == hexadecimal(
            n / 16,
            (width - 1) as nat,
        ),
        hexadecimal(n, 0).len() == 0,
{
    if n >= 10 {
        assert(decimal(n).drop_last() =~= decimal(n / 10));
    }
    if width > 0 {
        assert(hexadecimal(n, width).drop_last() =~= hexadecimal(n / 16, (width - 1) as nat));
    }
}

/// A number that was written reads back as itself, and a negative one is written with its
/// sign.
pub proof fn law_numbers_read_as_written(
    n: u64,
    written: String,
    large: u128,
    large_written: String,
    signed: i64,
    signed_written: String,
    s: &str,
    read: Result<u64, DecimalError>,
)
    requires
        call_ensures(decimal_text, (n,), written),
        call_ensures(decimal_text_u128, (large,), large_written),
        call_ensures(signed_decimal_text, (signed,), signed_written),
        s@ == written@,
        call_ensures(parse_decimal, (s,), read),
    ensures
        written@ == decimal(n as nat),
        read == Ok::<u64, DecimalError>(n),
        large_written@ == decimal(large as nat),
        signed >= 0 ==> signed_written@ == decimal(signed as nat),
        signed < 0 ==> signed_written@ == "-"@ + decimal((-signed) as nat),
{
    law_version_text_round_trip(n);
}

/// A text that is no number is refused for the reason: it is empty, or holds something that
/// is no digit.
pub proof fn law_texts_that_are_no_numbers_are_refused(
    s: &str,
    read: Result<u64, DecimalError>,
)
    requires
        call_ensures(parse_decimal, (s,), read),
    ensures
        s@.len() == 0 ==> read == Err::<u64, DecimalError>(DecimalError::Empty),
        s@.len() > 0 && s@[0] != '+' && !('0' <= s@[0] && s@[0] <= '9') ==> read == Err::<
            u64,
            DecimalError,
        >(DecimalError::InvalidDigit),
        s@ == seq!['+'] ==> read == Err::<u64, DecimalError>(DecimalError::InvalidDigit),
{
}

/// An id that was written reads back as itself; a text of another length is no id.
pub proof fn law_ids_read_as_written(
    id: StreamItemId,
    written: String,
    s: &str,
    read: Option<StreamItemId>,
    other: &str,
    refused: Option<StreamItemId>,
)
    requires
        call_ensures(StreamItemId::to_text, (id,), written),
        s@ == written@,
        call_ensures(StreamItemId::parse, (s,), read),
        other@.len() != 24,
        call_ensures(StreamItemId::parse, (other,), refused),
    ensures
        written@ == hexadecimal(id.number(), 24),
        read == Some(id),
        refused is None,
{
    law_stream_item_id_round_trip(id);
}

/// Ids are numbers of twelve bytes: the next one is greater by one, that of a version is
/// the version, and that of a UUID is its leading bytes.
pub proof fn law_ids_are_numbers(
    id: StreamItemId,
    next: StreamItemId,
    version: u64,
    of_version: StreamItemId,
    back: u64,
    uuid: u128,
    of_uuid: StreamItemId,
    least: StreamItemId,
    greatest: StreamItemId,
)
    requires
        call_ensures(StreamItemId::increment, (id,), next),
        call_ensures(StreamItemId::from_version, (version,), of_version),
        call_ensures(StreamItemId::version, (of_version,), back),
        call_ensures(StreamItemId::from_uuid, (uuid,), of_uuid),
        call_ensures(StreamItemId::nil, (), least),
        call_ensures(StreamItemId::max, (), greatest),
    ensures
        id.number() < 0xffff_ffff_ffff_ffff_ffff_ffff ==> next.number() == id.number() + 1,
        id.number() == 0xffff_ffff_ffff_ffff_ffff_ffff ==> next == id,
        of_version.number() == version,
        back == version,
        of_uuid.number() == uuid as nat / 0x1_0000_0000,
        least.number() == 0,
        greatest.number() == 0xffff_ffff_ffff_ffff_ffff_ffff,
{
}

/// Values of placeholders are those that were given; what is missing is null, and a flag
/// is one or zero.
pub proof fn law_values_are_those_given(
    s: &str,
    n: i64,
    b: bool,
    bytes: &[u8],
    some_text: Option<&str>,
    seconds: Option<u32>,
    number: Option<i64>,
    values: (SqlValue, SqlValue, SqlValue, SqlValue),
    optional: (SqlValue, SqlValue, SqlValue),
    sql: &'static str,
    params: Vec<SqlValue>,
    made: Statement,
)
    requires
        call_ensures(text, (s,), values.0),
        call_ensures(integer, (n,), values.1),
        call_ensures(flag, (b,), values.2),
        call_ensures(blob, (bytes,), values.3),
        call_ensures(optional_text, (some_text,), optional.0),
        call_ensures(optional_seconds, (seconds,), optional.1),
        call_ensures(optional_integer, (number,), optional.2),
        call_ensures(statement, ((sql, params),), made),
    ensures
        values.0 matches SqlValue::Text(t) && t@ == s@,
        values.1 == SqlValue::Integer(n),
        b ==> values.2 == SqlValue::Integer(1),
        !b ==> values.2 == SqlValue::Integer(0),
        values.3 matches SqlValue::Blob(copy) && copy@ == bytes@,
        some_text matches Some(given) ==> (optional.0 matches SqlValue::Text(t) && t@ == given@),
        some_text is None ==> optional.0 == SqlValue::Null,
        seconds matches Some(given) ==> (optional.1 matches SqlValue::Integer(i) && i == given),
        seconds is None ==> optional.1 == SqlValue::Null,
        number matches Some(given) ==> optional.2 == SqlValue::Integer(given),
        number is None ==> optional.2 == SqlValue::Null,
        made.sql@ == sql@,
        made.params@.len() == params@.len(),
        forall|i: int|
            0 <= i < params@.len() ==> (#[trigger] made.params@[i])@ == params@[i]@,
{
    assert(crate::sql::args(made.params).len() == made.params@.len());
    assert(crate::sql::args(params).len() == params@.len());
    assert forall|i: int| 0 <= i < params@.len() implies (#[trigger] made.params@[i])@
        == params@[i]@ by {
        assert(crate::sql::args(made.params)[i] == made.params@[i]@);
        assert(crate::sql::args(params)[i] == params@[i]@);
    }
}

/// The name of a queue is what follows the last slash of its URL, and the whole of a URL
/// without a slash.
pub proof fn law_names_follow_the_last_slash(
    queue_url: &str,
    base: Seq<char>,
    name: Seq<char>,
    found: String,
)
    requires
        forall|i: int| 0 <= i < name.len() ==> name[i] != '/',
        queue_url@ == base + seq!['/'] + name || queue_url@ == name,
        call_ensures(queue_name_of_url, (queue_url,), found),
    ensures
        found@ == name,
{
    crate::queue_provider::law_queue_name_of_url(base, name);
}

/// Attributes are the same exactly where they assign the same values to the same keys, in
/// whatever order.
pub proof fn law_attributes_are_compared_by_key(
    a: Vec<QueueAttribute>,
    b: Vec<QueueAttribute>,
    same: bool,
)
    requires
        keys_distinct(a@),
        keys_distinct(b@),
        call_ensures(same_attributes, (&a, &b), same),
    ensures
        same <==> attribute_map(a@) == attribute_map(b@),
{
}

/// A queue whose attributes cannot be read is refused, in words that tell the column and
/// the reason; where there is none, none is told.
pub proof fn law_unreadable_queues_are_told(
    row: QueueRow,
    words: Seq<char>,
    refused: Result<Option<Queue>, QueueError>,
    none: Result<Option<Queue>, QueueError>,
)
    requires
        attributes_of_json(row.attributes_json@) == Err::<Map<Seq<char>, Seq<char>>, Seq<char>>(
            words,
        ),
        call_ensures(get_queue_result, (Ok::<Option<QueueRow>, StorageError>(Some(row)),), refused),
        call_ensures(get_queue_result, (Ok::<Option<QueueRow>, StorageError>(None),), none),
    ensures
        refused matches Err(QueueError::Storage(StorageError::Database { message })) && message@
            == "Conversion error from type Text at index: "@ + "1"@ + ", "@ + words,
        none == Ok::<Option<Queue>, QueueError>(None),
{
}

/// A row or a cursor whose id cannot be read is told in words; nothing is answered then.
pub proof fn law_unreadable_ids_are_told(
    cursor: CursorRef,
    position: CursorPosition,
    created_at: i64,
    limit: u32,
    direction: ReadDirection,
    bad: String,
    rows: Vec<StreamItemRow>,
    i: int,
    parsed: Result<Vec<StreamItem>, String>,
    page: Result<StreamPage, StreamError>,
    created: CreateCursorStep,
    read: ReadCursorStep,
    row: CursorRow,
    got: Result<Option<StreamCursor>, StreamError>,
)
    requires
        bad@.len() != 24,
        0 <= i < rows@.len(),
        rows@[i].item_id@.len() != 24,
        call_ensures(parse_stream_item_rows, (rows,), parsed),
        call_ensures(
            read_result,
            (Ok::<Vec<StreamItemRow>, String>(rows), limit, direction),
            page,
        ),
        call_ensures(
            create_cursor,
            (
                &cursor,
                position,
                created_at,
                CreateCursorState::ReadingLatest,
                CreateCursorEvent::LatestRead(Ok(Some(bad))),
            ),
            created,
        ),
        call_ensures(
            read_from_cursor,
            (
                &cursor,
                limit,
                ReadCursorState::ReadingRows { position: bad },
                ReadCursorEvent::RowsRead(Ok(rows)),
            ),
            read,
        ),
        row.position@.len() != 24,
        call_ensures(get_cursor_result, (Ok::<Option<CursorRow>, String>(Some(row)),), got),
    ensures
        parsed matches Err(words) && words@ == "Invalid column type Text at index: 0, name: item_id"@,
        page matches Err(StreamError::Internal { message }) && message@ == (match direction {
            ReadDirection::Forward => "read stream forward failed: "@,
            ReadDirection::Backward => "read stream backward failed: "@,
        }) + "Invalid column type Text at index: 0, name: item_id"@,
        created matches Step::Finish(Err(StreamError::Internal { message })) && message@
            == "create cursor failed: "@ + "Invalid column type Text at index: 0, name: item_id"@,
        read matches Step::Finish(Err(StreamError::Internal { message })) && message@
            == "read from cursor failed: "@ + "Invalid column type Text at index: 0, name: item_id"@,
        got matches Err(StreamError::Internal { message }) && message@
            == "get cursor failed: Invalid column type Text at index: 0, name: position"@,
{
    assert(StreamItemId::from_text(rows@[i].item_id@) is None);
}

/// A cursor whose own position cannot be read starts at the first row, and says so in the
/// end.
pub proof fn law_unreadable_positions_are_told(
    cursor: CursorRef,
    limit: u32,
    bad: String,
    asked: ReadCursorStep,
    rows: Vec<StreamItemRow>,
    items: Seq<StreamItem>,
    ended: ReadCursorStep,
)
    requires
        bad@.len() != 24,
        call_ensures(
            read_from_cursor,
            (
                &cursor,
                limit,
                ReadCursorState::ReadingPosition,
                ReadCursorEvent::PositionRead(Ok(Some(bad))),
            ),
            asked,
        ),
        crate::stream_provider::items_of(rows@, items),
        call_ensures(
            read_from_cursor,
            (&cursor, limit, asked->state, ReadCursorEvent::RowsRead(Ok(rows))),
            ended,
        ),
    ensures
        asked matches Step::Perform {
            action: crate::stream_provider::StreamAction::QueryRows(s),
            ..
        } && s@.args.len() == 4 && s@.args[2] == crate::sql::SqlArg::Text(hexadecimal(0, 24)),
        ended matches Step::Finish(Err(StreamError::Internal { message })) && message@
            == "Unknown error during cursor read"@,
{
    assert(StreamItemId::from_text(bad@) is None);
    assert((StreamItemId { high: 0, low: 0 }).number() == 0);
    assert forall|i: int| 0 <= i < rows@.len() implies StreamItemId::from_text(
        (#[trigger] rows@[i]).item_id@,
    ) is Some by {
        assert(crate::stream_provider::item_of(rows@[i], items[i]));
    }
}

/// What the database fails with is told in words that name what was asked for.
pub proof fn law_failed_lookups_are_told(
    cursor: CursorRef,
    name: &str,
    words: String,
    stream: Result<Option<Stream>, StreamError>,
    deleted: Result<(), StreamError>,
    found: Result<Option<StreamCursor>, StreamError>,
    none: Result<Option<StreamCursor>, StreamError>,
    removed: Result<(), StreamError>,
)
    requires
        call_ensures(get_stream_result, (Err::<Option<Stream>, String>(words),), stream),
        call_ensures(delete_stream_result, (name, Err::<usize, String>(words)), deleted),
        call_ensures(get_cursor_result, (Err::<Option<CursorRow>, String>(words),), found),
        call_ensures(get_cursor_result, (Ok::<Option<CursorRow>, String>(None),), none),
        call_ensures(delete_cursor_result, (&cursor, Err::<usize, String>(words)), removed),
    ensures
        stream matches Err(StreamError::Internal { message }) && message@
            == "get stream failed: "@ + words@,
        deleted matches Err(StreamError::Internal { message }) && message@
            == "delete stream failed: "@ + words@,
        found matches Err(StreamError::Internal { message }) && message@
            == "get cursor failed: "@ + words@,
        none == Ok::<Option<StreamCursor>, StreamError>(None),
        removed matches Err(StreamError::Internal { message }) && message@
            == "delete cursor failed: "@ + words@,
{
}

/// A condition that does not hold is told with the stored item only where it was asked
/// for.
pub proof fn law_failed_conditions_tell_what_was_asked_for(
    old_item: Option<Item>,
    return_old: bool,
    error: StorageError,
)
    requires
        call_ensures(conditional_failure, (old_item, return_old), error),
    ensures
        error matches StorageError::ConditionalCheckFailed { item } && item == (if return_old {
            old_item
        } else {
            None
        }),
{
}

} // verus!
