//! What statements bind, and what preparing the tables of the streams comes to.
use crate::error::{tells_internal, StorageError};
use crate::ids::{law_stream_item_id_round_trip, law_version_text_round_trip, StreamItemId};
use crate::machine::Step;
use crate::queue_provider::{send_message_with_id, send_queue_message, QueueMessage};
use crate::sql::{args, statements, SqlArg, SqlValue, Statement};
use crate::sql_statements::{
    check_table_exists, delete_stream_item, delete_table, delete_ttl_config, get_cursor_details,
    get_gsi_backfill, get_queue, get_queue_by_name, get_stream_info, get_table_info,
    get_ttl_config, insert_table, list_all_tables, list_queues, list_tables_after,
    mark_gsi_backfill_done, trim_change_index_markers_older_than, update_gsi_backfill_progress,
    update_gsis, upsert_gsi_backfill_start, upsert_ttl_config, CHECK_TABLE_EXISTS,
    COUNT_STREAM_ITEMS, CREATE_MESSAGES_QUEUE_RECEIPT_INDEX,
    CREATE_MESSAGES_QUEUE_VISIBILITY_INDEX, CREATE_MESSAGES_TABLE, CREATE_QUEUES_TABLE,
    CREATE_STREAM_CURSORS_INTERNAL_INDEX, CREATE_STREAM_CURSORS_TABLE,
    CREATE_STREAM_FORMAT_METADATA_TABLE, CREATE_STREAM_ITEMS_INTERNAL_TIME_INDEX,
    CREATE_STREAM_ITEMS_TABLE, CREATE_USER_STREAMS_TABLE, DELETE_STREAM_ITEM, DELETE_TABLE,
    DELETE_TTL_CONFIG, GET_CURSOR_DETAILS, GET_GSI_BACKFILL, GET_QUEUE, GET_QUEUE_BY_NAME,
    GET_STREAM_FORMAT_VERSION, GET_STREAM_INFO, GET_TABLE_INFO, GET_TTL_CONFIG, INSERT_TABLE,
    LIST_ALL_QUEUES, LIST_ALL_TABLES, LIST_QUEUES_WITH_PREFIX, LIST_STREAM_POINTER_PAYLOADS,
    LIST_TABLES_AFTER, MARK_GSI_BACKFILL_DONE, TRIM_CHANGE_INDEX_MARKERS_OLDER_THAN, UPDATE_GSIS,
    UPDATE_GSI_BACKFILL_PROGRESS, UPSERT_GSI_BACKFILL_START, UPSERT_STREAM_FORMAT_VERSION,
    UPSERT_TTL_CONFIG,
};
use crate::storage_provider::{guarded_write_actions, GuardedAction, GuardedWrite};
use crate::stream_duration::{
    decode_marker_failed, decode_state_failed, initialize_stream_duration_tables, prefixed,
    stream_name_for_scope, StreamTrimScope, CREATE_STREAM_POINTER_INDEX_ITEM_INDEX,
    CREATE_STREAM_POINTER_INDEX_TABLE, CREATE_STREAM_POINTER_INDEX_TABLE_POINTER_INDEX,
    CREATE_TRIM_DUE_MARKERS_SCOPE_INDEX, CREATE_TRIM_DUE_MARKERS_TABLE, CREATE_TRIM_STATE_TABLE,
};
use crate::stream_provider::{
    initialize_stream, reject_old_pointer_payloads, start_initialize_stream, InitializeAction,
    InitializeEvent, InitializeState, InitializeStep, PointerRow,
};
use crate::stream_trim::{retained_item_pointer_boundary, stream_item_id_from_hex};
use crate::sync_raft_log_store::{
    ensure_sync_raft_command_results_table, ensure_sync_raft_tables, read_last_log_id, LogBound,
    SqliteLogRange, CREATE_COMMAND_RESULTS_TABLE, CREATE_LOG_TABLE, CREATE_METADATA_TABLE,
    READ_LAST_LOG_ID,
};
use crate::table_laws::{one_if, stored_hours};
use crate::text::{decimal, signed_decimal};
use crate::transact_laws::{
    does_not_one, does_only, has_reason, tells_count, tells_one_reason,
};
use crate::transact_write::{
    transaction_canceled_for_item_error_with_len, validate_item_count, TransactKind,
    TransactWriteItem,
};
use crate::trim_laws::is_stream_of;
use crate::types::StreamRetentionDuration;
use vstd::prelude::*;

verus! {

/// A text that may be missing, as it is stored.
pub open spec fn text_or_null(s: Option<&str>) -> SqlArg {
    match s {
        Some(s) => SqlArg::Text(s@),
        None => SqlArg::Null,
    }
}

/// A time-to-live configuration is stored, read and removed under the name of its table.
pub proof fn law_time_to_live_is_kept_by_table(
    table_name: &str,
    config: &[u8],
    stored: (&'static str, Vec<SqlValue>),
    read: (&'static str, Vec<SqlValue>),
    removed: (&'static str, Vec<SqlValue>),
)
    requires
        call_ensures(upsert_ttl_config, (table_name, config), stored),
        call_ensures(get_ttl_config, (table_name,), read),
        call_ensures(delete_ttl_config, (table_name,), removed),
    ensures
        stored.0 == UPSERT_TTL_CONFIG,
        args(stored.1) == seq![SqlArg::Text(table_name@), SqlArg::Blob(config@)],
        read.0 == GET_TTL_CONFIG,
        args(read.1) == seq![SqlArg::Text(table_name@)],
        removed.0 == DELETE_TTL_CONFIG,
        args(removed.1) == seq![SqlArg::Text(table_name@)],
{
}

/// The backfill of an index is stored, brought on, ended and read under the names of its
/// table and its index.
pub proof fn law_backfills_are_kept_by_table_and_index(
    table_name: &str,
    index_name: &str,
    status: &str,
    scan_key: Option<&str>,
    tail: Option<&str>,
    created_at: i64,
    updated_at: i64,
    started: (&'static str, Vec<SqlValue>),
    progressed: (&'static str, Vec<SqlValue>),
    done: (&'static str, Vec<SqlValue>),
    read: (&'static str, Vec<SqlValue>),
)
    requires
        call_ensures(
            upsert_gsi_backfill_start,
            (table_name, index_name, status, scan_key, tail, created_at, updated_at),
            started,
        ),
        call_ensures(
            update_gsi_backfill_progress,
            (table_name, index_name, scan_key, updated_at),
            progressed,
        ),
        call_ensures(mark_gsi_backfill_done, (table_name, index_name, updated_at), done),
        call_ensures(get_gsi_backfill, (table_name, index_name), read),
    ensures
        started.0 == UPSERT_GSI_BACKFILL_START,
        args(started.1) =~= seq![
            SqlArg::Text(table_name@),
            SqlArg::Text(index_name@),
            SqlArg::Text(status@),
            text_or_null(scan_key),
            text_or_null(tail),
            SqlArg::Integer(created_at as int),
            SqlArg::Integer(updated_at as int),
        ],
        progressed.0 == UPDATE_GSI_BACKFILL_PROGRESS,
        args(progressed.1) =~= seq![
            SqlArg::Text(table_name@),
            SqlArg::Text(index_name@),
            text_or_null(scan_key),
            SqlArg::Integer(updated_at as int),
        ],
        done.0 == MARK_GSI_BACKFILL_DONE,
        args(done.1) =~= seq![
            SqlArg::Text(table_name@),
            SqlArg::Text(index_name@),
            SqlArg::Integer(updated_at as int),
        ],
        read.0 == GET_GSI_BACKFILL,
        args(read.1) =~= seq![SqlArg::Text(table_name@), SqlArg::Text(index_name@)],
{
}

/// A table is stored as it was given, as one that is being created and holds nothing.
pub proof fn law_tables_are_stored_as_given(
    table_id: u128,
    table_name: &str,
    created_at: i64,
    attribute_definitions: &str,
    key_schema: &str,
    indexes: Option<&str>,
    stream_specification: Option<&str>,
    protected: bool,
    table_stream_duration: StreamRetentionDuration,
    item_stream_duration: StreamRetentionDuration,
    r: (&'static str, Vec<SqlValue>),
)
    requires
        call_ensures(
            insert_table,
            (
                table_id,
                table_name,
                created_at,
                attribute_definitions,
                key_schema,
                indexes,
                stream_specification,
                protected,
                table_stream_duration,
                item_stream_duration,
            ),
            r,
        ),
    ensures
        r.0 == INSERT_TABLE,
        args(r.1).len() == 13,
        args(r.1)[0] == SqlArg::Text(decimal(table_id as nat)),
        args(r.1)[1] == SqlArg::Text(table_name@),
        args(r.1)[2] == SqlArg::Text("CREATING"@),
        args(r.1)[3] == SqlArg::Integer(created_at as int),
        args(r.1)[4] == SqlArg::Text(attribute_definitions@),
        args(r.1)[5] == SqlArg::Text(key_schema@),
        args(r.1)[6] == text_or_null(indexes),
        args(r.1)[7] == SqlArg::Integer(0),
        args(r.1)[8] == SqlArg::Integer(0),
        args(r.1)[9] == text_or_null(stream_specification),
        args(r.1)[10] == SqlArg::Integer(one_if(protected)),
        args(r.1)[11] == stored_hours(table_stream_duration),
        args(r.1)[12] == stored_hours(item_stream_duration),
{
}

/// Tables are looked up, changed and removed by their names, and listed from after a name
/// on.
pub proof fn law_tables_are_found_by_name(
    table_name: &str,
    indexes: Option<&str>,
    limit: u32,
    after: String,
    checked: (&'static str, Vec<SqlValue>),
    read: (&'static str, Vec<SqlValue>),
    removed: (&'static str, Vec<SqlValue>),
    changed: (&'static str, Vec<SqlValue>),
    listed: (&'static str, Vec<SqlValue>),
    all: (&'static str, Vec<SqlValue>),
)
    requires
        call_ensures(check_table_exists, (table_name,), checked),
        call_ensures(get_table_info, (table_name,), read),
        call_ensures(delete_table, (table_name,), removed),
        call_ensures(update_gsis, (table_name, indexes), changed),
        call_ensures(list_tables_after, (limit, after), listed),
        call_ensures(list_all_tables, (limit,), all),
    ensures
        checked.0 == CHECK_TABLE_EXISTS && args(checked.1) =~= seq![SqlArg::Text(table_name@)],
        read.0 == GET_TABLE_INFO && args(read.1) =~= seq![SqlArg::Text(table_name@)],
        removed.0 == DELETE_TABLE && args(removed.1) =~= seq![SqlArg::Text(table_name@)],
        changed.0 == UPDATE_GSIS && args(changed.1) =~= seq![
            text_or_null(indexes),
            SqlArg::Text(table_name@),
        ],
        listed.0 == LIST_TABLES_AFTER && args(listed.1) =~= seq![
            SqlArg::Text(after@),
            SqlArg::Integer(limit as int),
        ],
        all.0 == LIST_ALL_TABLES && args(all.1) =~= seq![SqlArg::Integer(limit as int)],
{
}

/// Queues are read by URL, by name, or by how their names begin; rows of streams, streams
/// and cursors by their names; and changes are forgotten by their time.
pub proof fn law_lookups_bind_what_is_looked_for(
    one: &str,
    other: &str,
    id: StreamItemId,
    prefix: Option<&str>,
    time: i64,
    by_url: (&'static str, Vec<SqlValue>),
    by_name: (&'static str, Vec<SqlValue>),
    listed: (&'static str, Vec<SqlValue>),
    row: (&'static str, Vec<SqlValue>),
    stream: (&'static str, Vec<SqlValue>),
    cursor: (&'static str, Vec<SqlValue>),
    forgotten: (&'static str, Vec<SqlValue>),
)
    requires
        call_ensures(get_queue, (one,), by_url),
        call_ensures(get_queue_by_name, (one,), by_name),
        call_ensures(list_queues, (prefix,), listed),
        call_ensures(delete_stream_item, (one, &id), row),
        call_ensures(get_stream_info, (one,), stream),
        call_ensures(get_cursor_details, (one, other), cursor),
        call_ensures(trim_change_index_markers_older_than, (time,), forgotten),
    ensures
        by_url.0 == GET_QUEUE && args(by_url.1) =~= seq![SqlArg::Text(one@)],
        by_name.0 == GET_QUEUE_BY_NAME && args(by_name.1) =~= seq![SqlArg::Text(one@)],
        prefix matches Some(prefix) ==> listed.0 == LIST_QUEUES_WITH_PREFIX && args(listed.1)
            =~= seq![SqlArg::Text(prefix@ + "%"@)],
        prefix is None ==> listed.0 == LIST_ALL_QUEUES && args(listed.1).len() == 0,
        row.0 == DELETE_STREAM_ITEM && args(row.1) =~= seq![
            SqlArg::Text(one@),
            SqlArg::Text(id.text()),
        ],
        stream.0 == GET_STREAM_INFO && args(stream.1) =~= seq![SqlArg::Text(one@)],
        cursor.0 == GET_CURSOR_DETAILS && args(cursor.1) =~= seq![
            SqlArg::Text(one@),
            SqlArg::Text(other@),
            SqlArg::Text(one@),
        ],
        forgotten.0 == TRIM_CHANGE_INDEX_MARKERS_OLDER_THAN && args(forgotten.1) =~= seq![
            SqlArg::Integer(time as int),
        ],
{
}

/// Whether a step runs given statements without arguments, and no others.
pub open spec fn runs_plain(step: InitializeStep, sqls: Seq<Seq<char>>) -> bool {
    step matches Step::Perform { action: InitializeAction::Run(list), .. } && list@.len()
        == sqls.len() && forall|i: int|
        0 <= i < sqls.len() ==> (#[trigger] list@[i])@.sql == sqls[i] && list@[i]@.args.len() == 0
}

/// New streams are prepared by creating their tables, storing the format, and creating
/// their indexes; the format that is stored is then the one under which they are used
/// again, once their pointers are found to be readable.
pub proof fn law_prepared_streams_are_used_again(
    started: InitializeStep,
    reading: InitializeStep,
    counting: InitializeStep,
    count: Option<i64>,
    writing: InitializeStep,
    indexing: InitializeStep,
    ended: InitializeStep,
    version: i64,
    checking: InitializeStep,
    rows: Vec<Result<PointerRow, StorageError>>,
    checked: InitializeStep,
)
    requires
        call_ensures(start_initialize_stream, (), started),
        call_ensures(initialize_stream, (started->state, InitializeEvent::Ran(Ok(()))), reading),
        call_ensures(
            initialize_stream,
            (reading->state, InitializeEvent::IntegerRead(Ok(None))),
            counting,
        ),
        count is None || count == Some(0i64),
        call_ensures(
            initialize_stream,
            (counting->state, InitializeEvent::IntegerRead(Ok(count))),
            writing,
        ),
        call_ensures(initialize_stream, (writing->state, InitializeEvent::Ran(Ok(()))), indexing),
        call_ensures(initialize_stream, (indexing->state, InitializeEvent::Ran(Ok(()))), ended),
        writing matches Step::Perform { action: InitializeAction::Run(list), .. } && version
            == list@[0]@.args[1]->Integer_0,
        call_ensures(
            initialize_stream,
            (reading->state, InitializeEvent::IntegerRead(Ok(Some(version)))),
            checking,
        ),
        forall|i: int|
            0 <= i < rows@.len() ==> (#[trigger] rows@[i]) is Ok && rows@[i]->Ok_0.decode_error is None,
        call_ensures(
            initialize_stream,
            (checking->state, InitializeEvent::PointersRead(Ok(rows))),
            checked,
        ),
    ensures
        runs_plain(
            started,
            seq![
                CREATE_USER_STREAMS_TABLE@,
                CREATE_STREAM_ITEMS_TABLE@,
                CREATE_STREAM_CURSORS_TABLE@,
                CREATE_STREAM_FORMAT_METADATA_TABLE@,
            ],
        ),
        reading matches Step::Perform { action: InitializeAction::QueryInteger(s), .. } && s@.sql
            == GET_STREAM_FORMAT_VERSION@ && s@.args.len() == 1,
        counting matches Step::Perform { action: InitializeAction::QueryInteger(s), .. } && s@.sql
            == COUNT_STREAM_ITEMS@ && s@.args.len() == 0,
        writing matches Step::Perform { action: InitializeAction::Run(list), .. } && list@.len() == 1
            && list@[0]@.sql == UPSERT_STREAM_FORMAT_VERSION@ && list@[0]@.args.len() == 2
            && list@[0]@.args[0] == reading->action->QueryInteger_0@.args[0] && list@[0]@.args[1]
            == SqlArg::Integer(version as int),
        runs_plain(
            indexing,
            seq![CREATE_STREAM_ITEMS_INTERNAL_TIME_INDEX@, CREATE_STREAM_CURSORS_INTERNAL_INDEX@],
        ),
        ended matches Step::Finish(Ok(_)),
        checking matches Step::Perform { action: InitializeAction::QueryPointers(s), .. } && s@.sql
            == LIST_STREAM_POINTER_PAYLOADS@ && s@.args == seq![SqlArg::Integer(2)],
        runs_plain(
            checked,
            seq![CREATE_STREAM_ITEMS_INTERNAL_TIME_INDEX@, CREATE_STREAM_CURSORS_INTERNAL_INDEX@],
        ),
{
    let tables = started->action->Run_0@;
    assert(statements(tables).len() == tables.len());
    assert(statements(tables)[0] == tables[0]@);
    assert(statements(tables)[1] == tables[1]@);
    assert(statements(tables)[2] == tables[2]@);
    assert(statements(tables)[3] == tables[3]@);
    let written = writing->action->Run_0@;
    assert(statements(written).len() == written.len());
    assert(statements(written)[0] == written[0]@);
    let indexes = indexing->action->Run_0@;
    assert(statements(indexes).len() == indexes.len());
    assert(statements(indexes)[0] == indexes[0]@);
    assert(statements(indexes)[1] == indexes[1]@);
    assert forall|i: int| 0 <= i < rows@.len() implies crate::stream_provider::pointer_readable(
        #[trigger] rows@[i],
    ) by {
    }
    let again = checked->action->Run_0@;
    assert(statements(again).len() == again.len());
    assert(statements(again)[0] == again[0]@);
    assert(statements(again)[1] == again[1]@);
}

/// Streams are refused where their format is another than the one that would be stored,
/// where there are rows without a format, or where a pointer cannot be read; the words tell
/// the version, or where the first such pointer stands. What storage fails with is told as
/// it came.
pub proof fn law_unusable_streams_are_refused(
    writing: InitializeStep,
    version: i64,
    refused: InitializeStep,
    count: i64,
    occupied: InitializeStep,
    rows: Vec<Result<PointerRow, StorageError>>,
    n: int,
    answer: Result<(), StorageError>,
    state: InitializeState,
    error: StorageError,
    failed: InitializeStep,
)
    requires
        call_ensures(
            initialize_stream,
            (InitializeState::CountingItems, InitializeEvent::IntegerRead(Ok(Some(0)))),
            writing,
        ),
        SqlArg::Integer(version as int) != writing->action->Run_0@[0]@.args[1],
        call_ensures(
            initialize_stream,
            (InitializeState::ReadingVersion, InitializeEvent::IntegerRead(Ok(Some(version)))),
            refused,
        ),
        count > 0,
        call_ensures(
            initialize_stream,
            (InitializeState::CountingItems, InitializeEvent::IntegerRead(Ok(Some(count)))),
            occupied,
        ),
        0 <= n < rows@.len(),
        forall|i: int|
            0 <= i < n ==> (#[trigger] rows@[i]) is Ok && rows@[i]->Ok_0.decode_error is None,
        rows@[n] is Err || rows@[n]->Ok_0.decode_error is Some,
        call_ensures(reject_old_pointer_payloads, (rows,), answer),
        call_ensures(
            initialize_stream,
            (state, InitializeEvent::Ran(Err(error))),
            failed,
        ) || call_ensures(
            initialize_stream,
            (state, InitializeEvent::IntegerRead(Err(error))),
            failed,
        ) || call_ensures(
            initialize_stream,
            (state, InitializeEvent::PointersRead(Err(error))),
            failed,
        ),
    ensures
        refused matches Step::Finish(Err(StorageError::Unsupported { message })) && message@
            == "unsupported stream format metadata version "@ + signed_decimal(version as int)
            + "; expected item-versioned stream format version "@ + signed_decimal(
            writing->action->Run_0@[0]@.args[1]->Integer_0,
        ),
        occupied matches Step::Finish(Err(StorageError::Unsupported { message })) && message@
            == "item-versioned streams require empty stream tables or stream format metadata; in-place upgrade from old stream rows is unsupported"@,
        rows@[n] matches Err(e) ==> answer == Err::<(), StorageError>(e),
        rows@[n] matches Ok(row) ==> (answer matches Err(StorageError::Unsupported { message })
            && message@
            == "item-versioned streams cannot start with old-format stream pointer payload at stream "@
            + row.stream_name@ + " item "@ + row.item_id@ + ": "@ + row.decode_error->Some_0@),
        failed matches Step::Finish(Err(e)) && e == error,
{
    let written = writing->action->Run_0@;
    assert(statements(written).len() == written.len());
    assert(statements(written)[0] == written[0]@);
    let bad = rows@[n];
    assert(!crate::stream_provider::pointer_readable(bad));
    if answer is Err {
        let e = answer->Err_0;
        let i = choose|i: int| #[trigger] crate::stream_provider::pointer_refused_at(rows@, i, e);
        if i < n {
            assert(rows@[i] is Ok);
        } else if n < i {
            assert(crate::stream_provider::pointer_readable(rows@[n]));
        }
    }
}

/// Ids of rows are written with digits and the letters from a to f, in lower case, all of
/// one length.
pub proof fn law_ids_are_written_in_lower_case(id: StreamItemId, i: int)
    requires
        0 <= i < 24,
    ensures
        id.text().len() == 24,
        ('0' <= id.text()[i] && id.text()[i] <= '9') || ('a' <= id.text()[i] && id.text()[i]
            <= 'f'),
{
    lemma_hexadecimal_digits(id.number(), 24);
}

proof fn lemma_hexadecimal_digits(n: nat, width: nat)
    ensures
        crate::text::hexadecimal(n, width).len() == width,
        forall|i: int|
            0 <= i < width ==> {
                let c = #[trigger] crate::text::hexadecimal(n, width)[i];
                ('0' <= c && c <= '9') || ('a' <= c && c <= 'f')
            },
    decreases width,
{
    if width > 0 {
        lemma_hexadecimal_digits(n / 16, (width - 1) as nat);
    }
}


/// Whether statements are given ones without arguments, in their order.
pub open spec fn are_plain(list: Seq<Statement>, sqls: Seq<Seq<char>>) -> bool {
    list.len() == sqls.len() && forall|i: int|
        0 <= i < sqls.len() ==> (#[trigger] list[i])@.sql == sqls[i] && list[i]@.args.len() == 0
}

/// The tables of queues, of trimming and of the log are created in their order, each
/// before its indexes.
pub proof fn law_tables_are_created_before_their_indexes(
    queues: Vec<Statement>,
    trimming: Vec<Statement>,
    log: Vec<Statement>,
    results: Statement,
    last: Statement,
)
    requires
        call_ensures(crate::queue_provider::initialize, (), queues),
        call_ensures(initialize_stream_duration_tables, (), trimming),
        call_ensures(ensure_sync_raft_tables, (), log),
        call_ensures(ensure_sync_raft_command_results_table, (), results),
        call_ensures(read_last_log_id, (), last),
    ensures
        are_plain(
            queues@,
            seq![
                CREATE_QUEUES_TABLE@,
                CREATE_MESSAGES_TABLE@,
                CREATE_MESSAGES_QUEUE_VISIBILITY_INDEX@,
                CREATE_MESSAGES_QUEUE_RECEIPT_INDEX@,
            ],
        ),
        are_plain(
            trimming@,
            seq![
                CREATE_TRIM_STATE_TABLE@,
                CREATE_TRIM_DUE_MARKERS_TABLE@,
                CREATE_TRIM_DUE_MARKERS_SCOPE_INDEX@,
                CREATE_STREAM_POINTER_INDEX_TABLE@,
                CREATE_STREAM_POINTER_INDEX_ITEM_INDEX@,
                CREATE_STREAM_POINTER_INDEX_TABLE_POINTER_INDEX@,
            ],
        ),
        are_plain(log@, seq![CREATE_LOG_TABLE@, CREATE_METADATA_TABLE@]),
        are_plain(seq![results], seq![CREATE_COMMAND_RESULTS_TABLE@]),
        are_plain(seq![last], seq![READ_LAST_LOG_ID@]),
{
    assert(statements(queues@).len() == queues@.len());
    assert forall|i: int| 0 <= i < queues@.len() implies (#[trigger] queues@[i])@ == statements(
        queues@,
    )[i] by {
    }
    assert(statements(trimming@).len() == trimming@.len());
    assert forall|i: int| 0 <= i < trimming@.len() implies (#[trigger] trimming@[i])@
        == statements(trimming@)[i] by {
    }
    assert(statements(log@).len() == log@.len());
    assert forall|i: int| 0 <= i < log@.len() implies (#[trigger] log@[i])@ == statements(
        log@,
    )[i] by {
    }
}

/// A message that is sent under a given id is stored as one that has that id.
pub proof fn law_messages_are_sent_under_their_id(
    message: QueueMessage,
    id: u128,
    stored: Statement,
    same: QueueMessage,
    sent: (u128, Statement),
)
    requires
        id != 0,
        call_ensures(send_message_with_id, (&message, id), stored),
        same == (QueueMessage { message_id: id, ..message }),
        call_ensures(send_queue_message, (&same,), sent),
    ensures
        sent.0 == id,
        stored@ == sent.1@,
{
}

/// The words of a failure that comes of another keep both, in their order.
pub proof fn law_words_are_kept_in_order(
    first: &str,
    rest: &str,
    both: String,
    state: StorageError,
    marker: StorageError,
)
    requires
        call_ensures(prefixed, (first, rest), both),
        call_ensures(decode_state_failed, (rest,), state),
        call_ensures(decode_marker_failed, (rest,), marker),
    ensures
        both@ == first@ + rest@,
        tells_internal(state, "decode stream trim state failed: "@ + rest@),
        tells_internal(marker, "decode stream trim marker failed: "@ + rest@),
{
}

/// The name of the stream that is trimmed is the table's own, or the item's.
pub proof fn law_scopes_name_their_stream(scope: StreamTrimScope, name: String)
    requires
        call_ensures(stream_name_for_scope, (&scope,), name),
    ensures
        is_stream_of(scope, name@),
{
}

/// The version that a pointer leads to bounds its stream; one that is no number is refused
/// in words that tell why.
pub proof fn law_versions_bound_their_stream(
    version: u64,
    s: &str,
    bound: Result<Option<StreamItemId>, StorageError>,
    none: Result<Option<StreamItemId>, StorageError>,
    empty: &str,
    refused: Result<Option<StreamItemId>, StorageError>,
    other: &str,
    invalid: Result<Option<StreamItemId>, StorageError>,
)
    requires
        s@ == decimal(version as nat),
        call_ensures(retained_item_pointer_boundary, (Some(s),), bound),
        call_ensures(retained_item_pointer_boundary, (None::<&str>,), none),
        empty@.len() == 0,
        call_ensures(retained_item_pointer_boundary, (Some(empty),), refused),
        other@.len() > 0,
        other@[0] == '-',
        call_ensures(retained_item_pointer_boundary, (Some(other),), invalid),
    ensures
        bound is Ok && bound->Ok_0 is Some && bound->Ok_0->Some_0.number() == version,
        none == Ok::<Option<StreamItemId>, StorageError>(None),
        refused matches Err(e) && tells_internal(
            e,
            "decode pointer item stream version failed: "@
                + "cannot parse integer from empty string"@,
        ),
        invalid matches Err(e) && tells_internal(
            e,
            "decode pointer item stream version failed: "@ + "invalid digit found in string"@,
        ),
{
    law_version_text_round_trip(version);
}

/// A stored id of a stream reads as the id that it is the text of, and is refused where it
/// is none.
pub proof fn law_stored_ids_are_read_or_refused(
    id: StreamItemId,
    s: &str,
    read: Result<StreamItemId, StorageError>,
    other: &str,
    refused: Result<StreamItemId, StorageError>,
)
    requires
        s@ == id.text(),
        call_ensures(stream_item_id_from_hex, (s,), read),
        other@.len() != 24,
        call_ensures(stream_item_id_from_hex, (other,), refused),
    ensures
        read == Ok::<StreamItemId, StorageError>(id),
        refused matches Err(e) && tells_internal(
            e,
            "decode stream item id failed: invalid stream item id"@,
        ),
{
    law_stream_item_id_round_trip(id);
}

/// A transaction has from one to a hundred actions, and an action does exactly one thing.
pub proof fn law_transactions_have_their_bounds(
    n: usize,
    counted: Result<(), StorageError>,
    item: TransactWriteItem,
    kind: Option<TransactKind>,
)
    requires
        call_ensures(validate_item_count, (n,), counted),
        call_ensures(TransactWriteItem::kind, (&item,), kind),
    ensures
        counted is Ok <==> 1 <= n <= 100,
        counted matches Err(e) ==> tells_count(n as int, e),
        kind matches Some(kind) ==> does_only(item, kind),
        kind is None ==> does_not_one(item),
{
}

/// The reason of one action is spread over a transaction, and any other error stays.
pub proof fn law_reasons_are_spread_over_the_transaction(
    index: usize,
    len: usize,
    error: StorageError,
    out: StorageError,
)
    requires
        index < len,
        call_ensures(transaction_canceled_for_item_error_with_len, (index, len, error), out),
    ensures
        has_reason(error, index as int) ==> tells_one_reason(error, index as int, len as int, out),
        !has_reason(error, index as int) ==> out == error,
{
}

/// The actions of a guarded write end with the guard and then the write, in a transaction
/// that has begun before, and each occurs once.
pub proof fn law_guarded_plans_end_with_the_write(write: GuardedWrite, plan: Vec<GuardedAction>)
    requires
        call_ensures(guarded_write_actions, (write,), plan),
    ensures
        plan@.len() > 2,
        plan@.first() == GuardedAction::ApplyGsiWritePressure,
        plan@.last() == GuardedAction::Write,
        plan@[plan@.len() - 2] == GuardedAction::ValidateGuard,
        forall|i: int, j: int| 0 <= i < j < plan@.len() ==> #[trigger] plan@[i] != #[trigger] plan@[j],
        exists|i: int|
            0 <= i < plan@.len() - 2 && #[trigger] plan@[i] == GuardedAction::BeginTransaction,
{
    match write {
        GuardedWrite::Put => assert(plan@[4] == GuardedAction::BeginTransaction),
        GuardedWrite::Delete => assert(plan@[2] == GuardedAction::BeginTransaction),
        GuardedWrite::Update => assert(plan@[1] == GuardedAction::BeginTransaction),
    }
}

/// The range of a read holds exactly the stored indexes that lie between its bounds. Left
/// out is the largest index that SQLite has, where the range starts beyond it.
pub proof fn law_ranges_hold_their_indexes(
    start: LogBound,
    end: LogBound,
    range: SqliteLogRange,
    index: int,
)
    requires
        call_ensures(SqliteLogRange::from_bounds, (start, end), range),
        0 <= index < i64::MAX,
    ensures
        (range.start_inclusive <= index && (range.end_exclusive matches Some(last) ==> index
            < last)) <==> {
            &&& start matches LogBound::Included(first) ==> first <= index
            &&& start matches LogBound::Excluded(before) ==> before < index
            &&& end matches LogBound::Included(last) ==> index <= last
            &&& end matches LogBound::Excluded(after) ==> index < after
        },
{
}


} // verus!
