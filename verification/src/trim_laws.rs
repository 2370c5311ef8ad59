//! What keeping and trimming streams comes to.
use crate::error::{tells_internal, tells_validation, StorageError};
use crate::ids::{
    law_stream_item_id_round_trip, law_stream_item_id_text_order, law_version_text_round_trip,
    text_before, StreamItemId,
};
use crate::machine::Step;
use crate::sql::{statements, SqlArg, Statement, StatementView};
use crate::stream_duration::{
    finish_stream_trim_marker, item_stream_key_hash, item_stream_policy_version,
    list_due_stream_trim_markers, load_stream_trim_state, plan_item_stream_duration,
    write_stream_trim_state, ItemStreamDuration, ItemStreamName, PreparedStateWrite,
    StreamTrimDueMarker, StreamTrimScope, StreamTrimScopeKind, StreamTrimStateWrite,
    DELETE_DUE_MARKER, DELETE_POINTER_ROW, DELETE_STREAM_ROW, LIST_DUE_MARKERS, READ_FIRST_ROW,
    READ_LATEST_ITEM_ID, READ_PROTECTED_POINTER, READ_RETAINED_VERSION, READ_ROWS_TO_TRIM,
    READ_ROWS_TO_TRIM_UP_TO, READ_TRIM_STATE, UPSERT_DUE_MARKER, UPSERT_TRIM_STATE,
};
use crate::stream_trim::{
    delete_rows_views, law_trim_statements, load_stream_trim_boundaries, start_trim_stream_page,
    trim_stream_page, BoundariesAction, BoundariesEvent, BoundariesState, BoundariesStep,
    StreamDurationTrimPageRequest, StreamTrimRow, TrimAction, TrimEvent, TrimState, TrimStep,
};
use crate::text::decimal;
use crate::types::{StreamDataType, StreamRetentionDuration, TableStatus};
use vstd::prelude::*;

verus! {

/// Whether a name is that of the stream that a scope is about: the table's own, or the
/// item's, which is the scope's id.
pub open spec fn is_stream_of(scope: StreamTrimScope, name: Seq<char>) -> bool {
    if scope.kind == StreamTrimScopeKind::Table {
        name == scope.table_stream_name@
    } else {
        name == scope.scope_id@
    }
}

/// Whether the statement that reads the rows of a page reads a row: none after the time of
/// its second argument, and none beyond the id of its third, where that is a text.
pub open spec fn page_reads(s: StatementView, id: StreamItemId, created_at: i64) -> bool {
    created_at <= s.args[1]->Integer_0 && (s.args[2] matches SqlArg::Text(last) ==> !text_before(
        last,
        id.text(),
    ))
}

/// A page of trimming reads rows of its own stream only, at most as many as it may, none
/// that was created after the cutoff, and none beyond the last id that may go.
pub proof fn law_trim_pages_read_what_may_go(
    request: StreamDurationTrimPageRequest,
    started: TrimStep,
    id: StreamItemId,
    created_at: i64,
)
    requires
        call_ensures(start_trim_stream_page, (&request,), started),
    ensures
        request.page_limit > i64::MAX ==> (started matches Step::Finish(Err(e)) && tells_validation(
            e,
            "stream trim page limit is too large: out of range integral type conversion attempted"@,
        )),
        request.page_limit <= i64::MAX ==> {
            &&& started matches Step::Perform {
                state: TrimState::ReadingRows,
                action: TrimAction::QueryRows(s),
            }
            &&& s@.args[0] is Text
            &&& is_stream_of(request.scope, s@.args[0]->Text_0)
            &&& s@.args.last() == SqlArg::Integer(request.page_limit as int)
            &&& request.max_deleted_item_id is Some ==> s@.sql == READ_ROWS_TO_TRIM_UP_TO@
                && s@.args.len() == 4
            &&& request.max_deleted_item_id is None ==> s@.sql == READ_ROWS_TO_TRIM@
                && s@.args.len() == 3
            &&& page_reads(s@, id, created_at) <==> created_at <= request.cutoff_timestamp && (
            request.max_deleted_item_id matches Some(max) ==> id.number() <= max.number())
        },
{
    if let Some(max) = request.max_deleted_item_id {
        law_stream_item_id_text_order(max, id);
    }
}

/// Whether a statement removes the row of an id from the stream of a scope.
pub open spec fn removes_row(s: StatementView, scope: StreamTrimScope, id: Seq<char>) -> bool {
    s.sql == DELETE_STREAM_ROW@ && s.args.len() == 2 && s.args[0] is Text && is_stream_of(
        scope,
        s.args[0]->Text_0,
    ) && s.args[1] == SqlArg::Text(id)
}

/// Whether a statement removes the pointer of a table that a row of an id is.
pub open spec fn removes_pointer(s: StatementView, scope: StreamTrimScope, id: Seq<char>) -> bool {
    s.sql == DELETE_POINTER_ROW@ && s.args == seq![SqlArg::Text(scope.table_name@), SqlArg::Text(id)]
}

/// A page of trimming removes exactly the rows that it read, in their order, and with each
/// row of a table's stream its pointer. It tells how many rows that were, and the version
/// and the time of the first row that is left, or of none.
pub proof fn law_trim_pages_remove_what_they_read(
    request: StreamDurationTrimPageRequest,
    rows: Vec<StreamTrimRow>,
    removing: TrimStep,
    reading: TrimStep,
    first: Option<(StreamItemId, StreamTrimRow)>,
    ended: TrimStep,
)
    requires
        forall|i: int|
            0 <= i < rows@.len() ==> exists|id: StreamItemId|
                (#[trigger] rows@[i]).item_id@ == #[trigger] id.text(),
        call_ensures(
            trim_stream_page,
            (&request, TrimState::ReadingRows, TrimEvent::RowsRead(Ok(rows))),
            removing,
        ),
        call_ensures(
            trim_stream_page,
            (&request, removing->state, TrimEvent::Deleted(Ok(()))),
            reading,
        ),
        first matches Some((id, row)) ==> row.item_id@ == id.text(),
        call_ensures(
            trim_stream_page,
            (
                &request,
                reading->state,
                TrimEvent::FirstRead(
                    Ok(
                        match first {
                            Some((_, row)) => Some(row),
                            None => None,
                        },
                    ),
                ),
            ),
            ended,
        ),
    ensures
        removing matches Step::Perform { action: TrimAction::Run(list), .. } && list@.len() == (
        if request.scope.kind == StreamTrimScopeKind::Table {
            2 * rows@.len()
        } else {
            rows@.len()
        }) && forall|i: int|
            0 <= i < rows@.len() ==> if request.scope.kind == StreamTrimScopeKind::Table {
                removes_row(list@[2 * i]@, request.scope, (#[trigger] rows@[i]).item_id@)
                    && removes_pointer(list@[2 * i + 1]@, request.scope, rows@[i].item_id@)
            } else {
                removes_row(list@[i]@, request.scope, rows@[i].item_id@)
            },
        reading matches Step::Perform { action: TrimAction::QueryFirst(s), .. } && s@.sql
            == READ_FIRST_ROW@ && s@.args.len() == 1 && s@.args[0] is Text && is_stream_of(
            request.scope,
            s@.args[0]->Text_0,
        ),
        ended matches Step::Finish(Ok(done)) && done.deleted_rows == rows@.len() && match first {
            Some((id, row)) => done.first_remaining_version == Some(id.low)
                && done.first_remaining_timestamp == Some(row.created_at),
            None => done.first_remaining_version is None && done.first_remaining_timestamp is None,
        },
{
    assert forall|i: int| 0 <= i < rows@.len() implies StreamItemId::from_text(
        (#[trigger] rows@[i]).item_id@,
    ) is Some by {
        let id = choose|id: StreamItemId| rows@[i].item_id@ == #[trigger] id.text();
        law_stream_item_id_round_trip(id);
    }
    if let Some((id, row)) = first {
        law_stream_item_id_round_trip(id);
    }
    law_trim_statements(request.scope, rows@);
    let list = removing->action->Run_0@;
    let views = delete_rows_views(request.scope, rows@);
    assert(statements(list) == views);
    assert(statements(list).len() == list.len());
    assert forall|j: int| 0 <= j < list.len() implies (#[trigger] list[j])@ == views[j] by {
        assert(statements(list)[j] == list[j]@);
    }
    assert forall|i: int| 0 <= i < rows@.len() implies if request.scope.kind
        == StreamTrimScopeKind::Table {
        removes_row(list[2 * i]@, request.scope, (#[trigger] rows@[i]).item_id@)
            && removes_pointer(list[2 * i + 1]@, request.scope, rows@[i].item_id@)
    } else {
        removes_row(list[i]@, request.scope, rows@[i].item_id@)
    } by {
        if request.scope.kind == StreamTrimScopeKind::Table {
            let two = views.subrange(2 * i, 2 * i + 2);
            assert(two[0] == views[2 * i]);
            assert(two[1] == views[2 * i + 1]);
            assert(list[2 * i]@ == views[2 * i]);
            assert(list[2 * i + 1]@ == views[2 * i + 1]);
        } else {
            assert(list[i]@ == views[i]);
        }
    }
}

/// Nothing is removed where a row cannot be read, and a page of trimming ends with what
/// storage failed with.
pub proof fn law_trim_pages_tell_their_failure(
    request: StreamDurationTrimPageRequest,
    state: TrimState,
    error: StorageError,
    ended: TrimStep,
    rows: Vec<StreamTrimRow>,
    i: int,
    refused: TrimStep,
)
    requires
        call_ensures(
            trim_stream_page,
            (&request, state, TrimEvent::RowsRead(Err(error))),
            ended,
        ) || call_ensures(
            trim_stream_page,
            (&request, state, TrimEvent::Deleted(Err(error))),
            ended,
        ) || call_ensures(
            trim_stream_page,
            (&request, state, TrimEvent::FirstRead(Err(error))),
            ended,
        ),
        0 <= i < rows@.len(),
        rows@[i].item_id@.len() != 24,
        call_ensures(
            trim_stream_page,
            (&request, TrimState::ReadingRows, TrimEvent::RowsRead(Ok(rows))),
            refused,
        ),
    ensures
        ended matches Step::Finish(Err(e)) && e == error,
        refused matches Step::Finish(Err(StorageError::Database { message })) && message@
            == "Conversion error from type Text at index: 0, decode stream item id failed: invalid stream item id"@,
{
    assert(StreamItemId::from_text(rows@[i].item_id@) is None);
}

/// Whether a statement asks for one row of the stream of a scope.
pub open spec fn asks_stream(s: StatementView, sql: Seq<char>, scope: StreamTrimScope) -> bool {
    s.sql == sql && s.args.len() == 1 && s.args[0] is Text && is_stream_of(scope, s.args[0]->Text_0)
}

/// The stream of a table is bounded only by what replication still needs: the first pointer
/// from its floor on.
pub proof fn law_tables_are_bounded_by_replication(
    scope: StreamTrimScope,
    floor: Option<StreamItemId>,
    asked: BoundariesStep,
    found: Option<(StreamItemId, String)>,
    ended: BoundariesStep,
)
    requires
        scope.kind == StreamTrimScopeKind::Table,
        call_ensures(
            load_stream_trim_boundaries,
            (&scope, BoundariesState::LoadingFloor, BoundariesEvent::FloorLoaded(Ok(floor))),
            asked,
        ),
        found matches Some((id, row)) ==> row@ == id.text(),
        floor is Some ==> call_ensures(
            load_stream_trim_boundaries,
            (
                &scope,
                asked->state,
                BoundariesEvent::RowRead(
                    Ok(
                        match found {
                            Some((_, row)) => Some(row),
                            None => None,
                        },
                    ),
                ),
            ),
            ended,
        ),
    ensures
        floor is None ==> (asked matches Step::Finish(Ok(out)) && out.protected_boundary is None
            && out.latest_item_id is None && out.retained_table_pointer_boundary is None),
        floor matches Some(id) ==> {
            &&& asked matches Step::Perform { action: BoundariesAction::Query(s), .. }
            &&& s@.sql == READ_PROTECTED_POINTER@
            &&& s@.args == seq![SqlArg::Text(scope.table_name@), SqlArg::Text(id.text())]
            &&& ended matches Step::Finish(Ok(out))
            &&& out.latest_item_id is None
            &&& out.retained_table_pointer_boundary is None
            &&& out.protected_boundary == (match found {
                Some((first, _)) => Some(first),
                None => None,
            })
        },
{
    if let Some((id, row)) = found {
        law_stream_item_id_round_trip(id);
    }
}

/// The stream of an item is bounded by its last row and by the first version that a
/// pointer leads to, whatever replication needs.
pub proof fn law_items_are_bounded_by_rows_and_pointers(
    scope: StreamTrimScope,
    floor: Option<StreamItemId>,
    asked: BoundariesStep,
    latest: Option<(StreamItemId, String)>,
    next: BoundariesStep,
    retained: Option<(u64, String)>,
    ended: BoundariesStep,
)
    requires
        scope.kind == StreamTrimScopeKind::Item,
        call_ensures(
            load_stream_trim_boundaries,
            (&scope, BoundariesState::LoadingFloor, BoundariesEvent::FloorLoaded(Ok(floor))),
            asked,
        ),
        latest matches Some((id, row)) ==> row@ == id.text(),
        call_ensures(
            load_stream_trim_boundaries,
            (
                &scope,
                asked->state,
                BoundariesEvent::RowRead(
                    Ok(
                        match latest {
                            Some((_, row)) => Some(row),
                            None => None,
                        },
                    ),
                ),
            ),
            next,
        ),
        retained matches Some((version, row)) ==> row@ == decimal(version as nat),
        call_ensures(
            load_stream_trim_boundaries,
            (
                &scope,
                next->state,
                BoundariesEvent::RowRead(
                    Ok(
                        match retained {
                            Some((_, row)) => Some(row),
                            None => None,
                        },
                    ),
                ),
            ),
            ended,
        ),
    ensures
        asked matches Step::Perform { action: BoundariesAction::Query(s), .. } && asks_stream(
            s@,
            READ_LATEST_ITEM_ID@,
            scope,
        ),
        next matches Step::Perform { action: BoundariesAction::Query(s), .. } && asks_stream(
            s@,
            READ_RETAINED_VERSION@,
            scope,
        ),
        ended matches Step::Finish(Ok(out)) && out.protected_boundary is None && out.latest_item_id
            == (match latest {
            Some((id, _)) => Some(id),
            None => None,
        }) && match retained {
            Some((version, _)) => out.retained_table_pointer_boundary matches Some(id)
                && id.number() == version,
            None => out.retained_table_pointer_boundary is None,
        },
{
    if let Some((id, row)) = latest {
        law_stream_item_id_round_trip(id);
    }
    if let Some((version, row)) = retained {
        law_version_text_round_trip(version);
    }
}

/// Reading the bounds ends with what storage failed with, and refuses an id that cannot be
/// read.
pub proof fn law_bounds_tell_their_failure(
    scope: StreamTrimScope,
    state: BoundariesState,
    error: StorageError,
    ended: BoundariesStep,
    row: String,
    refused: BoundariesStep,
)
    requires
        call_ensures(
            load_stream_trim_boundaries,
            (&scope, state, BoundariesEvent::FloorLoaded(Err(error))),
            ended,
        )
            || call_ensures(
                load_stream_trim_boundaries,
                (&scope, state, BoundariesEvent::RowRead(Err(error))),
                ended,
            ),
        row@.len() != 24,
        call_ensures(
            load_stream_trim_boundaries,
            (&scope, BoundariesState::LoadingProtected, BoundariesEvent::RowRead(Ok(Some(row)))),
            refused,
        ) || call_ensures(
            load_stream_trim_boundaries,
            (&scope, BoundariesState::LoadingLatest, BoundariesEvent::RowRead(Ok(Some(row)))),
            refused,
        ),
    ensures
        ended matches Step::Finish(Err(e)) && e == error,
        refused matches Step::Finish(Err(e)) && tells_internal(
            e,
            "decode stream item id failed: invalid stream item id"@,
        ),
{
    assert(StreamItemId::from_text(row@) is None);
}

/// The hours that a duration stands for; none where rows are kept forever.
pub open spec fn hours_of(duration: StreamRetentionDuration) -> Option<nat> {
    match duration {
        StreamRetentionDuration::Forever => None,
        StreamRetentionDuration::FiniteHours(hours) => Some(hours as nat),
    }
}

/// The longer of two durations, in hours.
pub open spec fn longer(a: Option<nat>, b: Option<nat>) -> Option<nat> {
    match (a, b) {
        (Some(a), Some(b)) => Some(
            if a > b {
                a
            } else {
                b
            },
        ),
        _ => None,
    }
}

/// Hours in one half of a policy version: all ones stand for forever.
pub open spec fn half_of(hours: Option<nat>) -> nat {
    match hours {
        Some(hours) => hours,
        None => 0xffff_ffff,
    }
}

/// An item's stream is kept as long as its table's or as long as was asked for, whichever
/// is longer, and a policy version tells what was asked for and what takes effect.
pub proof fn law_item_streams_are_kept_the_longer(
    table: StreamRetentionDuration,
    requested: StreamRetentionDuration,
    effective: StreamRetentionDuration,
    version: u64,
    wire: i64,
)
    requires
        call_ensures(
            StreamRetentionDuration::effective_item_retention,
            (table, requested),
            effective,
        ),
        call_ensures(item_stream_policy_version, (requested, table), version),
        call_ensures(StreamRetentionDuration::as_hours_wire_value, (requested,), wire),
    ensures
        hours_of(effective) == longer(hours_of(table), hours_of(requested)),
        version == half_of(hours_of(requested)) * 0x1_0000_0000 + half_of(
            longer(hours_of(table), hours_of(requested)),
        ),
        hours_of(requested) matches Some(hours) ==> wire == hours,
        hours_of(requested) is None ==> wire == -1,
{
}

/// A plan is made where a duration was asked for; it names the stream, and keeps both
/// durations.
pub proof fn law_plans_keep_what_was_asked_for(
    table: StreamRetentionDuration,
    requested: Option<StreamRetentionDuration>,
    name: String,
    hash: String,
    words: String,
    plan: Result<Option<ItemStreamDuration>, StorageError>,
    no_key: Result<Option<ItemStreamDuration>, StorageError>,
    no_scope: Result<Option<ItemStreamDuration>, StorageError>,
    name_view: &str,
)
    requires
        name_view@ == name@,
        call_ensures(
            plan_item_stream_duration,
            (table, requested, ItemStreamName::Named(name)),
            plan,
        ),
        call_ensures(
            plan_item_stream_duration,
            (table, requested, ItemStreamName::KeyFailed(words)),
            no_key,
        ),
        call_ensures(
            plan_item_stream_duration,
            (table, requested, ItemStreamName::ScopeFailed(words)),
            no_scope,
        ),
        call_ensures(item_stream_key_hash, (name_view,), hash),
    ensures
        requested is None ==> plan matches Ok(None),
        requested is None ==> no_key matches Ok(None),
        requested is None ==> no_scope matches Ok(None),
        requested matches Some(retention) ==> {
            &&& plan matches Ok(Some(made))
            &&& made.scope_id@ == name@
            &&& made.item_key_hash@ == hash@
            &&& made.retention == retention
            &&& made.table_retention == table
            &&& made.policy_version == half_of(hours_of(retention)) * 0x1_0000_0000 + half_of(
                longer(hours_of(table), hours_of(retention)),
            )
        },
        requested is Some ==> (no_key matches Err(e) && tells_validation(
            e,
            "custom item stream TTL key failed: "@ + words@,
        )),
        requested is Some ==> (no_scope matches Err(e) && tells_validation(
            e,
            "custom item stream TTL scope failed: "@ + words@,
        )),
{
}

/// Whether a statement stores a marker.
pub open spec fn stores_marker(s: StatementView, marker: StreamTrimDueMarker) -> bool {
    s.sql == UPSERT_DUE_MARKER@ && marker.encoded is Ok && s.args == seq![
        SqlArg::Integer(marker.due_bucket as int),
        SqlArg::Text(marker.scope_id@),
        SqlArg::Integer(marker.policy_version as int),
        SqlArg::Blob(marker.encoded->Ok_0@),
    ]
}

/// Whether statements from one on store a trim state, and the marker that follows it.
pub open spec fn stores_state(list: Seq<Statement>, from: int, write: StreamTrimStateWrite) -> bool {
    &&& list.len() == from + 1 + (if write.next_marker is Some {
        1int
    } else {
        0int
    })
    &&& write.encoded is Ok
    &&& list[from]@.sql == UPSERT_TRIM_STATE@
    &&& list[from]@.args == seq![
        SqlArg::Text(write.scope_id@),
        SqlArg::Blob(write.encoded->Ok_0@),
        SqlArg::Integer(write.updated_at as int),
    ]
    &&& write.next_marker is Some ==> stores_marker(list[from + 1]@, write.next_marker->Some_0)
}

/// Whether a trim state can be stored.
pub open spec fn can_store(write: StreamTrimStateWrite) -> bool {
    write.encoded is Ok && (write.next_marker matches Some(marker) ==> marker.encoded is Ok
        && marker.policy_version <= i64::MAX)
}

/// A trim state is stored with the marker that follows it, exactly as they were given;
/// where one of them cannot be, nothing is stored. Finishing a marker removes that marker
/// first, and then stores the state in the same way.
pub proof fn law_trim_states_are_stored_as_given(
    write: StreamTrimStateWrite,
    answer: Result<Vec<Statement>, StorageError>,
    due_bucket: i64,
    scope_id: String,
    policy_version: u64,
    then: Option<StreamTrimStateWrite>,
    finished: Result<Vec<Statement>, StorageError>,
)
    requires
        call_ensures(write_stream_trim_state, (write,), answer),
        then is Some ==> then == Some(write),
        call_ensures(
            finish_stream_trim_marker,
            (due_bucket, scope_id, policy_version, then),
            finished,
        ),
    ensures
        answer is Ok <==> can_store(write),
        answer matches Ok(list) ==> stores_state(list@, 0, write),
        write.encoded matches Err(e) ==> answer == Err::<Vec<Statement>, StorageError>(e),
        finished is Ok <==> policy_version <= i64::MAX && (then is Some ==> can_store(write)),
        policy_version > i64::MAX ==> (finished matches Err(e) && tells_validation(
            e,
            "stream trim policy version is too large: out of range integral type conversion attempted"@,
        )),
        finished matches Ok(list) ==> {
            &&& list@.len() > 0
            &&& list@[0]@.sql == DELETE_DUE_MARKER@
            &&& list@[0]@.args == seq![
                SqlArg::Integer(due_bucket as int),
                SqlArg::Text(scope_id@),
                SqlArg::Integer(policy_version as int),
            ]
            &&& then is None ==> list@.len() == 1
            &&& then is Some ==> stores_state(list@, 1, write)
        },
{
    if answer is Ok {
        let list = answer->Ok_0@;
        let prepared = choose|prepared: PreparedStateWrite|
            crate::stream_duration::prepares_state(write, Ok(prepared)) && statements(list)
                == #[trigger] prepared.statement_views();
        assert(statements(list).len() == list.len());
        assert(statements(list)[0] == list[0]@);
        if write.next_marker is Some {
            assert(statements(list)[1] == list[1]@);
        }
        assert(stores_state(list, 0, write));
    }
    if finished is Ok {
        let list = finished->Ok_0@;
        assert(statements(list).len() == list.len());
        if then is Some {
            let remove = seq![
                crate::stream_duration::delete_marker_view(due_bucket, scope_id@, policy_version),
            ];
            let prepared = choose|prepared: PreparedStateWrite|
                crate::stream_duration::prepares_state(write, Ok(prepared)) && statements(list)
                    == remove + #[trigger] prepared.statement_views();
            let rest = prepared.statement_views();
            assert((remove + rest)[1] == rest[0]);
            assert(statements(list)[0] == list[0]@);
            assert(statements(list)[1] == list[1]@);
            if write.next_marker is Some {
                assert((remove + rest)[2] == rest[1]);
                assert(statements(list)[2] == list[2]@);
            }
            assert(stores_state(list, 1, write));
        } else {
            assert(statements(list)[0] == list[0]@);
        }
    }
}

/// Trim states are read by their scope, and markers by the time up to which they are due.
pub proof fn law_trim_states_are_read_by_scope(
    scope_id: &str,
    loaded: Statement,
    due_before: i64,
    limit: usize,
    listed: Result<Statement, StorageError>,
)
    requires
        call_ensures(load_stream_trim_state, (scope_id,), loaded),
        call_ensures(list_due_stream_trim_markers, (due_before, limit), listed),
    ensures
        loaded@.sql == READ_TRIM_STATE@,
        loaded@.args == seq![SqlArg::Text(scope_id@)],
        listed is Ok <==> limit <= i64::MAX,
        listed matches Ok(s) ==> s@.sql == LIST_DUE_MARKERS@ && s@.args == seq![
            SqlArg::Integer(due_before as int),
            SqlArg::Integer(limit as int),
        ],
        listed matches Err(e) ==> tells_validation(
            e,
            "stream trim marker page limit is too large: out of range integral type conversion attempted"@,
        ),
{
}

/// What is stored as the type of a row reads back as that type, and every type has a number
/// of its own.
pub proof fn law_types_of_rows_read_back(t: StreamDataType, code: i32, back: StreamDataType)
    requires
        call_ensures(StreamDataType::code, (t,), code),
        call_ensures(StreamDataType::from_code, (code,), back),
    ensures
        back == t,
        code == (match t {
            StreamDataType::Text => 0i32,
            StreamDataType::DynamoDbJson => 1i32,
            StreamDataType::StreamPointer => 2i32,
            StreamDataType::DeleteMarker => 3i32,
        }),
{
    assert(t.spec_code() == code);
}

/// A number that stands for no type of a row reads as text.
pub proof fn law_unknown_types_of_rows_are_text(code: i32, back: StreamDataType)
    requires
        code < 0 || code > 3,
        call_ensures(StreamDataType::from_code, (code,), back),
    ensures
        back == StreamDataType::Text,
{
}

/// The states of tables are told by their names.
pub proof fn law_states_of_tables_have_names(status: TableStatus, name: &'static str)
    requires
        call_ensures(TableStatus::name, (status,), name),
    ensures
        name@ == (match status {
            TableStatus::Creating => "CREATING"@,
            TableStatus::Updating => "UPDATING"@,
            TableStatus::Deleting => "DELETING"@,
            TableStatus::Active => "ACTIVE"@,
        }),
{
}

} // verus!
