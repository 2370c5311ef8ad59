//! What reads and writes of items come to.
use crate::error::{tells_internal, tells_step, tells_validation, Item, StorageError};
use crate::machine::Step;
use crate::provider::SQLiteStorageProvider;
use crate::sql::{SqlArg, Statement};
use crate::sql_statements::LIST_CHANGE_INDEX_MARKERS;
use crate::storage_provider::{
    apply_replication_mutation, begins_at, change_index_markers, compute_items_bytes,
    delete_item_totals, delete_item_writes, get_item_reads, get_item_totals,
    get_item_with_durable_proof, guarded_next, guarded_plan, guarded_write,
    list_change_index_markers_statement, ms_u64, parse_optional_condition, put_item_response,
    record_read, record_write, start_guarded_write, total, transact_items_updated, writing_actions,
    ChangeIndexMarker, ChangeIndexRow, DecodedTableItems, GuardedAction, GuardedEvent,
    GuardedState, GuardedStep, GuardedWrite, GuardedWriteStep, ReadSequenceConnection,
    ReadSequenceConsistency, ReadSequenceContext, RecordedField, ReplicationWrite, TableItems,
};
use crate::table_laws::sum;
use crate::transact_write::TransactWriteItem;
use vstd::prelude::*;

verus! {

/// What is noted of a read and of a write are its items and its bytes, under their names.
pub proof fn law_reads_and_writes_are_noted(
    items: usize,
    bytes: usize,
    read: [RecordedField; 2],
    written: [RecordedField; 2],
    now: i64,
    ms: u64,
)
    requires
        call_ensures(record_read, (items, bytes), read),
        call_ensures(record_write, (items, bytes), written),
        call_ensures(ms_u64, (now,), ms),
    ensures
        read@[0].name@ == "items_returned"@ && read@[0].value == items,
        read@[1].name@ == "bytes_read"@ && read@[1].value == bytes,
        written@[0].name@ == "items_updated"@ && written@[0].value == items,
        written@[1].name@ == "bytes_written"@ && written@[1].value == bytes,
        now >= 0 ==> ms == now,
        now < 0 ==> ms == 0,
{
}

proof fn lemma_total_is_sum(sizes: Seq<usize>)
    ensures
        total(sizes) == sum(sizes.map_values(|size: usize| size as nat)),
    decreases sizes.len(),
{
    let numbers = sizes.map_values(|size: usize| size as nat);
    if sizes.len() > 0 {
        lemma_total_is_sum(sizes.drop_last());
        assert(numbers.drop_last() =~= sizes.drop_last().map_values(|size: usize| size as nat));
    }
}

/// One for each action of a transaction that stores, changes or removes an item.
pub open spec fn writing_ones(items: Seq<TransactWriteItem>) -> Seq<nat> {
    items.map_values(
        |item: TransactWriteItem|
            if item.put is Some || item.update is Some || item.delete is Some {
                1nat
            } else {
                0nat
            },
    )
}

proof fn lemma_writing_is_sum(items: Seq<TransactWriteItem>)
    ensures
        writing_actions(items) == sum(writing_ones(items)),
    decreases items.len(),
{
    if items.len() > 0 {
        lemma_writing_is_sum(items.drop_last());
        assert(writing_ones(items).drop_last() =~= writing_ones(items.drop_last()));
    }
}

/// The bytes of items are the sum of those of each, and a transaction writes an item for
/// each of its actions but the checks.
pub proof fn law_items_and_bytes_are_summed(
    sizes: Vec<usize>,
    bytes: usize,
    items: Vec<TransactWriteItem>,
    updated: usize,
)
    requires
        call_ensures(compute_items_bytes, (&sizes,), bytes),
        call_ensures(transact_items_updated, (&items,), updated),
    ensures
        bytes == sum(sizes@.map_values(|size: usize| size as nat)),
        updated == sum(writing_ones(items@)),
{
    lemma_total_is_sum(sizes@);
    lemma_writing_is_sum(items@);
}

/// A condition is what it was parsed to; one that cannot be parsed counts as one that does
/// not hold.
pub proof fn law_conditions_are_what_was_parsed<C>(
    parsed: Option<Result<C, String>>,
    answer: Result<Option<C>, StorageError>,
)
    requires
        call_ensures(parse_optional_condition::<C>, (parsed,), answer),
    ensures
        parsed is None ==> answer == Ok::<Option<C>, StorageError>(None),
        parsed matches Some(Ok(condition)) ==> answer == Ok::<Option<C>, StorageError>(
            Some(condition),
        ),
        (parsed matches Some(result) && result is Err) ==> answer == Err::<Option<C>, StorageError>(
            StorageError::ConditionalCheckFailed { item: None },
        ),
{
}

/// A sequence of reads keeps its consistency. Only a transactional one goes through a
/// snapshot, and only where there are any; without one it is refused, at its start and at
/// its reads.
pub proof fn law_sequences_of_reads_keep_their_consistency(
    provider: SQLiteStorageProvider,
    consistency: ReadSequenceConsistency,
    begun: Result<(ReadSequenceConnection, ReadSequenceContext), StorageError>,
    context: ReadSequenceContext,
    supported: Result<(), StorageError>,
)
    requires
        call_ensures(
            SQLiteStorageProvider::begin_read_sequence_read_context,
            (&provider, consistency),
            begun,
        ),
        call_ensures(ReadSequenceContext::ensure_supported, (&context,), supported),
    ensures
        begun is Ok <==> consistency != ReadSequenceConsistency::Transactional
            || provider.has_snapshot_connections,
        begun matches Ok(both) ==> {
            &&& both.1.consistency == consistency
            &&& both.1.has_snapshot_lease <==> consistency == ReadSequenceConsistency::Transactional
            &&& both.0 == ReadSequenceConnection::Snapshot <==> consistency
                == ReadSequenceConsistency::Transactional
        },
        begun matches Err(e) ==> (e matches StorageError::Unsupported { message } && message@
            == "sqlite read-sequence transactional contexts require a file-backed provider snapshot connection"@),
        supported is Ok <==> context.has_snapshot_lease || context.consistency
            != ReadSequenceConsistency::Transactional,
        supported matches Err(e) ==> (e matches StorageError::Unsupported { message } && message@
            == "sqlite read-sequence transactional contexts require a file-backed provider snapshot connection"@),
{
}

/// A read or a removal of one item counts that item where it was there, and is not done
/// without a key.
pub proof fn law_single_items_are_counted_where_they_were(
    key: Item,
    payload_len: Option<usize>,
    removed: bool,
    totals: (usize, usize),
    deleted: (usize, usize),
    reads: bool,
    writes: bool,
    proven: Result<(), StorageError>,
    return_old: bool,
    old_item: Option<Item>,
    answer: Option<Item>,
)
    requires
        call_ensures(get_item_totals, (payload_len,), totals),
        call_ensures(delete_item_totals, (removed,), deleted),
        call_ensures(get_item_reads, (&key,), reads),
        call_ensures(delete_item_writes, (&key,), writes),
        call_ensures(get_item_with_durable_proof, (&key,), proven),
        call_ensures(put_item_response, (return_old, old_item), answer),
    ensures
        payload_len matches Some(len) ==> totals.0 == 1 && totals.1 == len,
        payload_len is None ==> totals.0 == 0 && totals.1 == 0,
        removed ==> deleted.0 == 1 && deleted.1 == 0,
        !removed ==> deleted.0 == 0 && deleted.1 == 0,
        reads <==> key.attributes@.len() > 0,
        writes <==> key.attributes@.len() > 0,
        proven is Ok <==> key.attributes@.len() > 0,
        proven matches Err(e) ==> e == StorageError::InvalidOrMissingKey,
        return_old ==> answer == old_item,
        !return_old ==> answer is None,
{
}

/// Whether an event is what came of a step of a guarded write.
pub open spec fn is_answer(step: GuardedStep, event: GuardedEvent) -> bool {
    match step {
        GuardedStep::Act(_) => event is Acted,
        GuardedStep::Commit => event is Committed,
        GuardedStep::Rollback => event is RolledBack,
    }
}

/// Whether steps are those of a guarded write, each from the one before and what came of
/// it.
pub open spec fn guarded_write_run(
    write: GuardedWrite,
    events: Seq<GuardedEvent>,
    steps: Seq<GuardedWriteStep>,
) -> bool {
    &&& steps.len() == events.len() + 1
    &&& call_ensures(start_guarded_write, (write,), steps[0])
    &&& forall|k: int|
        0 <= k < events.len() ==> {
            &&& steps[k] is Perform
            &&& is_answer(steps[k]->action, #[trigger] events[k])
            &&& call_ensures(guarded_write, (write, steps[k]->state, events[k]), steps[k + 1])
        }
}

/// Whether a guarded write performed an action at a step, and it went well.
pub open spec fn went_well(
    events: Seq<GuardedEvent>,
    steps: Seq<GuardedWriteStep>,
    j: int,
    wanted: GuardedAction,
) -> bool {
    0 <= j < events.len() && steps[j]->action == GuardedStep::Act(wanted)
        && events[j]->Acted_0 is Ok
}

proof fn lemma_guarded_write_run(
    write: GuardedWrite,
    events: Seq<GuardedEvent>,
    steps: Seq<GuardedWriteStep>,
    k: int,
)
    requires
        guarded_write_run(write, events, steps),
        0 <= k < steps.len(),
        steps[k] is Perform,
    ensures
        match steps[k]->state {
            GuardedState::Acting { place } => place == k < guarded_plan(write).len()
                && steps[k]->action == GuardedStep::Act(guarded_plan(write)[k]) && forall|j: int|
                0 <= j < k ==> #[trigger] went_well(events, steps, j, guarded_plan(write)[j]),
            GuardedState::Committing => k == guarded_plan(write).len() && steps[k]->action
                == GuardedStep::Commit && forall|j: int|
                0 <= j < k ==> #[trigger] went_well(events, steps, j, guarded_plan(write)[j]),
            GuardedState::RollingBack(e) => k > 0 && events[k - 1] == GuardedEvent::Acted(Err(e))
                && steps[k]->action == GuardedStep::Rollback && steps[k - 1]->action is Act
                && begins_at(write) < k - 1 && forall|j: int|
                0 <= j < k - 1 ==> #[trigger] went_well(events, steps, j, guarded_plan(write)[j]),
        },
    decreases k,
{
    if k > 0 {
        let event = events[k - 1];
        assert(steps[k - 1] is Perform);
        lemma_guarded_write_run(write, events, steps, k - 1);
        assert(guarded_next(write, steps[k - 1]->state, events[k - 1], steps[k - 1 + 1]));
        assert(steps[k - 1]->state is Acting);
        if steps[k - 1]->state is Acting && events[k - 1]->Acted_0 is Ok {
            assert(went_well(events, steps, k - 1, guarded_plan(write)[k - 1]));
        }
    }
}

/// A guarded write writes only right after its guard was found to hold, in a transaction
/// that had begun, and once what it needs was prepared: the condition of a put or a
/// delete, the table and the key of a put, the update of an update. It commits only right
/// after it has written, and rolls back only a transaction that had begun.
pub proof fn law_guarded_writes_follow_what_they_need(
    write: GuardedWrite,
    events: Seq<GuardedEvent>,
    steps: Seq<GuardedWriteStep>,
    k: int,
)
    requires
        guarded_write_run(write, events, steps),
        0 <= k < steps.len(),
        steps[k] is Perform,
    ensures
        steps[0]->action == GuardedStep::Act(GuardedAction::ApplyGsiWritePressure),
        steps[k]->action == GuardedStep::Act(GuardedAction::Write) ==> {
            &&& went_well(events, steps, k - 1, GuardedAction::ValidateGuard)
            &&& write == GuardedWrite::Put ==> {
                &&& k == 6
                &&& went_well(events, steps, 1, GuardedAction::ParseCondition)
                &&& went_well(events, steps, 2, GuardedAction::LoadTable)
                &&& went_well(events, steps, 3, GuardedAction::ExtractKey)
                &&& went_well(events, steps, 4, GuardedAction::BeginTransaction)
            }
            &&& write == GuardedWrite::Delete ==> {
                &&& k == 4
                &&& went_well(events, steps, 1, GuardedAction::ParseCondition)
                &&& went_well(events, steps, 2, GuardedAction::BeginTransaction)
            }
            &&& write == GuardedWrite::Update ==> {
                &&& k == 4
                &&& went_well(events, steps, 1, GuardedAction::BeginTransaction)
                &&& went_well(events, steps, 2, GuardedAction::PrepareUpdate)
            }
        },
        steps[k]->action == GuardedStep::Commit ==> went_well(
            events,
            steps,
            k - 1,
            GuardedAction::Write,
        ),
        steps[k]->action == GuardedStep::Rollback ==> (exists|j: int| #[trigger]
            went_well(events, steps, j, GuardedAction::BeginTransaction)) && k > 0 && (events[k
            - 1] matches GuardedEvent::Acted(Err(_))),
{
    lemma_guarded_write_run(write, events, steps, k);
    let plan = guarded_plan(write);
    match steps[k]->state {
        GuardedState::Acting { .. } => {
            if steps[k]->action == GuardedStep::Act(GuardedAction::Write) {
                assert(went_well(events, steps, k - 1, plan[k - 1]));
                assert(went_well(events, steps, 1, plan[1]));
                assert(went_well(events, steps, 2, plan[2]));
                assert(went_well(events, steps, 3, plan[3]));
                if write == GuardedWrite::Put {
                    assert(went_well(events, steps, 4, plan[4]));
                }
            }
        },
        GuardedState::Committing => {
            assert(went_well(events, steps, k - 1, plan[k - 1]));
        },
        GuardedState::RollingBack(_) => {
            assert(went_well(events, steps, begins_at(write), plan[begins_at(write)]));
        },
    }
}

/// A guarded write succeeds exactly where its commit did. It fails with the error of the
/// action that failed, once its transaction was rolled back where it had begun; a failure
/// to begin, to commit or to roll back tells so.
pub proof fn law_guarded_writes_tell_their_failure(
    write: GuardedWrite,
    events: Seq<GuardedEvent>,
    steps: Seq<GuardedWriteStep>,
)
    requires
        guarded_write_run(write, events, steps),
        steps.last() is Finish,
    ensures
        events.len() > 0,
        match events.last() {
            GuardedEvent::Committed(Ok(_)) => steps.last()->Finish_0 is Ok,
            GuardedEvent::Committed(Err(cause)) => steps.last() matches Step::Finish(Err(e))
                && tells_step(e, "transaction commit"@, cause),
            GuardedEvent::RolledBack(Ok(_)) => steps.last() matches Step::Finish(Err(e))
                && events.len() > 1 && events[events.len() - 2] == GuardedEvent::Acted(Err(e)),
            GuardedEvent::RolledBack(Err(cause)) => steps.last() matches Step::Finish(Err(e))
                && tells_step(e, "transaction rollback"@, cause),
            GuardedEvent::Acted(Err(cause)) => {
                &&& steps.last() matches Step::Finish(Err(e))
                &&& forall|j: int|
                    !#[trigger] went_well(events, steps, j, GuardedAction::BeginTransaction)
                &&& steps[events.len() - 1]->action == GuardedStep::Act(
                    GuardedAction::BeginTransaction,
                ) ==> tells_step(e, "transaction start"@, cause)
                &&& steps[events.len() - 1]->action != GuardedStep::Act(
                    GuardedAction::BeginTransaction,
                ) ==> e == cause
            },
            GuardedEvent::Acted(Ok(_)) => false,
        },
{
    let last = events.len() - 1;
    assert(events.len() > 0);
    let event = events[last];
    assert(steps[last] is Perform);
    lemma_guarded_write_run(write, events, steps, last);
    assert(guarded_next(write, steps[last]->state, events[last], steps[last + 1]));
    let plan = guarded_plan(write);
    if events[last] is Acted {
        assert forall|j: int| !#[trigger] went_well(
            events,
            steps,
            j,
            GuardedAction::BeginTransaction,
        ) by {
            if 0 <= j < last {
                assert(went_well(events, steps, j, plan[j]));
            }
        }
    }
}

/// Whether a page answers with its items.
pub open spec fn gives_items(
    items: Seq<Result<Item, StorageError>>,
    answer: Result<Seq<Item>, StorageError>,
) -> bool {
    &&& answer matches Ok(decoded) ==> decoded.len() == items.len()
    &&& forall|i: int|
        0 <= i < items.len() && answer is Ok ==> (#[trigger] items[i]) == Ok::<Item, StorageError>(
            answer->Ok_0[i],
        )
    &&& forall|i: int|
        0 <= i < items.len() && (#[trigger] items[i]) is Err && (forall|j: int|
            0 <= j < i ==> (#[trigger] items[j]) is Ok) ==> answer == Err::<Seq<Item>, StorageError>(
            items[i]->Err_0,
        )
    &&& answer is Err ==> exists|i: int| 0 <= i < items.len() && (#[trigger] items[i]) is Err
}

/// Scans and queries answer with all the items of their page, in their order, and with the
/// key at which it ended; the first that cannot be decoded decides the error.
pub proof fn law_pages_answer_with_their_items(
    provider: SQLiteStorageProvider,
    items: Vec<Result<Item, StorageError>>,
    last_key: Option<String>,
    scanned: Result<(Vec<Item>, Option<String>), StorageError>,
    queried: Result<(Vec<Item>, Option<String>), StorageError>,
)
    requires
        call_ensures(SQLiteStorageProvider::scan_table, (&provider, items, last_key), scanned),
        call_ensures(SQLiteStorageProvider::query_table, (&provider, items, last_key), queried),
    ensures
        scanned matches Ok(page) ==> page.1 == last_key,
        gives_items(
            items@,
            match scanned {
                Ok(page) => Ok(page.0@),
                Err(e) => Err(e),
            },
        ),
        queried matches Ok(page) ==> page.1 == last_key,
        gives_items(
            items@,
            match queried {
                Ok(page) => Ok(page.0@),
                Err(e) => Err(e),
            },
        ),
{
    lemma_page(items@, last_key, scanned);
    lemma_page(items@, last_key, queried);
}

proof fn lemma_page(
    items: Seq<Result<Item, StorageError>>,
    last_key: Option<String>,
    answer: Result<(Vec<Item>, Option<String>), StorageError>,
)
    requires
        crate::storage_provider::page_answer(items, last_key, answer),
    ensures
        answer matches Ok(page) ==> page.1 == last_key,
        gives_items(
            items,
            match answer {
                Ok(page) => Ok(page.0@),
                Err(e) => Err(e),
            },
        ),
{
    match answer {
        Ok(page) => {
            let decoded = page.0@;
            assert forall|i: int| 0 <= i < items.len() implies (#[trigger] items[i]) == Ok::<
                Item,
                StorageError,
            >(decoded[i]) by {
                assert(items[i] == Ok::<Item, StorageError>(decoded[i]));
            }
        },
        Err(e) => {
            let n = choose|n: int| crate::storage_provider::first_refusal(items, n, e);
            assert(items[n] is Err);
            assert forall|i: int|
                0 <= i < items.len() && (#[trigger] items[i]) is Err && (forall|j: int|
                    0 <= j < i ==> (#[trigger] items[j]) is Ok) implies i == n by {
                if i < n {
                    assert(items[i] is Ok);
                }
                if n < i {
                    assert(items[n] is Ok);
                }
            }
        },
    }
}

/// A read of many items answers, for each table in its order, with all its items in their
/// order; an item that cannot be decoded makes it fail.
pub proof fn law_reads_of_many_items_answer_table_by_table(
    provider: SQLiteStorageProvider,
    tables: Vec<TableItems>,
    answer: Result<Option<Vec<DecodedTableItems>>, StorageError>,
    nothing: Result<Option<Vec<DecodedTableItems>>, StorageError>,
)
    requires
        call_ensures(SQLiteStorageProvider::batch_get_item, (&provider, Some(tables)), answer),
        call_ensures(
            SQLiteStorageProvider::batch_get_item,
            (&provider, None::<Vec<TableItems>>),
            nothing,
        ),
    ensures
        nothing == Ok::<Option<Vec<DecodedTableItems>>, StorageError>(None),
        answer is Ok <==> forall|t: int, i: int|
            0 <= t < tables@.len() && 0 <= i < tables@[t].items@.len() ==> (
            #[trigger] tables@[t].items@[i]) is Ok,
        answer matches Ok(found) ==> {
            &&& found is Some
            &&& found->Some_0@.len() == tables@.len()
            &&& forall|t: int|
                0 <= t < tables@.len() ==> (#[trigger] found->Some_0@[t]).table_name
                    == tables@[t].table_name && found->Some_0@[t].items@.len()
                    == tables@[t].items@.len()
            &&& forall|t: int, i: int|
                0 <= t < tables@.len() && 0 <= i < tables@[t].items@.len()
                    ==> #[trigger] tables@[t].items@[i] == Ok::<Item, StorageError>(
                    found->Some_0@[t].items@[i],
                )
        },
        answer matches Err(e) ==> exists|t: int, i: int|
            0 <= t < tables@.len() && 0 <= i < tables@[t].items@.len()
                && #[trigger] tables@[t].items@[i] == Err::<Item, StorageError>(e),
{
    if answer is Ok {
        let found = answer->Ok_0->Some_0@;
        assert forall|t: int| 0 <= t < tables@.len() implies (#[trigger] found[t]).table_name
            == tables@[t].table_name && found[t].items@.len() == tables@[t].items@.len() by {
            assert(crate::storage_provider::decoded_table(tables@[t], found[t]));
        }
        assert forall|t: int, i: int|
            0 <= t < tables@.len() && 0 <= i < tables@[t].items@.len() implies #[trigger] tables@[t].items@[i]
            == Ok::<Item, StorageError>(found[t].items@[i]) by {
            assert(crate::storage_provider::decoded_table(tables@[t], found[t]));
            assert(tables@[t].items@[i] == Ok::<Item, StorageError>(found[t].items@[i]));
        }
    } else {
        let e = answer->Err_0;
        let (t, i) = choose|t: int, i: int|
            crate::storage_provider::first_table_refusal(tables@, t, i, e);
        assert(tables@[t].items@[i] == Err::<Item, StorageError>(e));
    }
}

/// A replicated change stores its new image, or removes the item where it has none, and
/// counts as one item of its bytes.
pub proof fn law_replicated_changes_store_their_image(
    new_image: Option<(Item, usize)>,
    r: (ReplicationWrite, (usize, usize)),
)
    requires
        call_ensures(apply_replication_mutation, (new_image,), r),
    ensures
        r.1.0 == 1,
        new_image is None ==> r.0 is Delete && r.1.1 == 0,
        new_image matches Some(image) ==> r.0 == (ReplicationWrite::Put {
            new_image: image.0,
            bytes: image.1,
        }) && r.1.1 == image.1,
{
}

/// Changes of tables are listed for their slot, after a given one or from the start, and
/// read as they are stored.
pub proof fn law_changes_are_listed_after_one(
    slot: u16,
    after: Option<&str>,
    limit: usize,
    listed: Result<Statement, StorageError>,
    rows: Vec<ChangeIndexRow>,
    markers: Result<Vec<ChangeIndexMarker>, StorageError>,
)
    requires
        call_ensures(list_change_index_markers_statement, (slot, after, limit), listed),
        call_ensures(change_index_markers, (rows,), markers),
    ensures
        listed is Ok <==> limit <= i64::MAX,
        listed matches Err(e) ==> tells_validation(e, "change index list limit exceeds i64"@),
        listed matches Ok(s) ==> {
            &&& s@.sql == LIST_CHANGE_INDEX_MARKERS@
            &&& s@.args.len() == 3
            &&& s@.args[0] == SqlArg::Integer(slot as int)
            &&& after matches Some(after) ==> s@.args[1] == SqlArg::Text(after@)
            &&& after is None ==> s@.args[1] == SqlArg::Text(Seq::empty())
            &&& s@.args[2] == SqlArg::Integer(limit as int)
        },
        markers is Ok <==> forall|i: int|
            0 <= i < rows@.len() ==> 0 <= (#[trigger] rows@[i]).slot <= 65535,
        markers matches Err(e) ==> tells_internal(e, "change index slot is outside u16 range"@),
        markers matches Ok(list) ==> list@.len() == rows@.len() && forall|i: int|
            0 <= i < rows@.len() ==> (#[trigger] list@[i]).slot == rows@[i].slot
                && list@[i].versionstamp == rows@[i].versionstamp && list@[i].table_id
                == rows@[i].table_id,
{
    if markers is Ok {
        let list = markers->Ok_0@;
        assert forall|i: int| 0 <= i < rows@.len() implies (#[trigger] list[i]).slot
            == rows@[i].slot && list[i].versionstamp == rows@[i].versionstamp && list[i].table_id
            == rows@[i].table_id by {
            assert(crate::storage_provider::marker_of(rows@[i], list[i]));
        }
    }
}

/// What this backend offers.
pub proof fn law_offers(provider: SQLiteStorageProvider, r: (bool, bool, bool, bool))
    requires
        call_ensures(SQLiteStorageProvider::supports_guarded_writes, (&provider,), r.0),
        call_ensures(SQLiteStorageProvider::supports_guarded_transaction_writes, (&provider,), r.1),
        call_ensures(SQLiteStorageProvider::supports_custom_stream_duration, (&provider,), r.2),
        call_ensures(SQLiteStorageProvider::supports_change_index, (&provider,), r.3),
    ensures
        r == (true, true, true, true),
{
}

} // verus!
