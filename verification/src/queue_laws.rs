//! What queues come to, over the messages that they hold.
use crate::error::StorageError;
use crate::machine::Step;
use crate::queue_provider::{
    after_last_slash, all_read, among, attribute_map, attributes_json,
    change_queue_message_visibility, checkpoint_result, create_queue, delete_queue,
    get_queue_message_counts, delete_queue_message, get_queue_result, ids_distinct, keys_distinct,
    law_queue_name_of_url, list_queues_result, look_up_queue_name, message_result,
    purge_queue_messages, receivable, receive_queue_messages, receive_selects,
    rows_store_attributes, send_queue_message, set_queue_attributes_result,
    set_queue_attributes_statement, start_create_queue, start_get_queue_message_counts,
    start_receive_messages, stores_attributes, update_message_snapshot_checkpoint, CountState,
    CountStep, CreateQueueEvent, CreateQueueStep, MessageResponse, Queue, QueueAction,
    QueueAttribute, QueueError, QueueMessage, QueueRow, ReceivableMessage, ReceiveAction,
    ReceiveEvent, ReceiveState, ReceiveStep, StoredMessage, COUNT_DELAYED, COUNT_NOT_VISIBLE,
    COUNT_VISIBLE, DELETE_QUEUE, DELETE_QUEUE_MESSAGES, LOOK_UP_QUEUE, LOOK_UP_QUEUE_NAME,
};
use crate::sql::{statements, SqlArg, Statement, StatementView};
use crate::sql_statements::{
    CHANGE_MESSAGE_VISIBILITY, DELETE_MESSAGE, INSERT_OR_REPLACE_QUEUE, PURGE_QUEUE,
    RECEIVE_MESSAGES, SEND_MESSAGE, SET_QUEUE_ATTRIBUTES, UPDATE_MESSAGE_CHECKPOINT,
    UPDATE_MESSAGE_VISIBILITY,
};
use crate::uuids::hyphenated;
use vstd::prelude::*;

verus! {

/// Whether a URL is that of the queue of a name: the name follows the last slash.
pub open spec fn url_of(queue_url: Seq<char>, base: Seq<char>, name: Seq<char>) -> bool {
    queue_url == base + seq!['/'] + name && forall|i: int| 0 <= i < name.len() ==> name[i] != '/'
}

/// The text of an argument, or none where it is null.
pub open spec fn text_or_none(arg: SqlArg) -> Option<Seq<char>> {
    match arg {
        SqlArg::Text(t) => Some(t),
        _ => None,
    }
}

/// Whether the statement of a claim finds a message: by its third argument, in the queue
/// of its fourth, under the receipt of its fifth.
pub open spec fn claim_changes(s: StatementView, table: Map<Seq<char>, StoredMessage>) -> bool {
    let id = s.args[2]->Text_0;
    table.contains_key(id) && table[id].queue_name == s.args[3]->Text_0 && table[id].receipt_handle
        == text_or_none(s.args[4])
}

/// The messages after the statement of a claim has run on them: the one that it finds gets
/// the first argument as its visibility and the second as its receipt.
pub open spec fn claim_applied(s: StatementView, table: Map<Seq<char>, StoredMessage>) -> Map<
    Seq<char>,
    StoredMessage,
> {
    let id = s.args[2]->Text_0;
    if claim_changes(s, table) {
        table.insert(
            id,
            StoredMessage {
                visibility_timestamp: s.args[0]->Integer_0,
                receipt_handle: Some(s.args[1]->Text_0),
                ..table[id]
            },
        )
    } else {
        table
    }
}

/// Whether steps are a run of a receive: each follows the one before by an event that it
/// waited for.
pub open spec fn receive_steps(
    queue_url: &str,
    next_visible: i64,
    events: Seq<ReceiveEvent>,
    steps: Seq<ReceiveStep>,
) -> bool {
    &&& steps.len() == events.len() + 1
    &&& forall|k: int|
        0 <= k < events.len() ==> steps[k] is Perform && steps[k]->state.awaits(
            #[trigger] events[k],
        ) && call_ensures(
            receive_queue_messages,
            (queue_url, next_visible, steps[k]->state, events[k]),
            steps[k + 1],
        )
}

/// Whether the statements of a run are what changes the stored messages, and the claims
/// tell of the rows that they changed.
pub open spec fn statements_run(
    events: Seq<ReceiveEvent>,
    steps: Seq<ReceiveStep>,
    tables: Seq<Map<Seq<char>, StoredMessage>>,
) -> bool {
    &&& tables.len() == steps.len()
    &&& forall|k: int|
        0 <= k < events.len() ==> match (#[trigger] events[k], steps[k]->action) {
            (ReceiveEvent::Claimed(Ok(n)), ReceiveAction::Claim(s)) => tables[k + 1]
                == claim_applied(s@, tables[k]) && (n > 0 <==> claim_changes(s@, tables[k])),
            (ReceiveEvent::Claimed(_), _) => false,
            _ => tables[k + 1] == tables[k],
        }
}

/// Whether a step claims the message of a row, in the queue of a name, until a time.
pub open spec fn claims_row(
    step: ReceiveStep,
    row: ReceivableMessage,
    name: Seq<char>,
    next_visible: i64,
) -> bool {
    step matches Step::Perform { action: ReceiveAction::Claim(s), .. } && s@.sql
        == UPDATE_MESSAGE_VISIBILITY@ && s@.args.len() == 5 && s@.args[0] == SqlArg::Integer(
        next_visible as int,
    ) && s@.args[2] == SqlArg::Text(row.message_id@) && s@.args[3] == SqlArg::Text(name)
        && s@.args[4] == (match row.receipt_handle {
        Some(held) => SqlArg::Text(held@),
        None => SqlArg::Null,
    })
}

/// Whether a message was received: the answer is the row under a receipt, and what is
/// stored has that receipt and is not visible before a time, and is otherwise as it was.
pub open spec fn was_received(
    row: ReceivableMessage,
    answer: MessageResponse,
    stored: StoredMessage,
    then: StoredMessage,
    next_visible: i64,
) -> bool {
    &&& answer.message_id == row.message_id
    &&& answer.body == row.body
    &&& answer.message_attributes_json == row.message_attributes_json
    &&& then.visibility_timestamp == next_visible
    &&& then.receipt_handle == Some(answer.receipt_handle@)
    &&& then.queue_name == stored.queue_name
    &&& then.body == stored.body
    &&& then.message_attributes_json == stored.message_attributes_json
    &&& then.created_at == stored.created_at
}

/// Whether the first of the rows were received and nothing else was changed.
pub open spec fn received_up_to(
    rows: Seq<ReceivableMessage>,
    events: Seq<ReceiveEvent>,
    received: Seq<MessageResponse>,
    table: Map<Seq<char>, StoredMessage>,
    then: Map<Seq<char>, StoredMessage>,
    next_visible: i64,
    i: int,
) -> bool {
    &&& received.len() == i
    &&& then.dom() == table.dom()
    &&& forall|j: int|
        0 <= j < i ==> was_received(
            rows[j],
            #[trigger] received[j],
            table[rows[j].message_id@],
            then[rows[j].message_id@],
            next_visible,
        ) && events[1 + 2 * j] == ReceiveEvent::ReceiptMade(received[j].receipt_handle)
    &&& forall|id: Seq<char>|
        !among(rows.take(i), id) ==> #[trigger] then[id] == table[id]
}

/// Whether a step is where the messages of the rows from one on are still to be received.
pub open spec fn receives_from(
    rows: Seq<ReceivableMessage>,
    step: ReceiveStep,
    received: Seq<MessageResponse>,
    i: int,
) -> bool {
    if i < rows.len() {
        step matches Step::Perform {
            state: ReceiveState::MakingReceipt { message, left, received: so_far },
            ..
        } && message == rows[i] && left@ == all_read(rows).skip(i + 1) && so_far@ == received
    } else {
        step matches Step::Finish(Ok(out)) && out@ == received
    }
}

proof fn lemma_receive_run(
    queue_url: &str,
    name: Seq<char>,
    next_visible: i64,
    rows: Seq<ReceivableMessage>,
    events: Seq<ReceiveEvent>,
    steps: Seq<ReceiveStep>,
    tables: Seq<Map<Seq<char>, StoredMessage>>,
    i: int,
) -> (received: Seq<MessageResponse>)
    requires
        after_last_slash(queue_url@) == name,
        receive_steps(queue_url, next_visible, events, steps),
        statements_run(events, steps, tables),
        ids_distinct(rows),
        forall|j: int|
            0 <= j < rows.len() ==> tables[0].contains_key((#[trigger] rows[j]).message_id@)
                && tables[0][rows[j].message_id@].queue_name == name
                && tables[0][rows[j].message_id@].receipt_handle == (match rows[j].receipt_handle {
                Some(held) => Some(held@),
                None => None,
            }),
        events.len() > 0,
        events[0] matches ReceiveEvent::MessagesRead(Ok(list)) && list@ == all_read(rows),
        steps.last() is Finish,
        0 <= i <= rows.len(),
    ensures
        1 + 2 * i < steps.len(),
        i == rows.len() ==> steps.len() == 2 + 2 * i,
        receives_from(rows, steps[1 + 2 * i], received, i),
        received_up_to(
            rows,
            events,
            received,
            tables[0],
            tables[1 + 2 * i],
            next_visible,
            i,
        ),
        forall|j: int|
            0 <= j < i ==> claims_row(steps[2 + 2 * j], #[trigger] rows[j], name, next_visible),
    decreases i,
{
    assert(all_read(rows).len() == rows.len());
    if i == 0 {
        let e = events[0];
        assert(all_read(rows).drop_first() =~= all_read(rows).skip(1)) by {
            if rows.len() == 0 {
            }
        }
        if rows.len() > 0 {
            assert(all_read(rows)[0] == Ok::<ReceivableMessage, StorageError>(rows[0]));
        } else if events.len() > 1 {
            let f = events[1];
        }
        Seq::empty()
    } else {
        let p = i - 1;
        let before = lemma_receive_run(
            queue_url,
            name,
            next_visible,
            rows,
            events,
            steps,
            tables,
            p,
        );
        let k = 1 + 2 * p;
        assert(k < events.len());
        let made = events[k];
        assert(events[k] is ReceiptMade);
        assert(steps[k + 1] is Perform);
        assert(k + 1 < events.len());
        let claimed = events[k + 1];
        let handle = made->ReceiptMade_0;
        let response = MessageResponse {
            message_id: rows[p].message_id,
            body: rows[p].body,
            message_attributes_json: rows[p].message_attributes_json,
            receipt_handle: handle,
        };
        let id = rows[p].message_id@;
        let table = tables[0];
        let then = tables[k];
        assert(!among(rows.take(p), id)) by {
            if among(rows.take(p), id) {
                let j = choose|j: int|
                    0 <= j < rows.take(p).len() && (#[trigger] rows.take(p)[j]).message_id@ == id;
                assert(rows[j].message_id@ != rows[p].message_id@);
            }
        }
        assert(then[id] == table[id]);
        assert(then.dom().contains(id));
        let s = steps[k + 1]->action->Claim_0;
        assert(tables[k + 1] == then);
        assert(claim_changes(s@, then));
        assert(claimed is Claimed);
        let after = tables[k + 2];
        assert(after == claim_applied(s@, then));
        let all = all_read(rows);
        assert(all.skip(i).len() == rows.len() - i);
        if i < rows.len() {
            assert(all.skip(i)[0] == Ok::<ReceivableMessage, StorageError>(rows[i]));
            assert(all.skip(i).drop_first() =~= all.skip(i + 1));
        }
        let received = before.push(response);
        assert(k + 2 == 1 + 2 * i);
        assert(receives_from(rows, steps[k + 2], received, i));
        assert(after.dom() =~= table.dom());
        assert forall|j: int| 0 <= j < i implies was_received(
            rows[j],
            #[trigger] received[j],
            table[rows[j].message_id@],
            after[rows[j].message_id@],
            next_visible,
        ) && events[1 + 2 * j] == ReceiveEvent::ReceiptMade(received[j].receipt_handle) by {
            if j < p {
                assert(received[j] == before[j]);
                assert(rows[j].message_id@ != rows[p].message_id@);
            }
        }
        assert forall|other: Seq<char>| !among(rows.take(i), other) implies #[trigger] after[other]
            == table[other] by {
            assert(rows.take(i)[p].message_id@ == id);
            assert(other != id);
            assert(!among(rows.take(p), other)) by {
                if among(rows.take(p), other) {
                    let j = choose|j: int|
                        0 <= j < rows.take(p).len() && (#[trigger] rows.take(p)[j]).message_id@
                            == other;
                    assert(rows.take(i)[j].message_id@ == other);
                }
            }
            assert(then[other] == table[other]);
        }
        assert forall|j: int| 0 <= j < i implies claims_row(steps[2 + 2 * j], #[trigger] rows[j], name, next_visible) by {
            if j == p {
                assert(2 + 2 * j == k + 1);
            }
        }
        if i == rows.len() && events.len() > k + 2 {
            let f = events[k + 2];
        }
        received
    }
}

/// A receive reads the messages of the queue that are visible now, as many as are asked
/// for. Run on the stored messages where nothing else touches them, the statements of its
/// steps make each message that was read invisible until the given time, whether it was
/// received before or not, and give it the receipt that is answered for it; they change
/// nothing else. So none of those received can be received again before that time.
pub proof fn law_claims_hide_what_was_received(
    queue_url: &str,
    base: Seq<char>,
    name: Seq<char>,
    now: i64,
    next_visible: i64,
    max_messages: u32,
    rows: Seq<ReceivableMessage>,
    events: Seq<ReceiveEvent>,
    steps: Seq<ReceiveStep>,
    tables: Seq<Map<Seq<char>, StoredMessage>>,
)
    requires
        url_of(queue_url@, base, name),
        receive_steps(queue_url, next_visible, events, steps),
        call_ensures(start_receive_messages, (queue_url, now, max_messages), steps[0]),
        statements_run(events, steps, tables),
        events.len() > 0,
        events[0] matches ReceiveEvent::MessagesRead(Ok(list)) && list@ == all_read(rows),
        steps[0]->action matches ReceiveAction::QueryMessages(s) && receive_selects(
            tables[0],
            s@.args[0]->Text_0,
            s@.args[1]->Integer_0,
            s@.args[2]->Integer_0 as nat,
            rows,
        ),
        steps.last() is Finish,
    ensures
        steps[0]->action->QueryMessages_0@.sql == RECEIVE_MESSAGES@,
        steps[0]->action->QueryMessages_0@.args == seq![
            SqlArg::Text(name),
            SqlArg::Integer(now as int),
            SqlArg::Integer(max_messages as int),
        ],
        steps.len() == 2 + 2 * rows.len(),
        forall|j: int|
            0 <= j < rows.len() ==> claims_row(steps[2 + 2 * j], #[trigger] rows[j], name, next_visible),
        steps.last() matches Step::Finish(Ok(out)) && out@.len() == rows.len() <= max_messages
            && forall|i: int|
            0 <= i < rows.len() ==> was_received(
                rows[i],
                #[trigger] out@[i],
                tables[0][rows[i].message_id@],
                tables.last()[rows[i].message_id@],
                next_visible,
            ) && events[1 + 2 * i] == ReceiveEvent::ReceiptMade(out@[i].receipt_handle),
        tables.last().dom() == tables[0].dom(),
        forall|id: Seq<char>| !among(rows, id) ==> #[trigger] tables.last()[id] == tables[0][id],
        forall|i: int, later: int|
            0 <= i < rows.len() && later < next_visible ==> !#[trigger] receivable(
                tables.last(),
                name,
                later,
                rows[i].message_id@,
            ),
        forall|i: int, later: int|
            0 <= i < rows.len() && later >= next_visible ==> #[trigger] receivable(
                tables.last(),
                name,
                later,
                rows[i].message_id@,
            ),
{
    law_queue_name_of_url(base, name);
    assert(queue_url@ == base + seq!['/'] + name);
    assert(after_last_slash(queue_url@) == name);
    assert forall|j: int| 0 <= j < rows.len() implies tables[0].contains_key(
        (#[trigger] rows[j]).message_id@,
    ) && tables[0][rows[j].message_id@].queue_name == name
        && tables[0][rows[j].message_id@].receipt_handle == (match rows[j].receipt_handle {
        Some(held) => Some(held@),
        None => None,
    }) by {
        assert(receivable(tables[0], name, now as int, rows[j].message_id@));
    }
    let out = lemma_receive_run(
        queue_url,
        name,
        next_visible,
        rows,
        events,
        steps,
        tables,
        rows.len() as int,
    );
    assert(rows.take(rows.len() as int) =~= rows);
    assert(tables.last() == tables[1 + 2 * (rows.len() as int)]);
    assert forall|i: int, later: int| 0 <= i < rows.len() implies #[trigger] receivable(
        tables.last(),
        name,
        later,
        rows[i].message_id@,
    ) == (later >= next_visible) by {
        assert(was_received(
            rows[i],
            out[i],
            tables[0][rows[i].message_id@],
            tables.last()[rows[i].message_id@],
            next_visible,
        ));
        assert(tables.last().dom().contains(rows[i].message_id@));
    }
}

/// A message that somebody else has claimed since it was read is passed over: what was
/// received so far is unchanged, and the next one is taken.
pub proof fn law_messages_claimed_by_others_are_passed_over(
    queue_url: &str,
    next_visible: i64,
    message: ReceivableMessage,
    receipt_handle: String,
    left: Vec<Result<ReceivableMessage, StorageError>>,
    received: Vec<MessageResponse>,
    next: ReceiveStep,
)
    requires
        call_ensures(
            receive_queue_messages,
            (
                queue_url,
                next_visible,
                ReceiveState::Claiming { message, receipt_handle, left, received },
                ReceiveEvent::Claimed(Ok(0)),
            ),
            next,
        ),
    ensures
        left@.len() == 0 ==> (next matches Step::Finish(Ok(out)) && out@ == received@),
        left@.len() > 0 && left@[0] is Ok ==> (next matches Step::Perform {
            state: ReceiveState::MakingReceipt { message: m, received: so_far, .. },
            ..
        } && m == left@[0]->Ok_0 && so_far@ == received@),
        left@.len() > 0 && left@[0] is Err ==> (next matches Step::Finish(
            Err(QueueError::Storage(e)),
        ) && e == left@[0]->Err_0),
{
}

/// What storage fails with ends an operation on queues with that very failure.
pub proof fn law_failures_of_storage_are_told(
    queue_url: &str,
    next_visible: i64,
    state: ReceiveState,
    error: StorageError,
    received: ReceiveStep,
    queue: Queue,
    creating: crate::queue_provider::CreateQueueState,
    created: CreateQueueStep,
    counting: CountState,
    counted: CountStep,
    answer: Result<Option<Queue>, QueueError>,
)
    requires
        call_ensures(
            receive_queue_messages,
            (queue_url, next_visible, state, ReceiveEvent::MessagesRead(Err(error))),
            received,
        ) || call_ensures(
            receive_queue_messages,
            (queue_url, next_visible, state, ReceiveEvent::Claimed(Err(error))),
            received,
        ),
        call_ensures(
            create_queue,
            (&queue, creating, CreateQueueEvent::LookedUp(Err(error))),
            created,
        )
            || call_ensures(
                create_queue,
                (&queue, creating, CreateQueueEvent::Inserted(Err(error))),
                created,
            ),
        call_ensures(
            get_queue_message_counts,
            (queue_url, next_visible, counting, Err(error)),
            counted,
        ),
        call_ensures(get_queue_result, (Err::<Option<QueueRow>, StorageError>(error),), answer),
    ensures
        received matches Step::Finish(Err(QueueError::Storage(e))) && e == error,
        created matches Step::Finish(Err(QueueError::Storage(e))) && e == error,
        counted matches Step::Finish(Err(QueueError::Storage(e))) && e == error,
        answer matches Err(QueueError::Storage(e)) && e == error,
{
}

/// The message that the statement of a send stores under its first argument.
pub open spec fn stored_by(s: StatementView) -> StoredMessage {
    StoredMessage {
        queue_name: s.args[1]->Text_0,
        body: s.args[2]->Text_0,
        message_attributes_json: text_or_none(s.args[3]),
        visibility_timestamp: s.args[4]->Integer_0,
        receipt_handle: None,
        created_at: s.args[5]->Integer_0,
    }
}

/// A message that was sent is stored in its queue as it was given, under its id, or a new
/// one where it has none. It can be received from the time that was given for it on, or at
/// any time where none was.
pub proof fn law_sent_messages_can_be_received(
    message: QueueMessage,
    base: Seq<char>,
    name: Seq<char>,
    sent: (u128, Statement),
    table: Map<Seq<char>, StoredMessage>,
    now: int,
)
    requires
        url_of(message.queue_url@, base, name),
        call_ensures(send_queue_message, (&message,), sent),
    ensures
        sent.0 != 0,
        message.message_id != 0 ==> sent.0 == message.message_id,
        sent.1@.sql == SEND_MESSAGE@,
        sent.1@.args.len() == 6,
        sent.1@.args[0] == SqlArg::Text(hyphenated(sent.0)),
        stored_by(sent.1@).queue_name == name,
        stored_by(sent.1@).body == message.body@,
        message.message_attributes_json matches Some(json)
            ==> stored_by(sent.1@).message_attributes_json == Some(json@),
        message.message_attributes_json is None ==> sent.1@.args[3] == SqlArg::Null,
        stored_by(sent.1@).created_at == message.created_at,
        sent.1@.args[4] is Integer,
        receivable(
            table.insert(hyphenated(sent.0), stored_by(sent.1@)),
            name,
            now,
            hyphenated(sent.0),
        ) <==> (match message.visibility_timestamp {
            Some(t) => t <= now,
            None => 0 <= now,
        }),
{
    law_queue_name_of_url(base, name);
    assert(message.queue_url@ == base + seq!['/'] + name);
}

/// What is done to a message by its receipt is done in the queue of the URL, and only
/// under that receipt; it succeeds exactly where a message was changed.
pub proof fn law_receipts_find_their_messages(
    queue_url: &str,
    base: Seq<char>,
    name: Seq<char>,
    receipt_handle: &str,
    time: i64,
    data: &str,
    deleted: Statement,
    moved: Statement,
    noted: Statement,
    changed: usize,
    answer: Result<(), QueueError>,
    told: Result<(), QueueError>,
)
    requires
        url_of(queue_url@, base, name),
        call_ensures(delete_queue_message, (queue_url, receipt_handle), deleted),
        call_ensures(change_queue_message_visibility, (queue_url, receipt_handle, time), moved),
        call_ensures(update_message_snapshot_checkpoint, (queue_url, receipt_handle, data), noted),
        call_ensures(message_result, (changed,), answer),
        call_ensures(checkpoint_result, (changed,), told),
    ensures
        deleted@.sql == DELETE_MESSAGE@,
        deleted@.args == seq![SqlArg::Text(name), SqlArg::Text(receipt_handle@)],
        moved@.sql == CHANGE_MESSAGE_VISIBILITY@,
        moved@.args == seq![
            SqlArg::Integer(time as int),
            SqlArg::Text(name),
            SqlArg::Text(receipt_handle@),
        ],
        noted@.sql == UPDATE_MESSAGE_CHECKPOINT@,
        noted@.args == seq![
            SqlArg::Text(data@),
            SqlArg::Text(name),
            SqlArg::Text(receipt_handle@),
        ],
        answer is Ok <==> changed > 0,
        answer matches Err(e) ==> e == QueueError::MessageNotFoundOrAlreadyProcessed,
        told is Ok <==> changed > 0,
        told matches Err(e) ==> e == QueueError::MessageNotFound,
{
    law_queue_name_of_url(base, name);
    assert(queue_url@ == base + seq!['/'] + name);
}

/// Whether a statement counts messages of a queue at a time.
pub open spec fn counts(s: StatementView, sql: Seq<char>, name: Seq<char>, now: i64) -> bool {
    s.sql == sql && s.args == seq![SqlArg::Text(name), SqlArg::Integer(now as int)]
}

/// The counts of a queue are those that its three statements give, each in its own place.
pub proof fn law_counts_are_what_was_counted(
    queue_url: &str,
    base: Seq<char>,
    name: Seq<char>,
    now: i64,
    started: CountStep,
    visible: i64,
    second: CountStep,
    not_visible: i64,
    third: CountStep,
    delayed: i64,
    ended: CountStep,
)
    requires
        url_of(queue_url@, base, name),
        visible >= 0,
        not_visible >= 0,
        delayed >= 0,
        call_ensures(start_get_queue_message_counts, (queue_url, now), started),
        call_ensures(
            get_queue_message_counts,
            (queue_url, now, started->state, Ok(visible)),
            second,
        ),
        call_ensures(
            get_queue_message_counts,
            (queue_url, now, second->state, Ok(not_visible)),
            third,
        ),
        call_ensures(get_queue_message_counts, (queue_url, now, third->state, Ok(delayed)), ended),
    ensures
        started matches Step::Perform { action: s, .. } && counts(s@, COUNT_VISIBLE@, name, now),
        second matches Step::Perform { action: s, .. } && counts(s@, COUNT_NOT_VISIBLE@, name, now),
        third matches Step::Perform { action: s, .. } && counts(s@, COUNT_DELAYED@, name, now),
        ended matches Step::Finish(Ok(c)) && c.visible == visible && c.not_visible == not_visible
            && c.delayed == delayed,
{
    law_queue_name_of_url(base, name);
    assert(queue_url@ == base + seq!['/'] + name);
}

/// A count below zero is refused.
pub proof fn law_counts_below_zero_are_refused(
    queue_url: &str,
    now: i64,
    state: CountState,
    n: i64,
    ended: CountStep,
)
    requires
        n < 0,
        call_ensures(get_queue_message_counts, (queue_url, now, state, Ok(n)), ended),
    ensures
        ended matches Step::Finish(Err(QueueError::InvalidCount { detail })) && detail@
            == "out of range integral type conversion attempted"@,
{
}

/// A queue that is not there is stored as it was given; one that is there is left as it
/// is, which succeeds exactly where its URL and its attributes are the same.
pub proof fn law_queues_are_created_once(
    queue: Queue,
    started: CreateQueueStep,
    found: Option<(String, String)>,
    looked_up: CreateQueueStep,
    inserting: crate::queue_provider::CreateQueueState,
    changed: usize,
    ended: CreateQueueStep,
)
    requires
        queue.wf(),
        call_ensures(start_create_queue, (&queue,), started),
        call_ensures(
            create_queue,
            (&queue, started->state, CreateQueueEvent::LookedUp(Ok(found))),
            looked_up,
        ),
        call_ensures(
            create_queue,
            (&queue, inserting, CreateQueueEvent::Inserted(Ok(changed))),
            ended,
        ),
    ensures
        started matches Step::Perform { action: QueueAction::Lookup(s), .. } && s@.sql
            == LOOK_UP_QUEUE@ && s@.args == seq![SqlArg::Text(queue.queue_name@)],
        found is None ==> (looked_up matches Step::Perform { action: QueueAction::Run(s), .. }
            && s@.sql == INSERT_OR_REPLACE_QUEUE@ && s@.args == seq![
            SqlArg::Text(queue.queue_name@),
            SqlArg::Text(queue.queue_url@),
            SqlArg::Text(attributes_json(attribute_map(queue.attributes@))),
            SqlArg::Integer(queue.created_at as int),
        ]),
        found matches Some(other) ==> looked_up is Finish,
        found matches Some((url, json)) ==> (url@ != queue.queue_url@ ==> looked_up->Finish_0 is Err),
        (found matches Some((url, json)) && crate::queue_provider::attributes_of_json(json@) is Ok)
            ==> (looked_up->Finish_0 is Ok <==> found->Some_0.0@ == queue.queue_url@
            && crate::queue_provider::attributes_of_json(found->Some_0.1@)->Ok_0 == attribute_map(
            queue.attributes@,
        )),
        (found matches Some((url, json)) && crate::queue_provider::attributes_of_json(json@) is Ok
            && looked_up->Finish_0 is Err) ==> (looked_up matches Step::Finish(
            Err(QueueError::QueueAlreadyExists { name }),
        ) && name@ == queue.queue_name@),
        ended matches Step::Finish(Ok(_)),
{
}

/// A queue is deleted, with its messages, or purged, by the name that its URL has; where
/// there is none of that URL, both say so.
pub proof fn law_queues_are_deleted_by_url(
    queue_url: &str,
    found: Option<&str>,
    lookup: Statement,
    deleted: Result<Vec<Statement>, QueueError>,
    purged: Result<Statement, QueueError>,
)
    requires
        call_ensures(look_up_queue_name, (queue_url,), lookup),
        call_ensures(delete_queue, (queue_url, found), deleted),
        call_ensures(purge_queue_messages, (queue_url, found), purged),
    ensures
        lookup@.sql == LOOK_UP_QUEUE_NAME@ && lookup@.args == seq![SqlArg::Text(queue_url@)],
        found matches Some(name) ==> {
            &&& deleted is Ok
            &&& deleted->Ok_0@.len() == 2
            &&& deleted->Ok_0@[0]@.sql == DELETE_QUEUE_MESSAGES@
            &&& deleted->Ok_0@[0]@.args == seq![SqlArg::Text(name@)]
            &&& deleted->Ok_0@[1]@.sql == DELETE_QUEUE@
            &&& deleted->Ok_0@[1]@.args == seq![SqlArg::Text(queue_url@)]
            &&& purged is Ok
            &&& purged->Ok_0@.sql == PURGE_QUEUE@
            &&& purged->Ok_0@.args == seq![SqlArg::Text(name@)]
        },
        found is None ==> {
            &&& deleted matches Err(QueueError::QueueNotFound { queue_url: url }) && url@
                == queue_url@
            &&& purged matches Err(QueueError::QueueNotFound { queue_url: url }) && url@
                == queue_url@
        },
{
    if found is Some {
        let list = deleted->Ok_0;
        assert(statements(list@).len() == 2);
        assert(statements(list@)[0] == list@[0]@);
        assert(statements(list@)[1] == list@[1]@);
    }
}

/// The attributes that were set are those that the queue is then read with, and setting
/// them succeeds exactly where there is a queue of that URL.
pub proof fn law_attributes_that_were_set_are_read(
    queue_url: &str,
    attributes: Vec<QueueAttribute>,
    made: Result<Statement, QueueError>,
    row: QueueRow,
    read: Result<Option<Queue>, QueueError>,
    changed: usize,
    answer: Result<(), QueueError>,
)
    requires
        keys_distinct(attributes@),
        call_ensures(set_queue_attributes_statement, (queue_url, &attributes), made),
        made is Ok ==> row.attributes_json@ == made->Ok_0@.args[0]->Text_0,
        stores_attributes(row, attribute_map(attributes@)),
        call_ensures(get_queue_result, (Ok::<Option<QueueRow>, StorageError>(Some(row)),), read),
        call_ensures(set_queue_attributes_result, (queue_url, changed), answer),
    ensures
        made matches Ok(s) && s@.sql == SET_QUEUE_ATTRIBUTES@ && s@.args.len() == 2 && s@.args[1]
            == SqlArg::Text(queue_url@),
        read matches Ok(Some(queue)) && attribute_map(queue.attributes@) == attribute_map(
            attributes@,
        ) && queue.queue_name == row.queue_name && queue.queue_url == row.queue_url
            && queue.created_at == row.created_at,
        answer is Ok <==> changed > 0,
        changed == 0 ==> (answer matches Err(QueueError::QueueNotFound { queue_url: url }) && url@
            == queue_url@),
{
}

/// The queues of a list are those of its rows, in their order.
pub proof fn law_queues_are_listed_as_stored(
    rows: Vec<QueueRow>,
    attributes: Seq<Map<Seq<char>, Seq<char>>>,
    answer: Result<Vec<Queue>, QueueError>,
)
    requires
        rows_store_attributes(rows@, attributes),
        call_ensures(list_queues_result, (rows,), answer),
    ensures
        answer matches Ok(queues) && queues@.len() == rows@.len() && forall|i: int|
            0 <= i < rows@.len() ==> (#[trigger] queues@[i]).queue_name == rows@[i].queue_name
                && queues@[i].queue_url == rows@[i].queue_url && queues@[i].created_at
                == rows@[i].created_at && attribute_map(queues@[i].attributes@) == attributes[i],
{
    let queues = answer->Ok_0;
    assert forall|i: int| 0 <= i < rows@.len() implies (#[trigger] queues@[i]).queue_name
        == rows@[i].queue_name && queues@[i].queue_url == rows@[i].queue_url && queues@[i].created_at
        == rows@[i].created_at by {
        assert(crate::queue_provider::queue_of(rows@[i], queues@[i]));
    }
}

} // verus!
