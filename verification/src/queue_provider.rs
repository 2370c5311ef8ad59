//! Queues of messages.
use crate::error::StorageError;
use crate::machine::Step;
use crate::sql::{
    integer, optional_string, optional_text_arg, statement, statements, text, SqlArg, Statement,
    StatementView,
};
use crate::sql_statements::{
    change_message_visibility, create_messages_queue_receipt_index,
    create_messages_queue_visibility_index, create_messages_table, create_queues_table,
    delete_message, insert_or_replace_queue, purge_queue, receive_messages, send_message,
    set_queue_attributes, update_message_checkpoint, update_message_visibility,
    CHANGE_MESSAGE_VISIBILITY, CREATE_MESSAGES_QUEUE_RECEIPT_INDEX,
    CREATE_MESSAGES_QUEUE_VISIBILITY_INDEX, CREATE_MESSAGES_TABLE, CREATE_QUEUES_TABLE,
    DELETE_MESSAGE, INSERT_OR_REPLACE_QUEUE, PURGE_QUEUE, RECEIVE_MESSAGES, SEND_MESSAGE,
    SET_QUEUE_ATTRIBUTES, UPDATE_MESSAGE_CHECKPOINT, UPDATE_MESSAGE_VISIBILITY,
};
use crate::stream_duration::{plain_view, prefixed};
use crate::uuids::{fresh_uuid, hyphenated, is_version_7, uuid_text};
use std::collections::BTreeMap;
use vstd::prelude::*;
use vstd::string::*;

verus! {

/// Why an operation on queues failed.
#[derive(Debug, PartialEq, Eq)]
pub enum QueueError {
    /// There is another queue of that name.
    QueueAlreadyExists { name: String },
    /// There is no queue of that URL.
    QueueNotFound { queue_url: String },
    /// No message has that receipt, or it was dealt with.
    MessageNotFoundOrAlreadyProcessed,
    /// No message has that receipt.
    MessageNotFound,
    /// A count of messages is out of range.
    InvalidCount { detail: String },
    /// Attributes could not be written or read.
    Json { message: String },
    /// Storage failed.
    Storage(StorageError),
}

/// An attribute of a queue.
#[derive(Debug, PartialEq, Eq)]
pub struct QueueAttribute {
    pub key: String,
    pub value: String,
}

/// What attributes of queues assign to their keys.
pub open spec fn attribute_map(entries: Seq<QueueAttribute>) -> Map<Seq<char>, Seq<char>>
    decreases entries.len(),
{
    if entries.len() == 0 {
        Map::empty()
    } else {
        attribute_map(entries.drop_last()).insert(entries.last().key@, entries.last().value@)
    }
}

/// Whether no key occurs twice.
pub open spec fn keys_distinct(entries: Seq<QueueAttribute>) -> bool {
    forall|i: int, j: int|
        0 <= i < j < entries.len() ==> (#[trigger] entries[i]).key@ != (#[trigger] entries[j]).key@
}

proof fn lemma_attribute_map(entries: Seq<QueueAttribute>)
    requires
        keys_distinct(entries),
    ensures
        attribute_map(entries).dom().finite(),
        forall|i: int|
            0 <= i < entries.len() ==> attribute_map(entries).contains_key(
                (#[trigger] entries[i]).key@,
            ) && attribute_map(entries)[entries[i].key@] == entries[i].value@,
        forall|k: Seq<char>| #[trigger]
            attribute_map(entries).contains_key(k) ==> exists|i: int|
                0 <= i < entries.len() && (#[trigger] entries[i]).key@ == k,
    decreases entries.len(),
{
    if entries.len() > 0 {
        let shorter = entries.drop_last();
        assert forall|i: int, j: int| 0 <= i < j < shorter.len() implies (
        #[trigger] shorter[i]).key@ != (#[trigger] shorter[j]).key@ by {
            assert(entries[i].key@ != entries[j].key@);
        }
        lemma_attribute_map(shorter);
        assert forall|i: int| 0 <= i < entries.len() implies attribute_map(entries).contains_key(
            (#[trigger] entries[i]).key@,
        ) && attribute_map(entries)[entries[i].key@] == entries[i].value@ by {
            if i < shorter.len() {
                assert(shorter[i] == entries[i]);
                assert(entries[i].key@ != entries[entries.len() - 1].key@);
            }
        }
        assert forall|k: Seq<char>| #[trigger] attribute_map(entries).contains_key(k) implies exists|
            i: int,
        | 0 <= i < entries.len() && (#[trigger] entries[i]).key@ == k by {
            if k == entries.last().key@ {
                assert(entries[entries.len() - 1].key@ == k);
            } else {
                assert(attribute_map(shorter).contains_key(k));
                let i = choose|i: int| 0 <= i < shorter.len() && (#[trigger] shorter[i]).key@ == k;
                assert(entries[i].key@ == k);
            }
        }
    }
}

fn has_entry(entries: &Vec<QueueAttribute>, key: &String, value: &String) -> (r: bool)
    ensures
        r <==> exists|i: int|
            0 <= i < entries@.len() && (#[trigger] entries@[i]).key@ == key@ && entries@[i].value@
                == value@,
{
    let mut i: usize = 0;
    while i < entries.len()
        invariant
            i <= entries@.len(),
            forall|j: int|
                0 <= j < i ==> !((#[trigger] entries@[j]).key@ == key@ && entries@[j].value@
                    == value@),
        decreases entries@.len() - i,
    {
        if entries[i].key == *key && entries[i].value == *value {
            assert(entries@[i as int].key@ == key@);
            return true;
        }
        i = i + 1;
    }
    false
}

fn all_in(a: &Vec<QueueAttribute>, b: &Vec<QueueAttribute>) -> (r: bool)
    requires
        keys_distinct(a@),
        keys_distinct(b@),
    ensures
        r <==> forall|i: int|
            0 <= i < a@.len() ==> attribute_map(b@).contains_key((#[trigger] a@[i]).key@)
                && attribute_map(b@)[a@[i].key@] == a@[i].value@,
{
    proof {
        lemma_attribute_map(b@);
    }
    let mut i: usize = 0;
    while i < a.len()
        invariant
            i <= a@.len(),
            keys_distinct(b@),
            forall|j: int|
                0 <= j < b@.len() ==> attribute_map(b@).contains_key((#[trigger] b@[j]).key@)
                    && attribute_map(b@)[b@[j].key@] == b@[j].value@,
            forall|k: Seq<char>| #[trigger]
                attribute_map(b@).contains_key(k) ==> exists|j: int|
                    0 <= j < b@.len() && (#[trigger] b@[j]).key@ == k,
            forall|j: int|
                0 <= j < i ==> attribute_map(b@).contains_key((#[trigger] a@[j]).key@)
                    && attribute_map(b@)[a@[j].key@] == a@[j].value@,
        decreases a@.len() - i,
    {
        if !has_entry(b, &a[i].key, &a[i].value) {
            proof {
                let key = a@[i as int].key@;
                if attribute_map(b@).contains_key(key) {
                    let j = choose|j: int| 0 <= j < b@.len() && (#[trigger] b@[j]).key@ == key;
                    assert(b@[j].value@ != a@[i as int].value@);
                    assert(attribute_map(b@)[key] == b@[j].value@);
                }
            }
            return false;
        }
        proof {
            let j = choose|j: int|
                0 <= j < b@.len() && (#[trigger] b@[j]).key@ == a@[i as int].key@ && b@[j].value@
                    == a@[i as int].value@;
            assert(attribute_map(b@)[b@[j].key@] == b@[j].value@);
        }
        i = i + 1;
    }
    true
}

/// Whether attributes are the same, in whatever order.
pub fn same_attributes(a: &Vec<QueueAttribute>, b: &Vec<QueueAttribute>) -> (r: bool)
    requires
        keys_distinct(a@),
        keys_distinct(b@),
    ensures
        r == (attribute_map(a@) == attribute_map(b@)),
{
    let forth = all_in(a, b);
    let back = all_in(b, a);
    proof {
        lemma_attribute_map(a@);
        lemma_attribute_map(b@);
        let ma = attribute_map(a@);
        let mb = attribute_map(b@);
        if forth && back {
            assert forall|k: Seq<char>| #[trigger] ma.contains_key(k) <==> mb.contains_key(k) by {
                if ma.contains_key(k) {
                    let i = choose|i: int| 0 <= i < a@.len() && (#[trigger] a@[i]).key@ == k;
                    assert(mb.contains_key(a@[i].key@));
                }
                if mb.contains_key(k) {
                    let i = choose|i: int| 0 <= i < b@.len() && (#[trigger] b@[i]).key@ == k;
                    assert(ma.contains_key(b@[i].key@));
                }
            }
            assert forall|k: Seq<char>| #[trigger] ma.contains_key(k) implies ma[k] == mb[k] by {
                let i = choose|i: int| 0 <= i < a@.len() && (#[trigger] a@[i]).key@ == k;
                assert(mb[a@[i].key@] == a@[i].value@);
            }
            assert(ma =~= mb);
        }
        if ma == mb {
            assert(forth) by {
                assert forall|i: int| 0 <= i < a@.len() implies mb.contains_key(
                    (#[trigger] a@[i]).key@,
                ) && mb[a@[i].key@] == a@[i].value@ by {}
            }
            assert(back) by {
                assert forall|i: int| 0 <= i < b@.len() implies ma.contains_key(
                    (#[trigger] b@[i]).key@,
                ) && ma[b@[i].key@] == b@[i].value@ by {}
            }
        }
    }
    forth && back
}

/// The text that `serde_json::to_string` writes for attributes.
pub uninterp spec fn attributes_json(attributes: Map<Seq<char>, Seq<char>>) -> Seq<char>;

/// What `serde_json::from_str` reads a text as, where attributes are expected: the
/// attributes, or the text of the error.
pub uninterp spec fn attributes_of_json(json: Seq<char>) -> Result<
    Map<Seq<char>, Seq<char>>,
    Seq<char>,
>;

/// Calls `serde_json::to_string` on a map of texts. The claim: it succeeds, and what it
/// writes depends on the attributes alone, not on their order.
#[verifier::external_body]
fn write_attributes(entries: &Vec<QueueAttribute>) -> (r: Result<String, String>)
    requires
        keys_distinct(entries@),
    ensures
        r is Ok,
        r->Ok_0@ == attributes_json(attribute_map(entries@)),
{
    let map: BTreeMap<&str, &str> =
        entries.iter().map(|e| (e.key.as_str(), e.value.as_str())).collect();
    serde_json::to_string(&map).map_err(|e| e.to_string())
}

/// The view of what reading attributes gave.
pub open spec fn attributes_outcome(r: Result<Vec<QueueAttribute>, String>) -> Result<
    Map<Seq<char>, Seq<char>>,
    Seq<char>,
> {
    match r {
        Ok(entries) => Ok(attribute_map(entries@)),
        Err(e) => Err(e@),
    }
}

/// Reading attributes succeeded and gave these.
pub open spec fn parsed_attributes(attributes: Map<Seq<char>, Seq<char>>) -> Result<
    Map<Seq<char>, Seq<char>>,
    Seq<char>,
> {
    Ok(attributes)
}

/// Calls `serde_json::from_str` for a map of texts. The claim: what comes out depends on
/// the text alone and has no key twice, and what is written for attributes reads as
/// those attributes.
#[verifier::external_body]
fn parse_attributes(json: &str) -> (r: Result<Vec<QueueAttribute>, String>)
    ensures
        attributes_outcome(r) == attributes_of_json(json@),
        r is Ok ==> keys_distinct(r->Ok_0@),
        forall|m: Map<Seq<char>, Seq<char>>|
            m.dom().finite() && json@ == #[trigger] attributes_json(m) ==> attributes_outcome(r)
                == parsed_attributes(m),
{
    match serde_json::from_str::<BTreeMap<String, String>>(json) {
        Ok(map) => Ok(map.into_iter().map(|(key, value)| QueueAttribute { key, value }).collect()),
        Err(e) => Err(e.to_string()),
    }
}

/// A queue.
#[derive(Debug, PartialEq, Eq)]
pub struct Queue {
    pub queue_name: String,
    pub queue_url: String,
    pub attributes: Vec<QueueAttribute>,
    pub created_at: i64,
}

impl Queue {
    /// A queue has no attribute twice.
    pub open spec fn wf(&self) -> bool {
        keys_distinct(self.attributes@)
    }
}

/// What an operation on queues needs done.
pub enum QueueAction {
    /// Run a statement, and give its row: a URL and attributes.
    Lookup(Statement),
    /// Run a statement, and tell how many rows it changed.
    Run(Statement),
}

/// Creates the tables of the queues, and their indexes.
pub fn initialize() -> (r: Vec<Statement>)
    ensures
        statements(r@) == seq![
            plain_view(CREATE_QUEUES_TABLE),
            plain_view(CREATE_MESSAGES_TABLE),
            plain_view(CREATE_MESSAGES_QUEUE_VISIBILITY_INDEX),
            plain_view(CREATE_MESSAGES_QUEUE_RECEIPT_INDEX),
        ],
{
    vec![
        statement(create_queues_table()),
        statement(create_messages_table()),
        statement(create_messages_queue_visibility_index()),
        statement(create_messages_queue_receipt_index()),
    ]
}

/// Reads the URL and attributes of a queue.
pub const LOOK_UP_QUEUE: &'static str =
    "SELECT queue_url, attributes FROM sys_queues WHERE queue_name = ?1";

/// Reads the name of a queue.
pub const LOOK_UP_QUEUE_NAME: &'static str =
    "SELECT queue_name FROM sys_queues WHERE queue_url = ?1";

/// Removes the messages of a queue.
pub const DELETE_QUEUE_MESSAGES: &'static str = "DELETE FROM sys_messages WHERE queue_name = ?1";

/// Removes a queue.
pub const DELETE_QUEUE: &'static str = "DELETE FROM sys_queues WHERE queue_url = ?1";

/// A statement with one text.
pub open spec fn one_text_view(sql: &'static str, value: Seq<char>) -> StatementView {
    StatementView { sql: sql@, args: seq![SqlArg::Text(value)] }
}

fn one_text(sql: &'static str, value: &str) -> (r: Statement)
    ensures
        r@ == one_text_view(sql, value@),
{
    let s = statement((sql, vec![text(value)]));
    assert(s@ == one_text_view(sql, value@));
    s
}

/// How far creating a queue has come.
pub enum CreateQueueState {
    LookingUp { attributes_json: String },
    Inserting,
}

/// What came of an action.
pub enum CreateQueueEvent {
    LookedUp(Result<Option<(String, String)>, StorageError>),
    Inserted(Result<usize, StorageError>),
}

/// What creating a queue does next.
pub type CreateQueueStep = Step<CreateQueueState, QueueAction, Result<(), QueueError>>;

impl CreateQueueState {
    /// Whether the state waits for an event.
    pub open spec fn awaits(self, event: CreateQueueEvent) -> bool {
        match self {
            CreateQueueState::LookingUp { .. } => event is LookedUp,
            CreateQueueState::Inserting => event is Inserted,
        }
    }
}

/// Starts to create a queue.
pub fn start_create_queue(queue: &Queue) -> (r: CreateQueueStep)
    requires
        queue.wf(),
    ensures
        r matches Step::Perform {
            state: CreateQueueState::LookingUp { attributes_json: json },
            action: QueueAction::Lookup(s),
        } && s@ == one_text_view(LOOK_UP_QUEUE, queue.queue_name@) && json@ == attributes_json(
            attribute_map(queue.attributes@),
        ),
{
    match write_attributes(&queue.attributes) {
        Ok(attributes_json) => Step::Perform {
            state: CreateQueueState::LookingUp { attributes_json },
            action: QueueAction::Lookup(one_text(LOOK_UP_QUEUE, queue.queue_name.as_str())),
        },
        Err(message) => Step::Finish(Err(QueueError::Json { message })),
    }
}

/// How creating a queue goes on after an event: where there is one of its name, it must
/// be the very same, and nothing is done.
pub open spec fn create_queue_next(
    queue: Queue,
    state: CreateQueueState,
    event: CreateQueueEvent,
    step: CreateQueueStep,
) -> bool {
    match (state, event) {
        (_, CreateQueueEvent::LookedUp(Err(e))) => step matches Step::Finish(
            Err(QueueError::Storage(out)),
        ) && out == e,
        (_, CreateQueueEvent::Inserted(Err(e))) => step matches Step::Finish(
            Err(QueueError::Storage(out)),
        ) && out == e,
        (
            CreateQueueState::LookingUp { attributes_json: json },
            CreateQueueEvent::LookedUp(Ok(None)),
        ) => step matches Step::Perform {
            state: CreateQueueState::Inserting,
            action: QueueAction::Run(s),
        } && s@ == (StatementView {
            sql: INSERT_OR_REPLACE_QUEUE@,
            args: seq![
                SqlArg::Text(queue.queue_name@),
                SqlArg::Text(queue.queue_url@),
                SqlArg::Text(json@),
                SqlArg::Integer(queue.created_at as int),
            ],
        }),
        (_, CreateQueueEvent::LookedUp(Ok(Some((url, json))))) => match attributes_of_json(json@) {
            Err(e) => step matches Step::Finish(Err(QueueError::Json { message })) && message@ == e,
            Ok(attributes) => if url@ == queue.queue_url@ && attributes == attribute_map(
                queue.attributes@,
            ) {
                step matches Step::Finish(Ok(_))
            } else {
                step matches Step::Finish(Err(QueueError::QueueAlreadyExists { name })) && name@
                    == queue.queue_name@
            },
        },
        (_, CreateQueueEvent::Inserted(Ok(_))) => step matches Step::Finish(Ok(_)),
        _ => false,
    }
}

/// Creates a queue. Creating it again as it was stored succeeds.
pub fn create_queue(queue: &Queue, state: CreateQueueState, event: CreateQueueEvent) -> (r:
    CreateQueueStep)
    requires
        queue.wf(),
        state.awaits(event),
    ensures
        create_queue_next(*queue, state, event, r),
        (event matches CreateQueueEvent::LookedUp(Ok(Some((url, json)))) && url@ == queue.queue_url@
            && json@ == attributes_json(attribute_map(queue.attributes@))) ==> (r matches
            Step::Finish(Ok(_))),
{
    match (state, event) {
        (_, CreateQueueEvent::LookedUp(Err(e))) => Step::Finish(Err(QueueError::Storage(e))),
        (_, CreateQueueEvent::Inserted(Err(e))) => Step::Finish(Err(QueueError::Storage(e))),
        (
            CreateQueueState::LookingUp { attributes_json },
            CreateQueueEvent::LookedUp(Ok(None)),
        ) => Step::Perform {
            state: CreateQueueState::Inserting,
            action: QueueAction::Run(
                statement(
                    insert_or_replace_queue(
                        queue.queue_name.as_str(),
                        queue.queue_url.as_str(),
                        attributes_json.as_str(),
                        queue.created_at,
                    ),
                ),
            ),
        },
        (_, CreateQueueEvent::LookedUp(Ok(Some((url, json))))) => {
            proof {
                lemma_attribute_map(queue.attributes@);
            }
            match parse_attributes(json.as_str()) {
                Err(message) => Step::Finish(Err(QueueError::Json { message })),
                Ok(attributes) => {
                    if url == queue.queue_url && same_attributes(&attributes, &queue.attributes) {
                        Step::Finish(Ok(()))
                    } else {
                        Step::Finish(
                            Err(QueueError::QueueAlreadyExists { name: queue.queue_name.clone() }),
                        )
                    }
                },
            }
        },
        (_, CreateQueueEvent::Inserted(Ok(_))) => Step::Finish(Ok(())),
        (_, _) => {
            assert(false);
            Step::Finish(Ok(()))
        },
    }
}

/// A queue, as it is stored.
pub struct QueueRow {
    pub queue_name: String,
    pub queue_url: String,
    pub attributes_json: String,
    pub created_at: i64,
}

/// Whether a queue is what a row holds.
pub open spec fn queue_of(row: QueueRow, queue: Queue) -> bool {
    &&& queue.queue_name == row.queue_name
    &&& queue.queue_url == row.queue_url
    &&& queue.created_at == row.created_at
    &&& queue.wf()
    &&& attributes_of_json(row.attributes_json@) == parsed_attributes(
        attribute_map(queue.attributes@),
    )
}

/// The words for attributes that cannot be read.
pub open spec fn attributes_refusal(column: Seq<char>, e: Seq<char>) -> Seq<char> {
    "Conversion error from type Text at index: "@ + column + ", "@ + e
}

/// Whether an error says that the attributes of a row cannot be read.
pub open spec fn attributes_refused(
    row: QueueRow,
    column: Seq<char>,
    error: QueueError,
) -> bool {
    error matches QueueError::Storage(StorageError::Database { message }) && (
    attributes_of_json(row.attributes_json@) matches Err(e) && message@ == attributes_refusal(
        column,
        e,
    ))
}

/// Whether a row stores given attributes.
pub open spec fn stores_attributes(row: QueueRow, attributes: Map<Seq<char>, Seq<char>>) -> bool {
    attributes.dom().finite() && row.attributes_json@ == attributes_json(attributes)
}

fn read_queue(row: QueueRow, column: &str) -> (r: Result<Queue, QueueError>)
    ensures
        match r {
            Ok(queue) => queue_of(row, queue),
            Err(e) => attributes_refused(row, column@, e),
        },
        forall|m: Map<Seq<char>, Seq<char>>| #[trigger]
            stores_attributes(row, m) ==> (r matches Ok(queue) && attribute_map(queue.attributes@)
                == m),
{
    match parse_attributes(row.attributes_json.as_str()) {
        Ok(attributes) => Ok(
            Queue {
                queue_name: row.queue_name,
                queue_url: row.queue_url,
                attributes,
                created_at: row.created_at,
            },
        ),
        Err(e) => {
            let mut message = prefixed("Conversion error from type Text at index: ", column);
            message.append(", ");
            message.append(e.as_str());
            Err(QueueError::Storage(StorageError::Database { message }))
        },
    }
}

/// What reading one queue answers, by its URL or by its name. The attributes that were
/// stored are those that are read.
pub fn get_queue_result(row: Result<Option<QueueRow>, StorageError>) -> (r: Result<
    Option<Queue>,
    QueueError,
>)
    ensures
        match row {
            Err(e) => r matches Err(QueueError::Storage(out)) && out == e,
            Ok(None) => r matches Ok(None),
            Ok(Some(row)) => match r {
                Ok(found) => found matches Some(queue) && queue_of(row, queue),
                Err(e) => attributes_refused(row, "1"@, e),
            },
        },
        row matches Ok(Some(row)) ==> forall|m: Map<Seq<char>, Seq<char>>| #[trigger]
            stores_attributes(row, m) ==> (r matches Ok(Some(queue)) && attribute_map(
                queue.attributes@,
            ) == m),
{
    match row {
        Err(e) => Err(QueueError::Storage(e)),
        Ok(None) => Ok(None),
        Ok(Some(row)) => match read_queue(row, "1") {
            Ok(queue) => Ok(Some(queue)),
            Err(e) => Err(e),
        },
    }
}

/// Whether the row at an index is the first whose attributes cannot be read.
pub open spec fn attributes_refused_at(rows: Seq<QueueRow>, i: int, error: QueueError) -> bool {
    &&& 0 <= i < rows.len()
    &&& forall|j: int|
        0 <= j < i ==> attributes_of_json((#[trigger] rows[j]).attributes_json@) is Ok
    &&& attributes_refused(rows[i], "2"@, error)
}

/// Whether rows store given attributes, each its own.
pub open spec fn rows_store_attributes(
    rows: Seq<QueueRow>,
    attributes: Seq<Map<Seq<char>, Seq<char>>>,
) -> bool {
    attributes.len() == rows.len() && forall|i: int|
        0 <= i < rows.len() ==> stores_attributes(#[trigger] rows[i], attributes[i])
}

/// What reading queues answers, from their rows: the first that cannot be read decides
/// the error. The attributes that were stored are those that are read.
pub fn list_queues_result(rows: Vec<QueueRow>) -> (r: Result<Vec<Queue>, QueueError>)
    ensures
        match r {
            Ok(queues) => queues@.len() == rows@.len() && forall|i: int|
                0 <= i < rows@.len() ==> queue_of(rows@[i], #[trigger] queues@[i]),
            Err(e) => exists|i: int| #[trigger] attributes_refused_at(rows@, i, e),
        },
        forall|attributes: Seq<Map<Seq<char>, Seq<char>>>| #[trigger]
            rows_store_attributes(rows@, attributes) ==> (r matches Ok(queues) && forall|i: int|
                0 <= i < rows@.len() ==> attribute_map((#[trigger] queues@[i]).attributes@)
                    == attributes[i]),
{
    let ghost given = rows@;
    let mut left = rows;
    let n: usize = left.len();
    let mut queues: Vec<Queue> = Vec::new();
    let mut i: usize = 0;
    while i < n
        invariant
            i <= n == given.len(),
            given == rows@,
            left@ == given.skip(i as int),
            queues@.len() == i,
            forall|j: int| 0 <= j < i ==> queue_of(given[j], #[trigger] queues@[j]),
            forall|j: int|
                0 <= j < i ==> attributes_of_json((#[trigger] given[j]).attributes_json@) is Ok,
            forall|j: int, m: Map<Seq<char>, Seq<char>>|
                0 <= j < i && #[trigger] stores_attributes(given[j], m) ==> attribute_map(
                    queues@[j].attributes@,
                ) == m,
        decreases n - i,
    {
        let row = left.remove(0);
        assert(row == given[i as int]);
        assert(left@ =~= given.skip(i + 1));
        match read_queue(row, "2") {
            Ok(queue) => {
                queues.push(queue);
            },
            Err(e) => {
                assert(attributes_refused_at(rows@, i as int, e));
                assert forall|attributes: Seq<Map<Seq<char>, Seq<char>>>|
                    !#[trigger] rows_store_attributes(rows@, attributes) by {
                    if rows_store_attributes(rows@, attributes) {
                        assert(stores_attributes(rows@[i as int], attributes[i as int]));
                    }
                }
                return Err(e);
            },
        }
        i = i + 1;
    }
    assert forall|attributes: Seq<Map<Seq<char>, Seq<char>>>, k: int| #[trigger]
        rows_store_attributes(rows@, attributes) && 0 <= k < rows@.len() implies attribute_map(
        (#[trigger] queues@[k]).attributes@,
    ) == attributes[k] by {
        assert(stores_attributes(rows@[k], attributes[k]));
    }
    Ok(queues)
}

/// Reads the name of a queue that is to be deleted or purged.
pub fn look_up_queue_name(queue_url: &str) -> (r: Statement)
    ensures
        r@ == one_text_view(LOOK_UP_QUEUE_NAME, queue_url@),
{
    one_text(LOOK_UP_QUEUE_NAME, queue_url)
}

/// Whether an error says that there is no queue of a URL.
pub open spec fn queue_missing(queue_url: Seq<char>, error: QueueError) -> bool {
    error matches QueueError::QueueNotFound { queue_url: url } && url@ == queue_url
}

fn refuse_queue(queue_url: &str) -> (r: QueueError)
    ensures
        queue_missing(queue_url@, r),
{
    QueueError::QueueNotFound { queue_url: queue_url.to_owned() }
}

/// Deletes a queue, from the name that was found for its URL: its messages first, all in
/// one transaction.
pub fn delete_queue(queue_url: &str, queue_name: Option<&str>) -> (r: Result<
    Vec<Statement>,
    QueueError,
>)
    ensures
        match queue_name {
            Some(name) => r matches Ok(list) && statements(list@) == seq![
                one_text_view(DELETE_QUEUE_MESSAGES, name@),
                one_text_view(DELETE_QUEUE, queue_url@),
            ],
            None => r matches Err(e) && queue_missing(queue_url@, e),
        },
{
    match queue_name {
        Some(name) => Ok(
            vec![
                one_text(DELETE_QUEUE_MESSAGES, name),
                one_text(DELETE_QUEUE, queue_url),
            ],
        ),
        None => Err(refuse_queue(queue_url)),
    }
}

/// Removes the messages of a queue, from the name that was found for its URL.
pub fn purge_queue_messages(queue_url: &str, queue_name: Option<&str>) -> (r: Result<
    Statement,
    QueueError,
>)
    ensures
        match queue_name {
            Some(name) => r matches Ok(s) && s@ == one_text_view(PURGE_QUEUE, name@),
            None => r matches Err(e) && queue_missing(queue_url@, e),
        },
{
    match queue_name {
        Some(name) => Ok(statement(purge_queue(name))),
        None => Err(refuse_queue(queue_url)),
    }
}

/// Sets the attributes of a queue.
pub fn set_queue_attributes_statement(queue_url: &str, attributes: &Vec<QueueAttribute>) -> (r:
    Result<Statement, QueueError>)
    requires
        keys_distinct(attributes@),
    ensures
        r matches Ok(s) && s@ == (StatementView {
            sql: SET_QUEUE_ATTRIBUTES@,
            args: seq![
                SqlArg::Text(attributes_json(attribute_map(attributes@))),
                SqlArg::Text(queue_url@),
            ],
        }),
{
    match write_attributes(attributes) {
        Ok(json) => Ok(statement(set_queue_attributes(queue_url, json.as_str()))),
        Err(message) => Err(QueueError::Json { message }),
    }
}

/// What setting the attributes of a queue answers, from the number of rows it changed.
pub fn set_queue_attributes_result(queue_url: &str, updated: usize) -> (r: Result<(), QueueError>)
    ensures
        r is Ok <==> updated > 0,
        r matches Err(e) ==> queue_missing(queue_url@, e),
{
    if updated == 0 {
        return Err(refuse_queue(queue_url));
    }
    Ok(())
}

/// What comes after the last slash of a text.
pub open spec fn after_last_slash(s: Seq<char>) -> Seq<char>
    decreases s.len(),
{
    if s.len() == 0 || s.last() == '/' {
        Seq::empty()
    } else {
        after_last_slash(s.drop_last()).push(s.last())
    }
}

proof fn lemma_after_last_slash(s: Seq<char>, k: int)
    requires
        0 <= k <= s.len(),
        forall|i: int| k <= i < s.len() ==> s[i] != '/',
        k > 0 ==> s[k - 1] == '/',
    ensures
        after_last_slash(s) == s.skip(k),
    decreases s.len(),
{
    if k == s.len() {
        assert(s.skip(k) =~= Seq::empty());
    } else {
        assert(s[s.len() - 1] != '/');
        lemma_after_last_slash(s.drop_last(), k);
        assert(s.skip(k) =~= s.drop_last().skip(k).push(s.last()));
    }
}

/// The name of the queue of a URL: what comes after the last slash.
pub fn queue_name_of_url(queue_url: &str) -> (r: String)
    ensures
        r@ == after_last_slash(queue_url@),
{
    let n: usize = queue_url.unicode_len();
    let mut k: usize = n;
    while k > 0
        invariant
            k <= n == queue_url@.len(),
            forall|i: int| k <= i < n ==> queue_url@[i] != '/',
        ensures
            k <= n,
            forall|i: int| k <= i < n ==> queue_url@[i] != '/',
            k > 0 ==> queue_url@[k - 1] == '/',
        decreases k,
    {
        if queue_url.get_char(k - 1) == '/' {
            break;
        }
        k = k - 1;
    }
    proof {
        lemma_after_last_slash(queue_url@, k as int);
        assert(queue_url@.subrange(k as int, n as int) =~= queue_url@.skip(k as int));
    }
    queue_url.substring_char(k, n).to_owned()
}

/// The name of a queue has no slash, and a URL that ends with a slash and the name of a
/// queue is one of that queue.
pub proof fn law_queue_name_of_url(base: Seq<char>, name: Seq<char>)
    requires
        forall|i: int| 0 <= i < name.len() ==> name[i] != '/',
    ensures
        after_last_slash(base + seq!['/'] + name) == name,
        after_last_slash(name) == name,
{
    let url = base + seq!['/'] + name;
    let k = base.len() + 1;
    assert forall|i: int| k <= i < url.len() implies url[i] != '/' by {
        assert(url[i] == name[i - k]);
    }
    lemma_after_last_slash(url, k as int);
    assert(url.skip(k as int) =~= name);
    lemma_after_last_slash(name, 0);
    assert(name.skip(0) =~= name);
}

/// Counts the messages of a queue that are visible.
pub const COUNT_VISIBLE: &'static str =
    "SELECT COUNT(*) FROM sys_messages WHERE queue_name = ?1 AND visibility_timestamp <= ?2";

/// Counts the messages of a queue that were received and are not visible yet.
pub const COUNT_NOT_VISIBLE: &'static str =
    "SELECT COUNT(*) FROM sys_messages WHERE queue_name = ?1 AND visibility_timestamp > ?2 AND receipt_handle IS NOT NULL";

/// Counts the messages of a queue that were not received and are not visible yet.
pub const COUNT_DELAYED: &'static str =
    "SELECT COUNT(*) FROM sys_messages WHERE queue_name = ?1 AND visibility_timestamp > ?2 AND receipt_handle IS NULL";

/// How many messages of a queue are in which state.
#[derive(Clone, Copy, Debug, PartialEq, Eq, Structural)]
pub struct QueueMessageCounts {
    pub visible: u64,
    pub not_visible: u64,
    pub delayed: u64,
}

/// A statement that counts messages of a queue.
pub open spec fn count_view(sql: &'static str, queue_name: Seq<char>, now: i64) -> StatementView {
    StatementView { sql: sql@, args: seq![SqlArg::Text(queue_name), SqlArg::Integer(now as int)] }
}

fn count(sql: &'static str, queue_name: &str, now: i64) -> (r: Statement)
    ensures
        r@ == count_view(sql, queue_name@, now),
{
    let s = statement((sql, vec![text(queue_name), integer(now)]));
    assert(s@ == count_view(sql, queue_name@, now));
    s
}

/// How far counting has come.
#[derive(Clone, Copy, Debug, PartialEq, Eq, Structural)]
pub enum CountState {
    Visible,
    NotVisible { visible: u64 },
    Delayed { visible: u64, not_visible: u64 },
}

/// What counting does next.
pub type CountStep = Step<CountState, Statement, Result<QueueMessageCounts, QueueError>>;

/// Whether an error says that a count is out of range.
pub open spec fn count_refused(error: QueueError) -> bool {
    error matches QueueError::InvalidCount { detail } && detail@
        == "out of range integral type conversion attempted"@
}

/// Starts to count the messages of the queue of a URL.
pub fn start_get_queue_message_counts(queue_url: &str, now: i64) -> (r: CountStep)
    ensures
        r matches Step::Perform { state: CountState::Visible, action: s } && s@ == count_view(
            COUNT_VISIBLE,
            after_last_slash(queue_url@),
            now,
        ),
{
    let name = queue_name_of_url(queue_url);
    Step::Perform { state: CountState::Visible, action: count(COUNT_VISIBLE, name.as_str(), now) }
}

/// How counting goes on after a count.
pub open spec fn count_next(
    queue_url: Seq<char>,
    now: i64,
    state: CountState,
    counted: Result<i64, StorageError>,
    step: CountStep,
) -> bool {
    let name = after_last_slash(queue_url);
    match counted {
        Err(e) => step matches Step::Finish(Err(QueueError::Storage(out))) && out == e,
        Ok(n) => if n < 0 {
            step matches Step::Finish(Err(e)) && count_refused(e)
        } else {
            match state {
                CountState::Visible => step matches Step::Perform {
                    state: CountState::NotVisible { visible },
                    action: s,
                } && visible == n && s@ == count_view(COUNT_NOT_VISIBLE, name, now),
                CountState::NotVisible { visible: v } => step matches Step::Perform {
                    state: CountState::Delayed { visible, not_visible },
                    action: s,
                } && visible == v && not_visible == n && s@ == count_view(COUNT_DELAYED, name, now),
                CountState::Delayed { visible, not_visible } => step matches Step::Finish(Ok(counts))
                    && counts == (QueueMessageCounts { visible, not_visible, delayed: n as u64 }),
            }
        },
    }
}

/// Counts the messages of the queue of a URL.
pub fn get_queue_message_counts(
    queue_url: &str,
    now: i64,
    state: CountState,
    counted: Result<i64, StorageError>,
) -> (r: CountStep)
    ensures
        count_next(queue_url@, now, state, counted, r),
{
    let n: i64 = match counted {
        Ok(n) => n,
        Err(e) => {
            return Step::Finish(Err(QueueError::Storage(e)));
        },
    };
    if n < 0 {
        return Step::Finish(
            Err(
                QueueError::InvalidCount {
                    detail: "out of range integral type conversion attempted".to_owned(),
                },
            ),
        );
    }
    let n: u64 = n as u64;
    let name = queue_name_of_url(queue_url);
    match state {
        CountState::Visible => Step::Perform {
            state: CountState::NotVisible { visible: n },
            action: count(COUNT_NOT_VISIBLE, name.as_str(), now),
        },
        CountState::NotVisible { visible } => Step::Perform {
            state: CountState::Delayed { visible, not_visible: n },
            action: count(COUNT_DELAYED, name.as_str(), now),
        },
        CountState::Delayed { visible, not_visible } => Step::Finish(
            Ok(QueueMessageCounts { visible, not_visible, delayed: n }),
        ),
    }
}

/// A message to send. An id of zero stands for none.
pub struct QueueMessage {
    pub message_id: u128,
    pub queue_url: String,
    pub body: String,
    pub message_attributes_json: Option<String>,
    pub visibility_timestamp: Option<i64>,
    pub created_at: i64,
}

/// The statement that stores a message.
pub open spec fn send_view(message: QueueMessage, message_id: u128) -> StatementView {
    StatementView {
        sql: SEND_MESSAGE@,
        args: seq![
            SqlArg::Text(hyphenated(message_id)),
            SqlArg::Text(after_last_slash(message.queue_url@)),
            SqlArg::Text(message.body@),
            optional_text_arg(optional_string(message.message_attributes_json)),
            SqlArg::Integer(
                match message.visibility_timestamp {
                    Some(t) => t as int,
                    None => 0,
                },
            ),
            SqlArg::Integer(message.created_at as int),
        ],
    }
}

/// Stores a message under a given id.
pub fn send_message_with_id(message: &QueueMessage, message_id: u128) -> (r: Statement)
    ensures
        r@ == send_view(*message, message_id),
{
    let id = uuid_text(message_id);
    let name = queue_name_of_url(message.queue_url.as_str());
    let visible: i64 = match message.visibility_timestamp {
        Some(t) => t,
        None => 0,
    };
    let attributes = match &message.message_attributes_json {
        Some(json) => Some(json.as_str()),
        None => None,
    };
    let s = statement(
        send_message(
            id.as_str(),
            name.as_str(),
            message.body.as_str(),
            attributes,
            visible,
            message.created_at,
        ),
    );
    assert(s@ == send_view(*message, message_id));
    s
}

/// Stores a message, under a new id where it has none.
pub fn send_queue_message(message: &QueueMessage) -> (r: (u128, Statement))
    ensures
        message.message_id != 0 ==> r.0 == message.message_id,
        r.0 != 0,
        r.1@ == send_view(*message, r.0),
{
    let message_id: u128 = if message.message_id == 0 {
        fresh_uuid()
    } else {
        message.message_id
    };
    (message_id, send_message_with_id(message, message_id))
}

/// A message that can be received.
pub struct ReceivableMessage {
    pub message_id: String,
    pub body: String,
    pub message_attributes_json: Option<String>,
    pub receipt_handle: Option<String>,
}

/// A message that was received: until it is visible again, it is the receiver's.
pub struct MessageResponse {
    pub message_id: String,
    pub body: String,
    pub message_attributes_json: Option<String>,
    pub receipt_handle: String,
}

/// What receiving messages needs done.
pub enum ReceiveAction {
    /// Run a statement, and give its rows, each as far as it can be read.
    QueryMessages(Statement),
    /// Make a receipt, from a new UUID.
    MakeReceipt(u128),
    /// Run a statement, and tell how many rows it changed.
    Claim(Statement),
}

/// How far receiving messages has come.
pub enum ReceiveState {
    Reading,
    /// The messages that are left, the first of which is to be claimed, and those that
    /// were received.
    MakingReceipt {
        message: ReceivableMessage,
        left: Vec<Result<ReceivableMessage, StorageError>>,
        received: Vec<MessageResponse>,
    },
    Claiming {
        message: ReceivableMessage,
        receipt_handle: String,
        left: Vec<Result<ReceivableMessage, StorageError>>,
        received: Vec<MessageResponse>,
    },
}

/// What came of an action.
pub enum ReceiveEvent {
    MessagesRead(Result<Vec<Result<ReceivableMessage, StorageError>>, StorageError>),
    ReceiptMade(String),
    Claimed(Result<usize, StorageError>),
}

/// What receiving messages does next.
pub type ReceiveStep = Step<ReceiveState, ReceiveAction, Result<Vec<MessageResponse>, QueueError>>;

impl ReceiveState {
    /// Whether the state waits for an event.
    pub open spec fn awaits(self, event: ReceiveEvent) -> bool {
        match self {
            ReceiveState::Reading => event is MessagesRead,
            ReceiveState::MakingReceipt { .. } => event is ReceiptMade,
            ReceiveState::Claiming { .. } => event is Claimed,
        }
    }
}

/// The statement that reads the messages of a queue that can be received.
pub open spec fn receive_view(queue_url: Seq<char>, now: i64, max_messages: u32) -> StatementView {
    StatementView {
        sql: RECEIVE_MESSAGES@,
        args: seq![
            SqlArg::Text(after_last_slash(queue_url)),
            SqlArg::Integer(now as int),
            SqlArg::Integer(max_messages as int),
        ],
    }
}

/// The statement that claims a message.
pub open spec fn claim_view(
    queue_url: Seq<char>,
    next_visible: i64,
    receipt_handle: Seq<char>,
    message: ReceivableMessage,
) -> StatementView {
    StatementView {
        sql: UPDATE_MESSAGE_VISIBILITY@,
        args: seq![
            SqlArg::Integer(next_visible as int),
            SqlArg::Text(receipt_handle),
            SqlArg::Text(message.message_id@),
            SqlArg::Text(after_last_slash(queue_url)),
            optional_text_arg(optional_string(message.receipt_handle)),
        ],
    }
}

/// Whether receiving goes on with the messages that are left.
pub open spec fn receives_rest(
    left: Seq<Result<ReceivableMessage, StorageError>>,
    so_far: Seq<MessageResponse>,
    step: ReceiveStep,
) -> bool {
    if left.len() == 0 {
        step matches Step::Finish(Ok(out)) && out@ == so_far
    } else {
        match left[0] {
            Err(e) => step matches Step::Finish(Err(QueueError::Storage(out))) && out == e,
            Ok(next) => step matches Step::Perform {
                state: ReceiveState::MakingReceipt { message, left: rest, received },
                action: ReceiveAction::MakeReceipt(uuid),
            } && is_version_7(uuid) && message == next && rest@ == left.drop_first() && received@ == so_far,
        }
    }
}

fn receive_rest(
    left: Vec<Result<ReceivableMessage, StorageError>>,
    received: Vec<MessageResponse>,
) -> (r: ReceiveStep)
    ensures
        receives_rest(left@, received@, r),
{
    if left.len() == 0 {
        return Step::Finish(Ok(received));
    }
    let ghost given = left@;
    let mut left = left;
    match left.remove(0) {
        Err(e) => Step::Finish(Err(QueueError::Storage(e))),
        Ok(message) => {
            assert(left@ =~= given.drop_first());
            Step::Perform {
                state: ReceiveState::MakingReceipt { message, left, received },
                action: ReceiveAction::MakeReceipt(fresh_uuid()),
            }
        },
    }
}

/// Whether a response is a message with its new receipt.
pub open spec fn response_of(
    message: ReceivableMessage,
    receipt_handle: String,
    response: MessageResponse,
) -> bool {
    response == (MessageResponse {
        message_id: message.message_id,
        body: message.body,
        message_attributes_json: message.message_attributes_json,
        receipt_handle,
    })
}

/// How receiving messages goes on after an event: each is claimed under a receipt of its
/// own, and those that somebody else claimed first are passed over.
pub open spec fn receive_next(
    queue_url: Seq<char>,
    next_visible: i64,
    state: ReceiveState,
    event: ReceiveEvent,
    step: ReceiveStep,
) -> bool {
    match (state, event) {
        (_, ReceiveEvent::MessagesRead(Err(e))) => step matches Step::Finish(
            Err(QueueError::Storage(out)),
        ) && out == e,
        (_, ReceiveEvent::Claimed(Err(e))) => step matches Step::Finish(
            Err(QueueError::Storage(out)),
        ) && out == e,
        (_, ReceiveEvent::MessagesRead(Ok(rows))) => receives_rest(rows@, Seq::empty(), step),
        (
            ReceiveState::MakingReceipt { message: m, left: l, received: r },
            ReceiveEvent::ReceiptMade(handle),
        ) => step matches Step::Perform {
            state: ReceiveState::Claiming { message, receipt_handle, left, received },
            action: ReceiveAction::Claim(s),
        } && message == m && receipt_handle == handle && left == l && received == r && s@
            == claim_view(queue_url, next_visible, handle@, m),
        (
            ReceiveState::Claiming { message, receipt_handle, left, received },
            ReceiveEvent::Claimed(Ok(n)),
        ) => if n > 0 {
            exists|response: MessageResponse|
                response_of(message, receipt_handle, response) && #[trigger] receives_rest(
                    left@,
                    received@.push(response),
                    step,
                )
        } else {
            receives_rest(left@, received@, step)
        },
        _ => false,
    }
}

/// Starts to receive messages of the queue of a URL.
pub fn start_receive_messages(queue_url: &str, now: i64, max_messages: u32) -> (r: ReceiveStep)
    ensures
        r matches Step::Perform {
            state: ReceiveState::Reading,
            action: ReceiveAction::QueryMessages(s),
        } && s@ == receive_view(queue_url@, now, max_messages),
{
    let name = queue_name_of_url(queue_url);
    Step::Perform {
        state: ReceiveState::Reading,
        action: ReceiveAction::QueryMessages(
            statement(receive_messages(name.as_str(), now, max_messages)),
        ),
    }
}

/// Receives messages of the queue of a URL.
pub fn receive_queue_messages(
    queue_url: &str,
    next_visible: i64,
    state: ReceiveState,
    event: ReceiveEvent,
) -> (r: ReceiveStep)
    requires
        state.awaits(event),
    ensures
        receive_next(queue_url@, next_visible, state, event, r),
{
    match (state, event) {
        (_, ReceiveEvent::MessagesRead(Err(e))) => Step::Finish(Err(QueueError::Storage(e))),
        (_, ReceiveEvent::Claimed(Err(e))) => Step::Finish(Err(QueueError::Storage(e))),
        (_, ReceiveEvent::MessagesRead(Ok(rows))) => receive_rest(rows, Vec::new()),
        (
            ReceiveState::MakingReceipt { message, left, received },
            ReceiveEvent::ReceiptMade(receipt_handle),
        ) => {
            let name = queue_name_of_url(queue_url);
            let held = match &message.receipt_handle {
                Some(handle) => Some(handle.as_str()),
                None => None,
            };
            let claim = statement(
                update_message_visibility(
                    next_visible,
                    receipt_handle.as_str(),
                    message.message_id.as_str(),
                    name.as_str(),
                    held,
                ),
            );
            assert(claim@ == claim_view(queue_url@, next_visible, receipt_handle@, message));
            Step::Perform {
                state: ReceiveState::Claiming { message, receipt_handle, left, received },
                action: ReceiveAction::Claim(claim),
            }
        },
        (
            ReceiveState::Claiming { message, receipt_handle, left, received },
            ReceiveEvent::Claimed(Ok(n)),
        ) => {
            if n > 0 {
                let ghost m = message;
                let ghost handle = receipt_handle;
                let response = MessageResponse {
                    message_id: message.message_id,
                    body: message.body,
                    message_attributes_json: message.message_attributes_json,
                    receipt_handle,
                };
                assert(response_of(m, handle, response));
                let mut received = received;
                received.push(response);
                receive_rest(left, received)
            } else {
                receive_rest(left, received)
            }
        },
        (_, _) => {
            assert(false);
            Step::Finish(Ok(Vec::new()))
        },
    }
}

/// The messages of a list whose claims changed a row, each with the receipt that was made
/// for it.
pub open spec fn claimed_messages(
    messages: Seq<Result<ReceivableMessage, StorageError>>,
    receipts: Seq<String>,
    claims: Seq<usize>,
) -> Seq<MessageResponse>
    decreases messages.len(),
{
    if messages.len() == 0 {
        Seq::empty()
    } else {
        let message = messages[0]->Ok_0;
        let rest = claimed_messages(
            messages.drop_first(),
            receipts.drop_first(),
            claims.drop_first(),
        );
        if claims[0] > 0 {
            seq![
                MessageResponse {
                    message_id: message.message_id,
                    body: message.body,
                    message_attributes_json: message.message_attributes_json,
                    receipt_handle: receipts[0],
                },
            ] + rest
        } else {
            rest
        }
    }
}

/// Whether receiving goes on from a step to an end, where the receipts that are made and
/// the numbers of rows that the claims change are given.
pub open spec fn receive_runs(
    queue_url: Seq<char>,
    next_visible: i64,
    step: ReceiveStep,
    receipts: Seq<String>,
    claims: Seq<usize>,
    out: Seq<MessageResponse>,
) -> bool
    decreases receipts.len(),
{
    match step {
        Step::Finish(result) => receipts.len() == 0 && claims.len() == 0 && (result matches Ok(list)
            && list@ == out),
        Step::Perform { state, .. } => receipts.len() > 0 && claims.len() > 0 && exists|
            claiming: ReceiveState,
            action: ReceiveAction,
            next: ReceiveStep,
        | #[trigger]
            message_claimed(
                queue_url,
                next_visible,
                state,
                receipts[0],
                claims[0],
                claiming,
                action,
                next,
            ) && receive_runs(
                queue_url,
                next_visible,
                next,
                receipts.drop_first(),
                claims.drop_first(),
                out,
            ),
    }
}

/// Whether receiving goes on from a state over the claim of a message to the next step.
pub open spec fn message_claimed(
    queue_url: Seq<char>,
    next_visible: i64,
    state: ReceiveState,
    receipt: String,
    claim: usize,
    claiming: ReceiveState,
    action: ReceiveAction,
    next: ReceiveStep,
) -> bool {
    &&& receive_next(
        queue_url,
        next_visible,
        state,
        ReceiveEvent::ReceiptMade(receipt),
        Step::Perform { state: claiming, action },
    )
    &&& receive_next(queue_url, next_visible, claiming, ReceiveEvent::Claimed(Ok(claim)), next)
}

/// A receive gives exactly the messages whose claims changed a row, in the order in which
/// they were read, each under the receipt that was made for it; every message that was
/// read is claimed once.
pub proof fn law_received_messages_are_those_claimed(
    queue_url: Seq<char>,
    next_visible: i64,
    messages: Seq<Result<ReceivableMessage, StorageError>>,
    so_far: Seq<MessageResponse>,
    step: ReceiveStep,
    receipts: Seq<String>,
    claims: Seq<usize>,
    out: Seq<MessageResponse>,
)
    requires
        forall|i: int| 0 <= i < messages.len() ==> (#[trigger] messages[i]) is Ok,
        receives_rest(messages, so_far, step),
        receive_runs(queue_url, next_visible, step, receipts, claims, out),
    ensures
        receipts.len() == messages.len(),
        claims.len() == messages.len(),
        out == so_far + claimed_messages(messages, receipts, claims),
    decreases messages.len(),
{
    if messages.len() == 0 {
        assert(so_far + claimed_messages(messages, receipts, claims) =~= so_far);
    } else {
        assert(messages[0] is Ok);
        let state = step->state;
        let (claiming, action, next) = choose|
            claiming: ReceiveState,
            action: ReceiveAction,
            next: ReceiveStep,
        | #[trigger]
            message_claimed(
                queue_url,
                next_visible,
                state,
                receipts[0],
                claims[0],
                claiming,
                action,
                next,
            ) && receive_runs(
                queue_url,
                next_visible,
                next,
                receipts.drop_first(),
                claims.drop_first(),
                out,
            );
        let rest = messages.drop_first();
        assert forall|i: int| 0 <= i < rest.len() implies (#[trigger] rest[i]) is Ok by {
            assert(rest[i] == messages[i + 1]);
        }
        let message = messages[0]->Ok_0;
        if claims[0] > 0 {
            let response = MessageResponse {
                message_id: message.message_id,
                body: message.body,
                message_attributes_json: message.message_attributes_json,
                receipt_handle: receipts[0],
            };
            assert(receives_rest(rest, so_far.push(response), next));
            law_received_messages_are_those_claimed(
                queue_url,
                next_visible,
                rest,
                so_far.push(response),
                next,
                receipts.drop_first(),
                claims.drop_first(),
                out,
            );
            assert(out =~= so_far + claimed_messages(messages, receipts, claims));
        } else {
            law_received_messages_are_those_claimed(
                queue_url,
                next_visible,
                rest,
                so_far,
                next,
                receipts.drop_first(),
                claims.drop_first(),
                out,
            );
        }
    }
}

/// A message, as it is stored.
pub struct StoredMessage {
    pub queue_name: Seq<char>,
    pub body: Seq<char>,
    pub message_attributes_json: Option<Seq<char>>,
    pub visibility_timestamp: int,
    pub receipt_handle: Option<Seq<char>>,
    pub created_at: int,
}

/// Whether the message of an id can be received from a queue at a time.
pub open spec fn receivable(
    table: Map<Seq<char>, StoredMessage>,
    queue_name: Seq<char>,
    now: int,
    id: Seq<char>,
) -> bool {
    table.contains_key(id) && table[id].queue_name == queue_name && table[id].visibility_timestamp
        <= now
}

/// Whether a row holds the stored message of its id.
pub open spec fn holds_message(
    table: Map<Seq<char>, StoredMessage>,
    row: ReceivableMessage,
) -> bool {
    &&& table.contains_key(row.message_id@)
    &&& table[row.message_id@].body == row.body@
    &&& table[row.message_id@].message_attributes_json == optional_string(
        row.message_attributes_json,
    )
    &&& table[row.message_id@].receipt_handle == optional_string(row.receipt_handle)
}

/// Whether a message is received no later than another.
pub open spec fn received_no_later(one: StoredMessage, other: StoredMessage) -> bool {
    one.visibility_timestamp < other.visibility_timestamp || (one.visibility_timestamp
        == other.visibility_timestamp && one.created_at <= other.created_at)
}

/// Whether no message occurs twice.
pub open spec fn ids_distinct(rows: Seq<ReceivableMessage>) -> bool {
    forall|i: int, j: int|
        0 <= i < j < rows.len() ==> (#[trigger] rows[i]).message_id@ != (
        #[trigger] rows[j]).message_id@
}

/// Whether the message of an id is among rows.
pub open spec fn among(rows: Seq<ReceivableMessage>, id: Seq<char>) -> bool {
    exists|i: int| 0 <= i < rows.len() && (#[trigger] rows[i]).message_id@ == id
}

/// Whether rows are those that the statement of a receive reads: messages that can be
/// received, at most as many as are asked for, none twice, those first that have been
/// visible longest, and all of them where there are no more.
pub open spec fn receive_selects(
    table: Map<Seq<char>, StoredMessage>,
    queue_name: Seq<char>,
    now: int,
    max_messages: nat,
    rows: Seq<ReceivableMessage>,
) -> bool {
    &&& rows.len() <= max_messages
    &&& ids_distinct(rows)
    &&& forall|i: int|
        0 <= i < rows.len() ==> receivable(
            table,
            queue_name,
            now,
            (#[trigger] rows[i]).message_id@,
        ) && holds_message(table, rows[i])
    &&& forall|i: int, j: int|
        0 <= i < j < rows.len() ==> received_no_later(
            table[(#[trigger] rows[i]).message_id@],
            table[(#[trigger] rows[j]).message_id@],
        )
    &&& forall|id: Seq<char>| #[trigger]
        receivable(table, queue_name, now, id) && !among(rows, id) ==> rows.len() == max_messages
            && forall|i: int|
            0 <= i < rows.len() ==> received_no_later(
                table[(#[trigger] rows[i]).message_id@],
                table[id],
            )
}

/// Whether the claim of a message finds it as it was read.
pub open spec fn claim_finds(
    table: Map<Seq<char>, StoredMessage>,
    queue_name: Seq<char>,
    message: ReceivableMessage,
) -> bool {
    let id = message.message_id@;
    table.contains_key(id) && table[id].queue_name == queue_name && table[id].receipt_handle
        == optional_string(message.receipt_handle)
}

/// A stored message once it was claimed.
pub open spec fn claimed(
    stored: StoredMessage,
    next_visible: i64,
    receipt: Seq<char>,
) -> StoredMessage {
    StoredMessage {
        visibility_timestamp: next_visible as int,
        receipt_handle: Some(receipt),
        ..stored
    }
}

/// The messages after the statement of a claim.
pub open spec fn after_claim(
    table: Map<Seq<char>, StoredMessage>,
    queue_name: Seq<char>,
    next_visible: i64,
    receipt: Seq<char>,
    message: ReceivableMessage,
) -> Map<Seq<char>, StoredMessage> {
    let id = message.message_id@;
    if claim_finds(table, queue_name, message) {
        table.insert(id, claimed(table[id], next_visible, receipt))
    } else {
        table
    }
}

/// Whether claims run one after the other and nothing else touches the messages: each
/// changes one row where it finds its message, and none otherwise.
pub open spec fn claims_run(
    table: Map<Seq<char>, StoredMessage>,
    queue_name: Seq<char>,
    next_visible: i64,
    rows: Seq<ReceivableMessage>,
    receipts: Seq<String>,
    claims: Seq<usize>,
    after: Map<Seq<char>, StoredMessage>,
) -> bool
    decreases rows.len(),
{
    if rows.len() == 0 {
        after == table
    } else {
        claims[0] == (if claim_finds(table, queue_name, rows[0]) {
            1int
        } else {
            0int
        }) && claims_run(
            after_claim(table, queue_name, next_visible, receipts[0]@, rows[0]),
            queue_name,
            next_visible,
            rows.drop_first(),
            receipts.drop_first(),
            claims.drop_first(),
            after,
        )
    }
}

/// Rows that could all be read.
pub open spec fn all_read(rows: Seq<ReceivableMessage>) -> Seq<
    Result<ReceivableMessage, StorageError>,
> {
    rows.map_values(|row: ReceivableMessage| Ok::<ReceivableMessage, StorageError>(row))
}

proof fn lemma_claims_find_their_messages(
    table: Map<Seq<char>, StoredMessage>,
    queue_name: Seq<char>,
    next_visible: i64,
    rows: Seq<ReceivableMessage>,
    receipts: Seq<String>,
    claims: Seq<usize>,
    after: Map<Seq<char>, StoredMessage>,
)
    requires
        ids_distinct(rows),
        receipts.len() == rows.len(),
        claims.len() == rows.len(),
        forall|i: int| 0 <= i < rows.len() ==> claim_finds(table, queue_name, #[trigger] rows[i]),
        claims_run(table, queue_name, next_visible, rows, receipts, claims, after),
    ensures
        forall|i: int| 0 <= i < rows.len() ==> #[trigger] claims[i] == 1,
        forall|i: int|
            0 <= i < rows.len() ==> after.contains_key((#[trigger] rows[i]).message_id@)
                && after[rows[i].message_id@] == claimed(
                table[rows[i].message_id@],
                next_visible,
                receipts[i]@,
            ),
        forall|id: Seq<char>| #[trigger]
            after.contains_key(id) == table.contains_key(id),
        forall|id: Seq<char>| !among(rows, id) ==> #[trigger] after[id] == table[id],
    decreases rows.len(),
{
    if rows.len() > 0 {
        let rest = rows.drop_first();
        let next = after_claim(table, queue_name, next_visible, receipts[0]@, rows[0]);
        let first = rows[0].message_id@;
        assert(claim_finds(table, queue_name, rows[0]));
        assert forall|i: int, j: int| 0 <= i < j < rest.len() implies (
        #[trigger] rest[i]).message_id@ != (#[trigger] rest[j]).message_id@ by {
            assert(rows[i + 1].message_id@ != rows[j + 1].message_id@);
        }
        assert forall|i: int| 0 <= i < rest.len() implies claim_finds(
            next,
            queue_name,
            #[trigger] rest[i],
        ) by {
            assert(rest[i] == rows[i + 1]);
            assert(claim_finds(table, queue_name, rows[i + 1]));
            assert(rows[0].message_id@ != rows[i + 1].message_id@);
        }
        lemma_claims_find_their_messages(
            next,
            queue_name,
            next_visible,
            rest,
            receipts.drop_first(),
            claims.drop_first(),
            after,
        );
        assert(!among(rest, first)) by {
            if among(rest, first) {
                let i = choose|i: int|
                    0 <= i < rest.len() && (#[trigger] rest[i]).message_id@ == first;
                assert(rows[0].message_id@ != rows[i + 1].message_id@);
            }
        }
        assert forall|i: int| 0 <= i < rows.len() implies #[trigger] claims[i] == 1 by {
            if i > 0 {
                assert(claims[i] == claims.drop_first()[i - 1]);
            }
        }
        assert forall|i: int| 0 <= i < rows.len() implies after.contains_key(
            (#[trigger] rows[i]).message_id@,
        ) && after[rows[i].message_id@] == claimed(
            table[rows[i].message_id@],
            next_visible,
            receipts[i]@,
        ) by {
            if i > 0 {
                assert(rest[i - 1] == rows[i]);
                assert(receipts.drop_first()[i - 1] == receipts[i]);
                assert(rows[0].message_id@ != rows[i].message_id@);
            } else {
                assert(after[first] == next[first]);
            }
        }
        assert forall|id: Seq<char>| !among(rows, id) implies #[trigger] after[id] == table[id] by {
            assert(!among(rest, id)) by {
                if among(rest, id) {
                    let i = choose|i: int|
                        0 <= i < rest.len() && (#[trigger] rest[i]).message_id@ == id;
                    assert(rows[i + 1].message_id@ == id);
                }
            }
            assert(rows[0].message_id@ != id);
        }
        assert forall|id: Seq<char>| #[trigger]
            after.contains_key(id) == table.contains_key(id) by {
            assert(after.contains_key(id) == next.contains_key(id));
        }
    }
}

proof fn lemma_all_claimed(
    rows: Seq<ReceivableMessage>,
    receipts: Seq<String>,
    claims: Seq<usize>,
)
    requires
        receipts.len() == rows.len(),
        claims.len() == rows.len(),
        forall|i: int| 0 <= i < rows.len() ==> #[trigger] claims[i] == 1,
    ensures
        claimed_messages(all_read(rows), receipts, claims).len() == rows.len(),
        forall|i: int|
            0 <= i < rows.len() ==> response_of(
                rows[i],
                receipts[i],
                #[trigger] claimed_messages(all_read(rows), receipts, claims)[i],
            ),
    decreases rows.len(),
{
    if rows.len() > 0 {
        let rest = rows.drop_first();
        assert(all_read(rows).drop_first() =~= all_read(rest));
        assert forall|i: int| 0 <= i < rest.len() implies #[trigger] claims.drop_first()[i]
            == 1 by {
            assert(claims.drop_first()[i] == claims[i + 1]);
        }
        lemma_all_claimed(rest, receipts.drop_first(), claims.drop_first());
        let out = claimed_messages(all_read(rows), receipts, claims);
        let later = claimed_messages(all_read(rest), receipts.drop_first(), claims.drop_first());
        assert(claims[0] == 1);
        assert forall|i: int| 0 <= i < rows.len() implies response_of(
            rows[i],
            receipts[i],
            #[trigger] out[i],
        ) by {
            if i > 0 {
                assert(out[i] == later[i - 1]);
                assert(rest[i - 1] == rows[i]);
                assert(receipts.drop_first()[i - 1] == receipts[i]);
            }
        }
    }
}

/// Where nothing else touches the queue, a receive gives all the messages that it read:
/// at most as many as were asked for, none twice, each with the receipt that was made
/// for it, which is now the stored one. Other messages stay as they were, and none of
/// those received can be received again before its time.
pub proof fn law_received_messages_are_not_received_again(
    queue_url: Seq<char>,
    now: i64,
    next_visible: i64,
    max_messages: u32,
    table: Map<Seq<char>, StoredMessage>,
    rows: Seq<ReceivableMessage>,
    step: ReceiveStep,
    receipts: Seq<String>,
    claims: Seq<usize>,
    out: Seq<MessageResponse>,
    after: Map<Seq<char>, StoredMessage>,
)
    requires
        receive_selects(
            table,
            after_last_slash(queue_url),
            now as int,
            max_messages as nat,
            rows,
        ),
        receives_rest(all_read(rows), Seq::empty(), step),
        receive_runs(queue_url, next_visible, step, receipts, claims, out),
        claims_run(
            table,
            after_last_slash(queue_url),
            next_visible,
            rows,
            receipts,
            claims,
            after,
        ),
    ensures
        out.len() == rows.len() <= max_messages,
        receipts.len() == rows.len(),
        forall|i: int|
            0 <= i < rows.len() ==> response_of(rows[i], receipts[i], #[trigger] out[i])
                && after.contains_key(out[i].message_id@) && after[out[i].message_id@] == claimed(
                table[out[i].message_id@],
                next_visible,
                out[i].receipt_handle@,
            ),
        forall|i: int, j: int|
            0 <= i < j < out.len() ==> (#[trigger] out[i]).message_id@ != (
            #[trigger] out[j]).message_id@,
        forall|id: Seq<char>| !among(rows, id) ==> #[trigger] after[id] == table[id],
        forall|later: int, max: nat, again: Seq<ReceivableMessage>, i: int|
            later < next_visible && #[trigger] receive_selects(
                after,
                after_last_slash(queue_url),
                later,
                max,
                again,
            ) && 0 <= i < out.len() ==> !among(again, (#[trigger] out[i]).message_id@),
{
    let queue_name = after_last_slash(queue_url);
    let messages = all_read(rows);
    law_received_messages_are_those_claimed(
        queue_url,
        next_visible,
        messages,
        Seq::empty(),
        step,
        receipts,
        claims,
        out,
    );
    assert(out =~= claimed_messages(messages, receipts, claims));
    assert forall|i: int| 0 <= i < rows.len() implies claim_finds(
        table,
        queue_name,
        #[trigger] rows[i],
    ) by {
        assert(receivable(table, queue_name, now as int, rows[i].message_id@));
    }
    lemma_claims_find_their_messages(
        table,
        queue_name,
        next_visible,
        rows,
        receipts,
        claims,
        after,
    );
    lemma_all_claimed(rows, receipts, claims);
    assert forall|i: int| 0 <= i < rows.len() implies response_of(
        rows[i],
        receipts[i],
        #[trigger] out[i],
    ) && out[i].message_id@ == rows[i].message_id@ by {
    }
    assert forall|i: int, j: int| 0 <= i < j < out.len() implies (#[trigger] out[i]).message_id@
        != (#[trigger] out[j]).message_id@ by {
        assert(rows[i].message_id@ != rows[j].message_id@);
    }
    assert forall|later: int, max: nat, again: Seq<ReceivableMessage>, i: int|
        later < next_visible && #[trigger] receive_selects(after, queue_name, later, max, again)
            && 0 <= i < out.len() implies !among(again, (#[trigger] out[i]).message_id@) by {
        let id = out[i].message_id@;
        assert(id == rows[i].message_id@);
        assert(after[id].visibility_timestamp == next_visible);
        if among(again, id) {
            let k = choose|k: int| 0 <= k < again.len() && (#[trigger] again[k]).message_id@ == id;
            assert(receivable(after, queue_name, later, again[k].message_id@));
        }
    }
}

/// Removes the message that a receipt was given for.
pub fn delete_queue_message(queue_url: &str, receipt_handle: &str) -> (r: Statement)
    ensures
        r@ == (StatementView {
            sql: DELETE_MESSAGE@,
            args: seq![
                SqlArg::Text(after_last_slash(queue_url@)),
                SqlArg::Text(receipt_handle@),
            ],
        }),
{
    let name = queue_name_of_url(queue_url);
    statement(delete_message(name.as_str(), receipt_handle))
}

/// Sets when the message that a receipt was given for is visible again.
pub fn change_queue_message_visibility(
    queue_url: &str,
    receipt_handle: &str,
    new_visibility_timestamp: i64,
) -> (r: Statement)
    ensures
        r@ == (StatementView {
            sql: CHANGE_MESSAGE_VISIBILITY@,
            args: seq![
                SqlArg::Integer(new_visibility_timestamp as int),
                SqlArg::Text(after_last_slash(queue_url@)),
                SqlArg::Text(receipt_handle@),
            ],
        }),
{
    let name = queue_name_of_url(queue_url);
    statement(change_message_visibility(new_visibility_timestamp, name.as_str(), receipt_handle))
}

/// Stores how far the work on the message that a receipt was given for has come.
pub fn update_message_snapshot_checkpoint(
    queue_url: &str,
    receipt_handle: &str,
    checkpoint_data: &str,
) -> (r: Statement)
    ensures
        r@ == (StatementView {
            sql: UPDATE_MESSAGE_CHECKPOINT@,
            args: seq![
                SqlArg::Text(checkpoint_data@),
                SqlArg::Text(after_last_slash(queue_url@)),
                SqlArg::Text(receipt_handle@),
            ],
        }),
{
    let name = queue_name_of_url(queue_url);
    statement(update_message_checkpoint(checkpoint_data, name.as_str(), receipt_handle))
}

/// What removing a message or changing its visibility answers, from the number of rows
/// it changed.
pub fn message_result(changed: usize) -> (r: Result<(), QueueError>)
    ensures
        r is Ok <==> changed > 0,
        r matches Err(e) ==> e == QueueError::MessageNotFoundOrAlreadyProcessed,
{
    if changed == 0 {
        return Err(QueueError::MessageNotFoundOrAlreadyProcessed);
    }
    Ok(())
}

/// What storing a checkpoint answers, from the number of rows it changed.
pub fn checkpoint_result(changed: usize) -> (r: Result<(), QueueError>)
    ensures
        r is Ok <==> changed > 0,
        r matches Err(e) ==> e == QueueError::MessageNotFound,
{
    if changed == 0 {
        return Err(QueueError::MessageNotFound);
    }
    Ok(())
}


/// Attributes assign to each key its own value, and nothing to any other key.
pub proof fn law_attributes_assign_their_values(entries: Seq<QueueAttribute>)
    requires
        keys_distinct(entries),
    ensures
        forall|i: int|
            0 <= i < entries.len() ==> attribute_map(entries).contains_key(
                (#[trigger] entries[i]).key@,
            ) && attribute_map(entries)[entries[i].key@] == entries[i].value@,
        forall|k: Seq<char>| #[trigger]
            attribute_map(entries).contains_key(k) ==> exists|i: int|
                0 <= i < entries.len() && (#[trigger] entries[i]).key@ == k,
{
    lemma_attribute_map(entries);
}


} // verus!
