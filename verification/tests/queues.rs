use rusqlite::types::Value;
use rusqlite::{params_from_iter, Connection};
use sqlite_backend::error::StorageError;
use sqlite_backend::machine::Step;
use sqlite_backend::queue_provider::{
    self, CountState, CreateQueueEvent, MessageResponse, Queue, QueueAction, QueueAttribute,
    QueueError, QueueMessage, QueueMessageCounts, QueueRow, ReceivableMessage, ReceiveAction,
    ReceiveEvent,
};
use sqlite_backend::sql::{statement, SqlValue, Statement};
use sqlite_backend::sql_statements::{get_queue, get_queue_by_name, list_queues};

fn values(params: &[SqlValue]) -> Vec<Value> {
    params
        .iter()
        .map(|p| match p {
            SqlValue::Null => Value::Null,
            SqlValue::Integer(n) => Value::Integer(*n),
            SqlValue::Text(s) => Value::Text(s.clone()),
            SqlValue::Blob(b) => Value::Blob(b.clone()),
        })
        .collect()
}

fn run(conn: &Connection, s: &Statement) -> usize {
    conn.execute(&s.sql, params_from_iter(values(&s.params))).unwrap()
}

fn all<T>(
    conn: &Connection,
    s: &Statement,
    read: impl Fn(&rusqlite::Row<'_>) -> rusqlite::Result<T>,
) -> Vec<T> {
    let mut prepared = conn.prepare(&s.sql).unwrap();
    let rows = prepared.query_map(params_from_iter(values(&s.params)), |row| read(row)).unwrap();
    rows.map(|row| row.unwrap()).collect()
}

fn database() -> Connection {
    let conn = Connection::open_in_memory().unwrap();
    for s in queue_provider::initialize() {
        run(&conn, &s);
    }
    conn
}

const URL: &str = "http://localhost:4566/000000000000/orders";

fn attributes(pairs: &[(&str, &str)]) -> Vec<QueueAttribute> {
    pairs
        .iter()
        .map(|(key, value)| QueueAttribute { key: key.to_string(), value: value.to_string() })
        .collect()
}

fn queue(url: &str, pairs: &[(&str, &str)]) -> Queue {
    Queue {
        queue_name: "orders".to_string(),
        queue_url: url.to_string(),
        attributes: attributes(pairs),
        created_at: 5,
    }
}

fn create(conn: &Connection, queue: &Queue) -> Result<(), QueueError> {
    let mut step = queue_provider::start_create_queue(queue);
    loop {
        let (state, action) = match step {
            Step::Finish(result) => return result,
            Step::Perform { state, action } => (state, action),
        };
        let event = match action {
            QueueAction::Lookup(s) => CreateQueueEvent::LookedUp(Ok(all(conn, &s, |row| {
                Ok((row.get::<_, String>(0)?, row.get::<_, String>(1)?))
            })
            .into_iter()
            .next())),
            QueueAction::Run(s) => CreateQueueEvent::Inserted(Ok(run(conn, &s))),
        };
        step = queue_provider::create_queue(queue, state, event);
    }
}

fn find(conn: &Connection, url: &str) -> Option<Queue> {
    let row = all(conn, &statement(get_queue(url)), |row| {
        Ok(QueueRow {
            queue_name: row.get(0)?,
            queue_url: url.to_string(),
            attributes_json: row.get(1)?,
            created_at: row.get(2)?,
        })
    })
    .into_iter()
    .next();
    queue_provider::get_queue_result(Ok(row)).unwrap()
}

fn message(body: &str, visibility_timestamp: Option<i64>) -> QueueMessage {
    QueueMessage {
        message_id: 0,
        queue_url: URL.to_string(),
        body: body.to_string(),
        message_attributes_json: Some("{\"a\":1}".to_string()),
        visibility_timestamp,
        created_at: 1,
    }
}

fn send(conn: &Connection, message: &QueueMessage) -> u128 {
    let (id, s) = queue_provider::send_queue_message(message);
    run(conn, &s);
    id
}

fn receive(
    conn: &Connection,
    now: i64,
    next_visible: i64,
    max_messages: u32,
    steal: Option<&str>,
) -> Result<Vec<MessageResponse>, QueueError> {
    let mut made = 0;
    let mut step = queue_provider::start_receive_messages(URL, now, max_messages);
    loop {
        let (state, action) = match step {
            Step::Finish(result) => return result,
            Step::Perform { state, action } => (state, action),
        };
        let event = match action {
            ReceiveAction::QueryMessages(s) => {
                let rows = all(conn, &s, |row| {
                    Ok(ReceivableMessage {
                        message_id: row.get(0)?,
                        body: row.get(1)?,
                        message_attributes_json: row.get(2)?,
                        receipt_handle: row.get(4)?,
                    })
                });
                if let Some(body) = steal {
                    conn.execute(
                        "UPDATE sys_messages SET receipt_handle = 'other' WHERE body = ?1",
                        [body],
                    )
                    .unwrap();
                }
                ReceiveEvent::MessagesRead(Ok(rows.into_iter().map(Ok).collect()))
            }
            ReceiveAction::MakeReceipt(uuid) => {
                assert_eq!(uuid::Uuid::from_u128(uuid).get_version_num(), 7);
                made += 1;
                ReceiveEvent::ReceiptMade(format!("receipt-{next_visible}-{made}"))
            }
            ReceiveAction::Claim(s) => ReceiveEvent::Claimed(Ok(run(conn, &s))),
        };
        step = queue_provider::receive_queue_messages(URL, next_visible, state, event);
    }
}

fn counts(conn: &Connection, now: i64) -> Result<QueueMessageCounts, QueueError> {
    let mut step = queue_provider::start_get_queue_message_counts(URL, now);
    loop {
        let (state, action) = match step {
            Step::Finish(result) => return result,
            Step::Perform { state, action } => (state, action),
        };
        let counted = all(conn, &action, |row| row.get::<_, i64>(0))[0];
        step = queue_provider::get_queue_message_counts(URL, now, state, Ok(counted));
    }
}

#[test]
fn queues_are_named_by_the_end_of_their_urls() {
    assert_eq!(queue_provider::queue_name_of_url(URL), "orders");
    assert_eq!(queue_provider::queue_name_of_url("orders"), "orders");
    assert_eq!(queue_provider::queue_name_of_url("http://host/"), "");
    assert_eq!(queue_provider::queue_name_of_url(""), "");
}

#[test]
fn created_queues_can_be_read() {
    let conn = database();
    let made = queue(URL, &[("VisibilityTimeout", "30"), ("Äther", "\"quoted\"")]);
    assert_eq!(create(&conn, &made), Ok(()));
    let found = find(&conn, URL).unwrap();
    assert_eq!(found.queue_name, "orders");
    assert_eq!(found.queue_url, URL);
    assert_eq!(found.created_at, 5);
    assert!(queue_provider::same_attributes(&found.attributes, &made.attributes));
    assert_eq!(find(&conn, "http://elsewhere/orders"), None);

    let by_name = all(&conn, &statement(get_queue_by_name("orders")), |row| {
        row.get::<_, String>(0)
    });
    assert_eq!(by_name, vec![URL.to_string()]);
}

#[test]
fn queues_can_be_created_again_only_as_they_are() {
    let conn = database();
    let made = queue(URL, &[("a", "1"), ("b", "2")]);
    assert_eq!(create(&conn, &made), Ok(()));
    assert_eq!(create(&conn, &made), Ok(()));
    assert_eq!(create(&conn, &queue(URL, &[("b", "2"), ("a", "1")])), Ok(()));

    let taken = Err(QueueError::QueueAlreadyExists { name: "orders".to_string() });
    assert_eq!(create(&conn, &queue(URL, &[("a", "1")])), taken);
    assert_eq!(create(&conn, &queue(URL, &[("a", "1"), ("b", "3")])), taken);
    assert_eq!(create(&conn, &queue("http://elsewhere/orders", &[("a", "1"), ("b", "2")])), taken);
}

#[test]
fn attributes_are_stored_as_json() {
    let s = queue_provider::set_queue_attributes_statement(
        URL,
        &attributes(&[("b", "2"), ("a", "1")]),
    )
    .unwrap();
    assert_eq!(
        s.params,
        vec![
            SqlValue::Text("{\"a\":\"1\",\"b\":\"2\"}".to_string()),
            SqlValue::Text(URL.to_string()),
        ]
    );
}

#[test]
fn attributes_that_are_no_json_cannot_be_read() {
    let conn = database();
    create(&conn, &queue(URL, &[])).unwrap();
    conn.execute("UPDATE sys_queues SET attributes = '['", []).unwrap();
    let Err(QueueError::Json { message }) = create(&conn, &queue(URL, &[])) else {
        panic!("broken attributes should be refused");
    };
    assert!(message.contains("line 1"));

    let row = || QueueRow {
        queue_name: "orders".to_string(),
        queue_url: URL.to_string(),
        attributes_json: "[".to_string(),
        created_at: 5,
    };
    let Err(QueueError::Storage(StorageError::Database { message })) =
        queue_provider::get_queue_result(Ok(Some(row())))
    else {
        panic!("broken attributes should be refused");
    };
    assert!(message.starts_with("Conversion error from type Text at index: 1, "));
    let Err(QueueError::Storage(StorageError::Database { message })) =
        queue_provider::list_queues_result(vec![row()])
    else {
        panic!("broken attributes should be refused");
    };
    assert!(message.starts_with("Conversion error from type Text at index: 2, "));
}

#[test]
fn queues_are_listed_by_prefix() {
    let conn = database();
    create(&conn, &queue(URL, &[("a", "1")])).unwrap();
    let list = |prefix: Option<&str>| {
        let rows = all(&conn, &statement(list_queues(prefix)), |row| {
            Ok(QueueRow {
                queue_name: row.get(0)?,
                queue_url: row.get(1)?,
                attributes_json: row.get(2)?,
                created_at: row.get(3)?,
            })
        });
        queue_provider::list_queues_result(rows).unwrap()
    };
    assert_eq!(list(None), vec![queue(URL, &[("a", "1")])]);
    assert_eq!(list(Some("ord")), vec![queue(URL, &[("a", "1")])]);
    assert_eq!(list(Some("x")), Vec::new());
}

#[test]
fn deleting_a_queue_removes_its_messages() {
    let conn = database();
    create(&conn, &queue(URL, &[])).unwrap();
    send(&conn, &message("one", None));
    let name = all(&conn, &queue_provider::look_up_queue_name(URL), |row| {
        row.get::<_, String>(0)
    })
    .into_iter()
    .next();
    for s in queue_provider::delete_queue(URL, name.as_deref()).unwrap() {
        run(&conn, &s);
    }
    assert_eq!(find(&conn, URL), None);
    assert_eq!(counts(&conn, 10).unwrap().visible, 0);

    let missing = QueueError::QueueNotFound { queue_url: URL.to_string() };
    assert_eq!(queue_provider::delete_queue(URL, None), Err(missing));
    let missing = QueueError::QueueNotFound { queue_url: URL.to_string() };
    assert_eq!(queue_provider::purge_queue_messages(URL, None), Err(missing));
    let missing = QueueError::QueueNotFound { queue_url: URL.to_string() };
    assert_eq!(queue_provider::set_queue_attributes_result(URL, 0), Err(missing));
    assert_eq!(queue_provider::set_queue_attributes_result(URL, 1), Ok(()));
}

#[test]
fn purging_a_queue_keeps_it() {
    let conn = database();
    create(&conn, &queue(URL, &[])).unwrap();
    send(&conn, &message("one", None));
    run(&conn, &queue_provider::purge_queue_messages(URL, Some("orders")).unwrap());
    assert_eq!(counts(&conn, 10).unwrap().visible, 0);
    assert!(find(&conn, URL).is_some());
}

#[test]
fn received_messages_are_hidden_until_they_are_visible_again() {
    let conn = database();
    let id = send(&conn, &message("one", None));
    let received = receive(&conn, 10, 40, 10, None).unwrap();
    assert_eq!(
        received.iter().map(|m| (m.message_id.clone(), m.body.clone())).collect::<Vec<_>>(),
        vec![(uuid::Uuid::from_u128(id).to_string(), "one".to_string())]
    );
    assert_eq!(received[0].receipt_handle, "receipt-40-1");
    assert_eq!(received[0].message_attributes_json, Some("{\"a\":1}".to_string()));
    assert!(receive(&conn, 39, 60, 10, None).unwrap().is_empty());
    assert_eq!(receive(&conn, 40, 60, 10, None).unwrap().len(), 1);
}

#[test]
fn messages_that_somebody_else_claimed_are_passed_over() {
    let conn = database();
    send(&conn, &message("one", None));
    send(&conn, &message("two", None));
    let received = receive(&conn, 10, 40, 10, Some("one")).unwrap();
    assert_eq!(received.len(), 1);
    assert_eq!(received[0].body, "two");
}

#[test]
fn no_more_messages_are_received_than_asked_for() {
    let conn = database();
    for body in ["one", "two", "three"] {
        send(&conn, &message(body, None));
    }
    assert_eq!(receive(&conn, 10, 40, 2, None).unwrap().len(), 2);
}

#[test]
fn received_messages_are_not_received_again_before_their_time() {
    let conn = database();
    for body in ["one", "two", "three"] {
        send(&conn, &message(body, None));
    }
    let first = receive(&conn, 10, 40, 2, None).unwrap();
    let second = receive(&conn, 39, 60, 10, None).unwrap();
    let ids = |list: &[MessageResponse]| {
        list.iter().map(|m| m.message_id.clone()).collect::<Vec<String>>()
    };
    assert_eq!(first.len(), 2);
    assert_eq!(second.len(), 1);
    assert_ne!(first[0].message_id, first[1].message_id);
    assert!(!ids(&first).contains(&second[0].message_id));
    let stored: Vec<String> = conn
        .prepare("SELECT receipt_handle FROM sys_messages WHERE visibility_timestamp = 40")
        .unwrap()
        .query_map([], |row| row.get(0))
        .unwrap()
        .map(|row| row.unwrap())
        .collect();
    assert_eq!(stored.len(), 2);
    assert!(first.iter().all(|m| stored.contains(&m.receipt_handle)));
}

#[test]
fn rows_that_cannot_be_read_end_a_receive() {
    let step = queue_provider::receive_queue_messages(
        URL,
        40,
        queue_provider::ReceiveState::Reading,
        ReceiveEvent::MessagesRead(Ok(vec![Err(StorageError::internal("row"))])),
    );
    let Step::Finish(Err(QueueError::Storage(e))) = step else {
        panic!("a row that cannot be read should end the receive");
    };
    assert_eq!(e, StorageError::internal("row"));
}

#[test]
fn every_message_is_counted_once() {
    let conn = database();
    send(&conn, &message("visible", None));
    send(&conn, &message("delayed", Some(100)));
    send(&conn, &message("received", Some(1)));
    conn.execute(
        "UPDATE sys_messages SET visibility_timestamp = 90, receipt_handle = 'r' \
         WHERE body = 'received'",
        [],
    )
    .unwrap();
    assert_eq!(
        counts(&conn, 10),
        Ok(QueueMessageCounts { visible: 1, not_visible: 1, delayed: 1 })
    );
    assert_eq!(
        counts(&conn, 100),
        Ok(QueueMessageCounts { visible: 3, not_visible: 0, delayed: 0 })
    );
}

#[test]
fn negative_counts_are_refused() {
    let step = queue_provider::get_queue_message_counts(URL, 10, CountState::Visible, Ok(-1));
    let Step::Finish(Err(QueueError::InvalidCount { detail })) = step else {
        panic!("a negative count should be refused");
    };
    assert_eq!(detail, u64::try_from(-1i64).unwrap_err().to_string());
}

#[test]
fn messages_keep_the_id_they_have() {
    let mut given = message("one", Some(7));
    given.message_id = 0x0011_2233_4455_6677_8899_aabb_ccdd_eeff;
    let (id, s) = queue_provider::send_queue_message(&given);
    assert_eq!(id, given.message_id);
    assert_eq!(
        s.params,
        vec![
            SqlValue::Text("00112233-4455-6677-8899-aabbccddeeff".to_string()),
            SqlValue::Text("orders".to_string()),
            SqlValue::Text("one".to_string()),
            SqlValue::Text("{\"a\":1}".to_string()),
            SqlValue::Integer(7),
            SqlValue::Integer(1),
        ]
    );
}

#[test]
fn messages_are_dealt_with_by_their_receipts() {
    let conn = database();
    send(&conn, &message("one", None));
    let receipt = receive(&conn, 10, 40, 10, None).unwrap().remove(0).receipt_handle;

    let changed =
        run(&conn, &queue_provider::update_message_snapshot_checkpoint(URL, &receipt, "half"));
    assert_eq!(queue_provider::checkpoint_result(changed), Ok(()));
    let changed =
        run(&conn, &queue_provider::change_queue_message_visibility(URL, &receipt, 15));
    assert_eq!(queue_provider::message_result(changed), Ok(()));
    assert_eq!(counts(&conn, 15).unwrap().visible, 1);
    let changed = run(&conn, &queue_provider::delete_queue_message(URL, &receipt));
    assert_eq!(queue_provider::message_result(changed), Ok(()));

    let changed = run(&conn, &queue_provider::delete_queue_message(URL, &receipt));
    assert_eq!(
        queue_provider::message_result(changed),
        Err(QueueError::MessageNotFoundOrAlreadyProcessed)
    );
    let changed =
        run(&conn, &queue_provider::update_message_snapshot_checkpoint(URL, &receipt, "half"));
    assert_eq!(queue_provider::checkpoint_result(changed), Err(QueueError::MessageNotFound));
}
