//! Read receipts, revocations, edits and unread counts, and the events that report them.

use privchat_sdk::error::PrivchatSDKError;
use privchat_sdk::events::{ConnectionState, SDKEvent};
use privchat_sdk::storage::advanced_features::{
    AdvancedFeaturesManager, ChannelReadState, MessageEditEvent, MessageFacts, ReadReceiptEvent,
};
use privchat_sdk::storage::advanced_features_integration::AdvancedFeaturesIntegration;
use privchat_sdk::storage::dao::features::FeaturesDao;
use privchat_sdk::storage::entities::{MessageStatus, StatusTransition};
use privchat_sdk::storage::sql::{read_all, read_found, Cell, Row, SqlValue, Statement};
use rusqlite::types::Value;
use rusqlite::Connection;

fn manager() -> AdvancedFeaturesManager {
    AdvancedFeaturesManager::new(120, 300)
}

fn integration() -> AdvancedFeaturesIntegration {
    AdvancedFeaturesIntegration::new(manager())
}

fn facts() -> MessageFacts {
    MessageFacts { channel_id: 10, channel_type: 1, from_uid: 1, status: 2, created_at: 1000 }
}

fn to_value(v: &SqlValue) -> Value {
    match v {
        SqlValue::Null => Value::Null,
        SqlValue::Integer(i) => Value::Integer(*i),
        SqlValue::Real(x) => Value::Real(x.parse().unwrap()),
        SqlValue::Text(t) => Value::Text(t.clone()),
        SqlValue::Blob(b) => Value::Blob(b.clone()),
    }
}

fn from_value(v: Value) -> SqlValue {
    match v {
        Value::Null => SqlValue::Null,
        Value::Integer(i) => SqlValue::Integer(i),
        Value::Real(f) => SqlValue::Real(f.to_string()),
        Value::Text(s) => SqlValue::Text(s),
        Value::Blob(b) => SqlValue::Blob(b),
    }
}

fn run(conn: &Connection, s: &Statement) -> usize {
    conn.execute(&s.sql, rusqlite::params_from_iter(s.params.iter().map(to_value))).unwrap()
}

fn rows(conn: &Connection, s: &Statement) -> Vec<Row> {
    let mut prepared = conn.prepare(&s.sql).unwrap();
    let names: Vec<String> = prepared.column_names().iter().map(|n| n.to_string()).collect();
    let mut found =
        prepared.query(rusqlite::params_from_iter(s.params.iter().map(to_value))).unwrap();
    let mut out = Vec::new();
    while let Some(row) = found.next().unwrap() {
        let mut cells = Vec::new();
        for (i, name) in names.iter().enumerate() {
            cells.push(Cell { column: name.clone(), value: from_value(row.get(i).unwrap()) });
        }
        out.push(Row { cells });
    }
    out
}

fn number(conn: &Connection, s: &Statement) -> Option<i64> {
    match rows(conn, s).first().map(|r| &r.cells[0].value) {
        Some(SqlValue::Integer(i)) => Some(*i),
        None => None,
        other => panic!("{:?}", other),
    }
}

fn feature_db() -> Connection {
    let conn = Connection::open_in_memory().unwrap();
    conn.execute_batch(
        "CREATE TABLE messages (message_id TEXT PRIMARY KEY, channel_id TEXT NOT NULL,
            channel_type INTEGER NOT NULL, from_uid TEXT NOT NULL, content TEXT NOT NULL,
            status INTEGER NOT NULL DEFAULT 0, created_at DATETIME DEFAULT CURRENT_TIMESTAMP,
            updated_at DATETIME DEFAULT CURRENT_TIMESTAMP, message_seq INTEGER NOT NULL,
            is_deleted INTEGER NOT NULL DEFAULT 0, local_message_id TEXT, extra TEXT, events TEXT);
         CREATE TABLE message_extra (id INTEGER PRIMARY KEY AUTOINCREMENT, message_id TEXT NOT NULL,
            channel_id TEXT, channel_type INTEGER, revoke INTEGER DEFAULT 0, revoker TEXT,
            content_edit TEXT, edited_at INTEGER, extra_version INTEGER);",
    )
    .unwrap();
    for s in &FeaturesDao::initialize_tables() {
        run(&conn, s);
    }
    conn
}

fn add_message(conn: &Connection, id: u64, status: i32, seq: i64) {
    conn.execute(
        "INSERT INTO messages (message_id, channel_id, channel_type, from_uid, content, status,
            created_at, message_seq) VALUES (?1, 10, 1, 1, 'Hello', ?2, datetime(1000, 'unixepoch'), ?3)",
        (id, status, seq),
    )
    .unwrap();
}

fn stored_facts(conn: &Connection, id: u64) -> Option<MessageFacts> {
    let first = rows(conn, &FeaturesDao::message_facts(id)).into_iter().next();
    read_found(&first, "").unwrap()
}

fn stored_content(conn: &Connection, id: u64) -> String {
    match &rows(conn, &FeaturesDao::message_content(id).unwrap())[0].cells[0].value {
        SqlValue::Text(s) => s.clone(),
        other => panic!("{:?}", other),
    }
}

fn unread(conn: &Connection, channel_id: u64, channel_type: i32, user_id: u64) -> i64 {
    let read_up_to =
        number(conn, &FeaturesDao::last_read_seq(channel_id, channel_type, user_id).unwrap());
    let s = manager().get_unread_count(channel_id, channel_type, read_up_to).unwrap();
    number(conn, &s).unwrap()
}

#[test]
fn test_read_receipt_functionality() {
    let conn = feature_db();
    add_message(&conn, 1, 0, 1);
    let receipt = manager().mark_message_as_read(1, 10, 1, 2, 1000);
    assert_eq!(receipt.message_id, 1);
    assert_eq!(receipt.reader_uid, 2);
    assert!(receipt.need_sync);

    run(
        &conn,
        &FeaturesDao::store_receipt(
            receipt.message_id,
            receipt.channel_id,
            receipt.channel_type,
            receipt.reader_uid,
            receipt.read_at,
        )
        .unwrap(),
    );
    let receipts: Vec<ReadReceiptEvent> =
        read_all(&rows(&conn, &FeaturesDao::get_message_read_receipts(1).unwrap())).unwrap();
    assert_eq!(receipts.len(), 1);
    assert_eq!(receipts[0].reader_uid, 2);
    assert_eq!(receipts[0].read_at, 1000);
    assert!(!receipts[0].need_sync);
}

#[test]
fn test_message_revoke_functionality() {
    let conn = feature_db();
    add_message(&conn, 5, 2, 1);
    let manager = manager();
    assert_eq!(stored_facts(&conn, 5), Some(facts()));
    assert_eq!(stored_facts(&conn, 6), None);

    assert!(manager.can_revoke_message(stored_facts(&conn, 5), 1, 1060).unwrap());
    assert!(!manager.can_revoke_message(stored_facts(&conn, 5), 2, 1060).unwrap());

    let (revoke_event, statements) =
        manager.revoke_plan(5, 1, Some("Test revoke"), &facts(), 1060).unwrap();
    assert_eq!(revoke_event.message_id, 5);
    assert_eq!(revoke_event.revoker_uid, 1);
    assert_eq!(revoke_event.reason, Some("Test revoke".to_string()));

    for s in &statements {
        run(&conn, s);
    }
    let revoked = stored_facts(&conn, 5).unwrap();
    assert_eq!(revoked, MessageFacts { status: 6, ..facts() });
    assert!(!manager.can_revoke_message(Some(revoked), 1, 1060).unwrap());
    assert!(manager.revoke_plan(5, 1, None, &revoked, 1060).is_err());
    assert!(manager.revoke_message(5, 1, None, &revoked, 1060).is_err());
    let extra = Statement {
        sql: "SELECT revoker FROM message_extra WHERE message_id = 5 AND revoke = 1".to_string(),
        params: vec![],
    };
    match &rows(&conn, &extra)[0].cells[0].value {
        SqlValue::Text(s) => assert_eq!(s, "1"),
        other => panic!("{:?}", other),
    }
}

#[test]
fn numbers_that_the_database_cannot_hold_are_not_written() {
    let big = u64::MAX;
    let out = "out of range integral type conversion attempted";
    match manager().revoke_plan(big, 1, None, &facts(), 1060) {
        Err(PrivchatSDKError::Database(m)) => assert_eq!(m, out),
        other => panic!("{:?}", other),
    }
    match manager().revoke_plan(big, 2, None, &facts(), 1060) {
        Err(PrivchatSDKError::InvalidOperation(m)) => {
            assert_eq!(m, "Only message sender can revoke the message")
        }
        other => panic!("{:?}", other),
    }
    match manager().edit_plan(big, 2, "x", &facts(), "y", 0, 1060) {
        Err(PrivchatSDKError::Database(m)) => assert_eq!(m, out),
        other => panic!("{:?}", other),
    }
    match manager().get_unread_count(big, 1, None) {
        Err(PrivchatSDKError::Database(m)) => assert_eq!(m, out),
        other => panic!("{:?}", other),
    }
}

#[test]
fn a_message_is_revoked_by_its_sender_in_time_or_not_at_all() {
    let manager = manager();
    match manager.revoke_message(5, 2, None, &facts(), 1060) {
        Err(PrivchatSDKError::InvalidOperation(m)) => {
            assert_eq!(m, "Only message sender can revoke the message")
        }
        other => panic!("{:?}", other),
    }
    assert!(manager.revoke_message(5, 1, None, &facts(), 1120).is_ok());
    match manager.revoke_message(5, 1, None, &facts(), 1121) {
        Err(PrivchatSDKError::InvalidOperation(m)) => {
            assert!(m.starts_with("Message revoke time limit exceeded: "))
        }
        other => panic!("{:?}", other),
    }
    let unsent = MessageFacts { status: 0, ..facts() };
    match manager.revoke_message(5, 1, None, &unsent, 1060) {
        Err(PrivchatSDKError::InvalidOperation(m)) => assert!(m.ends_with(" cannot be revoked")),
        other => panic!("{:?}", other),
    }
    let future = MessageFacts { created_at: 5000, ..unsent };
    assert!(!manager.can_revoke_message(Some(future), 1, 1060).unwrap());
    assert!(!manager.can_edit_message(Some(future), 1, 1060).unwrap());
    let strange = MessageFacts { status: 99, ..facts() };
    match manager.revoke_message(5, 1, None, &strange, 1060) {
        Err(PrivchatSDKError::InvalidOperation(m)) => assert_eq!(m, "Invalid message status"),
        other => panic!("{:?}", other),
    }
}

#[test]
fn test_message_edit_functionality() {
    let conn = feature_db();
    add_message(&conn, 5, 2, 1);
    let manager = manager();

    assert!(manager.can_edit_message(stored_facts(&conn, 5), 1, 1060).unwrap());

    for (version, text) in [(1, "Hello World!"), (2, "Bye")] {
        let edits = number(&conn, &FeaturesDao::edit_version(5).unwrap()).unwrap() as u32;
        let old = stored_content(&conn, 5);
        let (edit_event, statements) =
            manager.edit_plan(5, 1, text, &facts(), &old, edits, 1060).unwrap();
        assert_eq!(edit_event.message_id, 5);
        assert_eq!(edit_event.editor_uid, 1);
        assert_eq!(edit_event.new_content, text);
        assert_eq!(edit_event.edit_version, version);
        for s in &statements {
            run(&conn, s);
        }
        assert_eq!(stored_content(&conn, 5), text);
        let history: Vec<MessageEditEvent> =
            read_all(&rows(&conn, &FeaturesDao::get_message_edit_history(5).unwrap())).unwrap();
        assert_eq!(history.len(), version as usize);
        assert_eq!(history[0].new_content, "Hello World!");
        assert_eq!(history[version as usize - 1].edit_version, version);
    }

    match manager.edit_plan(5, 2, "x", &facts(), "Bye", 2, 1060) {
        Err(PrivchatSDKError::InvalidOperation(m)) => {
            assert_eq!(m, "Only message sender can edit the message")
        }
        other => panic!("{:?}", other),
    }
    match manager.edit_plan(5, 1, "x", &facts(), "Bye", 2, 1301) {
        Err(PrivchatSDKError::InvalidOperation(m)) => {
            assert_eq!(m, "Message edit time limit exceeded: 300 seconds")
        }
        other => panic!("{:?}", other),
    }
}

#[test]
fn test_channel_read_state() {
    let conn = feature_db();
    let count = number(&conn, &FeaturesDao::unread_beyond(10, 1, 100).unwrap()).unwrap();
    let read_state =
        manager().update_channel_read_state(10, 1, 1, Some(5), 100, count as i32, 1000);

    assert_eq!(read_state.channel_id, 10);
    assert_eq!(read_state.user_id, 1);
    assert_eq!(read_state.last_read_seq, 100);

    run(&conn, &FeaturesDao::store_read_state(&read_state).unwrap());
    assert_eq!(unread(&conn, 10, 1, 1), 0);
    let states: Vec<ChannelReadState> =
        read_all(&rows(&conn, &FeaturesDao::get_channel_read_states(10, 1).unwrap())).unwrap();
    assert_eq!(states, vec![read_state]);
}

#[test]
fn a_stored_read_state_counts_what_is_unread() {
    let conn = feature_db();
    for i in 1..=4 {
        add_message(&conn, i, 2, i as i64 * 50);
    }
    conn.execute("UPDATE messages SET is_deleted = 1 WHERE message_id = 4", []).unwrap();
    assert_eq!(unread(&conn, 10, 1, 1), 3);
    let count = number(&conn, &FeaturesDao::unread_beyond(10, 1, 50).unwrap()).unwrap();
    let state = manager().update_channel_read_state(10, 1, 1, Some(1), 50, count as i32, 1000);
    run(&conn, &FeaturesDao::store_read_state(&state).unwrap());
    assert_eq!(state.unread_count, 2);
    assert_eq!(unread(&conn, 10, 1, 1), 2);
    assert_eq!(unread(&conn, 10, 1, 2), 3);
}

#[test]
fn test_batch_mark_as_read() {
    let events = manager().batch_mark_messages_as_read(&vec![1, 2, 3], 10, 1, 2, 1000);

    assert_eq!(events.len(), 3);
    for (i, event) in events.iter().enumerate() {
        assert_eq!(event.message_id, i as u64 + 1);
        assert_eq!(event.reader_uid, 2);
    }
}

#[test]
fn test_integrated_read_receipt_with_events() {
    let events = integration().mark_message_as_read(1, 10, 1, 2, 0, 1000);
    match &events[0] {
        SDKEvent::ReadReceiptReceived(receipt) => {
            assert_eq!(receipt.message_id, 1);
            assert_eq!(receipt.reader_uid, 2);
        }
        _ => panic!("Expected ReadReceiptReceived event"),
    }
    match &events[1] {
        SDKEvent::UnreadCountChanged { channel_id, unread_count, .. } => {
            assert_eq!(*channel_id, 10);
            assert_eq!(*unread_count, 0);
        }
        _ => panic!("Expected UnreadCountChanged event"),
    }
}

#[test]
fn test_integrated_message_revoke_with_events() {
    match integration().revoke_message(5, 1, Some("Test revoke"), Some(facts()), 1060).unwrap() {
        SDKEvent::MessageRevoked(revoke) => {
            assert_eq!(revoke.message_id, 5);
            assert_eq!(revoke.revoker_uid, 1);
            assert_eq!(revoke.reason, Some("Test revoke".to_string()));
        }
        _ => panic!("Expected MessageRevoked event"),
    }
}

#[test]
fn test_integrated_message_edit_with_events() {
    match integration().edit_message(5, 1, "Hello World!", Some(facts()), 0, 1060).unwrap() {
        SDKEvent::MessageEdited(edit) => {
            assert_eq!(edit.message_id, 5);
            assert_eq!(edit.editor_uid, 1);
            assert_eq!(edit.new_content, "Hello World!");
        }
        _ => panic!("Expected MessageEdited event"),
    }
}

#[test]
fn test_typing_indicator() {
    match integration().send_typing_indicator(10, 1, 1, true) {
        SDKEvent::TypingIndicator(typing_event) => {
            assert_eq!(typing_event.channel_id, 10);
            assert_eq!(typing_event.user_id, 1);
            assert!(typing_event.is_typing);
        }
        _ => panic!("Expected TypingIndicator event"),
    }
}

#[test]
fn test_user_presence_update() {
    match integration().update_user_presence(1, true, None) {
        SDKEvent::UserPresenceChanged { user_id, is_online, .. } => {
            assert_eq!(user_id, 1);
            assert!(is_online);
        }
        _ => panic!("Expected UserPresenceChanged event"),
    }
}

#[test]
fn test_connection_state_update() {
    match integration().update_connection_state(false) {
        SDKEvent::ConnectionStateChanged { new_state, .. } => {
            assert_eq!(new_state, ConnectionState::Disconnected);
        }
        _ => panic!("Expected ConnectionStateChanged event"),
    }
}

#[test]
fn test_batch_operations_with_events() {
    let events = integration().batch_mark_messages_as_read(&vec![1, 2, 3], 10, 1, 2, 0, 1000);

    let mut read_receipt_count = 0;
    let mut unread_count_changed = false;
    for event in &events {
        match event {
            SDKEvent::ReadReceiptReceived(_) => read_receipt_count += 1,
            SDKEvent::UnreadCountChanged { .. } => unread_count_changed = true,
            _ => {}
        }
    }
    assert_eq!(events.len(), 4);
    assert_eq!(read_receipt_count, 3);
    assert!(unread_count_changed);
}

#[test]
fn statuses_change_only_along_their_way() {
    assert!(MessageStatus::Draft.can_transition_to(MessageStatus::Sending));
    assert!(StatusTransition::validate(MessageStatus::Draft, MessageStatus::Sending).is_ok());
    let refused = StatusTransition::validate(MessageStatus::Read, MessageStatus::Draft);
    assert!(refused.is_err());
    for n in 0..20 {
        if let Some(status) = MessageStatus::from_i32(n) {
            assert_eq!(status.to_i32(), n);
        }
    }
}
