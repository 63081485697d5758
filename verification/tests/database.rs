//! The statements of the library, run on a SQLite database, and the rows that come back.

use privchat_sdk::error::PrivchatSDKError;
use privchat_sdk::storage::dao::channel::{unread_total, ChannelDao};
use privchat_sdk::storage::dao::conversation::ConversationDao;
use privchat_sdk::storage::dao::friend_dao::FriendDao;
use privchat_sdk::storage::dao::group_dao::GroupDao;
use privchat_sdk::storage::dao::mention::{MentionCount, MentionDao};
use privchat_sdk::storage::dao::message::MessageDao;
use privchat_sdk::storage::dao::migration::MigrationDao;
use privchat_sdk::storage::dao::user::UserDao;
use privchat_sdk::storage::entities::{Channel, Friend, Group, Message, MessageQuery, User};
use privchat_sdk::storage::sql::{read_all, read_found, Cell, Row, SqlValue, Statement};
use rusqlite::types::Value;
use rusqlite::Connection;

fn to_value(v: &SqlValue) -> Value {
    match v {
        SqlValue::Null => Value::Null,
        SqlValue::Integer(i) => Value::Integer(*i),
        SqlValue::Real(s) => Value::Real(s.parse().unwrap()),
        SqlValue::Text(s) => Value::Text(s.clone()),
        SqlValue::Blob(b) => Value::Blob(b.clone()),
    }
}

fn from_value(v: Value) -> SqlValue {
    match v {
        Value::Null => SqlValue::Null,
        Value::Integer(i) => SqlValue::Integer(i),
        Value::Real(f) => SqlValue::Real(f.to_string()),
        Value::Text(s) => SqlValue::Text(s),
        Value::Blob(b) => SqlValue::Blob(b),
    }
}

fn run(conn: &Connection, s: &Statement) -> usize {
    conn.execute(&s.sql, rusqlite::params_from_iter(s.params.iter().map(to_value))).unwrap()
}

fn rows(conn: &Connection, s: &Statement) -> Vec<Row> {
    let mut prepared = conn.prepare(&s.sql).unwrap();
    let names: Vec<String> = prepared.column_names().iter().map(|n| n.to_string()).collect();
    let mut found = prepared
        .query(rusqlite::params_from_iter(s.params.iter().map(to_value)))
        .unwrap();
    let mut out = Vec::new();
    while let Some(row) = found.next().unwrap() {
        let mut cells = Vec::new();
        for (i, name) in names.iter().enumerate() {
            cells.push(Cell { column: name.clone(), value: from_value(row.get(i).unwrap()) });
        }
        out.push(Row { cells });
    }
    out
}

fn first_value(conn: &Connection, s: &Statement) -> SqlValue {
    rows(conn, s).remove(0).cells.remove(0).value
}

fn number(conn: &Connection, s: &Statement) -> i64 {
    match first_value(conn, s) {
        SqlValue::Integer(i) => i,
        other => panic!("not a number: {:?}", other),
    }
}

fn conversation_db() -> Connection {
    let conn = Connection::open_in_memory().unwrap();
    conn.execute(
        "CREATE TABLE IF NOT EXISTS channel (
            id INTEGER PRIMARY KEY AUTOINCREMENT,
            channel_id TEXT NOT NULL,
            channel_type INTEGER NOT NULL,
            last_local_message_id TEXT,
            last_msg_timestamp INTEGER,
            unread_count INTEGER DEFAULT 0,
            is_deleted INTEGER DEFAULT 0,
            version INTEGER DEFAULT 1,
            extra TEXT DEFAULT '{}',
            last_msg_pts INTEGER,
            parent_channel_id TEXT DEFAULT '',
            parent_channel_type INTEGER DEFAULT 0,
            UNIQUE(channel_id, channel_type)
        )",
        [],
    )
    .unwrap();
    conn
}

fn conversation(channel_id: u64, message: u64, time: i64, unread: i32, extra: &str) -> Channel {
    Channel {
        channel_id,
        channel_type: 1,
        last_local_message_id: message,
        last_msg_timestamp: Some(time),
        unread_count: unread,
        is_deleted: 0,
        version: 1,
        extra: extra.to_string(),
        last_msg_pts: message as i64,
        id: None,
        last_msg_content: String::new(),
        show_nick: 0,
        username: String::new(),
        channel_name: String::new(),
        channel_remark: String::new(),
        top: 0,
        mute: 0,
        save: 0,
        forbidden: 0,
        follow: 0,
        receipt: 0,
        status: 0,
        invite: 0,
        robot: 0,
        online: 0,
        last_offline: 0,
        avatar: String::new(),
        category: String::new(),
        created_at: 0,
        updated_at: 0,
        avatar_cache_key: String::new(),
        remote_extra: None,
        flame: 0,
        flame_second: 0,
        device_flag: 0,
        parent_channel_id: 0,
        parent_channel_type: 0,
    }
}

fn total(conn: &Connection, s: &Statement) -> i32 {
    unread_total(&first_value(conn, s)).unwrap()
}

#[test]
fn test_get_total_unread_count() {
    let conn = conversation_db();
    run(&conn, &ConversationDao::upsert(&conversation(1001, 1, 1000, 5, "{}")).unwrap());
    run(&conn, &ConversationDao::upsert(&conversation(1002, 2, 2000, 3, "{}")).unwrap());
    run(&conn, &ConversationDao::upsert(&conversation(1003, 3, 3000, 2, "{}")).unwrap());

    let total = total(&conn, &ConversationDao::get_total_unread_count());
    assert_eq!(total, 10);
}

#[test]
fn test_get_total_unread_count_exclude_muted() {
    let conn = conversation_db();
    run(&conn, &ConversationDao::upsert(&conversation(1001, 1, 1000, 5, "{}")).unwrap());
    run(
        &conn,
        &ConversationDao::upsert(&conversation(1002, 2, 2000, 3, r#"{"muted": true}"#)).unwrap(),
    );
    run(&conn, &ConversationDao::upsert(&conversation(1003, 3, 3000, 2, "{}")).unwrap());

    let counted = total(&conn, &ConversationDao::get_total_unread_count_exclude_muted());
    assert_eq!(counted, 7);

    let all = total(&conn, &ConversationDao::get_total_unread_count());
    assert_eq!(all, 10);
}

#[test]
fn test_verify_total_unread_count() {
    let conn = conversation_db();
    let channels =
        vec![conversation(1001, 1, 1000, 5, "{}"), conversation(1002, 2, 2000, 3, "{}")];
    for c in &channels {
        run(&conn, &ConversationDao::upsert(c).unwrap());
    }

    let total = total(&conn, &ConversationDao::get_total_unread_count());

    let mut sum: i32 = 0;
    for row in rows(&conn, &ConversationDao::list_all()).iter() {
        sum += ConversationDao::row_to_channel(row).unwrap().unread_count;
    }

    assert_eq!(total, sum);
    assert_eq!(total, 8);
}

fn message_db() -> Connection {
    let conn = Connection::open_in_memory().unwrap();
    conn.execute(
        "CREATE TABLE message (
            id INTEGER PRIMARY KEY AUTOINCREMENT,
            client_seq INTEGER,
            message_id TEXT UNIQUE,
            pts BIGINT DEFAULT 0,
            channel_id TEXT NOT NULL,
            channel_type INTEGER NOT NULL,
            timestamp INTEGER,
            from_uid TEXT NOT NULL,
            type INTEGER NOT NULL,
            content TEXT NOT NULL,
            status INTEGER NOT NULL DEFAULT 0,
            voice_status INTEGER NOT NULL DEFAULT 0,
            created_at TEXT NOT NULL DEFAULT '',
            updated_at TEXT NOT NULL DEFAULT '',
            searchable_word TEXT NOT NULL DEFAULT '',
            local_message_id INTEGER NOT NULL DEFAULT 0,
            is_deleted INTEGER NOT NULL DEFAULT 0,
            setting INTEGER NOT NULL DEFAULT 0,
            order_seq INTEGER NOT NULL DEFAULT 0,
            extra TEXT NOT NULL DEFAULT '{}',
            flame INTEGER NOT NULL DEFAULT 0,
            flame_second INTEGER NOT NULL DEFAULT 0,
            viewed INTEGER NOT NULL DEFAULT 0,
            viewed_at INTEGER NOT NULL DEFAULT 0,
            topic_id TEXT NOT NULL DEFAULT '',
            expire_time INTEGER,
            expire_timestamp INTEGER,
            revoked SMALLINT NOT NULL DEFAULT 0,
            revoked_at BIGINT DEFAULT 0,
            revoked_by TEXT NOT NULL DEFAULT ''
        )",
        [],
    )
    .unwrap();
    conn
}

fn message(server_id: u64, from_uid: u64, position: i64, content: &str, words: &str) -> Message {
    Message {
        id: None,
        server_message_id: Some(server_id),
        pts: position,
        channel_id: 2001,
        channel_type: 1,
        timestamp: Some(chrono::Utc::now().timestamp_millis()),
        from_uid,
        message_type: 1,
        content: content.to_string(),
        status: 1,
        voice_status: 0,
        created_at: 0,
        updated_at: 0,
        searchable_word: words.to_string(),
        local_message_id: position as u64,
        is_deleted: 0,
        setting: 0,
        order_seq: position,
        extra: "{}".to_string(),
        flame: 0,
        flame_second: 0,
        viewed: 0,
        viewed_at: 0,
        topic_id: String::new(),
        expire_time: None,
        expire_timestamp: None,
        revoked: 0,
        revoked_at: 0,
        revoked_by: None,
    }
}

#[test]
fn test_insert_and_get_message() {
    let conn = message_db();

    run(&conn, &MessageDao::insert(&message(1001, 3001, 1, "Hello, world!", "Hello world"), 77).unwrap());
    let row_id = conn.last_insert_rowid();
    assert!(row_id > 0);

    let mut found = rows(&conn, &MessageDao::get_by_message_id(1001));
    assert_eq!(found.len(), 1);
    let retrieved: Option<Message> = read_found(&found.pop(), "message").unwrap();
    assert!(retrieved.is_some());

    let retrieved = retrieved.unwrap();
    assert_eq!(retrieved.server_message_id, Some(1001));
    assert_eq!(retrieved.content, "Hello, world!");
    assert_eq!(retrieved.channel_id, 2001);
    assert_eq!(retrieved.from_uid, 3001);
}

#[test]
fn test_search_messages() {
    let conn = message_db();
    let messages = vec![
        message(1001, 3001, 1, "Hello Rust", "Hello Rust"),
        message(1002, 3002, 2, "Hello World", "Hello World"),
    ];
    for s in &MessageDao::batch_insert(&messages, 77).unwrap() {
        run(&conn, s);
    }

    let results: Vec<Message> =
        read_all(&rows(&conn, &MessageDao::search(2001, 1, "Hello", Some(10)))).unwrap();
    assert_eq!(results.len(), 2);

    let rust_results: Vec<Message> =
        read_all(&rows(&conn, &MessageDao::search(2001, 1, "Rust", Some(10)))).unwrap();
    assert_eq!(rust_results.len(), 1);
    assert_eq!(rust_results[0].content, "Hello Rust");
}

#[test]
fn messages_are_paged_counted_and_deleted() {
    let conn = message_db();
    for i in 1..=5 {
        let m = message(100 + i, 3001, i as i64, &format!("m{}", i), "");
        run(&conn, &MessageDao::insert(&m, 77).unwrap());
    }

    let before: Vec<Message> =
        read_all(&rows(&conn, &MessageDao::messages_before(2001, 4, 2))).unwrap();
    assert_eq!(before.iter().map(|m| m.id).collect::<Vec<_>>(), vec![Some(3), Some(2)]);
    let after: Vec<Message> =
        read_all(&rows(&conn, &MessageDao::messages_after(2001, 3, 10))).unwrap();
    assert_eq!(after.iter().map(|m| m.id).collect::<Vec<_>>(), vec![Some(4), Some(5)]);

    assert_eq!(number(&conn, &MessageDao::count_by_channel(2001, 1)), 5);
    assert_eq!(run(&conn, &MessageDao::soft_delete(1, 99)), 1);
    assert_eq!(number(&conn, &MessageDao::count_by_channel(2001, 1)), 4);
    assert_eq!(number(&conn, &MessageDao::earliest_id(2001)), 2);
    assert_eq!(run(&conn, &MessageDao::restore(1, 99)), 1);
    assert_eq!(number(&conn, &MessageDao::earliest_id(2001)), 1);

    let affected = run(&conn, &MessageDao::soft_delete(42, 99));
    assert!(matches!(MessageDao::must_exist(affected), Err(PrivchatSDKError::Database(_))));

    let query = MessageQuery {
        channel_id: Some(2001),
        limit: Some(2),
        offset: Some(2),
        ..MessageQuery::default()
    };
    let (page, count) = MessageDao::query(&query);
    let found: Vec<Message> = read_all(&rows(&conn, &page)).unwrap();
    assert_eq!(found.len(), 2);
    let result = MessageDao::page(&query, found, number(&conn, &count));
    assert_eq!(result.total, 5);
    assert_eq!(result.page, 2);
    assert_eq!(result.page_size, 2);
    assert!(result.has_more);
}

#[test]
fn an_id_beyond_the_integers_of_the_database_is_refused() {
    let mut m = message(1001, 3001, 1, "x", "x");
    m.local_message_id = u64::MAX;
    assert!(MessageDao::insert(&m, 77).is_err());
}

/// A table with the columns of an insertion; they take values of any type.
fn table_for(conn: &Connection, s: &Statement, keys: &str) {
    let rest = s.sql.strip_prefix("INSERT INTO ").unwrap();
    let end = rest.find(" VALUES").unwrap();
    let open = rest.find('(').unwrap();
    let columns = &rest[open + 1..end - 1];
    let sql = format!("CREATE TABLE {} ({}, UNIQUE({}))", &rest[..open], columns, keys);
    conn.execute(&sql, []).unwrap();
}

#[test]
fn users_friends_and_groups_are_read_back() {
    let conn = Connection::open_in_memory().unwrap();

    let user = User {
        user_id: 7,
        username: Some("ada".to_string()),
        nickname: None,
        alias: Some("A".to_string()),
        avatar: "pic".to_string(),
        user_type: 1,
        is_deleted: false,
        channel_id: "70".to_string(),
        updated_at: 5,
    };
    let stored = UserDao::upsert(&user).unwrap();
    table_for(&conn, &stored, "user_id");
    run(&conn, &stored);
    run(&conn, &stored);
    let users: Vec<User> = read_all(&rows(&conn, &UserDao::get_by_id(7).unwrap())).unwrap();
    assert_eq!(users.len(), 1);
    assert_eq!(users[0].username.as_deref(), Some("ada"));
    assert_eq!(users[0].nickname, None);
    assert_eq!(users[0].alias.as_deref(), Some("A"));
    assert!(UserDao::get_by_ids(&vec![]).is_none());
    let many = UserDao::get_by_ids(&vec![7, 8]).unwrap();
    assert_eq!(rows(&conn, &many).len(), 1);

    let friend = Friend {
        user_id: 7,
        tags: Some("x".to_string()),
        is_pinned: true,
        created_at: 1,
        updated_at: 2,
    };
    let stored = FriendDao::upsert(&friend).unwrap();
    table_for(&conn, &stored, "user_id");
    run(&conn, &stored);
    let friends: Vec<Friend> = read_all(&rows(&conn, &FriendDao::list(10, 0))).unwrap();
    assert_eq!(friends.len(), 1);
    assert!(friends[0].is_pinned);
    assert_eq!(number(&conn, &FriendDao::count()), 1);
    run(&conn, &FriendDao::delete_by_user_id(7).unwrap());
    assert_eq!(number(&conn, &FriendDao::count()), 0);

    let group = Group {
        group_id: 9,
        name: Some("g".to_string()),
        avatar: String::new(),
        owner_id: Some(7),
        is_dismissed: false,
        created_at: 1,
        updated_at: 2,
    };
    let stored = GroupDao::upsert(&group).unwrap();
    table_for(&conn, &stored, "group_id");
    run(&conn, &stored);
    let groups: Vec<Group> = read_all(&rows(&conn, &GroupDao::list(10, 0))).unwrap();
    assert_eq!(groups[0].owner_id, Some(7));
    assert_eq!(groups[0].name.as_deref(), Some("g"));
}

#[test]
fn a_stored_channel_is_read_back() {
    let conn = Connection::open_in_memory().unwrap();
    let channel = Channel {
        unread_count: 4,
        mute: 2,
        save: 1,
        username: "7".to_string(),
        ..conversation(1001, 12, 1000, 4, r#"{"low_priority":true}"#)
    };
    let stored = ChannelDao::upsert(&channel).unwrap();
    table_for(&conn, &stored, "channel_id");
    conn.execute("ALTER TABLE channel ADD COLUMN id INTEGER", []).unwrap();
    run(&conn, &stored);
    let found: Option<Channel> = read_found(
        &rows(&conn, &ChannelDao::get_by_channel(1001, 1).unwrap()).pop(),
        "channel",
    )
    .unwrap();
    let found = found.unwrap();
    assert_eq!(found.channel_id, 1001);
    assert_eq!(found.unread_count, 4);
    assert_eq!(found.mute, 2);
    assert_eq!(found.last_local_message_id, 12);
    assert_eq!(found.extra, r#"{"low_priority":true}"#);

    run(&conn, &ChannelDao::update_mute(1001, 1, 1, 50).unwrap());
    run(&conn, &ChannelDao::update_pts(1001, 1, 33));
    let again: Vec<Channel> = read_all(&rows(&conn, &ChannelDao::list())).unwrap();
    assert_eq!(again[0].mute, 1);
    assert_eq!(again[0].last_msg_pts, 33);
}

#[test]
fn test_migration_stats() {
    let conn = Connection::open_in_memory().unwrap();
    conn.execute(
        "CREATE TABLE IF NOT EXISTS schema_version (version TEXT PRIMARY KEY, applied_at DATETIME DEFAULT CURRENT_TIMESTAMP)",
        [],
    )
    .unwrap();
    conn.execute("CREATE TABLE IF NOT EXISTS message (id INTEGER PRIMARY KEY)", []).unwrap();
    conn.execute("CREATE TABLE IF NOT EXISTS channel (id INTEGER PRIMARY KEY)", []).unwrap();

    let (messages, channels, size) = MigrationDao::stats_statements();
    let count = |s: &Statement| -> Option<i64> { conn.query_row(&s.sql, [], |r| r.get(0)).ok() };
    let stats = MigrationDao::get_database_stats(count(&messages), count(&channels), count(&size));
    assert_eq!(stats.message_count, 0);
    assert_eq!(stats.channel_count, 0);
    assert!(stats.total_size > 0);
}

#[test]
fn mentions_are_counted_and_marked() {
    let conn = Connection::open_in_memory().unwrap();
    let (table, by_user, by_message) = MentionDao::initialize_table();
    for statement in [&table, &by_user, &by_message] {
        run(&conn, statement);
    }
    for (message_id, channel_id, user_id, at) in [(1, 10, 7, 100), (2, 10, 7, 300), (3, 11, 7, 200), (4, 10, 8, 400)] {
        run(&conn, &MentionDao::record_mention(message_id, channel_id, 2, user_id, 9, false, at).unwrap());
    }
    run(&conn, &MentionDao::record_mention(1, 10, 2, 7, 9, true, 500).unwrap());
    assert_eq!(number(&conn, &MentionDao::get_unread_mention_count(10, 2, 7).unwrap()), 2);

    let unread = MentionDao::get_unread_mention_message_ids(10, 2, 7, None).unwrap();
    assert_eq!(MentionDao::unread_mention_message_ids(&rows(&conn, &unread)).unwrap(), vec!["2", "1"]);
    let latest = MentionDao::get_unread_mention_message_ids(10, 2, 7, Some(1)).unwrap();
    assert_eq!(MentionDao::unread_mention_message_ids(&rows(&conn, &latest)).unwrap(), vec!["2"]);

    let counts: Vec<MentionCount> =
        read_all(&rows(&conn, &MentionDao::get_all_unread_mention_counts(7).unwrap())).unwrap();
    let counts: Vec<(String, i32, i32)> =
        counts.into_iter().map(|c| (c.channel_id, c.channel_type, c.unread_count)).collect();
    assert_eq!(counts, vec![("10".to_string(), 2, 2), ("11".to_string(), 2, 1)]);

    run(&conn, &MentionDao::mark_mention_as_read(2, 7).unwrap());
    assert_eq!(number(&conn, &MentionDao::get_unread_mention_count(10, 2, 7).unwrap()), 1);
    run(&conn, &MentionDao::mark_all_mentions_as_read(10, 2, 7).unwrap());
    assert_eq!(number(&conn, &MentionDao::get_unread_mention_count(10, 2, 7).unwrap()), 0);
    let count = number(&conn, &MentionDao::is_user_mentioned(4, 8).unwrap()) as i32;
    assert!(MentionDao::mentioned(count));
    assert!(!MentionDao::mentioned(number(&conn, &MentionDao::is_user_mentioned(4, 7).unwrap()) as i32));

    let blob = Row { cells: vec![Cell { column: "message_id".to_string(), value: SqlValue::Blob(vec![1]) }] };
    match MentionDao::unread_mention_message_ids(&vec![blob]) {
        Err(PrivchatSDKError::Database(m)) => {
            assert_eq!(m, "Invalid column type Blob at index: 0, name: message_id")
        }
        other => panic!("{:?}", other),
    }
}

#[test]
fn an_unreadable_row_is_told_in_the_words_of_the_database() {
    let conn = Connection::open_in_memory().unwrap();
    let query = "SELECT 1 AS first, 'x' AS unread_count";
    let told = conn.query_row(query, [], |row| row.get::<_, i32>("unread_count")).unwrap_err();
    assert_eq!(told.to_string(), "Invalid column type Text at index: 1, name: unread_count");
    let query = "SELECT 9000000000";
    let told = conn.query_row(query, [], |row| row.get::<_, Option<i32>>(0)).unwrap_err();
    match unread_total(&SqlValue::Integer(9_000_000_000)) {
        Err(PrivchatSDKError::Database(m)) => assert_eq!(m, told.to_string()),
        other => panic!("{:?}", other),
    }

    let mut row = rows(
        &conn,
        &Statement {
            sql: "SELECT 7 AS channel_id, 'x' AS channel_type".to_string(),
            params: vec![],
        },
    )
    .remove(0);
    match ConversationDao::found_channel(&Some(row)) {
        Err(PrivchatSDKError::Database(m)) => assert_eq!(
            m,
            "查询会话失败: Invalid column type Text at index: 1, name: channel_type"
        ),
        other => panic!("{:?}", other),
    }
    row = Row { cells: vec![] };
    match ConversationDao::found_channel(&Some(row)) {
        Err(PrivchatSDKError::Database(m)) => {
            assert_eq!(m, "查询会话失败: Invalid column name: channel_id")
        }
        other => panic!("{:?}", other),
    }
    assert!(ConversationDao::found_channel(&None).unwrap().is_none());
}
