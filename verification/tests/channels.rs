//! Messages and channels from the server, the channel list, and the owner of the databases.

use privchat_sdk::error::PrivchatSDKError;
use privchat_sdk::events::{SDKEvent, TimelineDiffKind};
use privchat_sdk::json::JsonValue;
use privchat_sdk::sdk::channel_list::{
    extra_with_low_priority, get_message_preview, is_low_priority,
};
use privchat_sdk::sdk::config::PrivchatConfig;
use privchat_sdk::sdk::incoming::{
    group_by_channel, order_batch, received_message, timeline_event, timeline_message_of_push,
    timestamp_millis, PushMessage,
};
use privchat_sdk::sdk::reactions::reaction_chips;
use privchat_sdk::sdk::settings::history_at;
use privchat_sdk::sdk::state::PrivchatSDK;
use privchat_sdk::sdk::timeline::page_event;
use privchat_sdk::sdk::wire::{parse_channel_at, parse_message_at, parse_message_from_json};
use privchat_sdk::storage::db_actor::channels::merge_channels;
use privchat_sdk::storage::db_actor::commands::{DbActor, DbCommand, DbStep};
use privchat_sdk::storage::db_actor::encryption::{derive_encryption_key, key_text};
use privchat_sdk::storage::db_actor::received::{
    save_received_message_step, ChannelLookup, SaveAction, SaveEvent,
};
use privchat_sdk::storage::dao::message::MessageDao;
use privchat_sdk::storage::entities::{Channel, User};
use privchat_sdk::storage::scripts::{plan_migration, ScriptFile, VersionForm};

fn json(text: &str) -> JsonValue {
    JsonValue::from_text(text).unwrap()
}

fn channel(text: &str) -> Channel {
    parse_channel_at(&json(text), 7, 500).unwrap()
}

#[test]
fn a_message_from_the_server_is_read() {
    let m = parse_message_at(
        &json(
            r#"{"sender_id":3,"message_id":9,"content":"hi","timestamp":"2024-01-02T03:04:05Z","metadata":{"video":{}}}"#,
        ),
        70,
        500,
    )
    .unwrap();
    assert_eq!(m.from_uid, 3);
    assert_eq!(m.server_message_id, Some(9));
    assert_eq!(m.timestamp, Some(1_704_164_645_000));
    assert_eq!(m.message_type, 3);
    assert_eq!(m.created_at, 500);
    let offset = json(r#"{"from_uid":3,"timestamp":"2024-01-02T03:04:05.250+0100"}"#);
    assert_eq!(parse_message_from_json(&offset, 70).unwrap().timestamp, Some(1_704_161_045_250));
    match parse_message_at(&json("{}"), 70, 500) {
        Err(PrivchatSDKError::Other(m)) => assert_eq!(m, "缺少 from_uid 或 sender_id"),
        other => panic!("{:?}", other),
    }
    let history = json(r#"{"messages":[{"from_uid":1,"content":"a"},{},{"from_uid":2}]}"#);
    let read = history_at(&history, 70, 500);
    assert_eq!(read.iter().map(|m| m.from_uid).collect::<Vec<_>>(), vec![1, 2]);
    assert!(history_at(&json("{}"), 70, 500).is_empty());
}

#[test]
fn a_channel_from_the_server_is_read() {
    let c = channel(r#"{"id":70,"channel_type":1,"unread_count":4,"top":1}"#);
    assert_eq!((c.channel_id, c.channel_type, c.unread_count, c.top), (70, 1, 4, 1));
    assert_eq!(c.status, 1);
    assert_eq!(channel(r#"{"channel_id":71,"channel_type":"Group"}"#).channel_type, 2);
    match parse_channel_at(&json("{}"), 7, 500) {
        Err(PrivchatSDKError::Other(m)) => assert_eq!(m, "缺少 id 或 channel_id"),
        other => panic!("{:?}", other),
    }
}

fn push(id: u64, channel_id: u64, seq: u32, payload: &str) -> PushMessage {
    PushMessage {
        server_message_id: id,
        message_seq: seq,
        channel_id,
        channel_type: 1,
        from_uid: 3,
        timestamp: 1_704_164_645,
        message_type: 1,
        payload: payload.as_bytes().to_vec(),
        need_receipt: false,
        topic: String::new(),
        expire: 0,
    }
}

#[test]
fn pushed_messages_are_stored_and_shown_in_order() {
    assert_eq!(timestamp_millis(1_704_164_645), 1_704_164_645_000);
    assert_eq!(timestamp_millis(1_704_164_645_000), 1_704_164_645_000);

    let stored = received_message(&push(1, 70, 4, r#"{"content":"hi"}"#));
    assert_eq!(stored.content, "hi");
    assert_eq!(stored.timestamp, Some(1_704_164_645_000));
    assert_eq!(received_message(&push(1, 70, 4, "plain")).content, "plain");

    let ordered = order_batch(vec![push(1, 70, 9, "a"), push(2, 71, 3, "b"), push(3, 70, 5, "c")]);
    let seqs: Vec<u32> = ordered.iter().map(|p| p.message_seq).collect();
    assert_eq!(seqs, vec![5, 9, 3]);

    let shown = ordered.iter().map(|p| timeline_message_of_push(p, "x")).collect();
    let batches = group_by_channel(shown);
    assert_eq!(batches.len(), 2);
    let total: usize = batches.iter().map(|b| b.messages.len()).sum();
    assert_eq!(total, 3);
    for batch in batches {
        let id = batch.channel_id;
        match timeline_event(batch) {
            SDKEvent::TimelineDiff { channel_id, diff_kind, .. } => {
                assert_eq!(channel_id, id);
                let TimelineDiffKind::Append { messages } = diff_kind;
                assert!(messages.iter().all(|m| m.channel_id == id));
            }
            other => panic!("{:?}", other),
        }
    }
    assert!(page_event(70, &vec![], 1).is_none());
}

#[test]
fn the_list_shows_names_previews_and_labels() {
    assert_eq!(get_message_preview(r#"{"content":"hi"}"#), "hi");
    assert_eq!(get_message_preview(r#"{"message_type":"image"}"#), "[图片]");
    assert_eq!(get_message_preview("plain"), "plain");

    let marked = extra_with_low_priority(r#"{"a":1}"#, true).unwrap();
    assert_eq!(marked, r#"{"a":1,"low_priority":true}"#);
    assert!(is_low_priority(&marked));
    assert!(!is_low_priority(&extra_with_low_priority(&marked, false).unwrap()));
    assert!(extra_with_low_priority("[1]", true).is_none());

    let c = channel(r#"{"id":70,"channel_type":1,"unread_count":4}"#);
    let user = User {
        user_id: 70,
        username: Some("ada".to_string()),
        nickname: Some("Ada".to_string()),
        alias: None,
        avatar: "pic".to_string(),
        user_type: 0,
        is_deleted: false,
        channel_id: String::new(),
        updated_at: 0,
    };
    let stranger = User { user_id: 71, alias: Some("Bob".to_string()), ..user.clone() };
    let group = channel(r#"{"id":80,"channel_type":2}"#);
    let mut sdk =
        PrivchatSDK::initialize(PrivchatConfig::in_directory("/tmp/test")).unwrap();
    let entries = sdk
        .get_channel_list_entries(
            &vec![c.clone(), group],
            &vec![user, stranger],
            &vec![],
            &vec![0, 5],
            &vec![None, None],
        )
        .unwrap();
    assert_eq!(entries.len(), 2);
    assert_eq!((entries[1].name.as_str(), entries[1].member_count), ("群聊80", 0));
    assert_eq!(entries[0].name, "Ada");
    assert_eq!(entries[0].avatar_url.as_deref(), Some("pic"));
    assert_eq!(entries[0].messages, 4);
    assert!(entries[0].is_dm);

    let _ = sdk.shutdown(0);
    match sdk.get_channel_list_entries(&vec![c], &vec![], &vec![], &vec![0], &vec![None]) {
        Err(PrivchatSDKError::NotInitialized(_)) | Err(PrivchatSDKError::ShuttingDown(_)) => {}
        other => panic!("{:?}", other),
    }
}

#[test]
fn one_conversation_is_listed_once_and_the_latest_first() {
    let older = Channel {
        last_msg_timestamp: Some(100),
        ..channel(r#"{"id":70,"channel_type":0,"unread_count":2}"#)
    };
    let newer = Channel {
        last_msg_timestamp: Some(300),
        ..channel(r#"{"id":70,"channel_type":1,"unread_count":3}"#)
    };
    let group = Channel {
        last_msg_timestamp: Some(200),
        ..channel(r#"{"id":80,"channel_type":2,"unread_count":1}"#)
    };
    let list = merge_channels(vec![older, group, newer]);
    assert_eq!(list.iter().map(|c| c.channel_id).collect::<Vec<_>>(), vec![70, 80]);
    assert_eq!(list[0].unread_count, 5);
    assert_eq!(list[0].channel_type, 1);
}

#[test]
fn reactions_are_counted_by_emoji() {
    let items = json(r#"[{"emoji":"+","user_ids":[1,2]},{"x":1}]"#);
    let chips = reaction_chips(items.as_array().unwrap());
    assert_eq!(chips.len(), 1);
    assert_eq!(chips[0].count, 2);
    assert_eq!(chips[0].user_ids, vec![1, 2]);
}

#[test]
fn a_received_message_is_stored_once_and_changes_its_channel() {
    let m = received_message(&push(9, 70, 4, "hi"));
    assert!(matches!(
        save_received_message_step(&m, false, SaveEvent::Begin, 500),
        SaveAction::FindMessage { channel_id: 70, server_message_id: 9 }
    ));
    assert!(matches!(
        save_received_message_step(&m, false, SaveEvent::MessageLookedUp { found: None }, 500),
        SaveAction::InsertMessage
    ));
    assert!(matches!(
        save_received_message_step(&m, false, SaveEvent::MessageLookedUp { found: Some(3) }, 500),
        SaveAction::FindChannel { row_id: 3, lookup: ChannelLookup::Direct { channel_id: 70 } }
    ));
    match save_received_message_step(
        &m,
        false,
        SaveEvent::ChannelLookedUp { row_id: 3, found: None },
        500,
    ) {
        SaveAction::SaveChannel { row_id, channel } => {
            assert_eq!(row_id, 3);
            assert_eq!(channel.unread_count, 1);
            assert_eq!(channel.last_msg_content, "hi");
        }
        other => panic!("{:?}", other),
    }
}

#[test]
fn work_is_done_only_on_an_open_database() {
    let mut actor = DbActor::new();
    let read = DbCommand::GetMessageById { uid: "42".to_string(), id: 5 };
    assert!(matches!(actor.step(&read, 1, 1), DbStep::Refuse(_)));

    let init = DbCommand::InitUser { uid: "42".to_string(), db_path: "/p".to_string() };
    match actor.step(&init, 1, 1) {
        DbStep::Open { uid, path, key } => {
            assert_eq!((uid.as_str(), path.as_str()), ("42", "/p"));
            assert_eq!(key, derive_encryption_key("42"));
        }
        other => panic!("{:?}", other),
    }
    assert!(actor.opened("42", 2).is_err());
    assert!(actor.opened("42", 3).is_ok());
    assert!(matches!(actor.step(&init, 1, 1), DbStep::Done));
    match actor.step(&read, 1, 1) {
        DbStep::Run { statements, then_fail } => {
            assert_eq!(statements.len(), 1);
            assert_eq!(statements[0].sql, MessageDao::get_by_id(5).sql);
            assert!(then_fail.is_none());
        }
        other => panic!("{:?}", other),
    }
    match DbCommand::revoke_message("42".to_string(), 5) {
        DbCommand::RevokeMessage { revoker_id, .. } => assert_eq!(revoker_id, 42),
        other => panic!("{:?}", other),
    }
    assert!(actor.opened("a\"\\\n", 3).is_ok());
    let status = DbCommand::UpdateMessageStatus { uid: "7".to_string(), id: 5, status: 2 };
    match actor.step(&status, 1, 1) {
        DbStep::Refuse(PrivchatSDKError::Database(m)) => assert_eq!(
            m,
            format!("用户数据库不存在: requested=7, available={:?}", vec!["42", "a\"\\\n"])
        ),
        other => panic!("{:?}", other),
    }
    actor.step(&DbCommand::CloseUser { uid: "42".to_string() }, 1, 1);
    assert!(!actor.is_open("42"));
}

#[test]
fn the_key_of_a_database_is_a_digest() {
    assert_eq!(
        derive_encryption_key("42"),
        "7e1e2c563d723cbc6a2804d7a718cf5d53660f3b22dae748e65ec85709e65446"
    );
    assert_eq!(key_text(&vec![0, 255, 16]), "00ff10");
}

#[test]
fn expired_messages_are_deleted_by_the_written_time() {
    let s = MessageDao::delete_expired(1_704_164_645_250).unwrap();
    let written = s.params.iter().any(|v| format!("{:?}", v).contains("2024-01-02 03:04:05.250"));
    assert!(written);
}

#[test]
fn only_newer_scripts_run_and_in_order() {
    let file = |name: &str| ScriptFile { name: name.to_string(), sql: format!("-- {}", name) };
    let files = vec![file("20240103000000.sql"), file("notes.txt"), file("20240101000000.sql")];
    let all = plan_migration(&files, &None, VersionForm::Stamped, "none").unwrap();
    assert_eq!(all.len(), 2);
    assert!(all[0].version < all[1].version);
    let later = plan_migration(
        &files,
        &Some("20240101000000".to_string()),
        VersionForm::Stamped,
        "none",
    )
    .unwrap();
    assert_eq!(later.len(), 1);
    assert_eq!(later[0].version, all[1].version);
}
