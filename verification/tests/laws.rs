//! What holds of the library as a whole, on chosen values.

use privchat_sdk::error::PrivchatSDKError;
use privchat_sdk::events::{NotificationMode, SDKEvent};
use privchat_sdk::json::{JsonField, JsonNumber, JsonValue};
use privchat_sdk::order::stable_sort;
use privchat_sdk::sdk::channel_list::{
    build_channel_list_entry_with_user_id, list_entry, mute_for_mode,
};
use privchat_sdk::sdk::config::{parse_server_url, PrivchatConfig};
use privchat_sdk::sdk::incoming::{deliver, timestamp_millis, PushMessage};
use privchat_sdk::sdk::reactions::{no_such_message, receipts_key};
use privchat_sdk::sdk::requests::Request;
use privchat_sdk::sdk::settings::newly_stored;
use privchat_sdk::sdk::social::{accepted_friend_channel, asks_for_channel, has_joined};
use privchat_sdk::sdk::state::PrivchatSDK;
use privchat_sdk::sdk::wire::{parse_channel_at, parse_message_at, peer};
use privchat_sdk::storage::advanced_features::{
    AdvancedFeaturesManager, MessageFacts, ReadReceiptEvent,
};
use privchat_sdk::storage::advanced_features_integration::AdvancedFeaturesIntegration;
use privchat_sdk::storage::dao::message::MessageDao;
use privchat_sdk::storage::dao::migration::MigrationDao;
use privchat_sdk::storage::db_actor::received::channel_after_message;
use privchat_sdk::storage::deduplication::DeduplicationManager;
use privchat_sdk::storage::entities::{Channel, Message, MessageStatus, PageResult};
use privchat_sdk::storage::scripts::{pending_scripts, plan_migration, ScriptFile, VersionForm};
use privchat_sdk::storage::sql::{id, Cell, Row, SqlValue};
use privchat_sdk::text::{i64_text, parse_i64, parse_u64, u64_text};

fn json(text: &str) -> JsonValue {
    JsonValue::from_text(text).unwrap()
}

fn channel(text: &str) -> Channel {
    parse_channel_at(&json(text), 7, 500).unwrap()
}

fn message(text: &str) -> Message {
    parse_message_at(&json(text), 70, 500).unwrap()
}

fn push(id: u64, channel_id: u64, seq: u32) -> PushMessage {
    PushMessage {
        server_message_id: id,
        message_seq: seq,
        channel_id,
        channel_type: 1,
        from_uid: 3,
        timestamp: 1_704_164_645,
        message_type: 1,
        payload: b"x".to_vec(),
        need_receipt: true,
        topic: String::new(),
        expire: 9,
    }
}

#[test]
fn numbers_are_read_as_they_were_written() {
    for n in [0, 7, 10, 99, u64::MAX] {
        assert_eq!(parse_u64(&u64_text(n)), Some(n));
        assert_eq!(u64_text(n), n.to_string());
    }
    for i in [0, -1, i64::MIN, i64::MAX] {
        assert_eq!(parse_i64(&i64_text(i)), Some(i));
        assert_eq!(i64_text(i), i.to_string());
    }
    for s in ["", "+", "-", "1x", "18446744073709551616"] {
        assert_eq!(parse_u64(s), s.parse::<u64>().ok());
    }
    for s in ["+5", "-0", "007", "9223372036854775808", "-9223372036854775808"] {
        assert_eq!(parse_i64(s), s.parse::<i64>().ok());
    }
}

#[test]
fn ids_survive_the_signed_integers_of_the_database() {
    for n in [0, 1, i64::MAX as u64, u64::MAX] {
        let row = Row { cells: vec![Cell { column: "n".to_string(), value: id(n) }] };
        assert_eq!(row.id_at("n"), n);
    }
    let text = Row {
        cells: vec![Cell { column: "n".to_string(), value: SqlValue::Text("12".to_string()) }],
    };
    assert_eq!(text.id_at("n"), 12);
}

#[test]
fn sorting_keeps_equal_messages_in_order() {
    let sorted = stable_sort(vec![push(1, 5, 2), push(2, 5, 1), push(3, 5, 2), push(4, 4, 9)]);
    let ids: Vec<u64> = sorted.iter().map(|p| p.server_message_id).collect();
    assert_eq!(ids, vec![4, 2, 1, 3]);
}

#[test]
fn each_channel_gets_its_messages_by_position() {
    let delivery = deliver(vec![push(3, 5, 3), push(9, 6, 1), push(2, 5, 2), push(1, 5, 1)], 500);
    assert_eq!(delivery.steps.len(), 4);
    assert_eq!(delivery.timeline.len(), 2);
    for batch in &delivery.timeline {
        for pair in batch.messages.windows(2) {
            assert!(pair[0].pts <= pair[1].pts);
        }
    }
    let first = &delivery.steps[0];
    assert_eq!(first.message.setting, 1);
    assert_eq!(first.message.expire_time, Some(9));
    assert!(matches!(first.event, SDKEvent::MessageReceived { server_message_id: 1, .. }));
    assert_eq!(timestamp_millis(1_704_164_645), 1_704_164_645_000);
}

#[test]
fn who_may_change_a_message_can() {
    let manager = AdvancedFeaturesManager::new(120, 300);
    let facts =
        MessageFacts { channel_id: 10, channel_type: 1, from_uid: 1, status: 3, created_at: 1000 };
    for now in [1000, 1100, 1120, 1121, 1300, 1301] {
        let may = manager.can_revoke_message(Some(facts), 1, now).unwrap();
        assert_eq!(may, manager.revoke_message(5, 1, None, &facts, now).is_ok());
        let may = manager.can_edit_message(Some(facts), 1, now).unwrap();
        assert_eq!(may, manager.edit_message(5, 1, "x", &facts, 0, now).is_ok());
    }
    assert!(manager.edit_message(5, 2, "x", &facts, 0, 1000).is_err());
    assert!(!manager.can_edit_message(None, 1, 1000).unwrap());
}

#[test]
fn a_status_never_comes_back() {
    let all = [
        MessageStatus::Draft,
        MessageStatus::Sending,
        MessageStatus::Sent,
        MessageStatus::Delivered,
        MessageStatus::Read,
        MessageStatus::Failed,
        MessageStatus::Revoked,
        MessageStatus::Burned,
        MessageStatus::Retrying,
        MessageStatus::Expired,
        MessageStatus::Received,
    ];
    for a in all {
        assert!(!a.can_transition_to(a));
        for b in all {
            assert!(!(a.can_transition_to(b) && b.can_transition_to(a)));
        }
        let may = a.can_transition_to(MessageStatus::Revoked);
        let sent = [MessageStatus::Sent, MessageStatus::Delivered, MessageStatus::Read].contains(&a);
        assert_eq!(may, sent);
        assert!(!MessageStatus::Revoked.can_transition_to(a));
        assert!(!MessageStatus::Burned.can_transition_to(a));
    }
}

#[test]
fn a_page_says_whether_more_follows() {
    assert!(PageResult::new(vec![1, 2], 5, 2, 2).has_more);
    assert!(!PageResult::new(vec![5], 5, 3, 2).has_more);
}

#[test]
fn muted_channels_do_not_count() {
    let integration = AdvancedFeaturesIntegration::new(AdvancedFeaturesManager::new(120, 300));
    let loud = channel(r#"{"id":1,"unread_count":4}"#);
    let quiet = Channel {
        extra: r#"{"muted":true}"#.to_string(),
        ..channel(r#"{"id":2,"unread_count":3}"#)
    };
    let list = vec![loud, quiet];
    let counted = integration.verify_total_unread_count(4, &list, true).unwrap();
    assert!(counted.is_consistent);
    assert_eq!(counted.sum, 4);
    let all = integration.verify_total_unread_count(4, &list, false).unwrap();
    assert!(!all.is_consistent);
    assert_eq!(all.sum, 7);
}

#[test]
fn the_oldest_records_go_first() {
    let mut manager = DeduplicationManager::with_config(1_000, 2);
    manager.mark_as_processed_at("a", 1);
    manager.mark_as_processed_at("a", 2);
    assert_eq!(manager.get_stats().0, 1);
    manager.mark_as_processed_at("b", 3);
    assert!(manager.is_duplicate("a"));
    assert!(manager.is_duplicate("b"));
}

#[test]
fn a_number_is_written_as_a_number_or_as_null() {
    let with = |text: String| {
        JsonValue::Object(vec![JsonField {
            name: "n".to_string(),
            value: JsonValue::Number(JsonNumber::Float(text)),
        }])
    };
    assert_eq!(with("1.5".to_string()).to_text(), r#"{"n":1.5}"#);
    let nested = format!("{}{}", "[".repeat(127), "]".repeat(127));
    assert_eq!(with(nested).to_text(), r#"{"n":null}"#);
    assert_eq!(with("x".to_string()).to_text(), r#"{"n":null}"#);
    let read = JsonValue::from_text(&with("2.25".to_string()).to_text()).unwrap();
    assert_eq!(read.to_text(), r#"{"n":2.25}"#);
}

#[test]
fn only_new_messages_are_counted() {
    let before = vec![true, false, false, true];
    let saved = vec![true, true, false, false];
    assert_eq!(newly_stored(&before, &saved), 1);
    assert_eq!(newly_stored(&vec![true; 4], &saved), 0);
    assert_eq!(newly_stored(&vec![], &vec![]), 0);
}

#[test]
fn only_incoming_messages_are_unread() {
    let m = message(r#"{"from_uid":3,"message_id":9,"content":"hi","channel_type":1,"pts":4}"#);
    let first = channel_after_message(None, &m, false, 500);
    assert_eq!(first.unread_count, 1);
    assert_eq!(first.last_msg_content, "hi");
    let second = channel_after_message(Some(first), &m, false, 500);
    assert_eq!(second.unread_count, 2);
    let third = channel_after_message(Some(second), &m, true, 500);
    assert_eq!(third.unread_count, 2);
}

#[test]
fn peers_see_each_other() {
    let both = json(r#"{"direct_user1_id":3,"direct_user2_id":4}"#);
    assert_eq!(peer(&both, 0, 3), Some(4));
    assert_eq!(peer(&both, 0, 4), Some(3));
    assert_eq!(peer(&both, 2, 4), None);

    let stored = accepted_friend_channel(70, false, 9, 500).unwrap();
    assert_eq!(PrivchatSDK::dm_peer_user_id(Some(&stored)), Some(9));
    assert!(accepted_friend_channel(70, true, 9, 500).is_none());
    assert!(asks_for_channel(70));
    assert!(!asks_for_channel(0));
    assert!(has_joined("joined"));
}

#[test]
fn members_are_added_to_groups_only() {
    assert!(PrivchatSDK::add_channel_members(2, &vec![false, true]).unwrap());
    assert!(!PrivchatSDK::add_channel_members(2, &vec![false]).unwrap());
    match PrivchatSDK::add_channel_members(1, &vec![true]) {
        Err(PrivchatSDKError::InvalidInput(m)) => assert_eq!(m, "私聊会话不能添加成员"),
        other => panic!("{:?}", other),
    }
    assert!(PrivchatSDK::remove_channel_member(1).is_err());
}

#[test]
fn a_search_shows_what_the_server_knows() {
    let known = message(r#"{"from_uid":3,"message_id":9,"content":"a"}"#);
    let unknown = message(r#"{"from_uid":3,"content":"b"}"#);
    let page = PrivchatSDK::search_channel(&vec![known, unknown], 1, Some(5));
    assert_eq!(page.hits.len(), 1);
    assert_eq!(page.hits[0].server_message_id, 9);
    assert_eq!(page.next_offset, Some(6));
}

#[test]
fn readers_are_listed_by_the_time_of_reading() {
    let receipt = |reader_uid: u64, read_at: u64| ReadReceiptEvent {
        message_id: 1,
        channel_id: 2,
        channel_type: 1,
        reader_uid,
        read_at,
        need_sync: false,
    };
    let receipts = vec![receipt(5, 30), receipt(6, 10), receipt(7, 20)];
    assert!(PrivchatSDK::is_event_read_by(&receipts, 7));
    assert!(!PrivchatSDK::is_event_read_by(&receipts, 8));
    let seen = PrivchatSDK::seen_by_for_event(&receipts, Some(2));
    assert_eq!(seen.iter().map(|e| e.user_id).collect::<Vec<_>>(), vec![6, 7]);
    assert!(matches!(no_such_message(4), PrivchatSDKError::Other(_) | PrivchatSDKError::InvalidInput(_)));
    assert!(receipts_key(None, 4).is_err());
}

#[test]
fn a_notification_mode_is_kept() {
    for mode in [NotificationMode::All, NotificationMode::Mentions, NotificationMode::Silent] {
        assert_eq!(PrivchatSDK::channel_notification_mode(mute_for_mode(mode)), mode);
    }
    let conv = channel(r#"{"id":70,"channel_type":1,"unread_count":4}"#);
    let settings = Channel { mute: 1, ..channel(r#"{"id":70,"channel_type":1,"username":"9"}"#) };
    let entry = list_entry(&conv, Some(&settings), 0, None, false);
    assert_eq!((entry.notifications, entry.messages), (0, 4));
    let named = build_channel_list_entry_with_user_id(&conv, Some(&settings), 0, None);
    assert!(!named.name.starts_with("Channel "));
}

#[test]
fn scripts_run_once() {
    let file = |name: &str| ScriptFile { name: name.to_string(), sql: String::new() };
    let files = vec![file("20240101000000.sql"), file("20240103000000.sql")];
    let all = plan_migration(&files, &None, VersionForm::Stamped, "none").unwrap();
    let last = all[all.len() - 1].version.clone();
    assert!(pending_scripts(&all, &last, VersionForm::Stamped).is_empty());
    assert!(plan_migration(&vec![], &None, VersionForm::Stamped, "none").is_err());
    assert!(!MigrationDao::is_valid_migration_filename("notes.txt"));
    assert_eq!(MigrationDao::get_current_version(false, Some("1".to_string())), None);
}

#[test]
fn a_message_that_is_not_found_has_no_row() {
    assert_eq!(MessageDao::found_id(&None).unwrap(), None);
}

#[test]
fn requests_name_the_user_who_asks() {
    let config =
        PrivchatConfig::builder(None, None).data_dir("/tmp/test").servers(vec!["tcp://h:1"]).build();
    assert_eq!(config.server_config.endpoints.len(), 1);
    assert_eq!(parse_server_url("wss://h:4/p").unwrap().port, 4);
    let mut sdk = PrivchatSDK::initialize(config).unwrap();
    sdk.has_client = true;
    sdk.state.current_user_id = Some(7);
    match sdk.create_group("g", &vec![]).unwrap() {
        Request::GroupCreate { creator_id, member_ids, .. } => {
            assert_eq!(creator_id, 7);
            assert_eq!(member_ids, None);
        }
        other => panic!("{:?}", other),
    }
    assert_eq!(sdk.invite_to_group(3, &vec![1, 2]).unwrap().len(), 2);
    assert!(sdk.subscribe_presence(&vec![]).unwrap().is_none());
    match sdk.sync_messages(70, None).unwrap() {
        Request::MessageHistory { limit, user_id, .. } => assert_eq!((limit, user_id), (100, 7)),
        other => panic!("{:?}", other),
    }
}
