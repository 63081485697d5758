//! The configuration and the life of the SDK, and what it sends.

use privchat_sdk::error::PrivchatSDKError;
use privchat_sdk::events::{
    ChannelListUpdateKind, ConnectionState, NotificationMode, ReactionEvent, SDKEvent, TypingEvent,
};
use privchat_sdk::ids::IdGenerator;
use privchat_sdk::json::JsonValue;
use privchat_sdk::sdk::attachments::{
    attachment_content, detect_file_type_and_mime, detect_file_type_from_mime, is_stale_directory,
    sent_attachment, thumbnail_file_id, CacheStep, SendMode, UploadedFile,
};
use privchat_sdk::sdk::callbacks::{MessageInput, MessageStatus, MessageType};
use privchat_sdk::sdk::config::{
    build_server_url_from_endpoint, parse_server_url, PrivchatConfig, TransportProtocol,
};
use privchat_sdk::sdk::file_sending::{FileAction, FileEvent, FileSending};
use privchat_sdk::sdk::outgoing::{
    message_extra, queue_extra, SendMessageOptions, TaskStatus, TextMap,
};
use privchat_sdk::sdk::requests::{login_request, register_request, DeviceInfo, Request};
use privchat_sdk::sdk::sending::{QueueSwitch, SendAction, SendEvent};
use privchat_sdk::sdk::settings::{blocking_channel, get_platform_info, history_at};
use privchat_sdk::sdk::state::{ConnectStep, PrivchatSDK};

fn config() -> PrivchatConfig {
    PrivchatConfig::builder(None, None)
        .data_dir("/tmp/test")
        .add_server("tcp://test.example.com:9001")
        .build()
}

fn connected_sdk(user_id: u64) -> PrivchatSDK {
    let mut sdk = PrivchatSDK::initialize(config()).unwrap();
    let attempt = match sdk.connect(10).unwrap() {
        ConnectStep::TryNext { attempt } => attempt,
        other => panic!("{:?}", other),
    };
    match sdk.try_connect_with_endpoint(attempt, None, 20) {
        ConnectStep::Connected { endpoint, .. } => assert_eq!(endpoint, 0),
        other => panic!("{:?}", other),
    }
    sdk.authenticate(user_id).unwrap();
    sdk
}

#[test]
fn test_sdk_initialization() {
    let mut sdk = PrivchatSDK::initialize(config()).unwrap();

    assert!(sdk.is_initialized());
    assert_eq!(sdk.user_id(), None);
    assert!(!sdk.is_connected());

    sdk.shutdown(1);
    assert!(!sdk.is_initialized());
}

#[test]
fn test_sdk_lifecycle() {
    let mut sdk = PrivchatSDK::initialize(config()).unwrap();

    sdk.disconnect(1).unwrap();
    assert!(!sdk.is_connected());

    sdk.shutdown(2);
    assert!(!sdk.is_initialized());
}

#[test]
fn test_config_builder() {
    let config = PrivchatConfig::builder(None, None)
        .data_dir("/tmp/test")
        .servers(vec![
            "quic://127.0.0.1:9001",
            "tcp://127.0.0.1:9001",
            "wss://127.0.0.1:9080/path",
        ])
        .connection_timeout(60)
        .debug_mode(true)
        .build();

    assert_eq!(config.data_dir, "/tmp/test");
    assert_eq!(config.server_config.endpoints.len(), 3);

    let quic_endpoint = &config.server_config.endpoints[0];
    assert_eq!(quic_endpoint.protocol, TransportProtocol::Quic);
    assert_eq!(quic_endpoint.host, "127.0.0.1");
    assert_eq!(quic_endpoint.port, 9001);
    assert!(quic_endpoint.use_tls);

    let tcp_endpoint = &config.server_config.endpoints[1];
    assert_eq!(tcp_endpoint.protocol, TransportProtocol::Tcp);
    assert_eq!(tcp_endpoint.host, "127.0.0.1");
    assert_eq!(tcp_endpoint.port, 9001);
    assert!(!tcp_endpoint.use_tls);

    let ws_endpoint = &config.server_config.endpoints[2];
    assert_eq!(ws_endpoint.protocol, TransportProtocol::WebSocket);
    assert_eq!(ws_endpoint.host, "127.0.0.1");
    assert_eq!(ws_endpoint.port, 9080);
    assert_eq!(ws_endpoint.path, Some("/path".to_string()));
    assert!(ws_endpoint.use_tls);

    assert_eq!(config.connection_timeout, 60);
    assert!(config.debug_mode);
}

#[test]
fn an_endpoint_is_written_as_the_url_that_it_was_read_from() {
    for url in ["quic://h:1", "tcp://h:2", "ws://h:3/p", "wss://h:4/p"] {
        let endpoint = parse_server_url(url).unwrap();
        assert_eq!(build_server_url_from_endpoint(&endpoint), url);
    }
    assert!(parse_server_url("http://h:1").is_none());
}

#[test]
fn the_default_configuration_is_kept_below_the_home_directory() {
    let config = PrivchatConfig::for_environment(Some("/home/a".to_string()), None);
    assert_eq!(config.data_dir, "/home/a/.privchat");
    let built = PrivchatConfig::builder(Some("/home/a/".to_string()), None).build();
    assert_eq!(built.data_dir, "/home/a/.privchat");
    let config = PrivchatConfig::for_environment(None, Some("C:/u".to_string()));
    assert_eq!(config.data_dir, "C:/u/.privchat");
    let config = PrivchatConfig::for_environment(None, None);
    assert_eq!(config.data_dir, "./privchat_data");
    assert_eq!(config.image_send_max_edge, Some(1080));
    assert_eq!(config.retry_config.max_retries, 3);
    assert_eq!(config.server_config.endpoints.len(), 3);
}

#[test]
fn a_configuration_without_servers_is_refused() {
    let empty = PrivchatConfig::builder(None, None).data_dir("/tmp/test").servers(vec![]).build();
    assert!(matches!(PrivchatSDK::initialize(empty), Err(PrivchatSDKError::Config(_))));
}

#[test]
fn the_next_server_is_tried_and_the_last_error_is_told() {
    let config = PrivchatConfig::builder(None, None)
        .data_dir("/tmp/test")
        .servers(vec!["tcp://a:1", "tcp://b:2"])
        .build();
    let mut sdk = PrivchatSDK::initialize(config).unwrap();
    let attempt = match sdk.connect(1).unwrap() {
        ConnectStep::TryNext { attempt } => attempt,
        other => panic!("{:?}", other),
    };
    assert_eq!(attempt.next, 0);
    let first = PrivchatSDKError::Transport("first".to_string());
    let attempt = match sdk.try_connect_with_endpoint(attempt, Some(first), 2) {
        ConnectStep::TryNext { attempt } => attempt,
        other => panic!("{:?}", other),
    };
    assert_eq!(attempt.next, 1);
    let second = PrivchatSDKError::Transport("second".to_string());
    match sdk.try_connect_with_endpoint(attempt, Some(second), 3) {
        ConnectStep::Failed { error: PrivchatSDKError::Transport(m), event } => {
            assert_eq!(m, "second");
            assert_eq!(PrivchatSDK::on_connection_state_changed(&event), Some(false));
        }
        other => panic!("{:?}", other),
    }
    assert!(!sdk.is_connected());
}

#[test]
fn nothing_is_asked_of_the_server_without_a_session() {
    let mut sdk = PrivchatSDK::initialize(config()).unwrap();
    assert!(matches!(sdk.search_users("a"), Err(PrivchatSDKError::NotConnected)));

    let mut online = connected_sdk(7);
    match online.search_users("a").unwrap() {
        Request::SearchUsers { query, .. } => assert_eq!(query, "a"),
        other => panic!("{:?}", other),
    }
    online.disconnect(30).unwrap();
    assert!(matches!(online.search_users("a"), Err(PrivchatSDKError::NotConnected)));

    sdk.shutdown(1);
    match sdk.search_users("a") {
        Err(PrivchatSDKError::NotInitialized(m)) => assert_eq!(m, "SDK 未初始化"),
        other => panic!("{:?}", other),
    }
}

#[test]
fn ids_come_from_the_machine_and_the_data_center() {
    let ids = IdGenerator::with_node(3, 5).unwrap();
    let a = ids.next_id().unwrap();
    let b = ids.next_id().unwrap();
    assert!(a < b);
    assert_eq!((a >> 12) & 31, 3);
    assert_eq!((a >> 17) & 31, 5);
    assert!(a <= i64::MAX as u64);

    assert!(IdGenerator::new().is_ok());
    match IdGenerator::with_node(32, 0) {
        Err(PrivchatSDKError::Other(m)) => assert!(m.starts_with("初始化 Snowflake 失败: ")),
        _ => panic!("a machine beyond the last"),
    }
}

#[test]
fn a_message_is_stored_queued_and_sent() {
    let sdk = connected_sdk(7);
    let ids = IdGenerator::new().unwrap();
    let mut sending = sdk.send_message(&ids, 70, "hi").unwrap();
    let message = match sending.action(1000) {
        SendAction::Save { message } => message,
        other => panic!("{:?}", other),
    };
    assert_eq!(message.content, "hi");
    assert_eq!(message.from_uid, 7);
    assert_eq!(message.extra, "{}");
    assert_eq!(message.pts, 1000);
    assert_eq!(message.local_message_id, sending.local_message_id);
    sending.advance(SendEvent::Saved(Ok(12))).unwrap();
    match sending.action(1001) {
        SendAction::Enqueue { task } => {
            assert_eq!(task.id, 12);
            assert_eq!(task.status, TaskStatus::Pending);
            assert_eq!(task.message_data.content, "hi");
        }
        other => panic!("{:?}", other),
    }
    sending.advance(SendEvent::Queued(Ok(()))).unwrap();
    assert!(matches!(sending.action(1002), SendAction::EnsureConsumer));
    sending.advance(SendEvent::ConsumerRuns(Ok(()))).unwrap();
    match sending.action(1003) {
        SendAction::Done { id, row_id } => {
            assert_eq!(id, message.local_message_id);
            assert_eq!(row_id, 12);
        }
        other => panic!("{:?}", other),
    }
}

#[test]
fn an_answer_names_the_message_that_it_answers() {
    let sdk = connected_sdk(7);
    let options = SendMessageOptions {
        in_reply_to_message_id: Some(3),
        mentions: vec![8, 9],
        silent: true,
        extra: JsonValue::from_text(r#"{"silent":false,"x":1}"#),
    };
    let mut sending = sdk.begin_sending(70, "hi", options, Ok(5)).unwrap();
    assert!(matches!(sending.action(1), SendAction::LookUp { id: 3 }));
    let m = history_at(
        &JsonValue::from_text(r#"{"messages":[{"from_uid":1,"message_id":99},{"x":1}]}"#).unwrap(),
        70,
        1,
    )
    .remove(0);
    sending.advance(SendEvent::Answered(Some(m))).unwrap();
    match sending.action(1) {
        SendAction::Save { message } => assert_eq!(
            message.extra,
            r#"{"mentioned_user_ids":[8,9],"reply_to_message_id":99,"silent":false,"x":1}"#
        ),
        other => panic!("{:?}", other),
    }
}

#[test]
fn extra_data_is_queued_as_text() {
    let options = SendMessageOptions {
        in_reply_to_message_id: None,
        mentions: vec![8],
        silent: true,
        extra: JsonValue::from_text(r#"{"a":"b","n":[1]}"#),
    };
    let texts = queue_extra(&options, 4);
    assert_eq!(texts.get("reply_to_message_id"), Some("4"));
    assert_eq!(texts.get("mentioned_user_ids"), Some("[8]"));
    assert_eq!(texts.get("silent"), Some("true"));
    assert_eq!(texts.get("a"), Some("b"));
    assert_eq!(texts.get("n"), Some("[1]"));
    assert_eq!(texts.get("m"), None);
    assert_eq!(message_extra(&SendMessageOptions::default(), 0).to_text(), "{}");
}

#[test]
fn a_message_that_gets_no_id_is_not_sent() {
    let sdk = connected_sdk(7);
    match sdk.begin_sending(70, "hi", SendMessageOptions::default(), Err("clock".to_string())) {
        Err(PrivchatSDKError::Other(m)) => assert_eq!(m, "生成 local_message_id 失败: clock"),
        other => panic!("{:?}", other),
    }
    let input = MessageInput {
        content: "hi".to_string(),
        session_id: "70".to_string(),
        message_type: MessageType::Text,
        extra: TextMap::new(),
    };
    assert_eq!(sdk.send_message_with_input(&input, Ok(5)).unwrap(), 5);
    match sdk.send_message_with_input(&input, Err("clock".to_string())) {
        Err(PrivchatSDKError::Other(m)) => assert_eq!(m, "生成 message_id 失败: clock"),
        other => panic!("{:?}", other),
    }
    assert_eq!(PrivchatSDK::enqueue_text(5, None), "5");
    assert_eq!(PrivchatSDK::enqueue_text(5, Some("t".to_string())), "t");
}

#[test]
fn a_message_that_cannot_be_stored_is_not_queued() {
    let sdk = connected_sdk(7);
    let mut sending =
        sdk.begin_sending(70, "hi", SendMessageOptions::default(), Ok(5)).unwrap();
    let full = PrivchatSDKError::Database("full".to_string());
    assert!(matches!(
        sending.advance(SendEvent::Saved(Err(full))),
        Err(PrivchatSDKError::Database(_))
    ));
    assert!(matches!(sending.action(1), SendAction::Save { .. }));
}

#[test]
fn a_message_is_sent_again_under_a_new_id() {
    let sdk = connected_sdk(7);
    let mut sending =
        sdk.begin_sending(70, "hi", SendMessageOptions::default(), Ok(5)).unwrap();
    sending.advance(SendEvent::Saved(Ok(12))).unwrap();
    let mut task = match sending.action(1) {
        SendAction::Enqueue { task } => task,
        other => panic!("{:?}", other),
    };
    task.retry_count = 3;
    task.last_error = Some("e".to_string());
    let again = sdk.retry_message(12, Some(7), Some(task), Ok(6)).unwrap();
    assert_eq!(again.message_data.local_message_id, 6);
    assert_eq!(again.retry_count, 0);
    assert_eq!(again.last_error, None);
    match sdk.retry_message(-12, Some(7), None, Ok(6)) {
        Err(PrivchatSDKError::InvalidInput(m)) => {
            assert_eq!(m, "未找到 message.id=-12 对应的消息")
        }
        other => panic!("{:?}", other),
    }
    match sdk.retry_message(12, None, None, Ok(6)) {
        Err(PrivchatSDKError::Other(m)) => assert_eq!(m, "未登录，无法获取发送队列"),
        other => panic!("{:?}", other),
    }
}

#[test]
fn the_queue_is_switched_only_where_it_must_be() {
    let sdk = PrivchatSDK::initialize(config()).unwrap();
    assert_eq!(sdk.send_queue_set_enabled(None, true).unwrap(), QueueSwitch::Start);
    assert_eq!(sdk.send_queue_set_enabled(None, false).unwrap(), QueueSwitch::Leave);
    assert_eq!(sdk.send_queue_set_enabled(Some(true), true).unwrap(), QueueSwitch::Leave);
    assert_eq!(sdk.send_queue_set_enabled(Some(true), false).unwrap(), QueueSwitch::Stop);
    assert_eq!(sdk.send_queue_set_enabled(Some(false), true).unwrap(), QueueSwitch::Start);
}

#[test]
fn files_are_told_apart_by_their_names() {
    assert_eq!(detect_file_type_and_mime("a.JPEG"), ("image", "image/jpeg"));
    assert_eq!(detect_file_type_and_mime("a.b.mov"), ("video", "video/quicktime"));
    assert_eq!(detect_file_type_and_mime("a.mp3"), ("audio", "audio/mpeg"));
    assert_eq!(detect_file_type_and_mime("a.txt"), ("file", "text/plain"));
    assert_eq!(detect_file_type_and_mime(".png"), ("other", "application/octet-stream"));
    assert_eq!(detect_file_type_and_mime("png"), ("other", "application/octet-stream"));
    assert_eq!(detect_file_type_from_mime("video/mp4"), "video");
    assert_eq!(detect_file_type_from_mime("application/zip"), "file");
    assert_eq!(detect_file_type_from_mime("text/plain"), "other");
}

#[test]
fn a_video_without_a_hook_gets_a_placeholder() {
    let sdk = connected_sdk(7);
    let plan = sdk.send_attachment_from_path(&Some("clip.mp4".to_string()), &None, false).unwrap();
    assert_eq!(plan.mode, SendMode::Video);
    assert_eq!(plan.message_type_number, 3);
    let mut sending = FileSending::begin(plan, 70, 1000, Ok(5)).unwrap();
    match sending.action(68) {
        FileAction::Save { content, message_type, channel_type, .. } => {
            assert_eq!((content.as_str(), message_type, channel_type), ("{}", 3, 1))
        }
        other => panic!("{:?}", other),
    }
    sending.advance(FileEvent::Saved(Ok(12), 900)).unwrap();
    match sending.action(68) {
        FileAction::UploadPlaceholder { token: Request::UploadToken { filename, file_size, .. } } => {
            assert_eq!((filename.as_str(), file_size), ("placeholder.png", 68))
        }
        other => panic!("{:?}", other),
    }
    sending.advance(FileEvent::Placed(Ok("55".to_string()))).unwrap();
    assert!(matches!(
        sending.action(68),
        FileAction::Prepare { message_id: 12, timestamp_ms: 900, mode: SendMode::Video }
    ));
    sending.advance(FileEvent::Prepared(Ok(()))).unwrap();
    match sending.action(68) {
        FileAction::Enqueue { task } => {
            assert_eq!(task.thumbnail_file_id.as_deref(), Some("55"));
            assert_eq!(task.uid, "7");
            assert_eq!(task.local_message_id, 5);
        }
        other => panic!("{:?}", other),
    }
    sending.advance(FileEvent::Queued(Ok(()))).unwrap();
    sending.advance(FileEvent::ConsumerRuns(Ok(()))).unwrap();
    match sending.action(68) {
        FileAction::Done { local_message_id, info } => {
            assert_eq!(local_message_id, 5);
            assert_eq!(info.mime_type, "video/mp4");
            assert_eq!(info.size, 1000);
        }
        other => panic!("{:?}", other),
    }
}

#[test]
fn a_file_that_cannot_be_prepared_leaves_no_message() {
    let sdk = connected_sdk(7);
    let plan = sdk.send_attachment_from_path(&None, &None, false).unwrap();
    assert_eq!(plan.filename, "file");
    assert_eq!(plan.mime_type, "application/octet-stream");
    let image = sdk.send_attachment_from_path(&None, &Some("PNG".to_string()), false).unwrap();
    assert_eq!((image.filename.as_str(), image.mime_type.as_str()), ("file", "image/png"));
    let mut sending = FileSending::begin(plan, 70, 1000, Ok(5)).unwrap();
    sending.advance(FileEvent::Saved(Ok(12), 900)).unwrap();
    let io = PrivchatSDKError::IO("disk".to_string());
    sending.advance(FileEvent::Prepared(Err(io))).unwrap();
    assert!(matches!(sending.action(68), FileAction::Delete { message_id: 12 }));
    match sending.advance(FileEvent::Deleted) {
        Err(PrivchatSDKError::IO(m)) => assert_eq!(m, "disk"),
        other => panic!("{:?}", other),
    }
}

#[test]
fn an_uploaded_file_is_found_again() {
    let sdk = connected_sdk(7);
    match sdk.send_attachment_bytes("a.png", "image/png", 10).unwrap() {
        Request::UploadToken { file_type, business_type, .. } => {
            assert_eq!((file_type.as_str(), business_type.as_str()), ("image", "message"))
        }
        other => panic!("{:?}", other),
    }
    let file = UploadedFile {
        file_id: "55".to_string(),
        file_url: "u".to_string(),
        thumbnail_url: None,
        width: Some(2),
        height: None,
    };
    let content = attachment_content(&file, "image/png", 10, "a.png");
    assert_eq!(
        content,
        r#"{"file_id":"55","file_url":"u","filename":"a.png","mime_type":"image/png","size":10}"#
    );
    assert_eq!(thumbnail_file_id(&content), Some(55));
    assert_eq!(thumbnail_file_id(r#"{"thumbnail_file_id":9,"file_id":55}"#), Some(9));
    assert_eq!(thumbnail_file_id("hello"), None);
    assert_eq!(sent_attachment(&file, "image/png", 10, "a.png").width, Some(2));

    assert!(matches!(
        sdk.download_attachment_to_cache(true, true, "55"),
        Ok(CacheStep::UseCached)
    ));
    match sdk.download_attachment_to_cache(true, false, "55").unwrap() {
        CacheStep::Download { user, temporary_name } => {
            assert_eq!((user.as_str(), temporary_name.as_str()), ("7", "download_55"))
        }
        other => panic!("{:?}", other),
    }
    assert!(sdk.download_attachment_to_cache(false, true, "55").is_err());
    assert!(is_stale_directory("20240101", true, "20240102"));
    assert!(!is_stale_directory("20240102", true, "20240102"));
}

#[test]
fn listeners_are_told_of_their_events() {
    let received = SDKEvent::MessageReceived {
        server_message_id: 1,
        channel_id: 2,
        channel_type: 1,
        from_uid: 3,
        timestamp: 4,
        content: "c".to_string(),
    };
    let output = PrivchatSDK::on_message_received(&received).unwrap();
    assert_eq!((output.server_message_id, output.session_id, output.sender_id), (1, 2, 3));
    assert_eq!(output.status, MessageStatus::Sent);
    assert_eq!(output.content, "");
    assert!(PrivchatSDK::on_typing_indicator(&received).is_none());

    let typing = TypingEvent { channel_id: 2, channel_type: 1, user_id: 3, is_typing: false };
    assert_eq!(
        PrivchatSDK::on_typing_indicator(&SDKEvent::TypingStarted(typing)),
        Some(("3".to_string(), "2".to_string(), true))
    );
    assert_eq!(
        PrivchatSDK::on_typing_indicator(&SDKEvent::TypingIndicator(typing)),
        Some(("3".to_string(), "2".to_string(), false))
    );
    let reaction = ReactionEvent { message_id: 9, user_id: 3, emoji: "+".to_string() };
    assert_eq!(
        PrivchatSDK::on_reaction_changed(&SDKEvent::ReactionRemoved(reaction)),
        Some(("9".to_string(), "3".to_string(), "+".to_string(), false))
    );
    let changed = SDKEvent::ConnectionStateChanged {
        old_state: ConnectionState::Connecting,
        new_state: ConnectionState::Connected,
    };
    assert_eq!(PrivchatSDK::on_connection_state_changed(&changed), Some(true));
}

#[test]
fn settings_need_a_known_channel_and_a_known_type() {
    let sdk = PrivchatSDK::initialize(config()).unwrap();
    match sdk.set_channel_favourite(5, None, None, true) {
        Err(PrivchatSDKError::InvalidInput(m)) => assert_eq!(m, "会话不存在: channel_id=5"),
        other => panic!("{:?}", other),
    }
    assert!(sdk.set_channel_notification_mode(5, None, None, NotificationMode::Silent).is_err());
    assert!(sdk.mark_channel_read(2).is_ok());
    match sdk.mark_channel_read(3) {
        Err(PrivchatSDKError::InvalidInput(m)) => {
            assert_eq!(m, "无效的 channel_type: 3，必须是 1(私聊) 或 2(群聊)")
        }
        other => panic!("{:?}", other),
    }
    assert!(matches!(sdk.own_last_read(), Err(PrivchatSDKError::NotConnected)));
    assert_eq!(connected_sdk(7).own_last_read().unwrap(), (None, None));
    match sdk.ensure_user_storage_initialized() {
        Err(PrivchatSDKError::Other(m)) => assert_eq!(m, "未登录，无法初始化用户存储"),
        other => panic!("{:?}", other),
    }
    assert_eq!(connected_sdk(7).ensure_user_storage_initialized().unwrap(), "7");
    assert!(matches!(
        PrivchatSDK::leave_channel(5, 9),
        SDKEvent::ChannelListUpdate {
            update_kind: ChannelListUpdateKind::Remove { channel_id: 5 },
            timestamp: 9
        }
    ));
    assert!(!sdk.is_bootstrap_completed(None).unwrap());
    assert!(sdk.is_bootstrap_completed(Some(Some(1))).unwrap());
    match connected_sdk(7).sync_entities(false) {
        Err(PrivchatSDKError::Other(m)) => assert_eq!(m, "KV 未初始化"),
        other => panic!("{:?}", other),
    }
}

#[test]
fn the_platform_is_named() {
    assert_eq!(get_platform_info("macos", "aarch64"), "macOS aarch64");
    assert_eq!(get_platform_info("plan9", "x86"), "Unknown x86");
}

#[test]
fn blocking_calls_need_a_runtime_and_a_channel_id() {
    assert_eq!(blocking_channel(true, "12").unwrap(), 12);
    match blocking_channel(true, "x") {
        Err(PrivchatSDKError::InvalidInput(m)) => assert_eq!(m, "无效的 session_id"),
        other => panic!("{:?}", other),
    }
    match blocking_channel(false, "12") {
        Err(PrivchatSDKError::Runtime(m)) => assert_eq!(m, "同步运行时未初始化"),
        other => panic!("{:?}", other),
    }
}

#[test]
fn the_device_is_named_to_the_server() {
    let device = DeviceInfo {
        device_id: "d".to_string(),
        device_type: "Android".to_string(),
        app_id: "privchat.test".to_string(),
        push_token: None,
        push_channel: None,
        device_name: "test".to_string(),
        device_model: Some("m".to_string()),
        os_version: None,
        app_version: None,
        manufacturer: None,
        device_fingerprint: None,
    };
    match login_request("ada", "p", "d", Some(device)) {
        Request::Login { username, device_id, device_info: Some(info), .. } => {
            assert_eq!((username.as_str(), device_id.as_str()), ("ada", "d"));
            assert_eq!(info.device_model.as_deref(), Some("m"));
        }
        other => panic!("{:?}", other),
    }
    match register_request("ada", "p", "d", None) {
        Request::Register { device_info, .. } => assert!(device_info.is_none()),
        other => panic!("{:?}", other),
    }
}
