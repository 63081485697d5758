//! The events that the SDK reports, and what they carry.

use vstd::prelude::*;
use crate::json;
use crate::storage::advanced_features::{MessageEditEvent, MessageRevokeEvent, ReadReceiptEvent};

verus! {

/// The state of the connection to the server.
#[derive(Debug, Clone, Copy, PartialEq, Eq, Structural)]
pub enum ConnectionState {
    Disconnected,
    Connecting,
    Connected,
    Reconnecting,
}

/// A message as a conversation shows it.
#[derive(Debug)]
pub struct TimelineMessage {
    pub id: u64,
    pub server_message_id: Option<u64>,
    pub channel_id: u64,
    pub channel_type: i32,
    pub from_uid: u64,
    pub content: String,
    pub message_type: i32,
    pub timestamp: u64,
    pub pts: u64,
}

/// What a [`TimelineMessage`] holds.
pub struct TimelineMessageModel {
    pub id: u64,
    pub server_message_id: Option<u64>,
    pub channel_id: u64,
    pub channel_type: i32,
    pub from_uid: u64,
    pub content: Seq<char>,
    pub message_type: i32,
    pub timestamp: u64,
    pub pts: u64,
}

impl View for TimelineMessage {
    type V = TimelineMessageModel;

    open spec fn view(&self) -> TimelineMessageModel {
        TimelineMessageModel {
            id: self.id,
            server_message_id: self.server_message_id,
            channel_id: self.channel_id,
            channel_type: self.channel_type,
            from_uid: self.from_uid,
            content: self.content@,
            message_type: self.message_type,
            timestamp: self.timestamp,
            pts: self.pts,
        }
    }
}

impl Clone for TimelineMessage {
    fn clone(&self) -> (r: Self)
        ensures
            r == *self,
    {
        TimelineMessage {
            id: self.id,
            server_message_id: self.server_message_id,
            channel_id: self.channel_id,
            channel_type: self.channel_type,
            from_uid: self.from_uid,
            content: self.content.clone(),
            message_type: self.message_type,
            timestamp: self.timestamp,
            pts: self.pts,
        }
    }
}

/// The latest thing that happened in a channel.
#[derive(Debug)]
pub struct LatestChannelEvent {
    pub event_type: String,
    pub content: String,
    pub timestamp: u64,
}

/// What a [`LatestChannelEvent`] holds.
pub struct LatestChannelEventModel {
    pub event_type: Seq<char>,
    pub content: Seq<char>,
    pub timestamp: u64,
}

impl View for LatestChannelEvent {
    type V = LatestChannelEventModel;

    open spec fn view(&self) -> LatestChannelEventModel {
        LatestChannelEventModel {
            event_type: self.event_type@,
            content: self.content@,
            timestamp: self.timestamp,
        }
    }
}

impl Clone for LatestChannelEvent {
    fn clone(&self) -> (r: Self)
        ensures
            r == *self,
    {
        LatestChannelEvent {
            event_type: self.event_type.clone(),
            content: self.content.clone(),
            timestamp: self.timestamp,
        }
    }
}

/// What an optional latest event holds.
pub open spec fn latest_event_view(e: Option<LatestChannelEvent>) -> Option<LatestChannelEventModel> {
    match e {
        Some(e) => Some(e@),
        None => None,
    }
}

/// One entry of the channel list.
#[derive(Debug)]
pub struct ChannelListEntry {
    pub channel_id: u64,
    pub channel_type: i32,
    pub name: String,
    pub last_ts: u64,
    pub notifications: u32,
    pub messages: u32,
    pub mentions: u32,
    pub marked_unread: bool,
    pub is_favourite: bool,
    pub is_low_priority: bool,
    pub avatar_url: Option<String>,
    pub is_dm: bool,
    pub is_encrypted: bool,
    pub member_count: u32,
    pub topic: Option<String>,
    pub latest_event: Option<LatestChannelEvent>,
}

/// What a [`ChannelListEntry`] holds.
pub struct ChannelListEntryModel {
    pub channel_id: u64,
    pub channel_type: i32,
    pub name: Seq<char>,
    pub last_ts: u64,
    pub notifications: u32,
    pub messages: u32,
    pub mentions: u32,
    pub marked_unread: bool,
    pub is_favourite: bool,
    pub is_low_priority: bool,
    pub avatar_url: Option<Seq<char>>,
    pub is_dm: bool,
    pub is_encrypted: bool,
    pub member_count: u32,
    pub topic: Option<Seq<char>>,
    pub latest_event: Option<LatestChannelEventModel>,
}

impl View for ChannelListEntry {
    type V = ChannelListEntryModel;

    open spec fn view(&self) -> ChannelListEntryModel {
        ChannelListEntryModel {
            channel_id: self.channel_id,
            channel_type: self.channel_type,
            name: self.name@,
            last_ts: self.last_ts,
            notifications: self.notifications,
            messages: self.messages,
            mentions: self.mentions,
            marked_unread: self.marked_unread,
            is_favourite: self.is_favourite,
            is_low_priority: self.is_low_priority,
            avatar_url: json::opt_view(self.avatar_url),
            is_dm: self.is_dm,
            is_encrypted: self.is_encrypted,
            member_count: self.member_count,
            topic: json::opt_view(self.topic),
            latest_event: latest_event_view(self.latest_event),
        }
    }
}

/// A message that a search found.
#[derive(Debug)]
pub struct SearchHit {
    pub channel_id: u64,
    pub server_message_id: u64,
    pub sender: u64,
    pub body: String,
    pub timestamp_ms: u64,
}

/// What a [`SearchHit`] holds.
pub struct SearchHitModel {
    pub channel_id: u64,
    pub server_message_id: u64,
    pub sender: u64,
    pub body: Seq<char>,
    pub timestamp_ms: u64,
}

impl View for SearchHit {
    type V = SearchHitModel;

    open spec fn view(&self) -> SearchHitModel {
        SearchHitModel {
            channel_id: self.channel_id,
            server_message_id: self.server_message_id,
            sender: self.sender,
            body: self.body@,
            timestamp_ms: self.timestamp_ms,
        }
    }
}

/// One page of search results, and where the next page begins.
#[derive(Debug)]
pub struct SearchPage {
    pub hits: Vec<SearchHit>,
    pub next_offset: Option<u32>,
}

/// Who reacted to a message with one emoji.
#[derive(Debug)]
pub struct ReactionChip {
    pub emoji: String,
    pub user_ids: Vec<u64>,
    pub count: usize,
}

/// Who has read a message, and when.
#[derive(Debug, Clone, Copy, PartialEq, Eq, Structural)]
pub struct SeenByEntry {
    pub user_id: u64,
    pub read_at: u64,
}

/// The unread counts of a channel.
#[derive(Debug, Clone, Copy, PartialEq, Eq, Structural)]
pub struct UnreadStats {
    pub messages: u64,
    pub notifications: u64,
    pub mentions: u64,
}

/// The labels of a channel.
#[derive(Debug, Clone, Copy, PartialEq, Eq, Structural)]
pub struct ChannelTags {
    pub favourite: bool,
    pub low_priority: bool,
}

/// Which messages of a channel notify the user.
#[derive(Debug, Clone, Copy, PartialEq, Eq, Structural)]
pub enum NotificationMode {
    All,
    Mentions,
    Silent,
}

/// What is known of an attachment.
#[derive(Debug)]
pub struct AttachmentInfo {
    pub url: String,
    pub mime_type: String,
    pub size: u64,
    pub thumbnail_url: Option<String>,
    pub filename: Option<String>,
    pub file_id: Option<String>,
    pub width: Option<u32>,
    pub height: Option<u32>,
    pub duration: Option<u32>,
}

/// What a [`AttachmentInfo`] holds.
pub struct AttachmentInfoModel {
    pub url: Seq<char>,
    pub mime_type: Seq<char>,
    pub size: u64,
    pub thumbnail_url: Option<Seq<char>>,
    pub filename: Option<Seq<char>>,
    pub file_id: Option<Seq<char>>,
    pub width: Option<u32>,
    pub height: Option<u32>,
    pub duration: Option<u32>,
}

impl View for AttachmentInfo {
    type V = AttachmentInfoModel;

    open spec fn view(&self) -> AttachmentInfoModel {
        AttachmentInfoModel {
            url: self.url@,
            mime_type: self.mime_type@,
            size: self.size,
            thumbnail_url: json::opt_view(self.thumbnail_url),
            filename: json::opt_view(self.filename),
            file_id: json::opt_view(self.file_id),
            width: self.width,
            height: self.height,
            duration: self.duration,
        }
    }
}

/// A device of the user.
#[derive(Debug)]
pub struct DeviceSummary {
    pub device_id: String,
    pub device_name: String,
    pub device_model: Option<String>,
    pub app_id: Option<String>,
    pub device_type: Option<String>,
    pub last_active_at: Option<String>,
    pub created_at: Option<String>,
    pub ip_address: Option<String>,
    pub is_current: bool,
}

/// What a [`DeviceSummary`] holds.
pub struct DeviceSummaryModel {
    pub device_id: Seq<char>,
    pub device_name: Seq<char>,
    pub device_model: Option<Seq<char>>,
    pub app_id: Option<Seq<char>>,
    pub device_type: Option<Seq<char>>,
    pub last_active_at: Option<Seq<char>>,
    pub created_at: Option<Seq<char>>,
    pub ip_address: Option<Seq<char>>,
    pub is_current: bool,
}

impl View for DeviceSummary {
    type V = DeviceSummaryModel;

    open spec fn view(&self) -> DeviceSummaryModel {
        DeviceSummaryModel {
            device_id: self.device_id@,
            device_name: self.device_name@,
            device_model: json::opt_view(self.device_model),
            app_id: json::opt_view(self.app_id),
            device_type: json::opt_view(self.device_type),
            last_active_at: json::opt_view(self.last_active_at),
            created_at: json::opt_view(self.created_at),
            ip_address: json::opt_view(self.ip_address),
            is_current: self.is_current,
        }
    }
}

/// Where a supervised sync stands.
#[derive(Debug, Clone, Copy, PartialEq, Eq, Structural)]
pub enum SyncPhase {
    Running,
    Error,
    Idle,
}

/// What the observer of a supervised sync is told.
#[derive(Debug)]
pub struct SyncStatus {
    pub phase: SyncPhase,
    pub message: Option<String>,
}

/// How the messages on show change.
#[derive(Debug)]
pub enum TimelineDiffKind {
    Append { messages: Vec<TimelineMessage> },
}

/// How the channel list changes.
#[derive(Debug)]
pub enum ChannelListUpdateKind {
    Update { channel: ChannelListEntry },
    Reset { channels: Vec<ChannelListEntry> },
    Remove { channel_id: u64 },
}

/// How far a message has come on its way out.
#[derive(Debug, Clone, Copy, PartialEq, Eq, Structural)]
pub enum SendStatusState {
    Enqueued,
}

/// That a user types, or no longer does.
#[derive(Debug, Clone, Copy, PartialEq, Eq, Structural)]
pub struct TypingEvent {
    pub channel_id: u64,
    pub channel_type: i32,
    pub user_id: u64,
    pub is_typing: bool,
}

/// That a user reacted to a message, or took the reaction back.
#[derive(Debug)]
pub struct ReactionEvent {
    pub message_id: u64,
    pub user_id: u64,
    pub emoji: String,
}

/// What the SDK reports.
#[derive(Debug)]
pub enum SDKEvent {
    MessageReceived {
        server_message_id: u64,
        channel_id: u64,
        channel_type: i32,
        from_uid: u64,
        timestamp: u64,
        content: String,
    },
    MessageSent { message_id: u64, channel_id: u64, channel_type: i32 },
    MessageSendFailed { message_id: u64, channel_id: u64, channel_type: i32, error: String },
    TimelineDiff { channel_id: u64, diff_kind: TimelineDiffKind, timestamp: u64 },
    ChannelListUpdate { update_kind: ChannelListUpdateKind, timestamp: u64 },
    ConnectionStateChanged { old_state: ConnectionState, new_state: ConnectionState },
    SendStatusUpdate {
        channel_id: u64,
        id: u64,
        state: SendStatusState,
        attempts: u32,
        error: Option<String>,
        timestamp: u64,
    },
    TypingStarted(TypingEvent),
    TypingStopped(TypingEvent),
    TypingIndicator(TypingEvent),
    ReactionAdded(ReactionEvent),
    ReactionRemoved(ReactionEvent),
    ReadReceiptReceived(ReadReceiptEvent),
    MessageRevoked(MessageRevokeEvent),
    MessageEdited(MessageEditEvent),
    UnreadCountChanged { channel_id: u64, channel_type: i32, unread_count: i32 },
    UserPresenceChanged { user_id: u64, is_online: bool, last_seen: Option<u64> },
}

} // verus!
