//! What the user settles for a channel, and what is settled for the SDK as a whole.

use vstd::prelude::*;
use crate::clock::now_millis;
use crate::error::{ErrorModel, PrivchatSDKError};
use crate::events::{
    ChannelListUpdateKind, DeviceSummary, DeviceSummaryModel, NotificationMode, SDKEvent, UnreadStats,
};
use crate::json;
use crate::json::{JsonTree, JsonValue};
use crate::sdk::channel_list;
use crate::sdk::channel_list::{extra_with_low_priority, mute_for_mode, unread_stats};
use crate::sdk::state;
use crate::sdk::state::PrivchatSDK;
use crate::sdk::wire;
use crate::sdk::wire::parse_message_at;
use crate::storage::db_actor::received;
use crate::storage::db_actor::received::Tables;
use crate::storage::entities::{Channel, ChannelModel, Message, MessageModel};
use crate::text;
use crate::text::{i64_text, parse_u64, same_text, u64_text};

verus! {

/// A number that is to be stored for a channel.
#[derive(Debug, Clone, Copy, PartialEq, Eq, Structural)]
pub struct ChannelChange {
    pub channel_id: u64,
    pub channel_type: i32,
    pub value: i32,
}

/// An extra record that is to be stored for a channel.
#[derive(Debug)]
pub struct ExtraChange {
    pub channel_id: u64,
    /// The type by which the store knows the channel.
    pub stored_type: u8,
    /// The type by which the channel list knows the channel.
    pub channel_type: i32,
    pub extra: String,
}

/// The record of a channel: that of the direct channel, or else that of the group channel.
pub open spec fn known_channel<'a>(
    as_direct: Option<&'a Channel>,
    as_group: Option<&'a Channel>,
) -> Option<&'a Channel> {
    match as_direct {
        Some(c) => Some(c),
        None => as_group,
    }
}

/// The error of an operation on a channel that is not stored.
pub open spec fn no_such_channel(channel_id: u64) -> ErrorModel {
    ErrorModel::InvalidInput("会话不存在: channel_id="@ + text::decimal(channel_id as nat))
}

/// The record of the channel that is to be changed, or why there is none.
pub open spec fn changed_channel<'a>(
    sdk: PrivchatSDK,
    channel_id: u64,
    as_direct: Option<&'a Channel>,
    as_group: Option<&'a Channel>,
) -> Result<&'a Channel, ErrorModel> {
    match state::lifecycle_fault(sdk) {
        Some(e) => Err(e),
        None => match known_channel(as_direct, as_group) {
            Some(c) => Ok(c),
            None => Err(no_such_channel(channel_id)),
        },
    }
}

/// Whether a channel type is that of a direct channel or of a group.
pub open spec fn is_channel_type(channel_type: i32) -> bool {
    channel_type == 1 || channel_type == 2
}

/// Who is logged in, or why nobody is.
pub open spec fn logged_in(sdk: PrivchatSDK) -> Result<u64, ErrorModel> {
    match state::lifecycle_fault(sdk) {
        Some(e) => Err(e),
        None => match sdk.state.current_user_id {
            Some(id) => Ok(id),
            None => Err(ErrorModel::NotConnected),
        },
    }
}

impl PrivchatSDK {
    fn channel_to_change<'a>(
        &self,
        channel_id: u64,
        as_direct: Option<&'a Channel>,
        as_group: Option<&'a Channel>,
    ) -> (r: Result<&'a Channel, PrivchatSDKError>)
        ensures
            match r {
                Ok(c) => changed_channel(*self, channel_id, as_direct, as_group) == Ok::<
                    _,
                    ErrorModel,
                >(c),
                Err(e) => changed_channel(*self, channel_id, as_direct, as_group) == Err::<
                    &Channel,
                    _,
                >(e@),
            },
    {
        match self.check_initialized() {
            Ok(_) => {},
            Err(e) => return Err(e),
        }
        match as_direct {
            Some(c) => return Ok(c),
            None => {},
        }
        match as_group {
            Some(c) => Ok(c),
            None => {
                let mut s = "会话不存在: channel_id=".to_owned();
                s.append(u64_text(channel_id).as_str());
                Err(PrivchatSDKError::InvalidInput(s))
            },
        }
    }

    fn require_user(&self) -> (r: Result<u64, PrivchatSDKError>)
        ensures
            match r {
                Ok(id) => logged_in(*self) == Ok::<_, ErrorModel>(id),
                Err(e) => logged_in(*self) == Err::<u64, _>(e@),
            },
    {
        match self.check_initialized() {
            Ok(_) => {},
            Err(e) => return Err(e),
        }
        match self.user_id() {
            Some(id) => Ok(id),
            None => Err(PrivchatSDKError::NotConnected),
        }
    }

    /// What is stored to make a channel a favourite, or no longer one.
    pub fn set_channel_favourite(
        &self,
        channel_id: u64,
        as_direct: Option<&Channel>,
        as_group: Option<&Channel>,
        favourite: bool,
    ) -> (r: Result<ChannelChange, PrivchatSDKError>)
        ensures
            match changed_channel(*self, channel_id, as_direct, as_group) {
                Ok(c) => r == Ok::<ChannelChange, PrivchatSDKError>(
                    ChannelChange {
                        channel_id,
                        channel_type: c.channel_type,
                        value: if favourite {
                            1
                        } else {
                            0
                        },
                    },
                ),
                Err(e) => r is Err && r->Err_0@ == e,
            },
    {
        match self.channel_to_change(channel_id, as_direct, as_group) {
            Ok(c) => Ok(
                ChannelChange {
                    channel_id,
                    channel_type: c.channel_type,
                    value: if favourite {
                        1
                    } else {
                        0
                    },
                },
            ),
            Err(e) => Err(e),
        }
    }

    /// What is stored to mark a channel as of low priority, or no longer so. Nothing is, where the
    /// extra record of the channel is JSON that takes no members.
    pub fn set_channel_low_priority(
        &self,
        channel_id: u64,
        as_direct: Option<&Channel>,
        as_group: Option<&Channel>,
        low_priority: bool,
    ) -> (r: Result<Option<ExtraChange>, PrivchatSDKError>)
        ensures
            match changed_channel(*self, channel_id, as_direct, as_group) {
                Ok(c) => {
                    let parsed = json::json_parsed(c.extra@);
                    r is Ok && if channel_list::takes_members(parsed) {
                        &&& r->Ok_0 matches Some(change)
                        &&& change.channel_id == channel_id
                        &&& change.stored_type == c.channel_type as u8
                        &&& change.channel_type == c.channel_type
                        &&& change.extra@ == json::json_text(
                            JsonTree::Object(
                                channel_list::members_of(parsed).insert(
                                    "low_priority"@,
                                    JsonTree::Bool(low_priority),
                                ),
                            ),
                        )
                        &&& channel_list::marks_low_priority(json::json_parsed(change.extra@))
                            == low_priority
                    } else {
                        r->Ok_0 is None
                    }
                },
                Err(e) => r is Err && r->Err_0@ == e,
            },
    {
        match self.channel_to_change(channel_id, as_direct, as_group) {
            Ok(c) => match extra_with_low_priority(c.extra.as_str(), low_priority) {
                Some(extra) => Ok(
                    Some(
                        ExtraChange {
                            channel_id,
                            stored_type: #[verifier::truncate] (c.channel_type as u8),
                            channel_type: c.channel_type,
                            extra,
                        },
                    ),
                ),
                None => Ok(None),
            },
            Err(e) => Err(e),
        }
    }

    /// What is stored to set which messages of a channel notify the user.
    pub fn set_channel_notification_mode(
        &self,
        channel_id: u64,
        as_direct: Option<&Channel>,
        as_group: Option<&Channel>,
        mode: NotificationMode,
    ) -> (r: Result<ChannelChange, PrivchatSDKError>)
        ensures
            match changed_channel(*self, channel_id, as_direct, as_group) {
                Ok(c) => r == Ok::<ChannelChange, PrivchatSDKError>(
                    ChannelChange {
                        channel_id,
                        channel_type: c.channel_type,
                        value: channel_list::mute_of_mode(mode),
                    },
                ),
                Err(e) => r is Err && r->Err_0@ == e,
            },
    {
        match self.channel_to_change(channel_id, as_direct, as_group) {
            Ok(c) => Ok(
                ChannelChange {
                    channel_id,
                    channel_type: c.channel_type,
                    value: mute_for_mode(mode),
                },
            ),
            Err(e) => Err(e),
        }
    }

    /// Whether the messages of a channel can be marked as read: its type must be known.
    pub fn mark_channel_read(&self, channel_type: i32) -> (r: Result<(), PrivchatSDKError>)
        ensures
            match state::lifecycle_fault(*self) {
                Some(e) => r is Err && r->Err_0@ == e,
                None => if is_channel_type(channel_type) {
                    r is Ok
                } else {
                    r is Err && r->Err_0@ == ErrorModel::InvalidInput(
                        "无效的 channel_type: "@ + text::signed_decimal(channel_type as int)
                            + "，必须是 1(私聊) 或 2(群聊)"@,
                    )
                },
            },
    {
        match self.check_initialized() {
            Ok(_) => {},
            Err(e) => return Err(e),
        }
        if channel_type != 1 && channel_type != 2 {
            let mut s = "无效的 channel_type: ".to_owned();
            s.append(i64_text(channel_type as i64).as_str());
            s.append("，必须是 1(私聊) 或 2(群聊)");
            return Err(PrivchatSDKError::InvalidInput(s));
        }
        Ok(())
    }

    /// The type of the channel that is marked as read up to its last message: a direct channel.
    pub fn mark_fully_read_at(&self) -> (r: Result<i32, PrivchatSDKError>)
        ensures
            match self.session() {
                Ok(_) => r == Ok::<i32, PrivchatSDKError>(1),
                Err(e) => r is Err && r->Err_0@ == e,
            },
    {
        match self.require_session() {
            Ok(_) => Ok(1),
            Err(e) => Err(e),
        }
    }

    /// The unread counts of a channel, by the records that were found for it.
    pub fn channel_unread_stats(&self, found: &Vec<Channel>) -> (r: Result<
        UnreadStats,
        PrivchatSDKError,
    >)
        ensures
            match logged_in(*self) {
                Err(e) => r is Err && r->Err_0@ == e,
                Ok(_) => if found@.len() == 0 {
                    r is Err && r->Err_0@ == ErrorModel::InvalidInput("会话不存在"@)
                } else {
                    r == Ok::<UnreadStats, PrivchatSDKError>(
                        UnreadStats {
                            messages: found@[0].unread_count as u64,
                            notifications: found@[0].unread_count as u64,
                            mentions: 0,
                        },
                    )
                },
            },
    {
        match self.require_user() {
            Ok(_) => {},
            Err(e) => return Err(e),
        }
        if found.len() == 0 {
            return Err(PrivchatSDKError::InvalidInput("会话不存在".to_owned()));
        }
        Ok(unread_stats(&found[0]))
    }

    /// Up to where the user has read a channel; the SDK keeps no such mark.
    pub fn own_last_read(&self) -> (r: Result<(Option<u64>, Option<u64>), PrivchatSDKError>)
        ensures
            match logged_in(*self) {
                Ok(_) => r == Ok::<(Option<u64>, Option<u64>), PrivchatSDKError>((None, None)),
                Err(e) => r is Err && r->Err_0@ == e,
            },
    {
        match self.require_user() {
            Ok(_) => Ok((None, None)),
            Err(e) => Err(e),
        }
    }

    /// The event that takes a channel from the list after the user left or hid it.
    pub fn leave_channel(channel_id: u64, timestamp: u64) -> (r: SDKEvent)
        ensures
            r == (SDKEvent::ChannelListUpdate {
                update_kind: ChannelListUpdateKind::Remove { channel_id },
                timestamp,
            }),
    {
        SDKEvent::ChannelListUpdate {
            update_kind: ChannelListUpdateKind::Remove { channel_id },
            timestamp,
        }
    }

    /// Whether the server has messages of a channel that are not here yet.
    pub fn needs_sync(local_pts: u64, server_pts: u64) -> (r: bool)
        ensures
            r == (local_pts < server_pts),
    {
        local_pts < server_pts
    }

    /// The channels to sync: all that are stored.
    pub fn sync_all_channels(channels: &Vec<Channel>) -> (r: Vec<(u64, u8)>)
        ensures
            r@ == channels@.map_values(|c: Channel| (c.channel_id, c.channel_type as u8)),
    {
        let mut out: Vec<(u64, u8)> = Vec::new();
        let length: usize = channels.len();
        let mut i: usize = 0;
        while i < length
            invariant
                i <= length == channels@.len(),
                out@ == channels@.take(i as int).map_values(
                    |c: Channel| (c.channel_id, c.channel_type as u8),
                ),
            decreases length - i,
        {
            let channel_type: u8 = #[verifier::truncate] (channels[i].channel_type as u8);
            out.push((channels[i].channel_id, channel_type));
            assert(channels@.take(i + 1) =~= channels@.take(i as int).push(channels@[i as int]));
            i = i + 1;
        }
        assert(channels@.take(i as int) =~= channels@);
        out
    }

    /// Whose storage is to be opened, or why none is.
    pub fn ensure_user_storage_initialized(&self) -> (r: Result<String, PrivchatSDKError>)
        ensures
            match self.state.current_user_id {
                Some(id) => r is Ok && r->Ok_0@ == text::decimal(id as nat),
                None => r is Err && r->Err_0@ == ErrorModel::Other(
                    "未登录，无法初始化用户存储"@,
                ),
            },
    {
        match self.user_id() {
            Some(id) => Ok(u64_text(id)),
            None => Err(PrivchatSDKError::Other("未登录，无法初始化用户存储".to_owned())),
        }
    }

    /// Whether the first sync of the user is done: something is stored where the sync marks its end.
    /// Without a store it is not.
    pub fn is_bootstrap_completed(&self, mark: Option<Option<u64>>) -> (r: Result<
        bool,
        PrivchatSDKError,
    >)
        ensures
            match state::lifecycle_fault(*self) {
                Some(e) => r is Err && r->Err_0@ == e,
                None => r == Ok::<bool, PrivchatSDKError>(mark is Some && mark->Some_0 is Some),
            },
    {
        match self.check_initialized() {
            Ok(_) => {},
            Err(e) => return Err(e),
        }
        match mark {
            Some(Some(_)) => Ok(true),
            _ => Ok(false),
        }
    }

    /// Whether the entities of the user can be synced, or why not; `has_store` says whether the
    /// key-value store of the user is open.
    pub fn sync_entities(&self, has_store: bool) -> (r: Result<(), PrivchatSDKError>)
        ensures
            match self.link() {
                Err(e) => r is Err && r->Err_0@ == e,
                Ok(_) => if !has_store {
                    r is Err && r->Err_0@ == ErrorModel::Other("KV 未初始化"@)
                } else if !self.has_client {
                    r is Err && r->Err_0@ == ErrorModel::NotConnected
                } else {
                    r is Ok
                },
            },
    {
        match self.require_link() {
            Ok(_) => {},
            Err(e) => return Err(e),
        }
        if !has_store {
            return Err(PrivchatSDKError::Other("KV 未初始化".to_owned()));
        }
        if !self.has_client {
            return Err(PrivchatSDKError::NotConnected);
        }
        Ok(())
    }

    /// Whether a message can be marked as read at the server.
    pub fn mark_as_read(&self) -> (r: Result<(), PrivchatSDKError>)
        ensures
            match self.link() {
                Ok(_) => r is Ok,
                Err(e) => r is Err && r->Err_0@ == e,
            },
    {
        self.require_link()
    }

    /// The key under which the content of a message is replaced.
    pub fn edit_message(&self, id: u64) -> (r: Result<i64, PrivchatSDKError>)
        ensures
            match state::lifecycle_fault(*self) {
                Some(e) => r is Err && r->Err_0@ == e,
                None => r == Ok::<i64, PrivchatSDKError>(id as i64),
            },
    {
        match self.check_initialized() {
            Ok(_) => Ok(#[verifier::truncate] (id as i64)),
            Err(e) => Err(e),
        }
    }

    /// Whether the others of a channel can be told that the user types.
    pub fn start_typing(&self) -> (r: Result<(), PrivchatSDKError>)
        ensures
            match self.link() {
                Ok(_) => r is Ok,
                Err(e) => r is Err && r->Err_0@ == e,
            },
    {
        self.require_link()
    }

    /// Whether the others of a channel are told that the user types; `is_due` says whether they were
    /// not told a moment ago.
    pub fn send_typing(&self, is_due: bool) -> (r: Result<bool, PrivchatSDKError>)
        ensures
            match self.link() {
                Err(e) => r is Err && r->Err_0@ == e,
                Ok(_) => if is_due && !self.has_client {
                    r is Err && r->Err_0@ == ErrorModel::NotConnected
                } else {
                    r == Ok::<bool, PrivchatSDKError>(is_due)
                },
            },
    {
        match self.require_link() {
            Ok(_) => {},
            Err(e) => return Err(e),
        }
        if is_due && !self.has_client {
            return Err(PrivchatSDKError::NotConnected);
        }
        Ok(is_due)
    }

    /// Whether the others of a channel can be told that the user no longer types.
    pub fn stop_typing(&self) -> (r: Result<(), PrivchatSDKError>)
        ensures
            match self.link() {
                Err(e) => r is Err && r->Err_0@ == e,
                Ok(_) => if self.has_client {
                    r is Ok
                } else {
                    r is Err && r->Err_0@ == ErrorModel::NotConnected
                },
            },
    {
        match self.require_link() {
            Ok(_) => {},
            Err(e) => return Err(e),
        }
        if !self.has_client {
            return Err(PrivchatSDKError::NotConnected);
        }
        Ok(())
    }

    /// Whether the application should log in again as it comes to the front: a user is logged in, but
    /// there is no connection.
    pub fn enter_foreground(&self) -> (r: Result<bool, PrivchatSDKError>)
        ensures
            match state::lifecycle_fault(*self) {
                Some(e) => r is Err && r->Err_0@ == e,
                None => r == Ok::<bool, PrivchatSDKError>(
                    self.state.current_user_id is Some && !self.connected(),
                ),
            },
    {
        match self.check_initialized() {
            Ok(_) => {},
            Err(e) => return Err(e),
        }
        Ok(self.user_id().is_some() && !self.is_connected())
    }
}

/// What a platform is called.
pub open spec fn platform_name(os: Seq<char>) -> Seq<char> {
    if os == "macos"@ {
        "macOS"@
    } else if os == "windows"@ {
        "Windows"@
    } else if os == "linux"@ {
        "Linux"@
    } else if os == "ios"@ {
        "iOS"@
    } else if os == "android"@ {
        "Android"@
    } else {
        "Unknown"@
    }
}

/// What the server is told of the platform: its name and the kind of its processor.
pub fn get_platform_info(os: &str, arch: &str) -> (r: String)
    ensures
        r@ == platform_name(os@) + " "@ + arch@,
{
    let name = if same_text(os, "macos") {
        "macOS"
    } else if same_text(os, "windows") {
        "Windows"
    } else if same_text(os, "linux") {
        "Linux"
    } else if same_text(os, "ios") {
        "iOS"
    } else if same_text(os, "android") {
        "Android"
    } else {
        "Unknown"
    };
    let mut s = name.to_owned();
    s.append(" ");
    s.append(arch);
    s
}

/// The type of the channel whose list entry is refreshed: that of the record, or else a direct one.
pub fn refreshed_type(channel: Option<&Channel>) -> (r: i32)
    ensures
        r == match channel {
            Some(c) => c.channel_type,
            None => 1,
        },
{
    match channel {
        Some(c) => c.channel_type,
        None => 1,
    }
}

/// The channel that a blocking call names, or why the call cannot be made.
pub fn blocking_channel(has_runtime: bool, session_id: &str) -> (r: Result<u64, PrivchatSDKError>)
    ensures
        if !has_runtime {
            r is Err && r->Err_0@ == ErrorModel::Runtime("同步运行时未初始化"@)
        } else {
            match text::unsigned_value(session_id@, u64::MAX as nat) {
                Some(id) => r == Ok::<u64, PrivchatSDKError>(id as u64),
                None => r is Err && r->Err_0@ == ErrorModel::InvalidInput("无效的 session_id"@),
            }
        },
{
    if !has_runtime {
        return Err(PrivchatSDKError::Runtime("同步运行时未初始化".to_owned()));
    }
    match parse_u64(session_id) {
        Some(id) => Ok(id),
        None => Err(PrivchatSDKError::InvalidInput("无效的 session_id".to_owned())),
    }
}

/// A device of the user, as the server lists it.
#[derive(Debug)]
pub struct DeviceItem {
    pub device_id: String,
    pub device_name: String,
    pub device_model: String,
    pub app_id: String,
    pub device_type: String,
    pub last_active_at: String,
    pub created_at: String,
    pub ip_address: String,
    pub is_current: bool,
}

/// What the user is shown of a device.
pub open spec fn summary_of(item: DeviceItem) -> DeviceSummaryModel {
    DeviceSummaryModel {
        device_id: item.device_id@,
        device_name: item.device_name@,
        device_model: Some(item.device_model@),
        app_id: Some(item.app_id@),
        device_type: Some(item.device_type@),
        last_active_at: Some(item.last_active_at@),
        created_at: Some(item.created_at@),
        ip_address: Some(item.ip_address@),
        is_current: item.is_current,
    }
}

/// What the user is shown of a device.
pub fn device_summary(item: DeviceItem) -> (r: DeviceSummary)
    ensures
        r@ == summary_of(item),
{
    DeviceSummary {
        device_id: item.device_id,
        device_name: item.device_name,
        device_model: Some(item.device_model),
        app_id: Some(item.app_id),
        device_type: Some(item.device_type),
        last_active_at: Some(item.last_active_at),
        created_at: Some(item.created_at),
        ip_address: Some(item.ip_address),
        is_current: item.is_current,
    }
}

// The history of a channel.

/// What the messages of a list hold.
pub open spec fn models_of(messages: Seq<Message>) -> Seq<MessageModel> {
    messages.map_values(|m: Message| m@)
}

/// The messages that a list of trees describes, received at `now`; a tree that describes none is
/// passed over.
pub open spec fn messages_in(items: Seq<JsonTree>, channel_id: u64, now: i64) -> Seq<MessageModel>
    decreases items.len(),
{
    if items.len() == 0 {
        Seq::empty()
    } else {
        let before = messages_in(items.drop_last(), channel_id, now);
        let last = items.last();
        match wire::message_of_tree(last, channel_id, now, wire::message_time_of(last)) {
            Ok(m) => before.push(m),
            Err(_) => before,
        }
    }
}

/// The trees of the messages in the server's answer.
pub open spec fn history_items(response: JsonTree) -> Seq<JsonTree> {
    match response.get("messages"@) {
        Some(JsonTree::Array(items)) => items,
        _ => Seq::empty(),
    }
}

/// The messages of a channel that the server's answer holds, received at `now`.
pub fn history_at(response: &JsonValue, channel_id: u64, now: i64) -> (r: Vec<Message>)
    ensures
        models_of(r@) == messages_in(history_items(response@), channel_id, now),
{
    let mut out: Vec<Message> = Vec::new();
    proof {
        assert(models_of(out@) =~= Seq::<MessageModel>::empty());
    }
    let items = match response.get("messages") {
        Some(v) => match v.as_array() {
            Some(items) => items,
            None => return out,
        },
        None => return out,
    };
    let ghost trees = json::item_trees(items@);
    let length: usize = items.len();
    let mut i: usize = 0;
    proof {
        json::lemma_item_trees(items@);
        assert(trees.take(0) =~= Seq::<JsonTree>::empty());
    }
    while i < length
        invariant
            i <= length == items@.len(),
            trees.len() == items@.len(),
            forall|j: int| 0 <= j < items@.len() ==> #[trigger] trees[j] == items@[j]@,
            models_of(out@) == messages_in(trees.take(i as int), channel_id, now),
        decreases length - i,
    {
        proof {
            assert(trees.take(i + 1).drop_last() =~= trees.take(i as int));
            assert(trees.take(i + 1).last() == trees[i as int]);
        }
        match parse_message_at(&items[i], channel_id, now) {
            Ok(m) => {
                let ghost before = out@;
                out.push(m);
                assert(models_of(out@) =~= models_of(before).push(m@));
            },
            Err(_) => {},
        }
        i = i + 1;
    }
    proof {
        assert(trees.take(i as int) =~= trees);
    }
    out
}

/// How many of the first `n` messages are stored now and were not before.
pub open spec fn new_among(found_before: Seq<bool>, saved: Seq<bool>, n: nat) -> nat
    decreases n,
{
    if n == 0 {
        0
    } else {
        new_among(found_before, saved, (n - 1) as nat) + if saved[n - 1] && !found_before[n - 1] {
            1nat
        } else {
            0nat
        }
    }
}

/// How many messages are new to the store: those that could be stored and were not found before.
pub fn newly_stored(found_before: &Vec<bool>, saved: &Vec<bool>) -> (r: usize)
    requires
        found_before@.len() == saved@.len(),
    ensures
        r == new_among(found_before@, saved@, saved@.len()),
        r <= saved@.len(),
{
    let mut count: usize = 0;
    let mut i: usize = 0;
    while i < saved.len()
        invariant
            found_before@.len() == saved@.len(),
            i <= saved@.len(),
            count <= i,
            count == new_among(found_before@, saved@, i as nat),
        decreases saved@.len() - i,
    {
        if saved[i] && !found_before[i] {
            count = count + 1;
        }
        i = i + 1;
    }
    count
}

/// Whether a message that the server has numbered is stored.
pub open spec fn is_found(t: Tables, m: MessageModel) -> bool {
    m.server_message_id matches Some(id) && t.find_message(m.channel_id, id) is Some
}

/// The message table after messages were stored one by one, and which of them were found just before.
/// `saved_well` says which could be stored, and `fresh` holds the keys that the database gives new rows.
pub open spec fn synced(
    t: Tables,
    messages: Seq<MessageModel>,
    saved_well: Seq<bool>,
    fresh: Seq<i64>,
) -> (Map<i64, MessageModel>, Seq<bool>)
    decreases messages.len(),
{
    if messages.len() == 0 {
        (t.messages, Seq::empty())
    } else {
        let i = messages.len() - 1;
        let (rows, found) = synced(t, messages.drop_last(), saved_well, fresh);
        let then = Tables { messages: rows, channels: t.channels };
        (
            if saved_well[i] {
                received::saved(then, messages[i], fresh[i]).0
            } else {
                rows
            },
            found.push(is_found(then, messages[i])),
        )
    }
}

/// Whether keys are new to the message table, and no two are the same.
pub open spec fn are_fresh(t: Tables, fresh: Seq<i64>) -> bool {
    &&& forall|i: int| 0 <= i < fresh.len() ==> !t.messages.dom().contains(#[trigger] fresh[i])
    &&& forall|i: int, j: int|
        0 <= i < j < fresh.len() ==> #[trigger] fresh[i] != #[trigger] fresh[j]
}

/// Whether a table keeps its rows as they are, and at most gains others.
pub open spec fn only_grows(before: Map<i64, MessageModel>, after: Map<i64, MessageModel>) -> bool {
    forall|row: i64| #[trigger]
        before.dom().contains(row) ==> after.dom().contains(row) && after[row] == before[row]
}

proof fn lemma_found_stays(
    before: Map<i64, MessageModel>,
    after: Map<i64, MessageModel>,
    channels: Seq<ChannelModel>,
    m: MessageModel,
)
    requires
        only_grows(before, after),
        is_found(Tables { messages: before, channels }, m),
    ensures
        is_found(Tables { messages: after, channels }, m),
{
    let id = m.server_message_id->0;
    let row = Tables { messages: before, channels }.find_message(m.channel_id, id)->0;
    assert(before.dom().contains(row) && received::is_stored_as(before[row], m.channel_id, id));
    assert(after[row] == before[row]);
    let then = Tables { messages: after, channels };
    assert(then.messages.dom().contains(row) && received::is_stored_as(
        then.messages[row],
        m.channel_id,
        id,
    ));
    assert(then.find_message(m.channel_id, id) is Some);
}

proof fn lemma_synced(
    t: Tables,
    messages: Seq<MessageModel>,
    saved_well: Seq<bool>,
    fresh: Seq<i64>,
)
    requires
        t.messages.dom().finite(),
        messages.len() <= saved_well.len(),
        messages.len() <= fresh.len(),
        are_fresh(t, fresh),
    ensures
        ({
            let (rows, found) = synced(t, messages, saved_well, fresh);
            &&& found.len() == messages.len()
            &&& rows.dom().finite()
            &&& only_grows(t.messages, rows)
            &&& rows.dom().len() == t.messages.dom().len() + new_among(
                found,
                saved_well,
                messages.len(),
            )
            &&& forall|row: i64| #[trigger]
                rows.dom().contains(row) ==> t.messages.dom().contains(row) || exists|k: int|
                    0 <= k < messages.len() && #[trigger] fresh[k] == row
            &&& forall|j: int|
                0 <= j < messages.len() && saved_well[j] && (#[trigger] messages[j]).server_message_id is Some
                    && messages[j].is_deleted == 0 ==> is_found(
                    Tables { messages: rows, channels: t.channels },
                    messages[j],
                )
        }),
    decreases messages.len(),
{
    if messages.len() > 0 {
        let i = messages.len() - 1;
        let front = messages.drop_last();
        lemma_synced(t, front, saved_well, fresh);
        let (before, found_before) = synced(t, front, saved_well, fresh);
        let (rows, found) = synced(t, messages, saved_well, fresh);
        let m = messages[i];
        let then = Tables { messages: before, channels: t.channels };
        let after = Tables { messages: rows, channels: t.channels };
        lemma_new_among_prefix(found_before, found, saved_well, i as nat);
        assert(!before.dom().contains(fresh[i])) by {
            if before.dom().contains(fresh[i]) {
                let k = choose|k: int| 0 <= k < front.len() && #[trigger] fresh[k] == fresh[i];
                assert(fresh[k] != fresh[i]);
            }
        }
        if saved_well[i] && !is_found(then, m) {
            assert(rows == before.insert(fresh[i], m));
            assert(rows.dom() =~= before.dom().insert(fresh[i]));
            if m.server_message_id is Some && m.is_deleted == 0 {
                let id = m.server_message_id->0;
                assert(after.messages.dom().contains(fresh[i]) && received::is_stored_as(
                    after.messages[fresh[i]],
                    m.channel_id,
                    id,
                ));
                assert(after.find_message(m.channel_id, id) is Some);
            }
        } else {
            assert(rows == before);
        }
        assert(only_grows(before, rows));
        assert(only_grows(t.messages, rows));
        assert forall|row: i64| #[trigger] rows.dom().contains(row) implies t.messages.dom().contains(
            row,
        ) || exists|k: int| 0 <= k < messages.len() && #[trigger] fresh[k] == row by {
            if before.dom().contains(row) {
                if !t.messages.dom().contains(row) {
                    let k = choose|k: int| 0 <= k < front.len() && #[trigger] fresh[k] == row;
                    assert(0 <= k < messages.len() && fresh[k] == row);
                }
            } else {
                assert(fresh[i] == row);
            }
        }
        assert forall|j: int|
            0 <= j < messages.len() && saved_well[j] && (#[trigger] messages[j]).server_message_id is Some
                && messages[j].is_deleted == 0 implies is_found(after, messages[j]) by {
            if j < i {
                assert(front[j] == messages[j]);
                lemma_found_stays(before, rows, t.channels, messages[j]);
            }
        }
    }
}

proof fn lemma_new_among_prefix(a: Seq<bool>, b: Seq<bool>, saved: Seq<bool>, n: nat)
    requires
        n <= a.len(),
        n <= b.len(),
        forall|i: int| 0 <= i < n ==> a[i] == b[i],
    ensures
        new_among(a, saved, n) == new_among(b, saved, n),
    decreases n,
{
    if n > 0 {
        lemma_new_among_prefix(a, b, saved, (n - 1) as nat);
    }
}

proof fn lemma_synced_again(
    t: Tables,
    messages: Seq<MessageModel>,
    saved_well: Seq<bool>,
    fresh: Seq<i64>,
)
    requires
        messages.len() <= saved_well.len(),
        forall|j: int| 0 <= j < messages.len() ==> is_found(t, #[trigger] messages[j]),
    ensures
        synced(t, messages, saved_well, fresh).0 == t.messages,
        synced(t, messages, saved_well, fresh).1.len() == messages.len(),
        new_among(synced(t, messages, saved_well, fresh).1, saved_well, messages.len()) == 0,
    decreases messages.len(),
{
    if messages.len() > 0 {
        let i = messages.len() - 1;
        let front = messages.drop_last();
        assert forall|j: int| 0 <= j < front.len() implies is_found(t, #[trigger] front[j]) by {
            assert(front[j] == messages[j]);
        }
        lemma_synced_again(t, front, saved_well, fresh);
        let found_before = synced(t, front, saved_well, fresh).1;
        let found = synced(t, messages, saved_well, fresh).1;
        assert(is_found(t, messages[i]));
        assert(Tables { messages: t.messages, channels: t.channels } == t);
        lemma_new_among_prefix(found_before, found, saved_well, i as nat);
    }
}

/// Storing an answer counts exactly the messages that were not stored before: as many as the message
/// table has grown by. Storing an answer a second time, once all its messages could be stored, adds
/// nothing and counts 0, however the second attempts go. The messages are those that the server has
/// numbered.
pub proof fn law_a_second_sync_adds_nothing(
    t: Tables,
    messages: Seq<MessageModel>,
    saved_well: Seq<bool>,
    fresh: Seq<i64>,
    again: Seq<bool>,
    other: Seq<i64>,
)
    requires
        t.messages.dom().finite(),
        saved_well.len() == messages.len(),
        again.len() == messages.len(),
        messages.len() <= fresh.len(),
        are_fresh(t, fresh),
        forall|j: int|
            0 <= j < messages.len() ==> (#[trigger] messages[j]).server_message_id is Some
                && messages[j].is_deleted == 0,
    ensures
        ({
            let (rows, found) = synced(t, messages, saved_well, fresh);
            let then = Tables { messages: rows, channels: t.channels };
            let (rows_again, found_again) = synced(then, messages, again, other);
            &&& only_grows(t.messages, rows)
            &&& rows.dom().len() == t.messages.dom().len() + new_among(
                found,
                saved_well,
                messages.len(),
            )
            &&& (forall|j: int| 0 <= j < messages.len() ==> #[trigger] saved_well[j]) ==> {
                &&& rows_again == rows
                &&& new_among(found_again, again, messages.len()) == 0
            }
        }),
{
    lemma_synced(t, messages, saved_well, fresh);
    let rows = synced(t, messages, saved_well, fresh).0;
    let then = Tables { messages: rows, channels: t.channels };
    if forall|j: int| 0 <= j < messages.len() ==> #[trigger] saved_well[j] {
        assert forall|j: int| 0 <= j < messages.len() implies is_found(
            then,
            #[trigger] messages[j],
        ) by {
            assert(saved_well[j]);
        }
        lemma_synced_again(then, messages, again, other);
    }
}

/// The messages of a channel that the server's answer holds, received now.
pub fn history_messages(response: &JsonValue, channel_id: u64) -> (r: Vec<Message>)
    ensures
        exists|now: i64|
            models_of(r@) == #[trigger] messages_in(history_items(response@), channel_id, now),
{
    let now: i64 = now_millis();
    history_at(response, channel_id, now)
}

/// A channel is the direct one where both are known, and a channel that is not known cannot be changed;
/// nor can any before the start.
pub proof fn law_a_known_channel_is_changed<'a>(
    sdk: PrivchatSDK,
    channel_id: u64,
    as_direct: Option<&'a Channel>,
    as_group: Option<&'a Channel>,
)
    ensures
        ({
            let r = changed_channel(sdk, channel_id, as_direct, as_group);
            &&& state::lifecycle_fault(sdk) matches Some(e) ==> r == Err::<&'a Channel, _>(e)
            &&& state::lifecycle_fault(sdk) is None ==> {
                &&& as_direct matches Some(c) ==> r == Ok::<_, ErrorModel>(c)
                &&& as_direct is None && as_group is Some ==> r == Ok::<_, ErrorModel>(as_group->0)
                &&& as_direct is None && as_group is None ==> r == Err::<&'a Channel, _>(
                    ErrorModel::InvalidInput(
                        "会话不存在: channel_id="@ + text::decimal(channel_id as nat),
                    ),
                )
            }
        }),
{
}

/// Only direct conversations and groups are types of channels.
pub proof fn law_there_are_two_types_of_channels(channel_type: i32)
    ensures
        is_channel_type(channel_type) <==> 1 <= channel_type <= 2,
{
}

/// The logged-in user is known just after the start and a login.
pub proof fn law_a_user_is_logged_in(sdk: PrivchatSDK)
    ensures
        logged_in(sdk) is Ok <==> state::lifecycle_fault(sdk) is None && sdk.state.current_user_id is Some,
        logged_in(sdk) matches Ok(id) ==> sdk.state.current_user_id == Some(id),
        state::lifecycle_fault(sdk) matches Some(e) ==> logged_in(sdk) == Err::<u64, _>(e),
        state::lifecycle_fault(sdk) is None && sdk.state.current_user_id is None ==> logged_in(sdk) == Err::<
            u64,
            _,
        >(ErrorModel::NotConnected),
{
}

/// A device is summed up as it is listed.
pub proof fn law_a_device_is_summed_up_as_listed(item: DeviceItem)
    ensures
        ({
            let s = summary_of(item);
            &&& s.device_id == item.device_id@ && s.device_name == item.device_name@
            &&& s.device_model == Some(item.device_model@) && s.device_type == Some(item.device_type@)
            &&& s.app_id == Some(item.app_id@) && s.ip_address == Some(item.ip_address@)
            &&& s.last_active_at == Some(item.last_active_at@) && s.created_at == Some(item.created_at@)
            &&& s.is_current == item.is_current
        }),
{
}

/// History gives every item that has a sender as a message of the channel, in order, and leaves out the
/// others.
pub proof fn law_history_leaves_out_only_what_has_no_sender(
    items: Seq<JsonTree>,
    item: JsonTree,
    channel_id: u64,
    now: i64,
)
    ensures
        ({
            let before = messages_in(items, channel_id, now);
            let after = messages_in(items.push(item), channel_id, now);
            let readable = item.u64_at("from_uid"@) is Some || item.u64_at("sender_id"@) is Some;
            &&& !readable ==> after == before
            &&& readable ==> after.len() == before.len() + 1 && after.drop_last() == before && after.last(
            ).channel_id == channel_id && after.last().timestamp == wire::message_time_of(item) && (item.u64_at(
                "from_uid"@,
            ) is Some ==> Some(after.last().from_uid) == item.u64_at("from_uid"@))
        }),
        messages_in(Seq::empty(), channel_id, now).len() == 0,
        history_items(item) == (if item.get("messages"@) matches Some(JsonTree::Array(list)) {
            item.get("messages"@)->0->Array_0
        } else {
            Seq::empty()
        }),
{
    assert(items.push(item).drop_last() =~= items);
    let before = messages_in(items, channel_id, now);
    let after = messages_in(items.push(item), channel_id, now);
    if item.u64_at("from_uid"@) is Some || item.u64_at("sender_id"@) is Some {
        assert(after.drop_last() =~= before);
    }
}

/// A message counts as new just where it was saved and had not been there.
pub proof fn law_new_messages_are_counted_once(found_before: Seq<bool>, saved: Seq<bool>, n: nat)
    ensures
        new_among(found_before, saved, 0) == 0,
        saved[n as int] && !found_before[n as int] ==> new_among(found_before, saved, n + 1) == new_among(
            found_before,
            saved,
            n,
        ) + 1,
        !saved[n as int] || found_before[n as int] ==> new_among(found_before, saved, n + 1) == new_among(
            found_before,
            saved,
            n,
        ),
{
}

/// The known systems go by their own names, and every other by none.
pub proof fn law_systems_go_by_their_names(os: Seq<char>)
    ensures
        os == "windows"@ || os == "linux"@ || os == "android"@ ==> platform_name(os).skip(1) == os.skip(1)
            && platform_name(os)[0] as int == os[0] as int - 32,
        os == "macos"@ ==> platform_name(os) == "mac"@ + "OS"@,
        os == "ios"@ ==> platform_name(os) == "i"@ + "OS"@,
        os != "windows"@ && os != "linux"@ && os != "android"@ && os != "macos"@ && os != "ios"@
            ==> platform_name(os) == "Unknown"@,
{
    reveal_strlit("windows");
    reveal_strlit("linux");
    reveal_strlit("android");
    reveal_strlit("macos");
    reveal_strlit("ios");
    reveal_strlit("Windows");
    reveal_strlit("Linux");
    reveal_strlit("Android");
    reveal_strlit("macOS");
    reveal_strlit("iOS");
    reveal_strlit("mac");
    reveal_strlit("i");
    reveal_strlit("OS");
    assert("windows"@.len() == 7 && "linux"@.len() == 5 && "android"@.len() == 7 && "macos"@.len() == 5
        && "ios"@.len() == 3);
    assert("windows"@[0] == 'w' && "android"@[0] == 'a' && "linux"@[0] == 'l' && "macos"@[0] == 'm');
    assert("Windows"@.skip(1) =~= "windows"@.skip(1));
    assert("Linux"@.skip(1) =~= "linux"@.skip(1));
    assert("Android"@.skip(1) =~= "android"@.skip(1));
}

} // verus!
