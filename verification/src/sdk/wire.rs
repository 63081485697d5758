//! Messages and channels as the server sends them.

use vstd::prelude::*;
use crate::clock;
use crate::clock::{now_millis, parse_formatted, parse_rfc3339};
use crate::error::{ErrorModel, PrivchatSDKError};
use crate::json::{JsonTree, JsonValue};
use crate::storage::entities::{Channel, ChannelModel, Message, MessageModel};
use crate::text;
use crate::text::u64_text;

verus! {

/// The format of dates that are not quite RFC 3339.
pub open spec fn loose_date_format() -> Seq<char> {
    "%Y-%m-%dT%H:%M:%S%.3f%z"@
}

/// The time of a date text: RFC 3339, or else the looser format.
pub open spec fn date_text_millis(s: Seq<char>) -> Option<i64> {
    match clock::rfc3339_millis(s) {
        Some(ms) => Some(ms),
        None => clock::formatted_millis(s, loose_date_format()),
    }
}

/// The time that a message states: a number, or a date text.
pub open spec fn message_time_of(t: JsonTree) -> Option<i64> {
    match t.get("timestamp"@) {
        Some(v) => match v.as_i64() {
            Some(ms) => Some(ms),
            None => match v.as_str() {
                Some(s) => date_text_millis(s),
                None => None,
            },
        },
        None => None,
    }
}

/// The sender that a message names: `from_uid`, or else `sender_id`.
pub open spec fn sender_of(t: JsonTree) -> Option<u64> {
    match t.u64_at("from_uid"@) {
        Some(uid) => Some(uid),
        None => t.u64_at("sender_id"@),
    }
}

/// The type of a message by its business metadata: image, video, audio or file, in this order;
/// text where the metadata names none.
pub open spec fn message_type_of(t: JsonTree) -> i32 {
    match t.get("metadata"@) {
        Some(m) => if m.get("image"@) is Some {
            2
        } else if m.get("video"@) is Some {
            3
        } else if m.get("audio"@) is Some {
            4
        } else if m.get("file"@) is Some {
            5
        } else {
            1
        },
        None => 1,
    }
}

/// The message that JSON from the server describes, received at `now` and stating `timestamp`.
pub open spec fn message_of_tree(
    t: JsonTree,
    channel_id: u64,
    now: i64,
    timestamp: Option<i64>,
) -> Result<MessageModel, ErrorModel> {
    match sender_of(t) {
        None => Err(ErrorModel::Other("缺少 from_uid 或 sender_id"@)),
        Some(from_uid) => Ok(MessageModel {
            id: None,
            server_message_id: t.u64_at("message_id"@),
            pts: t.i64_or("pts"@, 0),
            channel_id,
            channel_type: t.i64_or("channel_type"@, 0) as i32,
            timestamp,
            from_uid,
            message_type: message_type_of(t),
            content: t.str_or_empty("content"@),
            status: t.i64_or("status"@, 0) as i32,
            voice_status: t.i64_or("voice_status"@, 0) as i32,
            created_at: t.i64_or("created_at"@, now),
            updated_at: t.i64_or("updated_at"@, now),
            searchable_word: t.str_or_empty("searchable_word"@),
            local_message_id: 0,
            is_deleted: t.i64_or("is_deleted"@, 0) as i32,
            setting: t.i64_or("setting"@, 0) as i32,
            order_seq: t.i64_or("order_seq"@, 0),
            extra: t.str_or_empty("extra"@),
            flame: t.i64_or("flame"@, 0) as i16,
            flame_second: t.i64_or("flame_second"@, 0) as i32,
            viewed: t.i64_or("viewed"@, 0) as i16,
            viewed_at: t.i64_or("viewed_at"@, 0),
            topic_id: t.str_or_empty("topic_id"@),
            expire_time: t.i64_at("expire_time"@),
            expire_timestamp: t.i64_at("expire_timestamp"@),
            revoked: t.i64_or("revoked"@, 0) as i16,
            revoked_at: t.i64_or("revoked_at"@, 0),
            revoked_by: t.u64_at("revoked_by"@),
        }),
    }
}

/// The type of a channel: `Direct` and unknown names count as 0, `Group` as 2, a number as itself.
pub open spec fn channel_type_of(t: JsonTree) -> i32 {
    match t.get("channel_type"@) {
        Some(v) => match v.as_str() {
            Some(s) => if s == "Group"@ {
                2
            } else {
                0
            },
            None => match v.as_i64() {
                Some(i) => i as i32,
                None => 0,
            },
        },
        None => 0,
    }
}

/// The other user of a direct channel, seen from the current user.
pub open spec fn peer_of(t: JsonTree, channel_type: i32, current_user_id: u64) -> Option<u64> {
    if channel_type != 0 {
        None
    } else {
        match (t.u64_at("direct_user1_id"@), t.u64_at("direct_user2_id"@)) {
            (Some(a), Some(b)) => if a == current_user_id {
                Some(b)
            } else {
                Some(a)
            },
            (Some(a), None) => if a != current_user_id {
                Some(a)
            } else {
                None
            },
            (None, Some(b)) => if b != current_user_id {
                Some(b)
            } else {
                None
            },
            (None, None) => None,
        }
    }
}

/// The display name that the member list gives a user; empty where it gives none.
pub open spec fn member_display_name(t: JsonTree, uid: u64) -> Seq<char> {
    match t.get("members"@) {
        Some(members) => match members.get(text::decimal(uid as nat)) {
            Some(member) => member.str_or_empty("display_name"@),
            None => Seq::empty(),
        },
        None => Seq::empty(),
    }
}

/// The user name of a channel: of a direct channel the id of the other user where it is known.
pub open spec fn channel_username(t: JsonTree, channel_type: i32, current_user_id: u64) -> Seq<char> {
    match peer_of(t, channel_type, current_user_id) {
        Some(uid) => text::decimal(uid as nat),
        None => t.str_or_empty("username"@),
    }
}

/// The name that a channel states: `channel_name`, or else the name in its metadata.
pub open spec fn stated_channel_name(t: JsonTree) -> Seq<char> {
    match t.str_at("channel_name"@) {
        Some(s) => s,
        None => match t.get("metadata"@) {
            Some(m) => m.str_or_empty("name"@),
            None => Seq::empty(),
        },
    }
}

/// The name of a channel: of a direct channel the other user's display name where the member list
/// gives one, else the name that the channel states.
pub open spec fn channel_title(t: JsonTree, channel_type: i32, current_user_id: u64) -> Seq<char> {
    let peer_name = match peer_of(t, channel_type, current_user_id) {
        Some(uid) => member_display_name(t, uid),
        None => Seq::empty(),
    };
    if peer_name.len() > 0 {
        peer_name
    } else {
        stated_channel_name(t)
    }
}

/// The id of the last message that a channel states.
pub open spec fn last_message_id_of(t: JsonTree) -> u64 {
    match t.u64_at("last_message_id"@) {
        Some(id) => id,
        None => match t.u64_at("last_local_message_id"@) {
            Some(id) => id,
            None => 0,
        },
    }
}

/// The time of the last message that a channel states: a date text or a number under
/// `last_message_at`, or else a number under `last_msg_timestamp`.
pub open spec fn last_message_time_of(t: JsonTree) -> Option<i64> {
    let stated = match t.get("last_message_at"@) {
        Some(v) => match v.as_str() {
            Some(s) => clock::rfc3339_millis(s),
            None => v.as_i64(),
        },
        None => None,
    };
    match stated {
        Some(ms) => Some(ms),
        None => t.i64_at("last_msg_timestamp"@),
    }
}

/// The id of a channel: `id`, or else `channel_id`.
pub open spec fn channel_id_of(t: JsonTree) -> Option<u64> {
    match t.u64_at("id"@) {
        Some(id) => Some(id),
        None => t.u64_at("channel_id"@),
    }
}

/// The channel that JSON from the server describes, received at `now`, whose last message was at
/// `last_msg_timestamp`.
pub open spec fn channel_of_tree(
    t: JsonTree,
    current_user_id: u64,
    now: i64,
    last_msg_timestamp: Option<i64>,
) -> Result<ChannelModel, ErrorModel> {
    match channel_id_of(t) {
        None => Err(ErrorModel::Other("缺少 id 或 channel_id"@)),
        Some(channel_id) => {
            let channel_type = channel_type_of(t);
            Ok(ChannelModel {
            id: None,
            channel_id,
            channel_type,
            last_local_message_id: last_message_id_of(t),
            last_msg_timestamp,
            last_msg_content: t.str_or_empty("last_msg_content"@),
            unread_count: t.i64_or("unread_count"@, 0) as i32,
            last_msg_pts: t.i64_or("last_msg_pts"@, 0),
            show_nick: t.i64_or("show_nick"@, 0) as i32,
            username: channel_username(t, channel_type, current_user_id),
            channel_name: channel_title(t, channel_type, current_user_id),
            channel_remark: t.str_or_empty("channel_remark"@),
            top: t.i64_or("top"@, 0) as i32,
            mute: t.i64_or("mute"@, 0) as i32,
            save: t.i64_or("save"@, 0) as i32,
            forbidden: t.i64_or("forbidden"@, 0) as i32,
            follow: t.i64_or("follow"@, 0) as i32,
            is_deleted: t.i64_or("is_deleted"@, 0) as i32,
            receipt: t.i64_or("receipt"@, 0) as i32,
            status: t.i64_or("status"@, 1) as i32,
            invite: t.i64_or("invite"@, 0) as i32,
            robot: t.i64_or("robot"@, 0) as i32,
            version: t.i64_or("version"@, 0),
            online: t.i64_or("online"@, 0) as i16,
            last_offline: t.i64_or("last_offline"@, 0),
            avatar: t.str_or_empty("avatar"@),
            category: t.str_or_empty("category"@),
            extra: t.str_or_empty("extra"@),
            created_at: t.i64_or("created_at"@, now),
            updated_at: t.i64_or("updated_at"@, now),
            avatar_cache_key: t.str_or_empty("avatar_cache_key"@),
            remote_extra: t.str_at("remote_extra"@),
            flame: t.i64_or("flame"@, 0) as i16,
            flame_second: t.i64_or("flame_second"@, 0) as i32,
            device_flag: t.i64_or("device_flag"@, 0) as i32,
            parent_channel_id: match t.u64_at("parent_channel_id"@) {
                Some(p) => p,
                None => 0,
            },
            parent_channel_type: t.i64_or("parent_channel_type"@, 0) as i32,
            })
        },
    }
}

/// The sender that a message names.
fn sender(value: &JsonValue) -> (r: Option<u64>)
    ensures
        r == sender_of(value@),
{
    match value.u64_at("from_uid") {
        Some(uid) => Some(uid),
        None => value.u64_at("sender_id"),
    }
}

/// The time that a message states.
pub fn message_time(value: &JsonValue) -> (r: Option<i64>)
    ensures
        r == message_time_of(value@),
{
    match value.get("timestamp") {
        Some(v) => match v.as_i64() {
            Some(ms) => Some(ms),
            None => match v.as_str() {
                Some(s) => match parse_rfc3339(s) {
                    Some(ms) => Some(ms),
                    None => parse_formatted(s, "%Y-%m-%dT%H:%M:%S%.3f%z"),
                },
                None => None,
            },
        },
        None => None,
    }
}

/// The type of a message by its business metadata.
pub fn message_type(value: &JsonValue) -> (r: i32)
    ensures
        r == message_type_of(value@),
{
    match value.get("metadata") {
        Some(m) => if m.contains_key("image") {
            2
        } else if m.contains_key("video") {
            3
        } else if m.contains_key("audio") {
            4
        } else if m.contains_key("file") {
            5
        } else {
            1
        },
        None => 1,
    }
}

/// Builds the message that JSON from the server describes, received at `now` and stating
/// `timestamp`.
pub fn message_from_json(
    value: &JsonValue,
    channel_id: u64,
    now: i64,
    timestamp: Option<i64>,
) -> (r: Result<Message, PrivchatSDKError>)
    ensures
        match r {
            Ok(m) => message_of_tree(value@, channel_id, now, timestamp) == Ok::<_, ErrorModel>(m@),
            Err(e) => message_of_tree(value@, channel_id, now, timestamp) == Err::<MessageModel, _>(
                e@,
            ),
        },
{
    let from_uid = match sender(value) {
        Some(uid) => uid,
        None => return Err(PrivchatSDKError::Other("缺少 from_uid 或 sender_id".to_owned())),
    };
    let message_type = message_type(value);
    Ok(Message {
        id: None,
        server_message_id: value.u64_at("message_id"),
        pts: value.i64_or("pts", 0),
        channel_id,
        channel_type: #[verifier::truncate] (value.i64_or("channel_type", 0) as i32),
        timestamp,
        from_uid,
        message_type,
        content: value.str_or_empty("content"),
        status: #[verifier::truncate] (value.i64_or("status", 0) as i32),
        voice_status: #[verifier::truncate] (value.i64_or("voice_status", 0) as i32),
        created_at: value.i64_or("created_at", now),
        updated_at: value.i64_or("updated_at", now),
        searchable_word: value.str_or_empty("searchable_word"),
        local_message_id: 0,
        is_deleted: #[verifier::truncate] (value.i64_or("is_deleted", 0) as i32),
        setting: #[verifier::truncate] (value.i64_or("setting", 0) as i32),
        order_seq: value.i64_or("order_seq", 0),
        extra: value.str_or_empty("extra"),
        flame: #[verifier::truncate] (value.i64_or("flame", 0) as i16),
        flame_second: #[verifier::truncate] (value.i64_or("flame_second", 0) as i32),
        viewed: #[verifier::truncate] (value.i64_or("viewed", 0) as i16),
        viewed_at: value.i64_or("viewed_at", 0),
        topic_id: value.str_or_empty("topic_id"),
        expire_time: value.i64_at("expire_time"),
        expire_timestamp: value.i64_at("expire_timestamp"),
        revoked: #[verifier::truncate] (value.i64_or("revoked", 0) as i16),
        revoked_at: value.i64_or("revoked_at", 0),
        revoked_by: value.u64_at("revoked_by"),
    })
}

/// Builds the message that JSON from the server describes, received at `now`.
pub fn parse_message_at(value: &JsonValue, channel_id: u64, now: i64) -> (r: Result<
    Message,
    PrivchatSDKError,
>)
    ensures
        match r {
            Ok(m) => message_of_tree(value@, channel_id, now, message_time_of(value@)) == Ok::<
                _,
                ErrorModel,
            >(m@),
            Err(e) => message_of_tree(value@, channel_id, now, message_time_of(value@)) == Err::<
                MessageModel,
                _,
            >(e@),
        },
{
    message_from_json(value, channel_id, now, message_time(value))
}

/// Builds the message that JSON from the server describes, received now.
pub fn parse_message_from_json(value: &JsonValue, channel_id: u64) -> (r: Result<
    Message,
    PrivchatSDKError,
>)
    ensures
        exists|now: i64|
            match r {
                Ok(m) => #[trigger] message_of_tree(
                    value@,
                    channel_id,
                    now,
                    message_time_of(value@),
                ) == Ok::<_, ErrorModel>(m@),
                Err(e) => message_of_tree(value@, channel_id, now, message_time_of(value@)) == Err::<
                    MessageModel,
                    _,
                >(e@),
            },
{
    let now: i64 = now_millis();
    parse_message_at(value, channel_id, now)
}

/// The type of a channel.
pub fn channel_type(value: &JsonValue) -> (r: i32)
    ensures
        r == channel_type_of(value@),
{
    match value.get("channel_type") {
        Some(v) => match v.as_str() {
            Some(s) => if text::same_text(s, "Group") {
                2
            } else {
                0
            },
            None => match v.as_i64() {
                Some(i) => #[verifier::truncate] (i as i32),
                None => 0,
            },
        },
        None => 0,
    }
}

/// The other user of a direct channel, seen from the current user.
pub fn peer(value: &JsonValue, channel_type: i32, current_user_id: u64) -> (r: Option<u64>)
    ensures
        r == peer_of(value@, channel_type, current_user_id),
{
    if channel_type != 0 {
        return None;
    }
    match (value.u64_at("direct_user1_id"), value.u64_at("direct_user2_id")) {
        (Some(a), Some(b)) => if a == current_user_id {
            Some(b)
        } else {
            Some(a)
        },
        (Some(a), None) => if a != current_user_id {
            Some(a)
        } else {
            None
        },
        (None, Some(b)) => if b != current_user_id {
            Some(b)
        } else {
            None
        },
        (None, None) => None,
    }
}

fn display_name_of_member(value: &JsonValue, uid: u64) -> (r: String)
    ensures
        r@ == member_display_name(value@, uid),
{
    match value.get("members") {
        Some(members) => match members.get(u64_text(uid).as_str()) {
            Some(member) => member.str_or_empty("display_name"),
            None => String::new(),
        },
        None => String::new(),
    }
}

fn channel_name_as_stated(value: &JsonValue) -> (r: String)
    ensures
        r@ == stated_channel_name(value@),
{
    match value.str_at("channel_name") {
        Some(s) => s,
        None => match value.get("metadata") {
            Some(m) => m.str_or_empty("name"),
            None => String::new(),
        },
    }
}

fn last_message_id(value: &JsonValue) -> (r: u64)
    ensures
        r == last_message_id_of(value@),
{
    match value.u64_at("last_message_id") {
        Some(id) => id,
        None => match value.u64_at("last_local_message_id") {
            Some(id) => id,
            None => 0,
        },
    }
}

/// The time of the last message that a channel states.
pub fn last_message_time(value: &JsonValue) -> (r: Option<i64>)
    ensures
        r == last_message_time_of(value@),
{
    let stated: Option<i64> = match value.get("last_message_at") {
        Some(v) => match v.as_str() {
            Some(s) => parse_rfc3339(s),
            None => v.as_i64(),
        },
        None => None,
    };
    match stated {
        Some(ms) => Some(ms),
        None => value.i64_at("last_msg_timestamp"),
    }
}

/// Builds the channel that JSON from the server describes, received at `now`, whose last message
/// was at `last_msg_timestamp`. For a direct channel the other user is looked for from the current
/// user's side.
pub fn channel_from_json(
    value: &JsonValue,
    current_user_id: u64,
    now: i64,
    last_msg_timestamp: Option<i64>,
) -> (r: Result<Channel, PrivchatSDKError>)
    ensures
        match r {
            Ok(c) => channel_of_tree(value@, current_user_id, now, last_msg_timestamp) == Ok::<
                _,
                ErrorModel,
            >(c@),
            Err(e) => channel_of_tree(value@, current_user_id, now, last_msg_timestamp) == Err::<
                ChannelModel,
                _,
            >(e@),
        },
{
    let channel_id = match value.u64_at("id") {
        Some(id) => id,
        None => match value.u64_at("channel_id") {
            Some(id) => id,
            None => return Err(PrivchatSDKError::Other("缺少 id 或 channel_id".to_owned())),
        },
    };
    let channel_type = channel_type(value);
    let other = peer(value, channel_type, current_user_id);
    let (name_of_peer, username) = match other {
        Some(uid) => (display_name_of_member(value, uid), u64_text(uid)),
        None => (String::new(), value.str_or_empty("username")),
    };
    let channel_name = if name_of_peer.as_str().is_empty() {
        channel_name_as_stated(value)
    } else {
        name_of_peer
    };
    Ok(Channel {
        id: None,
        channel_id,
        channel_type,
        last_local_message_id: last_message_id(value),
        last_msg_timestamp,
        last_msg_content: value.str_or_empty("last_msg_content"),
        unread_count: #[verifier::truncate] (value.i64_or("unread_count", 0) as i32),
        last_msg_pts: value.i64_or("last_msg_pts", 0),
        show_nick: #[verifier::truncate] (value.i64_or("show_nick", 0) as i32),
        username,
        channel_name,
        channel_remark: value.str_or_empty("channel_remark"),
        top: #[verifier::truncate] (value.i64_or("top", 0) as i32),
        mute: #[verifier::truncate] (value.i64_or("mute", 0) as i32),
        save: #[verifier::truncate] (value.i64_or("save", 0) as i32),
        forbidden: #[verifier::truncate] (value.i64_or("forbidden", 0) as i32),
        follow: #[verifier::truncate] (value.i64_or("follow", 0) as i32),
        is_deleted: #[verifier::truncate] (value.i64_or("is_deleted", 0) as i32),
        receipt: #[verifier::truncate] (value.i64_or("receipt", 0) as i32),
        status: #[verifier::truncate] (value.i64_or("status", 1) as i32),
        invite: #[verifier::truncate] (value.i64_or("invite", 0) as i32),
        robot: #[verifier::truncate] (value.i64_or("robot", 0) as i32),
        version: value.i64_or("version", 0),
        online: #[verifier::truncate] (value.i64_or("online", 0) as i16),
        last_offline: value.i64_or("last_offline", 0),
        avatar: value.str_or_empty("avatar"),
        category: value.str_or_empty("category"),
        extra: value.str_or_empty("extra"),
        created_at: value.i64_or("created_at", now),
        updated_at: value.i64_or("updated_at", now),
        avatar_cache_key: value.str_or_empty("avatar_cache_key"),
        remote_extra: value.str_at("remote_extra"),
        flame: #[verifier::truncate] (value.i64_or("flame", 0) as i16),
        flame_second: #[verifier::truncate] (value.i64_or("flame_second", 0) as i32),
        device_flag: #[verifier::truncate] (value.i64_or("device_flag", 0) as i32),
        parent_channel_id: value.u64_at("parent_channel_id").unwrap_or(0),
        parent_channel_type: #[verifier::truncate] (value.i64_or("parent_channel_type", 0) as i32),
    })
}

/// Builds the channel that JSON from the server describes, received at `now`.
pub fn parse_channel_at(value: &JsonValue, current_user_id: u64, now: i64) -> (r: Result<
    Channel,
    PrivchatSDKError,
>)
    ensures
        match r {
            Ok(c) => channel_of_tree(value@, current_user_id, now, last_message_time_of(value@))
                == Ok::<_, ErrorModel>(c@),
            Err(e) => channel_of_tree(value@, current_user_id, now, last_message_time_of(value@))
                == Err::<ChannelModel, _>(e@),
        },
{
    channel_from_json(value, current_user_id, now, last_message_time(value))
}

/// Builds the channel that JSON from the server describes, received now.
pub fn parse_channel_from_json(value: &JsonValue, current_user_id: u64) -> (r: Result<
    Channel,
    PrivchatSDKError,
>)
    ensures
        exists|now: i64|
            match r {
                Ok(c) => #[trigger] channel_of_tree(
                    value@,
                    current_user_id,
                    now,
                    last_message_time_of(value@),
                ) == Ok::<_, ErrorModel>(c@),
                Err(e) => channel_of_tree(value@, current_user_id, now, last_message_time_of(value@))
                    == Err::<ChannelModel, _>(e@),
            },
{
    let now: i64 = now_millis();
    parse_channel_at(value, current_user_id, now)
}

/// A direct channel names the current user as the other side only where it names no one else.
pub proof fn law_peer_is_someone_else(t: JsonTree, channel_type: i32, current_user_id: u64)
    requires
        !(t.u64_at("direct_user1_id"@) == Some(current_user_id) && t.u64_at("direct_user2_id"@)
            == Some(current_user_id)),
    ensures
        peer_of(t, channel_type, current_user_id) != Some(current_user_id),
{
}

/// Both users of a direct channel see each other in it.
pub proof fn law_peers_see_each_other(t: JsonTree, a: u64, b: u64)
    requires
        t.u64_at("direct_user1_id"@) == Some(a),
        t.u64_at("direct_user2_id"@) == Some(b),
    ensures
        peer_of(t, 0, a) == Some(b),
        peer_of(t, 0, b) == Some(a),
        channel_username(t, 0, a) == text::decimal(b as nat),
        channel_username(t, 0, b) == text::decimal(a as nat),
{
}

/// Whether an object has a number under a name.
pub open spec fn has_number(t: JsonTree, name: Seq<char>, n: int) -> bool {
    t matches JsonTree::Object(fields) && fields.dom().contains(name) && fields[name] == JsonTree::Int(n)
}

/// Whether an object has a text under a name.
pub open spec fn has_text(t: JsonTree, name: Seq<char>, s: Seq<char>) -> bool {
    t matches JsonTree::Object(fields) && fields.dom().contains(name) && fields[name] == JsonTree::Text(s)
}

/// Whether an object has nothing under a name.
pub open spec fn lacks(t: JsonTree, name: Seq<char>) -> bool {
    t matches JsonTree::Object(fields) ==> !fields.dom().contains(name)
}

/// Whether JSON writes every part of a message under its name.
pub open spec fn writes_message(t: JsonTree, m: MessageModel) -> bool {
    &&& has_number(t, "pts"@, m.pts as int)
    &&& has_number(t, "channel_type"@, m.channel_type as int)
    &&& has_number(t, "status"@, m.status as int)
    &&& has_number(t, "voice_status"@, m.voice_status as int)
    &&& has_number(t, "created_at"@, m.created_at as int)
    &&& has_number(t, "updated_at"@, m.updated_at as int)
    &&& has_number(t, "is_deleted"@, m.is_deleted as int)
    &&& has_number(t, "setting"@, m.setting as int)
    &&& has_number(t, "order_seq"@, m.order_seq as int)
    &&& has_number(t, "flame"@, m.flame as int)
    &&& has_number(t, "flame_second"@, m.flame_second as int)
    &&& has_number(t, "viewed"@, m.viewed as int)
    &&& has_number(t, "viewed_at"@, m.viewed_at as int)
    &&& has_number(t, "revoked"@, m.revoked as int)
    &&& has_number(t, "revoked_at"@, m.revoked_at as int)
    &&& has_text(t, "content"@, m.content)
    &&& has_text(t, "searchable_word"@, m.searchable_word)
    &&& has_text(t, "extra"@, m.extra)
    &&& has_text(t, "topic_id"@, m.topic_id)
    &&& match m.server_message_id {
        Some(n) => has_number(t, "message_id"@, n as int),
        None => lacks(t, "message_id"@),
    }
    &&& match m.expire_time {
        Some(n) => has_number(t, "expire_time"@, n as int),
        None => lacks(t, "expire_time"@),
    }
    &&& match m.expire_timestamp {
        Some(n) => has_number(t, "expire_timestamp"@, n as int),
        None => lacks(t, "expire_timestamp"@),
    }
    &&& match m.revoked_by {
        Some(n) => has_number(t, "revoked_by"@, n as int),
        None => lacks(t, "revoked_by"@),
    }
}

/// A message that the server writes out in full is read back as it was, whoever of the two names holds
/// its sender.
pub proof fn law_a_message_is_read_as_it_was_written(t: JsonTree, m: MessageModel, now: i64)
    requires
        writes_message(t, m),
        m.id is None,
        m.local_message_id == 0,
        has_number(t, "from_uid"@, m.from_uid as int) || (lacks(t, "from_uid"@) && has_number(
            t,
            "sender_id"@,
            m.from_uid as int,
        )),
    ensures
        message_of_tree(t, m.channel_id, now, m.timestamp) matches Ok(read) && (MessageModel {
            message_type: m.message_type,
            ..read
        }) == m,
{
}

/// A message that states its sender and nothing else that is read is an ordinary text that came now,
/// and has no number, marks or words.
pub proof fn law_a_bare_message_is_read(
    t: JsonTree,
    sender: u64,
    channel_id: u64,
    now: i64,
    timestamp: Option<i64>,
)
    requires
        has_number(t, "from_uid"@, sender as int),
        lacks(t, "pts"@),
        lacks(t, "channel_type"@),
        lacks(t, "status"@),
        lacks(t, "voice_status"@),
        lacks(t, "created_at"@),
        lacks(t, "updated_at"@),
        lacks(t, "is_deleted"@),
        lacks(t, "setting"@),
        lacks(t, "order_seq"@),
        lacks(t, "flame"@),
        lacks(t, "flame_second"@),
        lacks(t, "viewed"@),
        lacks(t, "viewed_at"@),
        lacks(t, "revoked"@),
        lacks(t, "revoked_at"@),
        lacks(t, "content"@),
        lacks(t, "searchable_word"@),
        lacks(t, "extra"@),
        lacks(t, "topic_id"@),
        lacks(t, "message_id"@),
        lacks(t, "expire_time"@),
        lacks(t, "expire_timestamp"@),
        lacks(t, "revoked_by"@),
        lacks(t, "metadata"@),
    ensures
        message_of_tree(
            t,
            channel_id,
            now,
            timestamp,
        ) matches Ok(m) && {
            &&& m.from_uid == sender && m.channel_id == channel_id && m.timestamp == timestamp
            &&& m.created_at == now && m.updated_at == now
            &&& m.message_type == 1
            &&& m.id is None && m.server_message_id is None && m.local_message_id == 0
            &&& m.pts == 0
            &&& m.channel_type == 0
            &&& m.status == 0
            &&& m.voice_status == 0
            &&& m.is_deleted == 0
            &&& m.setting == 0
            &&& m.order_seq == 0
            &&& m.flame == 0
            &&& m.flame_second == 0
            &&& m.viewed == 0
            &&& m.viewed_at == 0
            &&& m.revoked == 0
            &&& m.revoked_at == 0
            &&& m.content.len() == 0
            &&& m.searchable_word.len() == 0
            &&& m.extra.len() == 0
            &&& m.topic_id.len() == 0
            &&& m.expire_time is None && m.expire_timestamp is None && m.revoked_by is None
        },
{
}

/// A message is what its metadata holds: an image 2, a video 3, a sound 4, a file 5, and where it holds
/// none of them, or is no object, a text 1. Where it holds several, the first of that order counts.
pub proof fn law_messages_are_told_apart_by_their_metadata(
    t: JsonTree,
    channel_id: u64,
    now: i64,
    timestamp: Option<i64>,
)
    requires
        message_of_tree(t, channel_id, now, timestamp) is Ok,
    ensures
        ({
            let kind = (message_of_tree(t, channel_id, now, timestamp)->Ok_0).message_type;
            match t.get("metadata"@) {
                Some(JsonTree::Object(held)) => {
                    &&& held.dom().contains("image"@) ==> kind == 2
                    &&& held.dom().contains("video"@) && !held.dom().contains("image"@) ==> kind == 3
                    &&& held.dom().contains("audio"@) && !held.dom().contains("image"@)
                        && !held.dom().contains("video"@) ==> kind == 4
                    &&& held.dom().contains("file"@) && !held.dom().contains("image"@)
                        && !held.dom().contains("video"@) && !held.dom().contains("audio"@) ==> kind == 5
                    &&& kind == 1 <==> !held.dom().contains("image"@) && !held.dom().contains("video"@)
                        && !held.dom().contains("audio"@) && !held.dom().contains("file"@)
                    &&& 1 <= kind <= 5
                },
                _ => kind == 1,
            }
        }),
{
}

/// A message without a sender is refused, and only that one; `from_uid` counts before `sender_id`.
pub proof fn law_a_message_needs_a_sender(
    t: JsonTree,
    channel_id: u64,
    now: i64,
    timestamp: Option<i64>,
)
    ensures
        message_of_tree(t, channel_id, now, timestamp) is Err <==> t.u64_at("from_uid"@) is None
            && t.u64_at("sender_id"@) is None,
        message_of_tree(t, channel_id, now, timestamp) matches Err(e) ==> e == ErrorModel::Other(
            "缺少 from_uid 或 sender_id"@,
        ),
        forall|uid: u64| has_number(t, "from_uid"@, uid as int) ==> (#[trigger] message_of_tree(
            t,
            channel_id,
            now,
            timestamp,
        ) matches Ok(m) && m.from_uid == uid),
        message_of_tree(t, channel_id, now, timestamp) matches Ok(m) ==> m.channel_id == channel_id
            && m.timestamp == timestamp,
{
}

/// The time of a message is the number it states, or the time its date text stands for, RFC 3339 before
/// the looser format; without either it has none.
pub proof fn law_a_stated_time_is_kept(t: JsonTree, ms: i64, s: Seq<char>)
    ensures
        has_number(t, "timestamp"@, ms as int) ==> message_time_of(t) == Some(ms),
        has_text(t, "timestamp"@, s) ==> message_time_of(t) == (if clock::rfc3339_millis(s) is Some {
            clock::rfc3339_millis(s)
        } else {
            clock::formatted_millis(s, "%Y-%m-%dT%H:%M:%S%.3f%z"@)
        }),
        lacks(t, "timestamp"@) ==> message_time_of(t) is None,
        has_number(t, "last_message_at"@, ms as int) ==> last_message_time_of(t) == Some(ms),
        has_text(t, "last_message_at"@, s) && clock::rfc3339_millis(s) is Some
            ==> last_message_time_of(t) == clock::rfc3339_millis(s),
        (lacks(t, "last_message_at"@) || (has_text(t, "last_message_at"@, s) && clock::rfc3339_millis(s)
            is None)) ==> (has_number(t, "last_msg_timestamp"@, ms as int) ==> last_message_time_of(t)
            == Some(ms)) && (lacks(t, "last_msg_timestamp"@) ==> last_message_time_of(t) is None),
{
}

/// Whether JSON writes every part of a channel under its name.
pub open spec fn writes_channel(t: JsonTree, c: ChannelModel) -> bool {
    &&& has_number(t, "unread_count"@, c.unread_count as int)
    &&& has_number(t, "last_msg_pts"@, c.last_msg_pts as int)
    &&& has_number(t, "show_nick"@, c.show_nick as int)
    &&& has_number(t, "top"@, c.top as int)
    &&& has_number(t, "mute"@, c.mute as int)
    &&& has_number(t, "save"@, c.save as int)
    &&& has_number(t, "forbidden"@, c.forbidden as int)
    &&& has_number(t, "follow"@, c.follow as int)
    &&& has_number(t, "is_deleted"@, c.is_deleted as int)
    &&& has_number(t, "receipt"@, c.receipt as int)
    &&& has_number(t, "status"@, c.status as int)
    &&& has_number(t, "invite"@, c.invite as int)
    &&& has_number(t, "robot"@, c.robot as int)
    &&& has_number(t, "version"@, c.version as int)
    &&& has_number(t, "online"@, c.online as int)
    &&& has_number(t, "last_offline"@, c.last_offline as int)
    &&& has_number(t, "created_at"@, c.created_at as int)
    &&& has_number(t, "updated_at"@, c.updated_at as int)
    &&& has_number(t, "flame"@, c.flame as int)
    &&& has_number(t, "flame_second"@, c.flame_second as int)
    &&& has_number(t, "device_flag"@, c.device_flag as int)
    &&& has_number(t, "parent_channel_type"@, c.parent_channel_type as int)
    &&& has_number(t, "parent_channel_id"@, c.parent_channel_id as int)
    &&& has_text(t, "last_msg_content"@, c.last_msg_content)
    &&& has_text(t, "channel_remark"@, c.channel_remark)
    &&& has_text(t, "avatar"@, c.avatar)
    &&& has_text(t, "category"@, c.category)
    &&& has_text(t, "extra"@, c.extra)
    &&& has_text(t, "avatar_cache_key"@, c.avatar_cache_key)
    &&& match c.remote_extra {
        Some(s) => has_text(t, "remote_extra"@, s),
        None => lacks(t, "remote_extra"@),
    }
    &&& has_number(t, "channel_type"@, c.channel_type as int)
    &&& has_text(t, "channel_name"@, c.channel_name)
    &&& has_text(t, "username"@, c.username)
}

/// A channel that the server writes out in full is read back as it was, under either of the names that
/// its id and its last message go by. A direct conversation that names its users is called by the other
/// one instead.
pub proof fn law_a_channel_is_read_as_it_was_written(t: JsonTree, c: ChannelModel, me: u64, now: i64)
    requires
        writes_channel(t, c),
        c.id is None,
        has_number(t, "id"@, c.channel_id as int) || (lacks(t, "id"@) && has_number(
            t,
            "channel_id"@,
            c.channel_id as int,
        )),
        has_number(t, "last_message_id"@, c.last_local_message_id as int) || (lacks(
            t,
            "last_message_id"@,
        ) && has_number(t, "last_local_message_id"@, c.last_local_message_id as int)),
        c.channel_type != 0 || (lacks(t, "direct_user1_id"@) && lacks(t, "direct_user2_id"@)),
    ensures
        channel_of_tree(t, me, now, c.last_msg_timestamp) == Ok::<_, ErrorModel>(c),
{
}

/// A channel that states its id and nothing else that is read is a direct conversation in use that came
/// now, without marks, names or messages.
pub proof fn law_a_bare_channel_is_read(t: JsonTree, id: u64, me: u64, now: i64, at: Option<i64>)
    requires
        has_number(t, "id"@, id as int),
        lacks(t, "unread_count"@),
        lacks(t, "last_msg_pts"@),
        lacks(t, "show_nick"@),
        lacks(t, "top"@),
        lacks(t, "mute"@),
        lacks(t, "save"@),
        lacks(t, "forbidden"@),
        lacks(t, "follow"@),
        lacks(t, "is_deleted"@),
        lacks(t, "receipt"@),
        lacks(t, "status"@),
        lacks(t, "invite"@),
        lacks(t, "robot"@),
        lacks(t, "version"@),
        lacks(t, "online"@),
        lacks(t, "last_offline"@),
        lacks(t, "created_at"@),
        lacks(t, "updated_at"@),
        lacks(t, "flame"@),
        lacks(t, "flame_second"@),
        lacks(t, "device_flag"@),
        lacks(t, "parent_channel_type"@),
        lacks(t, "parent_channel_id"@),
        lacks(t, "last_msg_content"@),
        lacks(t, "channel_remark"@),
        lacks(t, "avatar"@),
        lacks(t, "category"@),
        lacks(t, "extra"@),
        lacks(t, "avatar_cache_key"@),
        lacks(t, "channel_name"@),
        lacks(t, "username"@),
        lacks(t, "remote_extra"@),
        lacks(t, "channel_type"@),
        lacks(t, "last_message_id"@),
        lacks(t, "last_local_message_id"@),
        lacks(t, "direct_user1_id"@),
        lacks(t, "direct_user2_id"@),
        lacks(t, "metadata"@),
    ensures
        channel_of_tree(
            t,
            me,
            now,
            at,
        ) matches Ok(c) && {
            &&& c.channel_id == id && c.last_msg_timestamp == at
            &&& c.created_at == now && c.updated_at == now
            &&& c.channel_type == 0 && c.status == 1
            &&& c.id is None && c.last_local_message_id == 0
            &&& c.unread_count == 0
            &&& c.last_msg_pts == 0
            &&& c.show_nick == 0
            &&& c.top == 0
            &&& c.mute == 0
            &&& c.save == 0
            &&& c.forbidden == 0
            &&& c.follow == 0
            &&& c.is_deleted == 0
            &&& c.receipt == 0
            &&& c.invite == 0
            &&& c.robot == 0
            &&& c.version == 0
            &&& c.online == 0
            &&& c.last_offline == 0
            &&& c.flame == 0
            &&& c.flame_second == 0
            &&& c.device_flag == 0
            &&& c.parent_channel_type == 0
            &&& c.parent_channel_id == 0
            &&& c.last_msg_content.len() == 0
            &&& c.channel_remark.len() == 0
            &&& c.avatar.len() == 0
            &&& c.category.len() == 0
            &&& c.extra.len() == 0
            &&& c.avatar_cache_key.len() == 0
            &&& c.channel_name.len() == 0
            &&& c.username.len() == 0
            &&& c.remote_extra is None
        },
{
}

/// A channel without an id is refused, and only that one.
pub proof fn law_a_channel_needs_an_id(t: JsonTree, me: u64, now: i64, at: Option<i64>)
    ensures
        channel_of_tree(t, me, now, at) is Err <==> t.u64_at("id"@) is None && t.u64_at("channel_id"@)
            is None,
        channel_of_tree(t, me, now, at) matches Err(e) ==> e == ErrorModel::Other(
            "缺少 id 或 channel_id"@,
        ),
{
}

/// The kind of a channel is the number it states; `Group` counts as 2 and every other name as 0.
pub proof fn law_the_kind_of_a_channel_is_kept(
    t: JsonTree,
    me: u64,
    now: i64,
    at: Option<i64>,
    kind: i32,
    s: Seq<char>,
)
    requires
        channel_of_tree(t, me, now, at) is Ok,
    ensures
        ({
            let read = (channel_of_tree(t, me, now, at)->Ok_0).channel_type;
            &&& has_number(t, "channel_type"@, kind as int) ==> read == kind
            &&& has_text(t, "channel_type"@, "Group"@) ==> read == 2
            &&& has_text(t, "channel_type"@, s) && s != "Group"@ ==> read == 0
            &&& lacks(t, "channel_type"@) ==> read == 0
        }),
{
}

/// A direct conversation goes by the id of the user who is not the current one, and by that user's
/// display name where the member list has one; else by the name it states, and else by the name in its
/// metadata. Other channels go by what they state.
pub proof fn law_a_direct_channel_is_named_after_the_other_user(
    t: JsonTree,
    me: u64,
    other: u64,
    now: i64,
    at: Option<i64>,
    stated: Seq<char>,
)
    requires
        channel_of_tree(t, me, now, at) is Ok,
        me != other,
    ensures
        ({
            let c = channel_of_tree(t, me, now, at)->Ok_0;
            let both = (has_number(t, "direct_user1_id"@, me as int) && has_number(
                t,
                "direct_user2_id"@,
                other as int,
            )) || (has_number(t, "direct_user1_id"@, other as int) && has_number(
                t,
                "direct_user2_id"@,
                me as int,
            ));
            let alone = (has_number(t, "direct_user1_id"@, other as int) && lacks(t, "direct_user2_id"@))
                || (has_number(t, "direct_user2_id"@, other as int) && lacks(t, "direct_user1_id"@));
            &&& c.channel_type == 0 && (both || alone) ==> c.username == text::decimal(other as nat)
            &&& c.channel_type == 0 && (both || alone) && stated.len() > 0 && (t.get("members"@) matches
                Some(members) && members.get(text::decimal(other as nat)) matches Some(member)
                && has_text(member, "display_name"@, stated)) ==> c.channel_name == stated
            &&& has_text(t, "channel_name"@, stated) && (c.channel_type != 0 || lacks(t, "members"@))
                ==> c.channel_name == stated
            &&& lacks(t, "channel_name"@) && (c.channel_type != 0 || lacks(t, "members"@)) && (t.get(
                "metadata"@,
            ) matches Some(meta) && has_text(meta, "name"@, stated)) ==> c.channel_name == stated
            &&& c.channel_type != 0 && has_text(t, "username"@, stated) ==> c.username == stated
        }),
{
}

} // verus!
