//! The channel list as the user sees it: names, pictures, unread counts and the last message.

use vstd::prelude::*;
use crate::error::PrivchatSDKError;
use crate::events::{
    ChannelListEntry, ChannelListEntryModel, ChannelListUpdateKind, ChannelTags, LatestChannelEvent,
    LatestChannelEventModel, NotificationMode, SDKEvent, UnreadStats,
};
use crate::events;
use crate::json;
use crate::json::{JsonTree, JsonValue, parse_json, write_json};
use crate::storage::entities::{
    Channel, ChannelModel, Group, GroupModel, Message, MessageModel, User, UserModel, clone_text,
};
use crate::sdk::state;
use crate::sdk::state::PrivchatSDK;
use crate::text;
use crate::text::{same_text, text_begins_with, u64_text};

verus! {

/// Whether the extra data of a channel marks it as of low priority.
pub open spec fn marks_low_priority(extra: Option<JsonTree>) -> bool {
    match extra {
        Some(t) => t.bool_at("low_priority"@) == Some(true),
        None => false,
    }
}

/// Whether the extra data that `parsed` was read from marks its channel as of low priority.
pub fn low_priority_in(parsed: Option<JsonValue>) -> (r: bool)
    ensures
        r == marks_low_priority(
            match parsed {
                Some(v) => Some(v@),
                None => None,
            },
        ),
{
    match parsed {
        Some(v) => match v.bool_at("low_priority") {
            Some(b) => b,
            None => false,
        },
        None => false,
    }
}

/// Whether the extra data of a channel marks it as of low priority.
pub fn is_low_priority(extra: &str) -> (r: bool)
    ensures
        r == marks_low_priority(json::json_parsed(extra@)),
{
    low_priority_in(parse_json(extra))
}

/// Whether a member can be put into extra data: it is an object, empty, or no JSON at all.
pub open spec fn takes_members(extra: Option<JsonTree>) -> bool {
    match extra {
        Some(t) => t is Object || t is Null,
        None => true,
    }
}

/// The members of extra data; none where it is empty or no JSON.
pub open spec fn members_of(extra: Option<JsonTree>) -> Map<Seq<char>, JsonTree> {
    match extra {
        Some(JsonTree::Object(fields)) => fields,
        _ => Map::empty(),
    }
}

/// Extra data with the priority mark set.
pub fn with_low_priority(parsed: Option<JsonValue>, low_priority: bool) -> (r: JsonValue)
    requires
        takes_members(
            match parsed {
                Some(v) => Some(v@),
                None => None,
            },
        ),
        parsed matches Some(v) ==> json::json_depth(v) <= 127,
    ensures
        r@ == JsonTree::Object(
            members_of(
                match parsed {
                    Some(v) => Some(v@),
                    None => None,
                },
            ).insert("low_priority"@, JsonTree::Bool(low_priority)),
        ),
        json::json_depth(r) <= 127,
{
    let mut object = match parsed {
        Some(v) => if v.is_object() {
            v
        } else {
            JsonValue::object()
        },
        None => JsonValue::object(),
    };
    object.set("low_priority", JsonValue::Bool(low_priority));
    object
}

/// The extra data of a channel with the priority mark set; nothing where it can take no members.
pub fn extra_with_low_priority(extra: &str, low_priority: bool) -> (r: Option<String>)
    ensures
        r is Some <==> takes_members(json::json_parsed(extra@)),
        r matches Some(s) ==> s@ == json::json_text(
            JsonTree::Object(
                members_of(json::json_parsed(extra@)).insert(
                    "low_priority"@,
                    JsonTree::Bool(low_priority),
                ),
            ),
        ) && marks_low_priority(json::json_parsed(s@)) == low_priority,
{
    let parsed = parse_json(extra);
    let acceptable = match &parsed {
        Some(v) => match v {
            JsonValue::Object(_) => true,
            JsonValue::Null => true,
            _ => false,
        },
        None => true,
    };
    if acceptable {
        let object = with_low_priority(parsed, low_priority);
        let s = write_json(&object);
        proof {
            let before = object@->Object_0;
            let after = json::json_parsed(s@);
            assert(before.dom().contains("low_priority"@));
            assert(json::is_plain(before["low_priority"@]));
            assert(after matches Some(JsonTree::Object(fields)) && fields["low_priority"@]
                == JsonTree::Bool(low_priority) && fields.dom().contains("low_priority"@));
        }
        Some(s)
    } else {
        None
    }
}

impl PrivchatSDK {
    /// The labels of a channel: favourite by its settings, low priority by its extra data.
    pub fn channel_tags(settings: Option<&Channel>, conversation: Option<&Channel>) -> (r: ChannelTags)
        ensures
            r.favourite == (settings matches Some(c) && c.save == 1),
            r.low_priority == (conversation matches Some(c) && marks_low_priority(
                json::json_parsed(c.extra@),
            )),
    {
        ChannelTags {
            favourite: match settings {
                Some(c) => c.save == 1,
                None => false,
            },
            low_priority: match conversation {
                Some(c) => is_low_priority(c.extra.as_str()),
                None => false,
            },
        }
    }
}

/// Which messages notify, by the number under which the database keeps it. Unknown numbers count as
/// all.
pub open spec fn mode_of_mute(mute: i32) -> NotificationMode {
    if mute == 1 {
        NotificationMode::Mentions
    } else if mute == 2 {
        NotificationMode::Silent
    } else {
        NotificationMode::All
    }
}

/// The number under which the database keeps which messages notify.
pub open spec fn mute_of_mode(mode: NotificationMode) -> i32 {
    match mode {
        NotificationMode::All => 0,
        NotificationMode::Mentions => 1,
        NotificationMode::Silent => 2,
    }
}

impl PrivchatSDK {
    /// Which messages of a channel notify the user.
    pub fn channel_notification_mode(mute: i32) -> (r: NotificationMode)
        ensures
            r == mode_of_mute(mute),
    {
        match mute {
            1 => NotificationMode::Mentions,
            2 => NotificationMode::Silent,
            _ => NotificationMode::All,
        }
    }
}

/// The number to store for a notification mode.
pub fn mute_for_mode(mode: NotificationMode) -> (r: i32)
    ensures
        r == mute_of_mode(mode),
{
    match mode {
        NotificationMode::All => 0,
        NotificationMode::Mentions => 1,
        NotificationMode::Silent => 2,
    }
}

/// A notification mode that was stored is read back.
pub proof fn law_notification_mode_is_kept(mode: NotificationMode)
    ensures
        mode_of_mute(mute_of_mode(mode)) == mode,
{
}

/// The last message of a channel by its record.
pub open spec fn cached_event(conv: ChannelModel) -> Option<LatestChannelEventModel> {
    if conv.last_msg_content.len() > 0 {
        Some(
            LatestChannelEventModel {
                event_type: "message"@,
                content: conv.last_msg_content,
                timestamp: last_time(conv),
            },
        )
    } else {
        None
    }
}

/// The time of a channel's last message; 0 where there was none.
pub open spec fn last_time(conv: ChannelModel) -> u64 {
    match conv.last_msg_timestamp {
        Some(t) => t as u64,
        None => 0,
    }
}

/// What an optional channel holds.
pub open spec fn channel_view(c: Option<&Channel>) -> Option<ChannelModel> {
    match c {
        Some(c) => Some(c@),
        None => None,
    }
}

/// The entry of a channel in the list. `settings` is the channel's settings, where they are known.
pub open spec fn entry_of(
    conv: ChannelModel,
    settings: Option<ChannelModel>,
    member_count: u32,
    latest: Option<LatestChannelEventModel>,
    low_priority: bool,
) -> ChannelListEntryModel {
    ChannelListEntryModel {
        channel_id: conv.channel_id,
        channel_type: conv.channel_type,
        name: match settings {
            Some(c) => if c.channel_remark.len() > 0 {
                c.channel_remark
            } else {
                c.channel_name
            },
            None => "Channel "@ + text::decimal(conv.channel_id as nat),
        },
        last_ts: last_time(conv),
        notifications: match settings {
            Some(c) => if c.mute == 1 {
                0
            } else {
                conv.unread_count as u32
            },
            None => conv.unread_count as u32,
        },
        messages: conv.unread_count as u32,
        mentions: 0,
        marked_unread: settings matches Some(c) && c.top == 1,
        is_favourite: settings matches Some(c) && c.save == 1,
        is_low_priority: low_priority,
        avatar_url: match settings {
            Some(c) => if c.avatar.len() > 0 {
                Some(c.avatar)
            } else {
                None
            },
            None => None,
        },
        is_dm: conv.channel_type == 1,
        is_encrypted: false,
        member_count,
        topic: None,
        latest_event: match latest {
            Some(e) => Some(e),
            None => cached_event(conv),
        },
    }
}

fn labelled(label: &str, id: u64) -> (r: String)
    ensures
        r@ == label@ + text::decimal(id as nat),
{
    let mut s = label.to_owned();
    s.append(u64_text(id).as_str());
    s
}

fn last_timestamp(conv: &Channel) -> (r: u64)
    ensures
        r == last_time(conv@),
{
    match conv.last_msg_timestamp {
        Some(t) => #[verifier::truncate] (t as u64),
        None => 0,
    }
}

fn message_event(content: &str, timestamp: u64) -> (r: LatestChannelEvent)
    ensures
        r@ == (LatestChannelEventModel { event_type: "message"@, content: content@, timestamp }),
{
    LatestChannelEvent { event_type: "message".to_owned(), content: content.to_owned(), timestamp }
}

/// The entry of a channel in the list, with its priority given.
pub fn list_entry(
    conv: &Channel,
    settings: Option<&Channel>,
    member_count: u32,
    latest: Option<LatestChannelEvent>,
    low_priority: bool,
) -> (r: ChannelListEntry)
    ensures
        r@ == entry_of(
            conv@,
            channel_view(settings),
            member_count,
            events::latest_event_view(latest),
            low_priority,
        ),
{
    let latest_event = match latest {
        Some(e) => Some(e),
        None => if conv.last_msg_content.as_str().is_empty() {
            None
        } else {
            Some(message_event(conv.last_msg_content.as_str(), last_timestamp(conv)))
        },
    };
    let unread: u32 = #[verifier::truncate] (conv.unread_count as u32);
    let name = match settings {
        Some(c) => if c.channel_remark.as_str().is_empty() {
            c.channel_name.clone()
        } else {
            c.channel_remark.clone()
        },
        None => labelled("Channel ", conv.channel_id),
    };
    let notifications: u32 = match settings {
        Some(c) => if c.mute == 1 {
            0
        } else {
            unread
        },
        None => unread,
    };
    let marked_unread = match settings {
        Some(c) => c.top == 1,
        None => false,
    };
    let is_favourite = match settings {
        Some(c) => c.save == 1,
        None => false,
    };
    let avatar_url = match settings {
        Some(c) => if c.avatar.as_str().is_empty() {
            None
        } else {
            Some(c.avatar.clone())
        },
        None => None,
    };
    ChannelListEntry {
        channel_id: conv.channel_id,
        channel_type: conv.channel_type,
        name,
        last_ts: last_timestamp(conv),
        notifications,
        messages: unread,
        mentions: 0,
        marked_unread,
        is_favourite,
        is_low_priority: low_priority,
        avatar_url,
        is_dm: conv.channel_type == 1,
        is_encrypted: false,
        member_count,
        topic: None,
        latest_event,
    }
}

/// The entry of a channel in the list.
pub fn build_channel_list_entry(
    conv: &Channel,
    settings: Option<&Channel>,
    member_count: u32,
    latest: Option<LatestChannelEvent>,
) -> (r: ChannelListEntry)
    ensures
        r@ == entry_of(
            conv@,
            channel_view(settings),
            member_count,
            events::latest_event_view(latest),
            marks_low_priority(json::json_parsed(conv.extra@)),
        ),
{
    let low_priority = is_low_priority(conv.extra.as_str());
    list_entry(conv, settings, member_count, latest, low_priority)
}

/// Whether a channel is a conversation of two users.
pub open spec fn is_direct(channel_type: i32) -> bool {
    channel_type == 0 || channel_type == 1
}

/// The other user of a conversation by their id; empty where it is not known.
pub open spec fn peer_label(username: Seq<char>) -> Seq<char> {
    if username.len() > 0 {
        "用户 "@ + username
    } else {
        Seq::empty()
    }
}

/// How a conversation of two users is named where its own name says nothing.
pub open spec fn peer_name(conv: ChannelModel, settings: Option<ChannelModel>) -> Seq<char> {
    match settings {
        Some(c) => if c.channel_name.len() > 0 {
            c.channel_name
        } else {
            peer_label(c.username)
        },
        None => peer_label(conv.username),
    }
}

/// Whether a name was made up from the channel id, or is missing.
pub open spec fn is_placeholder(name: Seq<char>) -> bool {
    name.len() == 0 || text::begins_with(name, "Channel "@)
}

/// The name under which a channel is shown, given the name of its entry.
pub open spec fn shown_name(
    conv: ChannelModel,
    settings: Option<ChannelModel>,
    name: Seq<char>,
) -> Seq<char> {
    if is_direct(conv.channel_type) {
        let first = if is_placeholder(name) {
            peer_name(conv, settings)
        } else {
            name
        };
        if first == "User "@ || first == "User"@ {
            peer_name(conv, settings)
        } else {
            first
        }
    } else if conv.channel_type == 2 && is_placeholder(name) {
        match settings {
            Some(c) => if c.channel_name.len() > 0 {
                c.channel_name
            } else {
                name
            },
            None => name,
        }
    } else {
        name
    }
}

fn label_of_peer(username: &str) -> (r: String)
    ensures
        r@ == peer_label(username@),
{
    if username.is_empty() {
        String::new()
    } else {
        let mut s = "用户 ".to_owned();
        s.append(username);
        s
    }
}

fn name_of_peer(conv: &Channel, settings: Option<&Channel>) -> (r: String)
    ensures
        r@ == peer_name(conv@, channel_view(settings)),
{
    match settings {
        Some(c) => if c.channel_name.as_str().is_empty() {
            label_of_peer(c.username.as_str())
        } else {
            c.channel_name.clone()
        },
        None => label_of_peer(conv.username.as_str()),
    }
}

/// The entry of a channel in the list, named after the other user where its own name says nothing.
/// The channel id never serves as a name of a conversation of two users.
pub fn build_channel_list_entry_with_user_id(
    conv: &Channel,
    settings: Option<&Channel>,
    member_count: u32,
    latest: Option<LatestChannelEvent>,
) -> (r: ChannelListEntry)
    ensures
        ({
            let plain = entry_of(
                conv@,
                channel_view(settings),
                member_count,
                events::latest_event_view(latest),
                marks_low_priority(json::json_parsed(conv.extra@)),
            );
            r@ == (ChannelListEntryModel {
                name: shown_name(conv@, channel_view(settings), plain.name),
                ..plain
            })
        }),
{
    let mut entry = build_channel_list_entry(conv, settings, member_count, latest);
    let direct = conv.channel_type == 0 || conv.channel_type == 1;
    let placeholder = entry.name.as_str().is_empty() || text_begins_with(
        entry.name.as_str(),
        "Channel ",
    );
    if direct && placeholder {
        entry.name = name_of_peer(conv, settings);
    }
    if direct && (same_text(entry.name.as_str(), "User ") || same_text(
        entry.name.as_str(),
        "User",
    )) {
        entry.name = name_of_peer(conv, settings);
    }
    if conv.channel_type == 2 && placeholder {
        if let Some(c) = settings {
            if !c.channel_name.as_str().is_empty() {
                entry.name = c.channel_name.clone();
            }
        }
    }
    entry
}

/// What the message table shows of a message whose content is JSON: its text, or the kind of thing
/// it is; any other content as it is.
pub open spec fn preview_of(parsed: Option<JsonTree>, content: Seq<char>) -> Seq<char> {
    match parsed {
        Some(t) => match t.str_at("content"@) {
            Some(s) => s,
            None => match t.str_at("text"@) {
                Some(s) => s,
                None => match t.str_at("message_type"@) {
                    Some(kind) => kind_label(kind),
                    None => content,
                },
            },
        },
        None => content,
    }
}

/// How a kind of message is shown.
pub open spec fn kind_label(kind: Seq<char>) -> Seq<char> {
    if kind == "image"@ {
        "[图片]"@
    } else if kind == "video"@ {
        "[视频]"@
    } else if kind == "voice"@ || kind == "audio"@ {
        "[语音]"@
    } else if kind == "file"@ {
        "[文件]"@
    } else if kind == "location"@ {
        "[位置]"@
    } else if kind == "red_packet"@ || kind == "red_package"@ {
        "[红包]"@
    } else if kind == "sticker"@ {
        "[表情]"@
    } else {
        "[消息]"@
    }
}

fn label_of_kind(kind: &str) -> (r: String)
    ensures
        r@ == kind_label(kind@),
{
    if same_text(kind, "image") {
        "[图片]".to_owned()
    } else if same_text(kind, "video") {
        "[视频]".to_owned()
    } else if same_text(kind, "voice") || same_text(kind, "audio") {
        "[语音]".to_owned()
    } else if same_text(kind, "file") {
        "[文件]".to_owned()
    } else if same_text(kind, "location") {
        "[位置]".to_owned()
    } else if same_text(kind, "red_packet") || same_text(kind, "red_package") {
        "[红包]".to_owned()
    } else if same_text(kind, "sticker") {
        "[表情]".to_owned()
    } else {
        "[消息]".to_owned()
    }
}

/// The preview of content that `parsed` was read from.
pub fn preview_from(parsed: Option<JsonValue>, content: &str) -> (r: String)
    ensures
        r@ == preview_of(
            match parsed {
                Some(v) => Some(v@),
                None => None,
            },
            content@,
        ),
{
    match parsed {
        Some(v) => match v.str_at("content") {
            Some(s) => s,
            None => match v.str_at("text") {
                Some(s) => s,
                None => match v.str_at("message_type") {
                    Some(kind) => label_of_kind(kind.as_str()),
                    None => content.to_owned(),
                },
            },
        },
        None => content.to_owned(),
    }
}

/// What the channel list shows of a message's content.
pub fn get_message_preview(content: &str) -> (r: String)
    ensures
        r@ == preview_of(json::json_parsed(content@), content@),
{
    preview_from(parse_json(content), content)
}

/// The user ids of the conversations of two users, and the ids of the groups, in the order of the
/// channels.
pub fn ids_to_look_up(channels: &Vec<Channel>) -> (r: (Vec<u64>, Vec<u64>))
    ensures
        r.0@ == direct_ids(channels@),
        r.1@ == group_ids(channels@),
{
    let mut users: Vec<u64> = Vec::new();
    let mut groups: Vec<u64> = Vec::new();
    let mut i: usize = 0;
    while i < channels.len()
        invariant
            i <= channels@.len(),
            users@ == direct_ids(channels@.take(i as int)),
            groups@ == group_ids(channels@.take(i as int)),
        decreases channels@.len() - i,
    {
        let c = &channels[i];
        proof {
            assert(channels@.take(i + 1).drop_last() =~= channels@.take(i as int));
        }
        if c.channel_type == 0 || c.channel_type == 1 {
            users.push(c.channel_id);
        } else if c.channel_type == 2 {
            groups.push(c.channel_id);
        }
        i = i + 1;
    }
    proof {
        assert(channels@.take(i as int) =~= channels@);
    }
    (users, groups)
}

/// The channel ids of the conversations of two users.
pub open spec fn direct_ids(channels: Seq<Channel>) -> Seq<u64>
    decreases channels.len(),
{
    if channels.len() == 0 {
        Seq::empty()
    } else if is_direct(channels.last().channel_type) {
        direct_ids(channels.drop_last()).push(channels.last().channel_id)
    } else {
        direct_ids(channels.drop_last())
    }
}

/// The channel ids of the groups.
pub open spec fn group_ids(channels: Seq<Channel>) -> Seq<u64>
    decreases channels.len(),
{
    if channels.len() == 0 {
        Seq::empty()
    } else if channels.last().channel_type == 2 {
        group_ids(channels.drop_last()).push(channels.last().channel_id)
    } else {
        group_ids(channels.drop_last())
    }
}

/// A text that is there and not empty.
pub open spec fn filled(s: Option<Seq<char>>) -> bool {
    s matches Some(t) && t.len() > 0
}

/// The name of a user: alias, else nickname, else user name, else a label with the id.
pub open spec fn user_name(user: Option<UserModel>, id: u64) -> Seq<char> {
    match user {
        Some(u) => if filled(u.alias) {
            u.alias->0
        } else if filled(u.nickname) {
            u.nickname->0
        } else if filled(u.username) {
            u.username->0
        } else {
            "用户"@ + text::decimal(id as nat)
        },
        None => "用户"@ + text::decimal(id as nat),
    }
}

/// The name of a group, or else a label with the id.
pub open spec fn group_name(group: Option<GroupModel>, id: u64) -> Seq<char> {
    match group {
        Some(g) => match g.name {
            Some(s) => s,
            None => "群聊"@ + text::decimal(id as nat),
        },
        None => "群聊"@ + text::decimal(id as nat),
    }
}

fn nonempty(s: &Option<String>) -> (r: Option<String>)
    ensures
        r == if filled(json::opt_view(*s)) {
            *s
        } else {
            None
        },
{
    match s {
        Some(t) => if t.as_str().is_empty() {
            None
        } else {
            Some(t.clone())
        },
        None => None,
    }
}

/// The name of a user.
pub fn display_name_of_user(user: Option<&User>, id: u64) -> (r: String)
    ensures
        r@ == user_name(
            match user {
                Some(u) => Some(u@),
                None => None,
            },
            id,
        ),
{
    match user {
        Some(u) => match nonempty(&u.alias) {
            Some(s) => s,
            None => match nonempty(&u.nickname) {
                Some(s) => s,
                None => match nonempty(&u.username) {
                    Some(s) => s,
                    None => labelled("用户", id),
                },
            },
        },
        None => labelled("用户", id),
    }
}

/// What is known of a channel beside its record.
pub struct ChannelDetailsModel {
    /// The other user of a conversation of two.
    pub user: Option<UserModel>,
    /// The group of a group channel.
    pub group: Option<GroupModel>,
    /// How many members the group has.
    pub member_count: u32,
    /// The last stored message; it counts only where the record does not hold it.
    pub last_message: Option<MessageModel>,
}

/// The preview of a stored message.
pub open spec fn stored_preview(m: MessageModel) -> Seq<char> {
    preview_of(json::json_parsed(m.content), m.content)
}

/// The last message of a channel: by its record, else by the message table.
pub open spec fn last_event(conv: ChannelModel, last: Option<MessageModel>) -> Option<
    LatestChannelEventModel,
> {
    match cached_event(conv) {
        Some(e) => Some(e),
        None => match last {
            Some(m) => Some(
                LatestChannelEventModel {
                    event_type: "message"@,
                    content: stored_preview(m),
                    timestamp: match m.timestamp {
                        Some(t) => t as u64,
                        None => 0,
                    },
                },
            ),
            None => None,
        },
    }
}

/// The entry of a channel with the names and pictures of its user or group.
pub open spec fn full_entry(conv: ChannelModel, d: ChannelDetailsModel) -> ChannelListEntryModel {
    let plain = entry_of(conv, None, 0, None, marks_low_priority(json::json_parsed(conv.extra)));
    let named = if is_direct(conv.channel_type) {
        ChannelListEntryModel {
            name: user_name(d.user, conv.channel_id),
            avatar_url: match d.user {
                Some(u) => if u.avatar.len() > 0 {
                    Some(u.avatar)
                } else {
                    None
                },
                None => None,
            },
            ..plain
        }
    } else if conv.channel_type == 2 {
        ChannelListEntryModel {
            name: group_name(d.group, conv.channel_id),
            avatar_url: match d.group {
                Some(g) => if g.avatar.len() > 0 {
                    Some(g.avatar)
                } else {
                    None
                },
                None => None,
            },
            member_count: match d.group {
                Some(g) => d.member_count,
                None => 0,
            },
            ..plain
        }
    } else {
        plain
    };
    let event = last_event(conv, d.last_message);
    ChannelListEntryModel {
        latest_event: event,
        last_ts: match event {
            Some(e) => e.timestamp,
            None => last_time(conv),
        },
        ..named
    }
}

/// The user with an id; of two the later counts.
pub open spec fn user_with(users: Seq<User>, id: u64) -> Option<UserModel>
    decreases users.len(),
{
    if users.len() == 0 {
        None
    } else if users.last().user_id == id {
        Some(users.last()@)
    } else {
        user_with(users.drop_last(), id)
    }
}

/// The group with an id; of two the later counts.
pub open spec fn group_with(groups: Seq<Group>, id: u64) -> Option<GroupModel>
    decreases groups.len(),
{
    if groups.len() == 0 {
        None
    } else if groups.last().group_id == id {
        Some(groups.last()@)
    } else {
        group_with(groups.drop_last(), id)
    }
}

fn find_user(users: &Vec<User>, id: u64) -> (r: Option<&User>)
    ensures
        user_with(users@, id) == match r {
            Some(u) => Some(u@),
            None => None,
        },
{
    let mut i: usize = users.len();
    proof {
        assert(users@.take(i as int) =~= users@);
    }
    while i > 0
        invariant
            i <= users@.len(),
            user_with(users@, id) == user_with(users@.take(i as int), id),
        decreases i,
    {
        i = i - 1;
        proof {
            assert(users@.take(i + 1).drop_last() =~= users@.take(i as int));
            assert(users@.take(i + 1).last() == users@[i as int]);
        }
        if users[i].user_id == id {
            return Some(&users[i]);
        }
    }
    None
}

fn find_group(groups: &Vec<Group>, id: u64) -> (r: Option<&Group>)
    ensures
        group_with(groups@, id) == match r {
            Some(g) => Some(g@),
            None => None,
        },
{
    let mut i: usize = groups.len();
    proof {
        assert(groups@.take(i as int) =~= groups@);
    }
    while i > 0
        invariant
            i <= groups@.len(),
            group_with(groups@, id) == group_with(groups@.take(i as int), id),
        decreases i,
    {
        i = i - 1;
        proof {
            assert(groups@.take(i + 1).drop_last() =~= groups@.take(i as int));
            assert(groups@.take(i + 1).last() == groups@[i as int]);
        }
        if groups[i].group_id == id {
            return Some(&groups[i]);
        }
    }
    None
}

/// The entry of a channel with the names and pictures of its user or group.
pub fn channel_list_entry(
    conv: &Channel,
    user: Option<&User>,
    group: Option<&Group>,
    member_count: u32,
    last_message: &Option<Message>,
) -> (r: ChannelListEntry)
    ensures
        r@ == full_entry(
            conv@,
            ChannelDetailsModel {
                user: match user {
                    Some(u) => Some(u@),
                    None => None,
                },
                group: match group {
                    Some(g) => Some(g@),
                    None => None,
                },
                member_count,
                last_message: message_view(*last_message),
            },
        ),
{
    let mut entry = build_channel_list_entry(conv, None, 0, None);
    if conv.channel_type == 0 || conv.channel_type == 1 {
        entry.name = display_name_of_user(user, conv.channel_id);
        if let Some(u) = user {
            if !u.avatar.as_str().is_empty() {
                entry.avatar_url = Some(u.avatar.clone());
            }
        }
    } else if conv.channel_type == 2 {
        match group {
            Some(g) => {
                entry.name = match clone_text(&g.name) {
                    Some(s) => s,
                    None => labelled("群聊", conv.channel_id),
                };
                if !g.avatar.as_str().is_empty() {
                    entry.avatar_url = Some(g.avatar.clone());
                }
                entry.member_count = member_count;
            },
            None => {
                entry.name = labelled("群聊", conv.channel_id);
            },
        }
    }
    if conv.last_msg_content.as_str().is_empty() {
        if let Some(m) = last_message {
            let at: u64 = match m.timestamp {
                Some(t) => #[verifier::truncate] (t as u64),
                None => 0,
            };
            entry.latest_event = Some(
                message_event(get_message_preview(m.content.as_str()).as_str(), at),
            );
            entry.last_ts = at;
        }
    } else {
        let at: u64 = last_timestamp(conv);
        entry.latest_event = Some(message_event(conv.last_msg_content.as_str(), at));
        entry.last_ts = at;
    }
    entry
}

/// What a message holds, where there is one.
pub open spec fn message_view(m: Option<Message>) -> Option<MessageModel> {
    match m {
        Some(m) => Some(m@),
        None => None,
    }
}

/// What is known of a channel when its user or group is looked up by the channel's id.
pub open spec fn joined(
    conv: Channel,
    users: Seq<User>,
    groups: Seq<Group>,
    member_count: u32,
    last_message: Option<Message>,
) -> ChannelDetailsModel {
    ChannelDetailsModel {
        user: user_with(users, conv.channel_id),
        group: group_with(groups, conv.channel_id),
        member_count,
        last_message: message_view(last_message),
    }
}

impl PrivchatSDK {
    /// The entries of the channel list, one for each channel in their order, each with the user or
    /// group of the channel's id. There are as many member counts and last messages as channels.
    pub fn get_channel_list_entries(
        &self,
        channels: &Vec<Channel>,
        users: &Vec<User>,
        groups: &Vec<Group>,
        member_counts: &Vec<u32>,
        last_messages: &Vec<Option<Message>>,
    ) -> (r: Result<Vec<ChannelListEntry>, PrivchatSDKError>)
        requires
            channels@.len() == member_counts@.len(),
            channels@.len() == last_messages@.len(),
        ensures
            match r {
                Ok(entries) => {
                    &&& state::lifecycle_fault(*self) is None
                    &&& entries@.len() == channels@.len()
                    &&& forall|i: int|
                        0 <= i < channels@.len() ==> (#[trigger] entries@[i])@ == full_entry(
                            channels@[i]@,
                            joined(
                                channels@[i],
                                users@,
                                groups@,
                                member_counts@[i],
                                last_messages@[i],
                            ),
                        )
                },
                Err(e) => state::lifecycle_fault(*self) == Some(e@),
            },
    {
        match self.check_initialized() {
            Ok(_) => {},
            Err(e) => return Err(e),
        }
        let mut entries: Vec<ChannelListEntry> = Vec::new();
        let mut i: usize = 0;
        while i < channels.len()
            invariant
                channels@.len() == member_counts@.len(),
                channels@.len() == last_messages@.len(),
                i <= channels@.len(),
                entries@.len() == i,
                forall|k: int|
                    0 <= k < i ==> (#[trigger] entries@[k])@ == full_entry(
                        channels@[k]@,
                        joined(
                            channels@[k],
                            users@,
                            groups@,
                            member_counts@[k],
                            last_messages@[k],
                        ),
                    ),
            decreases channels@.len() - i,
        {
            let conv = &channels[i];
            entries.push(
                channel_list_entry(
                    conv,
                    find_user(users, conv.channel_id),
                    find_group(groups, conv.channel_id),
                    member_counts[i],
                    &last_messages[i],
                ),
            );
            i = i + 1;
        }
        Ok(entries)
    }
}

/// The event that shows a changed channel, where the channel is found: the first record counts.
pub fn channel_list_update_event(
    found: &Vec<Channel>,
    settings: Option<&Channel>,
    member_count: u32,
    latest: Option<LatestChannelEvent>,
    timestamp: u64,
) -> (r: Option<SDKEvent>)
    ensures
        r is Some <==> found@.len() > 0,
        r matches Some(e) ==> (e matches SDKEvent::ChannelListUpdate {
            update_kind: ChannelListUpdateKind::Update { channel },
            timestamp: at,
        } && at == timestamp && channel@ == entry_of(
            found@[0]@,
            channel_view(settings),
            member_count,
            events::latest_event_view(latest),
            marks_low_priority(json::json_parsed(found@[0].extra@)),
        )),
{
    if found.len() == 0 {
        return None;
    }
    let channel = build_channel_list_entry(&found[0], settings, member_count, latest);
    Some(
        SDKEvent::ChannelListUpdate {
            update_kind: ChannelListUpdateKind::Update { channel },
            timestamp,
        },
    )
}

/// What is known of a channel when the whole list is shown anew.
#[derive(Debug)]
pub struct ChannelSettings {
    pub settings: Option<Channel>,
    pub member_count: u32,
}

/// The event that shows the whole channel list anew.
pub fn channel_list_reset_event(
    channels: &Vec<Channel>,
    known: &Vec<ChannelSettings>,
    timestamp: u64,
) -> (r: SDKEvent)
    requires
        channels@.len() == known@.len(),
    ensures
        r matches SDKEvent::ChannelListUpdate {
            update_kind: ChannelListUpdateKind::Reset { channels: entries },
            timestamp: at,
        } && at == timestamp && entries@.len() == channels@.len() && forall|i: int|
            0 <= i < channels@.len() ==> (#[trigger] entries@[i])@ == entry_of(
                channels@[i]@,
                match known@[i].settings {
                    Some(c) => Some(c@),
                    None => None,
                },
                known@[i].member_count,
                None,
                marks_low_priority(json::json_parsed(channels@[i].extra@)),
            ),
{
    let mut entries: Vec<ChannelListEntry> = Vec::new();
    let mut i: usize = 0;
    while i < channels.len()
        invariant
            channels@.len() == known@.len(),
            i <= channels@.len(),
            entries@.len() == i,
            forall|k: int|
                0 <= k < i ==> (#[trigger] entries@[k])@ == entry_of(
                    channels@[k]@,
                    match known@[k].settings {
                        Some(c) => Some(c@),
                        None => None,
                    },
                    known@[k].member_count,
                    None,
                    marks_low_priority(json::json_parsed(channels@[k].extra@)),
                ),
        decreases channels@.len() - i,
    {
        entries.push(
            build_channel_list_entry(
                &channels[i],
                known[i].settings.as_ref(),
                known[i].member_count,
                None,
            ),
        );
        i = i + 1;
    }
    SDKEvent::ChannelListUpdate {
        update_kind: ChannelListUpdateKind::Reset { channels: entries },
        timestamp,
    }
}

/// The unread counts of a channel by its record.
pub fn unread_stats(conv: &Channel) -> (r: UnreadStats)
    ensures
        r == (UnreadStats {
            messages: conv.unread_count as u64,
            notifications: conv.unread_count as u64,
            mentions: 0,
        }),
{
    let messages: u64 = #[verifier::truncate] (conv.unread_count as u64);
    UnreadStats { messages, notifications: messages, mentions: 0 }
}

/// A conversation of two users is never shown under its channel id.
pub proof fn law_direct_conversation_is_not_named_by_its_id(
    conv: ChannelModel,
    name: Seq<char>,
    settings: ChannelModel,
)
    requires
        is_direct(conv.channel_type),
        settings.channel_name.len() == 0,
    ensures
        !text::begins_with(shown_name(conv, Some(settings), name), "Channel "@),
{
    reveal_strlit("Channel ");
    reveal_strlit("用户 ");
    let peer = peer_name(conv, Some(settings));
    if settings.username.len() > 0 {
        assert(peer[0] == '用');
        if text::begins_with(peer, "Channel "@) {
            assert(peer.take("Channel "@.len() as int)[0] == peer[0]);
            assert("Channel "@[0] == 'C');
        }
    }
}

/// A muted channel notifies of nothing, however much is unread in it.
pub proof fn law_muted_channel_does_not_notify(
    conv: ChannelModel,
    settings: ChannelModel,
    member_count: u32,
    latest: Option<LatestChannelEventModel>,
    low_priority: bool,
)
    requires
        settings.mute == 1,
    ensures
        entry_of(conv, Some(settings), member_count, latest, low_priority).notifications == 0,
        entry_of(conv, Some(settings), member_count, latest, low_priority).messages
            == conv.unread_count as u32,
{
}

/// A conversation with a user is shown under the alias that the user was given, whatever the nickname
/// and the user name are; without one under the nickname, and without that under the user name. Where
/// there is none of the three it is shown under the id.
pub proof fn law_an_alias_comes_before_other_names(
    conv: ChannelModel,
    d: ChannelDetailsModel,
    u: UserModel,
)
    requires
        conv.channel_type == 0 || conv.channel_type == 1,
        d.user == Some(u),
    ensures
        ({
            let name = full_entry(conv, d).name;
            let has_alias = u.alias matches Some(s) && s.len() > 0;
            let has_nickname = u.nickname matches Some(s) && s.len() > 0;
            let has_username = u.username matches Some(s) && s.len() > 0;
            &&& has_alias ==> u.alias == Some(name)
            &&& !has_alias && has_nickname ==> u.nickname == Some(name)
            &&& !has_alias && !has_nickname && has_username ==> u.username == Some(name)
            &&& !has_alias && !has_nickname && !has_username ==> name == "用户"@ + text::decimal(
                conv.channel_id as nat,
            )
        }),
{
}

/// A conversation with an unknown user is shown under the id, a group under its name, and a group that
/// is unknown or has no name under its id. The two labels differ. No member counts are made up.
pub proof fn law_channels_are_named_by_what_is_known(conv: ChannelModel, d: ChannelDetailsModel)
    ensures
        (conv.channel_type == 0 || conv.channel_type == 1) && d.user is None ==> full_entry(conv, d).name
            == "用户"@ + text::decimal(conv.channel_id as nat),
        conv.channel_type == 2 && (d.group matches Some(g) && g.name is Some) ==> Some(
            full_entry(conv, d).name,
        ) == d.group->0.name,
        conv.channel_type == 2 && (d.group matches Some(g) ==> g.name is None) ==> full_entry(conv, d).name
            == "群聊"@ + text::decimal(conv.channel_id as nat),
        !(0 <= conv.channel_type <= 2) ==> full_entry(conv, d).name == "Channel "@ + text::decimal(
            conv.channel_id as nat,
        ),
        full_entry(conv, d).member_count == (if conv.channel_type == 2 && d.group is Some {
            d.member_count
        } else {
            0
        }),
{
}

/// The picture of an entry is the other user's in a conversation of two and the group's in a group; an
/// empty picture counts as none.
pub proof fn law_a_picture_is_not_empty(conv: ChannelModel, d: ChannelDetailsModel)
    ensures
        full_entry(conv, d).avatar_url matches Some(s) ==> s.len() > 0,
        (conv.channel_type == 0 || conv.channel_type == 1) ==> (full_entry(conv, d).avatar_url is Some
            <==> (d.user matches Some(u) && u.avatar.len() > 0)),
        (conv.channel_type == 0 || conv.channel_type == 1) ==> (full_entry(conv, d).avatar_url matches
            Some(s) ==> s == d.user->0.avatar),
        conv.channel_type == 2 ==> (full_entry(conv, d).avatar_url is Some <==> (d.group matches Some(g)
            && g.avatar.len() > 0)),
        conv.channel_type == 2 ==> (full_entry(conv, d).avatar_url matches Some(s) ==> s
            == d.group->0.avatar),
        !(0 <= conv.channel_type <= 2) ==> full_entry(conv, d).avatar_url is None,
{
}

/// The last message of an entry is the one in the channel's record, before the one in the message
/// table, and the entry has that message's time. The stored message shows as its preview.
pub proof fn law_the_record_comes_before_the_message_table(conv: ChannelModel, d: ChannelDetailsModel)
    ensures
        ({
            let e = full_entry(conv, d);
            &&& conv.last_msg_content.len() > 0 ==> {
                &&& e.latest_event matches Some(event)
                &&& event.event_type == "message"@
                &&& event.content == conv.last_msg_content
                &&& conv.last_msg_timestamp matches Some(t) ==> event.timestamp == t as u64
                &&& conv.last_msg_timestamp is None ==> event.timestamp == 0
            }
            &&& conv.last_msg_content.len() == 0 && d.last_message is Some ==> {
                &&& e.latest_event matches Some(event)
                &&& event.event_type == "message"@
                &&& event.content == preview_of(
                    json::json_parsed(d.last_message->0.content),
                    d.last_message->0.content,
                )
                &&& d.last_message->0.timestamp matches Some(t) ==> event.timestamp == t as u64
                &&& d.last_message->0.timestamp is None ==> event.timestamp == 0
            }
            &&& conv.last_msg_content.len() == 0 && d.last_message is None ==> e.latest_event is None
            &&& e.latest_event matches Some(event) ==> e.last_ts == event.timestamp
            &&& e.latest_event is None ==> (conv.last_msg_timestamp matches Some(t) ==> e.last_ts
                == t as u64) && (conv.last_msg_timestamp is None ==> e.last_ts == 0)
        }),
{
}

/// An entry is that of its channel: it has the channel's id and type, counts its unread messages, and
/// is a direct message just for type 1.
pub proof fn law_an_entry_belongs_to_its_channel(
    conv: ChannelModel,
    settings: Option<ChannelModel>,
    member_count: u32,
    latest: Option<LatestChannelEventModel>,
    low_priority: bool,
    d: ChannelDetailsModel,
)
    ensures
        ({
            let e = entry_of(conv, settings, member_count, latest, low_priority);
            &&& e.channel_id == conv.channel_id && e.channel_type == conv.channel_type
            &&& conv.unread_count >= 0 ==> e.messages == conv.unread_count
            &&& conv.unread_count >= 0 && (settings matches Some(c) ==> c.mute != 1)
                ==> e.notifications == conv.unread_count
            &&& e.mentions == 0 && !e.is_encrypted && e.topic is None
            &&& e.is_dm <==> conv.channel_type == 1
            &&& e.member_count == member_count && e.is_low_priority == low_priority
            &&& e.marked_unread <==> (settings matches Some(c) && c.top == 1)
            &&& e.is_favourite <==> (settings matches Some(c) && c.save == 1)
            &&& e.avatar_url is Some <==> (settings matches Some(c) && c.avatar.len() > 0)
            &&& e.avatar_url matches Some(s) ==> s == settings->0.avatar
            &&& latest is Some ==> e.latest_event == latest
            &&& latest is None ==> (e.latest_event is Some <==> conv.last_msg_content.len() > 0)
            &&& latest is None ==> (e.latest_event matches Some(event) ==> event.content
                == conv.last_msg_content && event.timestamp == e.last_ts && event.event_type
                == "message"@)
            &&& conv.last_msg_timestamp matches Some(t) ==> e.last_ts == t as u64
            &&& conv.last_msg_timestamp is None ==> e.last_ts == 0
        }),
        ({
            let e = full_entry(conv, d);
            &&& e.channel_id == conv.channel_id && e.channel_type == conv.channel_type
            &&& conv.unread_count >= 0 ==> e.messages == conv.unread_count && e.notifications
                == conv.unread_count
            &&& e.mentions == 0 && !e.is_encrypted && e.topic is None
            &&& e.is_dm <==> conv.channel_type == 1
            &&& !e.marked_unread && !e.is_favourite
            &&& e.is_low_priority == marks_low_priority(json::json_parsed(conv.extra))
        }),
{
}

/// The remark that the user gave a channel comes before its own name, and that before a label with its
/// id, which only a channel without known settings has.
pub proof fn law_a_remark_comes_before_the_name(
    conv: ChannelModel,
    settings: ChannelModel,
    member_count: u32,
    latest: Option<LatestChannelEventModel>,
    low_priority: bool,
)
    ensures
        settings.channel_remark.len() > 0 ==> entry_of(
            conv,
            Some(settings),
            member_count,
            latest,
            low_priority,
        ).name == settings.channel_remark,
        settings.channel_remark.len() == 0 ==> entry_of(
            conv,
            Some(settings),
            member_count,
            latest,
            low_priority,
        ).name == settings.channel_name,
        entry_of(conv, None, member_count, latest, low_priority).name == "Channel "@ + text::decimal(
            conv.channel_id as nat,
        ),
{
}

/// A name that says something is kept, but for the bare word `User` in a conversation of two users.
/// Where a name was made up from the channel id or is missing, such a conversation is named by the name
/// in its settings, else by the other user's id, and a group by the name in its settings; other
/// channels keep their names.
pub proof fn law_names_that_say_nothing_are_replaced(
    conv: ChannelModel,
    settings: Option<ChannelModel>,
    name: Seq<char>,
)
    ensures
        ({
            let made_up = name.len() == 0 || text::begins_with(name, "Channel "@);
            let direct = conv.channel_type == 0 || conv.channel_type == 1;
            let shown = shown_name(conv, settings, name);
            let bare = name == "User "@ || name == "User"@;
            &&& !made_up && !(direct && bare) ==> shown == name
            &&& direct && (made_up || bare) ==> {
                &&& (settings matches Some(c) && c.channel_name.len() > 0) ==> shown
                    == settings->0.channel_name
                &&& (settings matches Some(c) && c.channel_name.len() == 0 && c.username.len() > 0) ==> shown
                    == "用户 "@ + settings->0.username
                &&& (settings matches Some(c) && c.channel_name.len() == 0 && c.username.len() == 0)
                    ==> shown.len() == 0
                &&& settings is None && conv.username.len() > 0 ==> shown == "用户 "@ + conv.username
                &&& settings is None && conv.username.len() == 0 ==> shown.len() == 0
            }
            &&& conv.channel_type == 2 && made_up ==> shown == (if settings matches Some(c)
                && c.channel_name.len() > 0 {
                settings->0.channel_name
            } else {
                name
            })
            &&& !direct && conv.channel_type != 2 ==> shown == name
        }),
{
}

/// A message shows as its content, before its text, before a label for its kind; content that is no
/// JSON, or says none of the three, shows as it is.
pub proof fn law_a_preview_shows_the_content_first(t: JsonTree, content: Seq<char>)
    ensures
        preview_of(None, content) == content,
        t.str_at("content"@) matches Some(s) ==> preview_of(Some(t), content) == s,
        t.str_at("content"@) is None && t.str_at("text"@) is Some ==> Some(preview_of(Some(t), content))
            == t.str_at("text"@),
        t.str_at("content"@) is None && t.str_at("text"@) is None && t.str_at("message_type"@) is None
            ==> preview_of(Some(t), content) == content,
        t.str_at("content"@) is None && t.str_at("text"@) is None ==> (t.str_at("message_type"@) matches
            Some(kind) ==> {
            let shown = preview_of(Some(t), content);
            &&& kind == "image"@ ==> shown == "[图片]"@
            &&& kind == "video"@ ==> shown == "[视频]"@
            &&& kind == "voice"@ || kind == "audio"@ ==> shown == "[语音]"@
            &&& kind == "file"@ ==> shown == "[文件]"@
            &&& kind == "location"@ ==> shown == "[位置]"@
            &&& kind == "red_packet"@ || kind == "red_package"@ ==> shown == "[红包]"@
            &&& kind == "sticker"@ ==> shown == "[表情]"@
            &&& shown[0] == '[' && shown.len() == 4 && shown[3] == ']'
        }),
{
    reveal_strlit("image");
    reveal_strlit("video");
    reveal_strlit("voice");
    reveal_strlit("audio");
    reveal_strlit("file");
    reveal_strlit("location");
    reveal_strlit("red_packet");
    reveal_strlit("red_package");
    reveal_strlit("sticker");
    reveal_strlit("[图片]");
    reveal_strlit("[视频]");
    reveal_strlit("[语音]");
    reveal_strlit("[文件]");
    reveal_strlit("[位置]");
    reveal_strlit("[红包]");
    reveal_strlit("[表情]");
    reveal_strlit("[消息]");
    let kind = t.str_at("message_type"@)->0;
    assert("image"@[0] == 'i' && "video"@[1] == 'i' && "voice"@[1] == 'o' && "audio"@[0] == 'a');
    assert("video"@[0] == 'v' && "voice"@[0] == 'v');
    assert("image"@.len() == 5 && "video"@.len() == 5 && "voice"@.len() == 5 && "audio"@.len() == 5
        && "file"@.len() == 4 && "location"@.len() == 8 && "red_packet"@.len() == 10 && "red_package"@.len()
        == 11 && "sticker"@.len() == 7);
}

/// The extra data of a channel marks it as of low priority just where it says so with `true`; other
/// members do not matter.
pub proof fn law_low_priority_is_said_outright(fields: Map<Seq<char>, JsonTree>, low: bool)
    ensures
        marks_low_priority(
            Some(JsonTree::Object(fields.insert("low_priority"@, JsonTree::Bool(low)))),
        ) == low,
        !fields.dom().contains("low_priority"@) ==> !marks_low_priority(Some(JsonTree::Object(fields))),
        !marks_low_priority(None),
        takes_members(Some(JsonTree::Object(fields))) && takes_members(None) && takes_members(
            Some(JsonTree::Null),
        ),
        members_of(Some(JsonTree::Object(fields))) == fields,
        members_of(None) == Map::<Seq<char>, JsonTree>::empty(),
        members_of(Some(JsonTree::Null)) == Map::<Seq<char>, JsonTree>::empty(),
        !takes_members(Some(JsonTree::Bool(low))) && !takes_members(Some(JsonTree::Text(Seq::empty())))
            && !takes_members(Some(JsonTree::Int(0))) && !takes_members(
            Some(JsonTree::Array(Seq::empty())),
        ),
{
}

/// A channel notifies of everything, of mentions or of nothing by the numbers 0, 1 and 2, and unknown
/// numbers count as the first.
pub proof fn law_notification_modes_by_number(mute: i32)
    ensures
        mode_of_mute(mute) == NotificationMode::Mentions <==> mute == 1,
        mode_of_mute(mute) == NotificationMode::Silent <==> mute == 2,
        mode_of_mute(mute) == NotificationMode::All <==> mute != 1 && mute != 2,
        mute_of_mode(NotificationMode::All) == 0,
{
}

/// Users are looked up just for the conversations of two, and groups just for the groups, each by the
/// channel's id, in the order of the channels.
pub proof fn law_each_channel_is_looked_up_once(channels: Seq<Channel>, c: Channel)
    ensures
        (c.channel_type == 0 || c.channel_type == 1) ==> direct_ids(channels.push(c)) == direct_ids(
            channels,
        ).push(c.channel_id) && group_ids(channels.push(c)) == group_ids(channels),
        c.channel_type == 2 ==> group_ids(channels.push(c)) == group_ids(channels).push(c.channel_id)
            && direct_ids(channels.push(c)) == direct_ids(channels),
        !(0 <= c.channel_type <= 2) ==> direct_ids(channels.push(c)) == direct_ids(channels) && group_ids(
            channels.push(c),
        ) == group_ids(channels),
        direct_ids(Seq::empty()).len() == 0 && group_ids(Seq::empty()).len() == 0,
{
    assert(channels.push(c).drop_last() =~= channels);
}

/// The user that is found has the id that was asked for and is one of those there; none is found just
/// where there is none.
pub proof fn law_the_user_of_a_channel_is_found(users: Seq<User>, groups: Seq<Group>, id: u64)
    ensures
        user_with(users, id) is Some <==> exists|i: int|
            0 <= i < users.len() && (#[trigger] users[i]).user_id == id,
        user_with(users, id) matches Some(u) ==> u.user_id == id && exists|i: int|
            0 <= i < users.len() && (#[trigger] users[i])@ == u,
        group_with(groups, id) is Some <==> exists|i: int|
            0 <= i < groups.len() && (#[trigger] groups[i]).group_id == id,
        group_with(groups, id) matches Some(g) ==> g.group_id == id && exists|i: int|
            0 <= i < groups.len() && (#[trigger] groups[i])@ == g,
    decreases users.len() + groups.len(),
{
    if users.len() > 0 {
        let front = users.drop_last();
        law_the_user_of_a_channel_is_found(front, groups, id);
        assert(forall|i: int| 0 <= i < front.len() ==> front[i] == users[i]);
        assert(users.last() == users[users.len() - 1]);
        if users.last().user_id != id {
            if exists|i: int| 0 <= i < users.len() && (#[trigger] users[i]).user_id == id {
                let i = choose|i: int| 0 <= i < users.len() && (#[trigger] users[i]).user_id == id;
                assert(front[i].user_id == id);
            }
            if user_with(front, id) is Some {
                let i = choose|i: int| 0 <= i < front.len() && (#[trigger] front[i]).user_id == id;
                assert(users[i].user_id == id);
                let k = choose|k: int| 0 <= k < front.len() && (#[trigger] front[k])@ == user_with(
                    front,
                    id,
                )->0;
                assert(users[k]@ == user_with(users, id)->0);
            }
        }
    }
    if groups.len() > 0 {
        let front = groups.drop_last();
        law_the_user_of_a_channel_is_found(users, front, id);
        assert(forall|i: int| 0 <= i < front.len() ==> front[i] == groups[i]);
        assert(groups.last() == groups[groups.len() - 1]);
        if groups.last().group_id != id {
            if exists|i: int| 0 <= i < groups.len() && (#[trigger] groups[i]).group_id == id {
                let i = choose|i: int| 0 <= i < groups.len() && (#[trigger] groups[i]).group_id == id;
                assert(front[i].group_id == id);
            }
            if group_with(front, id) is Some {
                let i = choose|i: int| 0 <= i < front.len() && (#[trigger] front[i]).group_id == id;
                assert(groups[i].group_id == id);
                let k = choose|k: int| 0 <= k < front.len() && (#[trigger] front[k])@ == group_with(
                    front,
                    id,
                )->0;
                assert(groups[k]@ == group_with(groups, id)->0);
            }
        }
    }
}

/// The details of a channel are those of the user and the group with the channel's own id.
pub proof fn law_details_belong_to_the_channel(
    conv: Channel,
    users: Seq<User>,
    groups: Seq<Group>,
    member_count: u32,
    last: Option<Message>,
)
    ensures
        ({
            let d = joined(conv, users, groups, member_count, last);
            &&& d.user matches Some(u) ==> u.user_id == conv.channel_id
            &&& d.group matches Some(g) ==> g.group_id == conv.channel_id
            &&& d.user is Some <==> exists|i: int|
                0 <= i < users.len() && (#[trigger] users[i]).user_id == conv.channel_id
            &&& d.group is Some <==> exists|i: int|
                0 <= i < groups.len() && (#[trigger] groups[i]).group_id == conv.channel_id
            &&& d.member_count == member_count
            &&& last matches Some(m) ==> d.last_message == Some(m@)
            &&& last is None ==> d.last_message is None
        }),
{
    law_the_user_of_a_channel_is_found(users, groups, conv.channel_id);
}

} // verus!
