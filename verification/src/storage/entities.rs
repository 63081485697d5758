//! The entities that the local database stores, and the life of a message's status.

use vstd::prelude::*;
use crate::json;

verus! {

/// A copy of an optional text.
pub fn clone_text(s: &Option<String>) -> (r: Option<String>)
    ensures
        r == *s,
{
    match s {
        Some(s) => Some(s.clone()),
        None => None,
    }
}

/// A stored message.
#[derive(Debug)]
pub struct Message {
    /// Local primary key, given by the database.
    pub id: Option<i64>,
    /// The id that the server gave the message.
    pub server_message_id: Option<u64>,
    /// Position of the message in its channel, in the server's order.
    pub pts: i64,
    pub channel_id: u64,
    pub channel_type: i32,
    pub timestamp: Option<i64>,
    pub from_uid: u64,
    pub message_type: i32,
    pub content: String,
    pub status: i32,
    pub voice_status: i32,
    pub created_at: i64,
    pub updated_at: i64,
    pub searchable_word: String,
    /// Transport id of the sending attempt; local to the sending device.
    pub local_message_id: u64,
    pub is_deleted: i32,
    pub setting: i32,
    pub order_seq: i64,
    pub extra: String,
    pub flame: i16,
    pub flame_second: i32,
    pub viewed: i16,
    pub viewed_at: i64,
    pub topic_id: String,
    pub expire_time: Option<i64>,
    pub expire_timestamp: Option<i64>,
    pub revoked: i16,
    pub revoked_at: i64,
    pub revoked_by: Option<u64>,
}

/// What a [`Message`] holds.
pub struct MessageModel {
    pub id: Option<i64>,
    pub server_message_id: Option<u64>,
    pub pts: i64,
    pub channel_id: u64,
    pub channel_type: i32,
    pub timestamp: Option<i64>,
    pub from_uid: u64,
    pub message_type: i32,
    pub content: Seq<char>,
    pub status: i32,
    pub voice_status: i32,
    pub created_at: i64,
    pub updated_at: i64,
    pub searchable_word: Seq<char>,
    pub local_message_id: u64,
    pub is_deleted: i32,
    pub setting: i32,
    pub order_seq: i64,
    pub extra: Seq<char>,
    pub flame: i16,
    pub flame_second: i32,
    pub viewed: i16,
    pub viewed_at: i64,
    pub topic_id: Seq<char>,
    pub expire_time: Option<i64>,
    pub expire_timestamp: Option<i64>,
    pub revoked: i16,
    pub revoked_at: i64,
    pub revoked_by: Option<u64>,
}

impl View for Message {
    type V = MessageModel;

    open spec fn view(&self) -> MessageModel {
        MessageModel {
            id: self.id,
            server_message_id: self.server_message_id,
            pts: self.pts,
            channel_id: self.channel_id,
            channel_type: self.channel_type,
            timestamp: self.timestamp,
            from_uid: self.from_uid,
            message_type: self.message_type,
            content: self.content@,
            status: self.status,
            voice_status: self.voice_status,
            created_at: self.created_at,
            updated_at: self.updated_at,
            searchable_word: self.searchable_word@,
            local_message_id: self.local_message_id,
            is_deleted: self.is_deleted,
            setting: self.setting,
            order_seq: self.order_seq,
            extra: self.extra@,
            flame: self.flame,
            flame_second: self.flame_second,
            viewed: self.viewed,
            viewed_at: self.viewed_at,
            topic_id: self.topic_id@,
            expire_time: self.expire_time,
            expire_timestamp: self.expire_timestamp,
            revoked: self.revoked,
            revoked_at: self.revoked_at,
            revoked_by: self.revoked_by,
        }
    }
}

impl Clone for Message {
    fn clone(&self) -> (r: Self)
        ensures
            r == *self,
    {
        Message {
            id: self.id,
            server_message_id: self.server_message_id,
            pts: self.pts,
            channel_id: self.channel_id,
            channel_type: self.channel_type,
            timestamp: self.timestamp,
            from_uid: self.from_uid,
            message_type: self.message_type,
            content: self.content.clone(),
            status: self.status,
            voice_status: self.voice_status,
            created_at: self.created_at,
            updated_at: self.updated_at,
            searchable_word: self.searchable_word.clone(),
            local_message_id: self.local_message_id,
            is_deleted: self.is_deleted,
            setting: self.setting,
            order_seq: self.order_seq,
            extra: self.extra.clone(),
            flame: self.flame,
            flame_second: self.flame_second,
            viewed: self.viewed,
            viewed_at: self.viewed_at,
            topic_id: self.topic_id.clone(),
            expire_time: self.expire_time,
            expire_timestamp: self.expire_timestamp,
            revoked: self.revoked,
            revoked_at: self.revoked_at,
            revoked_by: self.revoked_by,
        }
    }
}

/// A stored channel: what the channel list shows of a conversation, and its settings.
#[derive(Debug)]
pub struct Channel {
    pub id: Option<i64>,
    pub channel_id: u64,
    pub channel_type: i32,
    pub last_local_message_id: u64,
    pub last_msg_timestamp: Option<i64>,
    pub last_msg_content: String,
    pub unread_count: i32,
    /// Position of the channel's last message.
    pub last_msg_pts: i64,
    pub show_nick: i32,
    pub username: String,
    pub channel_name: String,
    pub channel_remark: String,
    pub top: i32,
    pub mute: i32,
    pub save: i32,
    pub forbidden: i32,
    pub follow: i32,
    pub is_deleted: i32,
    pub receipt: i32,
    pub status: i32,
    pub invite: i32,
    pub robot: i32,
    pub version: i64,
    pub online: i16,
    pub last_offline: i64,
    pub avatar: String,
    pub category: String,
    pub extra: String,
    pub created_at: i64,
    pub updated_at: i64,
    pub avatar_cache_key: String,
    pub remote_extra: Option<String>,
    pub flame: i16,
    pub flame_second: i32,
    pub device_flag: i32,
    pub parent_channel_id: u64,
    pub parent_channel_type: i32,
}

/// What a [`Channel`] holds.
pub struct ChannelModel {
    pub id: Option<i64>,
    pub channel_id: u64,
    pub channel_type: i32,
    pub last_local_message_id: u64,
    pub last_msg_timestamp: Option<i64>,
    pub last_msg_content: Seq<char>,
    pub unread_count: i32,
    pub last_msg_pts: i64,
    pub show_nick: i32,
    pub username: Seq<char>,
    pub channel_name: Seq<char>,
    pub channel_remark: Seq<char>,
    pub top: i32,
    pub mute: i32,
    pub save: i32,
    pub forbidden: i32,
    pub follow: i32,
    pub is_deleted: i32,
    pub receipt: i32,
    pub status: i32,
    pub invite: i32,
    pub robot: i32,
    pub version: i64,
    pub online: i16,
    pub last_offline: i64,
    pub avatar: Seq<char>,
    pub category: Seq<char>,
    pub extra: Seq<char>,
    pub created_at: i64,
    pub updated_at: i64,
    pub avatar_cache_key: Seq<char>,
    pub remote_extra: Option<Seq<char>>,
    pub flame: i16,
    pub flame_second: i32,
    pub device_flag: i32,
    pub parent_channel_id: u64,
    pub parent_channel_type: i32,
}

impl View for Channel {
    type V = ChannelModel;

    open spec fn view(&self) -> ChannelModel {
        ChannelModel {
            id: self.id,
            channel_id: self.channel_id,
            channel_type: self.channel_type,
            last_local_message_id: self.last_local_message_id,
            last_msg_timestamp: self.last_msg_timestamp,
            last_msg_content: self.last_msg_content@,
            unread_count: self.unread_count,
            last_msg_pts: self.last_msg_pts,
            show_nick: self.show_nick,
            username: self.username@,
            channel_name: self.channel_name@,
            channel_remark: self.channel_remark@,
            top: self.top,
            mute: self.mute,
            save: self.save,
            forbidden: self.forbidden,
            follow: self.follow,
            is_deleted: self.is_deleted,
            receipt: self.receipt,
            status: self.status,
            invite: self.invite,
            robot: self.robot,
            version: self.version,
            online: self.online,
            last_offline: self.last_offline,
            avatar: self.avatar@,
            category: self.category@,
            extra: self.extra@,
            created_at: self.created_at,
            updated_at: self.updated_at,
            avatar_cache_key: self.avatar_cache_key@,
            remote_extra: json::opt_view(self.remote_extra),
            flame: self.flame,
            flame_second: self.flame_second,
            device_flag: self.device_flag,
            parent_channel_id: self.parent_channel_id,
            parent_channel_type: self.parent_channel_type,
        }
    }
}

impl Clone for Channel {
    fn clone(&self) -> (r: Self)
        ensures
            r == *self,
    {
        Channel {
            id: self.id,
            channel_id: self.channel_id,
            channel_type: self.channel_type,
            last_local_message_id: self.last_local_message_id,
            last_msg_timestamp: self.last_msg_timestamp,
            last_msg_content: self.last_msg_content.clone(),
            unread_count: self.unread_count,
            last_msg_pts: self.last_msg_pts,
            show_nick: self.show_nick,
            username: self.username.clone(),
            channel_name: self.channel_name.clone(),
            channel_remark: self.channel_remark.clone(),
            top: self.top,
            mute: self.mute,
            save: self.save,
            forbidden: self.forbidden,
            follow: self.follow,
            is_deleted: self.is_deleted,
            receipt: self.receipt,
            status: self.status,
            invite: self.invite,
            robot: self.robot,
            version: self.version,
            online: self.online,
            last_offline: self.last_offline,
            avatar: self.avatar.clone(),
            category: self.category.clone(),
            extra: self.extra.clone(),
            created_at: self.created_at,
            updated_at: self.updated_at,
            avatar_cache_key: self.avatar_cache_key.clone(),
            remote_extra: clone_text(&self.remote_extra),
            flame: self.flame,
            flame_second: self.flame_second,
            device_flag: self.device_flag,
            parent_channel_id: self.parent_channel_id,
            parent_channel_type: self.parent_channel_type,
        }
    }
}

/// A member of a channel.
#[derive(Debug)]
pub struct ChannelMember {
    pub id: Option<i64>,
    pub channel_id: u64,
    pub channel_type: i32,
    pub member_uid: u64,
    pub member_name: String,
    pub member_remark: String,
    pub member_avatar: String,
    pub member_invite_uid: u64,
    pub role: i32,
    pub status: i32,
    pub is_deleted: i32,
    pub robot: i32,
    pub version: i64,
    pub created_at: i64,
    pub updated_at: i64,
    pub extra: String,
    pub forbidden_expiration_time: i64,
    pub member_avatar_cache_key: String,
}

/// What a [`ChannelMember`] holds.
pub struct ChannelMemberModel {
    pub id: Option<i64>,
    pub channel_id: u64,
    pub channel_type: i32,
    pub member_uid: u64,
    pub member_name: Seq<char>,
    pub member_remark: Seq<char>,
    pub member_avatar: Seq<char>,
    pub member_invite_uid: u64,
    pub role: i32,
    pub status: i32,
    pub is_deleted: i32,
    pub robot: i32,
    pub version: i64,
    pub created_at: i64,
    pub updated_at: i64,
    pub extra: Seq<char>,
    pub forbidden_expiration_time: i64,
    pub member_avatar_cache_key: Seq<char>,
}

impl View for ChannelMember {
    type V = ChannelMemberModel;

    open spec fn view(&self) -> ChannelMemberModel {
        ChannelMemberModel {
            id: self.id,
            channel_id: self.channel_id,
            channel_type: self.channel_type,
            member_uid: self.member_uid,
            member_name: self.member_name@,
            member_remark: self.member_remark@,
            member_avatar: self.member_avatar@,
            member_invite_uid: self.member_invite_uid,
            role: self.role,
            status: self.status,
            is_deleted: self.is_deleted,
            robot: self.robot,
            version: self.version,
            created_at: self.created_at,
            updated_at: self.updated_at,
            extra: self.extra@,
            forbidden_expiration_time: self.forbidden_expiration_time,
            member_avatar_cache_key: self.member_avatar_cache_key@,
        }
    }
}

impl Clone for ChannelMember {
    fn clone(&self) -> (r: Self)
        ensures
            r == *self,
    {
        ChannelMember {
            id: self.id,
            channel_id: self.channel_id,
            channel_type: self.channel_type,
            member_uid: self.member_uid,
            member_name: self.member_name.clone(),
            member_remark: self.member_remark.clone(),
            member_avatar: self.member_avatar.clone(),
            member_invite_uid: self.member_invite_uid,
            role: self.role,
            status: self.status,
            is_deleted: self.is_deleted,
            robot: self.robot,
            version: self.version,
            created_at: self.created_at,
            updated_at: self.updated_at,
            extra: self.extra.clone(),
            forbidden_expiration_time: self.forbidden_expiration_time,
            member_avatar_cache_key: self.member_avatar_cache_key.clone(),
        }
    }
}

/// A user: friends, group members and strangers alike.
#[derive(Debug)]
pub struct User {
    pub user_id: u64,
    pub username: Option<String>,
    pub nickname: Option<String>,
    pub alias: Option<String>,
    pub avatar: String,
    pub user_type: i32,
    pub is_deleted: bool,
    pub channel_id: String,
    pub updated_at: i64,
}

/// What a [`User`] holds.
pub struct UserModel {
    pub user_id: u64,
    pub username: Option<Seq<char>>,
    pub nickname: Option<Seq<char>>,
    pub alias: Option<Seq<char>>,
    pub avatar: Seq<char>,
    pub user_type: i32,
    pub is_deleted: bool,
    pub channel_id: Seq<char>,
    pub updated_at: i64,
}

impl View for User {
    type V = UserModel;

    open spec fn view(&self) -> UserModel {
        UserModel {
            user_id: self.user_id,
            username: json::opt_view(self.username),
            nickname: json::opt_view(self.nickname),
            alias: json::opt_view(self.alias),
            avatar: self.avatar@,
            user_type: self.user_type,
            is_deleted: self.is_deleted,
            channel_id: self.channel_id@,
            updated_at: self.updated_at,
        }
    }
}

impl Clone for User {
    fn clone(&self) -> (r: Self)
        ensures
            r == *self,
    {
        User {
            user_id: self.user_id,
            username: clone_text(&self.username),
            nickname: clone_text(&self.nickname),
            alias: clone_text(&self.alias),
            avatar: self.avatar.clone(),
            user_type: self.user_type,
            is_deleted: self.is_deleted,
            channel_id: self.channel_id.clone(),
            updated_at: self.updated_at,
        }
    }
}

/// A group.
#[derive(Debug)]
pub struct Group {
    pub group_id: u64,
    pub name: Option<String>,
    pub avatar: String,
    pub owner_id: Option<u64>,
    pub is_dismissed: bool,
    pub created_at: i64,
    pub updated_at: i64,
}

/// What a [`Group`] holds.
pub struct GroupModel {
    pub group_id: u64,
    pub name: Option<Seq<char>>,
    pub avatar: Seq<char>,
    pub owner_id: Option<u64>,
    pub is_dismissed: bool,
    pub created_at: i64,
    pub updated_at: i64,
}

impl View for Group {
    type V = GroupModel;

    open spec fn view(&self) -> GroupModel {
        GroupModel {
            group_id: self.group_id,
            name: json::opt_view(self.name),
            avatar: self.avatar@,
            owner_id: self.owner_id,
            is_dismissed: self.is_dismissed,
            created_at: self.created_at,
            updated_at: self.updated_at,
        }
    }
}

impl Clone for Group {
    fn clone(&self) -> (r: Self)
        ensures
            r == *self,
    {
        Group {
            group_id: self.group_id,
            name: clone_text(&self.name),
            avatar: self.avatar.clone(),
            owner_id: self.owner_id,
            is_dismissed: self.is_dismissed,
            created_at: self.created_at,
            updated_at: self.updated_at,
        }
    }
}

/// A member of a group.
#[derive(Debug)]
pub struct GroupMember {
    pub group_id: u64,
    pub user_id: u64,
    pub role: i32,
    pub status: i32,
    pub alias: Option<String>,
    pub is_muted: bool,
    pub joined_at: i64,
    pub updated_at: i64,
}

/// What a [`GroupMember`] holds.
pub struct GroupMemberModel {
    pub group_id: u64,
    pub user_id: u64,
    pub role: i32,
    pub status: i32,
    pub alias: Option<Seq<char>>,
    pub is_muted: bool,
    pub joined_at: i64,
    pub updated_at: i64,
}

impl View for GroupMember {
    type V = GroupMemberModel;

    open spec fn view(&self) -> GroupMemberModel {
        GroupMemberModel {
            group_id: self.group_id,
            user_id: self.user_id,
            role: self.role,
            status: self.status,
            alias: json::opt_view(self.alias),
            is_muted: self.is_muted,
            joined_at: self.joined_at,
            updated_at: self.updated_at,
        }
    }
}

impl Clone for GroupMember {
    fn clone(&self) -> (r: Self)
        ensures
            r == *self,
    {
        GroupMember {
            group_id: self.group_id,
            user_id: self.user_id,
            role: self.role,
            status: self.status,
            alias: clone_text(&self.alias),
            is_muted: self.is_muted,
            joined_at: self.joined_at,
            updated_at: self.updated_at,
        }
    }
}

/// A friendship; how the friend is shown comes from the user.
#[derive(Debug)]
pub struct Friend {
    pub user_id: u64,
    pub tags: Option<String>,
    pub is_pinned: bool,
    pub created_at: i64,
    pub updated_at: i64,
}

/// What a [`Friend`] holds.
pub struct FriendModel {
    pub user_id: u64,
    pub tags: Option<Seq<char>>,
    pub is_pinned: bool,
    pub created_at: i64,
    pub updated_at: i64,
}

impl View for Friend {
    type V = FriendModel;

    open spec fn view(&self) -> FriendModel {
        FriendModel {
            user_id: self.user_id,
            tags: json::opt_view(self.tags),
            is_pinned: self.is_pinned,
            created_at: self.created_at,
            updated_at: self.updated_at,
        }
    }
}

impl Clone for Friend {
    fn clone(&self) -> (r: Self)
        ensures
            r == *self,
    {
        Friend {
            user_id: self.user_id,
            tags: clone_text(&self.tags),
            is_pinned: self.is_pinned,
            created_at: self.created_at,
            updated_at: self.updated_at,
        }
    }
}

/// What is known of a message beside the message itself.
#[derive(Debug)]
pub struct MessageExtra {
    pub id: Option<i64>,
    pub message_id: Option<u64>,
    pub channel_id: Option<u64>,
    pub channel_type: i16,
    pub readed: i32,
    pub readed_count: i32,
    pub unread_count: i32,
    pub revoke: i16,
    pub revoker: Option<u64>,
    pub extra_version: i64,
    pub is_mutual_deleted: i16,
    pub content_edit: Option<String>,
    pub edited_at: i32,
    pub need_upload: i16,
    pub is_pinned: i32,
}

impl Clone for MessageExtra {
    fn clone(&self) -> (r: Self)
        ensures
            r == *self,
    {
        MessageExtra {
            id: self.id,
            message_id: self.message_id,
            channel_id: self.channel_id,
            channel_type: self.channel_type,
            readed: self.readed,
            readed_count: self.readed_count,
            unread_count: self.unread_count,
            revoke: self.revoke,
            revoker: self.revoker,
            extra_version: self.extra_version,
            is_mutual_deleted: self.is_mutual_deleted,
            content_edit: clone_text(&self.content_edit),
            edited_at: self.edited_at,
            need_upload: self.need_upload,
            is_pinned: self.is_pinned,
        }
    }
}

/// A reaction to a message.
#[derive(Debug)]
pub struct MessageReaction {
    pub id: Option<i64>,
    pub channel_id: u64,
    pub channel_type: i32,
    pub uid: u64,
    pub name: String,
    pub emoji: String,
    pub message_id: u64,
    pub seq: i64,
    pub is_deleted: i32,
    pub created_at: Option<String>,
}

impl Clone for MessageReaction {
    fn clone(&self) -> (r: Self)
        ensures
            r == *self,
    {
        MessageReaction {
            id: self.id,
            channel_id: self.channel_id,
            channel_type: self.channel_type,
            uid: self.uid,
            name: self.name.clone(),
            emoji: self.emoji.clone(),
            message_id: self.message_id,
            seq: self.seq,
            is_deleted: self.is_deleted,
            created_at: clone_text(&self.created_at),
        }
    }
}

/// A reminder that points at a message.
#[derive(Debug)]
pub struct Reminder {
    pub id: Option<i64>,
    pub reminder_id: i32,
    pub message_id: u64,
    pub pts: u64,
    pub channel_id: u64,
    pub channel_type: i16,
    pub uid: u64,
    pub reminder_type: i32,
    pub text: String,
    pub data: String,
    pub is_locate: i16,
    pub version: i64,
    pub done: i16,
    pub need_upload: i16,
    pub publisher: Option<u64>,
}

impl Clone for Reminder {
    fn clone(&self) -> (r: Self)
        ensures
            r == *self,
    {
        Reminder {
            id: self.id,
            reminder_id: self.reminder_id,
            message_id: self.message_id,
            pts: self.pts,
            channel_id: self.channel_id,
            channel_type: self.channel_type,
            uid: self.uid,
            reminder_type: self.reminder_type,
            text: self.text.clone(),
            data: self.data.clone(),
            is_locate: self.is_locate,
            version: self.version,
            done: self.done,
            need_upload: self.need_upload,
            publisher: self.publisher,
        }
    }
}

/// A robot account.
#[derive(Debug)]
pub struct Robot {
    pub id: Option<i64>,
    pub robot_id: String,
    pub status: i16,
    pub version: i64,
    pub inline_on: i16,
    pub placeholder: String,
    pub username: String,
    pub created_at: Option<String>,
    pub updated_at: Option<i64>,
}

impl Clone for Robot {
    fn clone(&self) -> (r: Self)
        ensures
            r == *self,
    {
        Robot {
            id: self.id,
            robot_id: self.robot_id.clone(),
            status: self.status,
            version: self.version,
            inline_on: self.inline_on,
            placeholder: self.placeholder.clone(),
            username: self.username.clone(),
            created_at: clone_text(&self.created_at),
            updated_at: self.updated_at,
        }
    }
}

/// One entry of a robot's menu.
#[derive(Debug)]
pub struct RobotMenu {
    pub id: Option<i64>,
    pub robot_id: String,
    pub cmd: String,
    pub remark: String,
    pub menu_type: String,
    pub created_at: Option<String>,
    pub updated_at: Option<i64>,
}

impl Clone for RobotMenu {
    fn clone(&self) -> (r: Self)
        ensures
            r == *self,
    {
        RobotMenu {
            id: self.id,
            robot_id: self.robot_id.clone(),
            cmd: self.cmd.clone(),
            remark: self.remark.clone(),
            menu_type: self.menu_type.clone(),
            created_at: clone_text(&self.created_at),
            updated_at: self.updated_at,
        }
    }
}

/// Reading position and draft of a channel.
#[derive(Debug)]
pub struct ChannelExtra {
    pub id: Option<i64>,
    pub channel_id: u64,
    pub channel_type: i16,
    pub browse_to: u64,
    pub keep_pts: u64,
    pub keep_offset_y: i32,
    pub draft: String,
    pub version: i64,
    pub draft_updated_at: u64,
}

impl Clone for ChannelExtra {
    fn clone(&self) -> (r: Self)
        ensures
            r == *self,
    {
        ChannelExtra {
            id: self.id,
            channel_id: self.channel_id,
            channel_type: self.channel_type,
            browse_to: self.browse_to,
            keep_pts: self.keep_pts,
            keep_offset_y: self.keep_offset_y,
            draft: self.draft.clone(),
            version: self.version,
            draft_updated_at: self.draft_updated_at,
        }
    }
}

/// Which messages a query asks for. A field that is absent asks nothing.
#[derive(Debug)]
pub struct MessageQuery {
    pub channel_id: Option<u64>,
    pub channel_type: Option<i32>,
    pub from_uid: Option<u64>,
    pub message_type: Option<i32>,
    pub start_time: Option<i64>,
    pub end_time: Option<i64>,
    pub limit: Option<u32>,
    pub offset: Option<u32>,
    pub order_by: Option<String>,
    pub is_deleted: Option<i32>,
}

impl Default for MessageQuery {
    fn default() -> (r: Self)
        ensures
            r == (MessageQuery {
                channel_id: None,
                channel_type: None,
                from_uid: None,
                message_type: None,
                start_time: None,
                end_time: None,
                limit: None,
                offset: None,
                order_by: None,
                is_deleted: None,
            }),
    {
        MessageQuery {
            channel_id: None,
            channel_type: None,
            from_uid: None,
            message_type: None,
            start_time: None,
            end_time: None,
            limit: None,
            offset: None,
            order_by: None,
            is_deleted: None,
        }
    }
}

/// Which channels a query asks for. A field that is absent asks nothing.
#[derive(Debug, Clone, Copy)]
pub struct ChannelQuery {
    pub channel_id: Option<u64>,
    pub channel_type: Option<i32>,
    pub status: Option<i32>,
    pub is_deleted: Option<i32>,
    pub has_unread: Option<bool>,
    pub limit: Option<u32>,
    pub offset: Option<u32>,
}

impl Default for ChannelQuery {
    fn default() -> (r: Self)
        ensures
            r == (ChannelQuery {
                channel_id: None,
                channel_type: None,
                status: None,
                is_deleted: None,
                has_unread: None,
                limit: None,
                offset: None,
            }),
    {
        ChannelQuery {
            channel_id: None,
            channel_type: None,
            status: None,
            is_deleted: None,
            has_unread: None,
            limit: None,
            offset: None,
        }
    }
}

/// One page of a query's results.
#[derive(Debug)]
pub struct PageResult<T> {
    pub data: Vec<T>,
    pub total: i64,
    pub page: u32,
    pub page_size: u32,
    pub has_more: bool,
}

impl<T> PageResult<T> {
    /// The page number `page`, counted from one, of `total` results in pages of `page_size`.
    pub fn new(data: Vec<T>, total: i64, page: u32, page_size: u32) -> (r: Self)
        requires
            page * page_size <= u32::MAX,
        ensures
            r == (PageResult {
                data,
                total,
                page,
                page_size,
                has_more: page * page_size < total as u32,
            }),
    {
        let has_more = (page * page_size) < #[verifier::truncate] (total as u32);
        PageResult { data, total, page, page_size, has_more }
    }
}

/// For a total that a page counter can hold, there are more results exactly where the pages up to
/// and with this one cover fewer than all.
pub proof fn law_has_more_means_results_left<T>(data: Vec<T>, total: i64, page: u32, page_size: u32)
    requires
        page * page_size <= u32::MAX,
        0 <= total <= u32::MAX,
    ensures
        (page * page_size < total as u32) <==> page * page_size < total,
{
}

/// The status of a message.
///
/// ```text
/// Draft -> Sending -> Sent -> Delivered -> Read
///             |         |
///             v         v
///          Retrying -> Failed
///             |
///             v
///          Expired
/// ```
///
/// A message that was sent, delivered or read can be revoked. A message that burns after reading
/// ends as burned.
#[derive(Debug, Clone, Copy, PartialEq, Eq, Structural, Hash)]
pub enum MessageStatus {
    Draft,
    Sending,
    Sent,
    Delivered,
    Read,
    Failed,
    Revoked,
    Burned,
    Retrying,
    Expired,
    Received,
}

/// The number under which the database keeps a status.
pub open spec fn status_number(s: MessageStatus) -> i32 {
    match s {
        MessageStatus::Draft => 0,
        MessageStatus::Sending => 1,
        MessageStatus::Sent => 2,
        MessageStatus::Delivered => 3,
        MessageStatus::Read => 4,
        MessageStatus::Failed => 5,
        MessageStatus::Revoked => 6,
        MessageStatus::Burned => 7,
        MessageStatus::Retrying => 8,
        MessageStatus::Expired => 9,
        MessageStatus::Received => 10,
    }
}

/// The name under which a status is shown.
pub open spec fn status_name(s: MessageStatus) -> Seq<char> {
    match s {
        MessageStatus::Draft => "草稿"@,
        MessageStatus::Sending => "发送中"@,
        MessageStatus::Sent => "已发送"@,
        MessageStatus::Delivered => "已投递"@,
        MessageStatus::Read => "已读"@,
        MessageStatus::Failed => "发送失败"@,
        MessageStatus::Revoked => "已撤回"@,
        MessageStatus::Burned => "已焚烧"@,
        MessageStatus::Retrying => "重试中"@,
        MessageStatus::Expired => "已过期"@,
        MessageStatus::Received => "已接收"@,
    }
}

/// Whether a message may go from one status to another: the arrows of the graph at
/// [`MessageStatus`], revoking, and burning after reading.
pub open spec fn may_follow(from: MessageStatus, to: MessageStatus) -> bool {
    match to {
        MessageStatus::Sending => from == MessageStatus::Draft,
        MessageStatus::Sent => from == MessageStatus::Sending,
        MessageStatus::Delivered => from == MessageStatus::Sent,
        MessageStatus::Read => from == MessageStatus::Delivered,
        MessageStatus::Retrying => from == MessageStatus::Sending,
        MessageStatus::Failed => from == MessageStatus::Sent || from == MessageStatus::Retrying,
        MessageStatus::Expired => from == MessageStatus::Retrying,
        MessageStatus::Revoked => from == MessageStatus::Sent || from == MessageStatus::Delivered
            || from == MessageStatus::Read,
        MessageStatus::Burned => from == MessageStatus::Read,
        MessageStatus::Draft | MessageStatus::Received => false,
    }
}

impl MessageStatus {
    /// Whether the message has reached the end of its way.
    pub fn is_final_state(&self) -> (r: bool)
        ensures
            r == (self is Read || self is Revoked || self is Burned),
    {
        match self {
            MessageStatus::Read | MessageStatus::Revoked | MessageStatus::Burned => true,
            _ => false,
        }
    }

    /// Whether the message was sent.
    pub fn is_sent_successfully(&self) -> (r: bool)
        ensures
            r == (self is Sent || self is Delivered || self is Read),
    {
        match self {
            MessageStatus::Sent | MessageStatus::Delivered | MessageStatus::Read => true,
            _ => false,
        }
    }

    /// Whether sending the message failed.
    pub fn is_send_failed(&self) -> (r: bool)
        ensures
            r == (self is Failed || self is Expired),
    {
        match self {
            MessageStatus::Failed | MessageStatus::Expired => true,
            _ => false,
        }
    }

    /// Whether the message waits for the network.
    pub fn needs_network_processing(&self) -> (r: bool)
        ensures
            r == (self is Sending || self is Retrying),
    {
        match self {
            MessageStatus::Sending | MessageStatus::Retrying => true,
            _ => false,
        }
    }

    /// Whether sending can be tried again.
    pub fn can_retry(&self) -> (r: bool)
        ensures
            r == (self is Failed || self is Expired || self is Retrying),
    {
        match self {
            MessageStatus::Failed | MessageStatus::Expired | MessageStatus::Retrying => true,
            _ => false,
        }
    }

    /// Whether the message can be revoked.
    pub fn can_revoke(&self) -> (r: bool)
        ensures
            r == (self is Sent || self is Delivered || self is Read),
    {
        match self {
            MessageStatus::Sent | MessageStatus::Delivered | MessageStatus::Read => true,
            _ => false,
        }
    }

    /// Whether the message may go to the status `to`.
    pub fn can_transition_to(&self, to: MessageStatus) -> (r: bool)
        ensures
            r == may_follow(*self, to),
    {
        match (*self, to) {
            (MessageStatus::Draft, MessageStatus::Sending) => true,
            (MessageStatus::Sending, MessageStatus::Sent) => true,
            (MessageStatus::Sending, MessageStatus::Retrying) => true,
            (MessageStatus::Sent, MessageStatus::Delivered) => true,
            (MessageStatus::Sent, MessageStatus::Failed) => true,
            (MessageStatus::Sent, MessageStatus::Revoked) => true,
            (MessageStatus::Delivered, MessageStatus::Read) => true,
            (MessageStatus::Delivered, MessageStatus::Revoked) => true,
            (MessageStatus::Read, MessageStatus::Revoked) => true,
            (MessageStatus::Read, MessageStatus::Burned) => true,
            (MessageStatus::Retrying, MessageStatus::Failed) => true,
            (MessageStatus::Retrying, MessageStatus::Expired) => true,
            _ => false,
        }
    }

    /// The name under which the status is shown.
    pub fn display_name(&self) -> (r: &'static str)
        ensures
            r@ == status_name(*self),
    {
        match self {
            MessageStatus::Draft => "草稿",
            MessageStatus::Sending => "发送中",
            MessageStatus::Sent => "已发送",
            MessageStatus::Delivered => "已投递",
            MessageStatus::Read => "已读",
            MessageStatus::Failed => "发送失败",
            MessageStatus::Revoked => "已撤回",
            MessageStatus::Burned => "已焚烧",
            MessageStatus::Retrying => "重试中",
            MessageStatus::Expired => "已过期",
            MessageStatus::Received => "已接收",
        }
    }

    /// The status that the database keeps under a number.
    pub fn from_i32(value: i32) -> (r: Option<Self>)
        ensures
            match r {
                Some(s) => status_number(s) == value,
                None => !(0 <= value <= 10),
            },
    {
        match value {
            0 => Some(MessageStatus::Draft),
            1 => Some(MessageStatus::Sending),
            2 => Some(MessageStatus::Sent),
            3 => Some(MessageStatus::Delivered),
            4 => Some(MessageStatus::Read),
            5 => Some(MessageStatus::Failed),
            6 => Some(MessageStatus::Revoked),
            7 => Some(MessageStatus::Burned),
            8 => Some(MessageStatus::Retrying),
            9 => Some(MessageStatus::Expired),
            10 => Some(MessageStatus::Received),
            _ => None,
        }
    }

    /// The number under which the database keeps the status.
    pub fn to_i32(&self) -> (r: i32)
        ensures
            r == status_number(*self),
    {
        match self {
            MessageStatus::Draft => 0,
            MessageStatus::Sending => 1,
            MessageStatus::Sent => 2,
            MessageStatus::Delivered => 3,
            MessageStatus::Read => 4,
            MessageStatus::Failed => 5,
            MessageStatus::Revoked => 6,
            MessageStatus::Burned => 7,
            MessageStatus::Retrying => 8,
            MessageStatus::Expired => 9,
            MessageStatus::Received => 10,
        }
    }
}

impl Default for MessageStatus {
    fn default() -> (r: Self)
        ensures
            r == MessageStatus::Draft,
    {
        MessageStatus::Draft
    }
}

/// The status with a given number, as the database keeps it.
pub open spec fn status_of(value: i32) -> Option<MessageStatus> {
    if exists|s: MessageStatus| status_number(s) == value {
        Some(choose|s: MessageStatus| status_number(s) == value)
    } else {
        None
    }
}

/// No two statuses share a number, and every number from 0 to 10 belongs to one.
pub proof fn law_status_numbers(a: MessageStatus, b: MessageStatus)
    ensures
        status_number(a) == status_number(b) <==> a == b,
        0 <= status_number(a) <= 10,
        status_of(status_number(a)) == Some(a),
{
    assert(exists|s: MessageStatus| status_number(s) == status_number(a));
}

/// A message that was revoked or burned changes its status no more.
pub proof fn law_revoked_and_burned_are_terminal(from: MessageStatus, to: MessageStatus)
    requires
        from is Revoked || from is Burned,
    ensures
        !may_follow(from, to),
{
}

/// A message may be revoked exactly in the statuses that can be revoked.
pub proof fn law_revocable_statuses(from: MessageStatus)
    ensures
        may_follow(from, MessageStatus::Revoked) <==> (from is Sent || from is Delivered
            || from is Read),
{
}

/// How far a message has come on its way; every change of status goes further.
pub open spec fn status_rank(s: MessageStatus) -> nat {
    match s {
        MessageStatus::Draft => 0,
        MessageStatus::Received => 0,
        MessageStatus::Sending => 1,
        MessageStatus::Retrying => 2,
        MessageStatus::Sent => 2,
        MessageStatus::Delivered => 3,
        MessageStatus::Failed => 3,
        MessageStatus::Expired => 3,
        MessageStatus::Read => 4,
        MessageStatus::Revoked => 5,
        MessageStatus::Burned => 5,
    }
}

/// No message ever comes back to a status that it left.
pub proof fn law_status_never_returns(from: MessageStatus, to: MessageStatus)
    requires
        may_follow(from, to),
    ensures
        status_rank(from) < status_rank(to),
{
}

/// Why a change of status was refused.
#[derive(Debug, Clone, PartialEq, Eq)]
pub struct StatusTransitionError {
    pub from: MessageStatus,
    pub to: MessageStatus,
    pub reason: String,
}

impl StatusTransitionError {
    /// The error as a sentence.
    pub fn message(&self) -> (r: String)
        ensures
            r@ == "不能从状态 '"@ + status_name(self.from) + "' 转换到 '"@ + status_name(self.to)
                + "': "@ + self.reason@,
    {
        let mut s = "不能从状态 '".to_owned();
        s.append(self.from.display_name());
        s.append("' 转换到 '");
        s.append(self.to.display_name());
        s.append("': ");
        s.append(self.reason.as_str());
        s
    }
}

/// The reason given for refusing a change of status.
pub open spec fn refusal_reason(
    from: MessageStatus,
    to: MessageStatus,
    context: Option<Seq<char>>,
) -> Seq<char> {
    if from is Read && to is Sending {
        "已读消息不能重新发送"@
    } else if from is Revoked {
        "已撤回的消息不能改变状态"@
    } else if from is Burned {
        "已焚烧的消息不能改变状态"@
    } else {
        match context {
            Some(c) => c,
            None => "无效的状态转换"@,
        }
    }
}

/// Checks changes of status.
pub struct StatusTransition;

impl StatusTransition {
    /// Whether a message may go from one status to another.
    pub fn validate(from: MessageStatus, to: MessageStatus) -> (r: Result<(), StatusTransitionError>)
        ensures
            match r {
                Ok(_) => may_follow(from, to),
                Err(e) => !may_follow(from, to) && e.from == from && e.to == to && e.reason@
                    == "无效的状态转换"@,
            },
    {
        if from.can_transition_to(to) {
            Ok(())
        } else {
            Err(StatusTransitionError { from, to, reason: "无效的状态转换".to_owned() })
        }
    }

    /// Whether a message may go from one status to another, with the reason where it may not.
    pub fn validate_with_reason(
        from: MessageStatus,
        to: MessageStatus,
        context: Option<&str>,
    ) -> (r: Result<(), StatusTransitionError>)
        ensures
            match r {
                Ok(_) => may_follow(from, to),
                Err(e) => !may_follow(from, to) && e.from == from && e.to == to && e.reason@
                    == refusal_reason(
                    from,
                    to,
                    match context {
                        Some(c) => Some(c@),
                        None => None,
                    },
                ),
            },
    {
        if from.can_transition_to(to) {
            Ok(())
        } else {
            let reason = match (from, to) {
                (MessageStatus::Read, MessageStatus::Sending) => "已读消息不能重新发送".to_owned(),
                (MessageStatus::Revoked, _) => "已撤回的消息不能改变状态".to_owned(),
                (MessageStatus::Burned, _) => "已焚烧的消息不能改变状态".to_owned(),
                _ => match context {
                    Some(c) => c.to_owned(),
                    None => "无效的状态转换".to_owned(),
                },
            };
            Err(StatusTransitionError { from, to, reason })
        }
    }
}

/// The role of a group member, in the order in which the server numbers them.
#[derive(Debug, Clone, Copy, PartialEq, Eq, Structural)]
pub enum MemberRole {
    Owner,
    Admin,
    Member,
}

/// Whether a group member is still in the group, in the order in which the server numbers them.
#[derive(Debug, Clone, Copy, PartialEq, Eq, Structural)]
pub enum GroupMemberStatus {
    Active,
    Left,
    Kicked,
}

impl MemberRole {
    /// The number that the server gives the role.
    pub fn to_i32(&self) -> (r: i32)
        ensures
            r == match *self {
                MemberRole::Owner => 0int,
                MemberRole::Admin => 1,
                MemberRole::Member => 2,
            },
    {
        match self {
            MemberRole::Owner => 0,
            MemberRole::Admin => 1,
            MemberRole::Member => 2,
        }
    }
}

impl GroupMemberStatus {
    /// The number that the server gives the status.
    pub fn to_i32(&self) -> (r: i32)
        ensures
            r == match *self {
                GroupMemberStatus::Active => 0int,
                GroupMemberStatus::Left => 1,
                GroupMemberStatus::Kicked => 2,
            },
    {
        match self {
            GroupMemberStatus::Active => 0,
            GroupMemberStatus::Left => 1,
            GroupMemberStatus::Kicked => 2,
        }
    }
}

/// From each status a message goes only where it can: a draft is sent; what is being sent was sent or
/// is tried again; what was sent is delivered, fails or is revoked; what was delivered is read or
/// revoked; what was read is revoked or burned; what is tried again fails or expires. The others are
/// final.
pub proof fn law_where_a_message_goes_next(from: MessageStatus, to: MessageStatus)
    ensures
        from is Draft ==> (may_follow(from, to) <==> to is Sending),
        from is Sending ==> (may_follow(from, to) <==> to is Sent || to is Retrying),
        from is Sent ==> (may_follow(from, to) <==> to is Delivered || to is Failed || to is Revoked),
        from is Delivered ==> (may_follow(from, to) <==> to is Read || to is Revoked),
        from is Read ==> (may_follow(from, to) <==> to is Revoked || to is Burned),
        from is Retrying ==> (may_follow(from, to) <==> to is Failed || to is Expired),
        from is Failed || from is Expired || from is Received || from is Revoked || from is Burned
            ==> !may_follow(from, to),
{
}

/// The numbers of the statuses go up along the way of a message that is sent, delivered and read, from
/// 0 for a draft; the ends follow.
pub proof fn law_status_numbers_follow_the_way()
    ensures
        status_number(MessageStatus::Draft) == 0,
        status_number(MessageStatus::Sending) == status_number(MessageStatus::Draft) + 1,
        status_number(MessageStatus::Sent) == status_number(MessageStatus::Sending) + 1,
        status_number(MessageStatus::Delivered) == status_number(MessageStatus::Sent) + 1,
        status_number(MessageStatus::Read) == status_number(MessageStatus::Delivered) + 1,
        status_number(MessageStatus::Failed) == status_number(MessageStatus::Read) + 1,
        status_number(MessageStatus::Revoked) == status_number(MessageStatus::Failed) + 1,
        status_number(MessageStatus::Burned) == status_number(MessageStatus::Revoked) + 1,
        status_number(MessageStatus::Retrying) == status_number(MessageStatus::Burned) + 1,
        status_number(MessageStatus::Expired) == status_number(MessageStatus::Retrying) + 1,
        status_number(MessageStatus::Received) == status_number(MessageStatus::Expired) + 1,
{
}

/// A number that is no status's stands for none.
pub proof fn law_other_numbers_are_no_status(value: i32)
    ensures
        status_of(value) is Some <==> 0 <= value <= 10,
        status_of(value) matches Some(s) ==> status_number(s) == value,
{
    if 0 <= value <= 10 {
        assert(status_number(MessageStatus::Draft) == 0 && status_number(MessageStatus::Sending) == 1
            && status_number(MessageStatus::Sent) == 2 && status_number(MessageStatus::Delivered) == 3
            && status_number(MessageStatus::Read) == 4 && status_number(MessageStatus::Failed) == 5
            && status_number(MessageStatus::Revoked) == 6 && status_number(MessageStatus::Burned) == 7
            && status_number(MessageStatus::Retrying) == 8 && status_number(MessageStatus::Expired) == 9
            && status_number(MessageStatus::Received) == 10);
    }
}

/// Different statuses are shown by different names.
pub proof fn law_status_names_differ(a: MessageStatus, b: MessageStatus)
    ensures
        status_name(a) == status_name(b) <==> a == b,
{
    reveal_strlit("草稿");
    reveal_strlit("发送中");
    reveal_strlit("已发送");
    reveal_strlit("已投递");
    reveal_strlit("已读");
    reveal_strlit("发送失败");
    reveal_strlit("已撤回");
    reveal_strlit("已焚烧");
    reveal_strlit("重试中");
    reveal_strlit("已过期");
    reveal_strlit("已接收");
    let x = status_name(a);
    let y = status_name(b);
    if x == y {
        assert(x.len() == y.len() && x[0] == y[0] && x[1] == y[1]);
    }
}

/// A refused change is explained by what cannot be undone, before what the caller says of it.
pub proof fn law_refusals_are_explained(
    from: MessageStatus,
    to: MessageStatus,
    context: Option<Seq<char>>,
)
    ensures
        from is Read && to is Sending ==> refusal_reason(from, to, context) == "已读消息不能重新发送"@,
        from is Revoked ==> refusal_reason(from, to, context) == "已撤回的消息不能改变状态"@,
        from is Burned ==> refusal_reason(from, to, context) == "已焚烧的消息不能改变状态"@,
        !(from is Revoked) && !(from is Burned) && !(from is Read && to is Sending) ==> refusal_reason(
            from,
            to,
            context,
        ) == (if context is Some {
            context->0
        } else {
            "无效的状态转换"@
        }),
{
}

} // verus!
