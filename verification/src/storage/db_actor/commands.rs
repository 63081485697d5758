//! What the owner of the databases does on each command.

use vstd::prelude::*;
use crate::error::{ErrorModel, PrivchatSDKError};
use crate::storage::dao::channel;
use crate::storage::dao::channel::ChannelDao;
use crate::storage::dao::channel_member;
use crate::storage::dao::channel_member::ChannelMemberDao;
use crate::storage::dao::friend_dao;
use crate::storage::dao::friend_dao::FriendDao;
use crate::storage::dao::group_dao;
use crate::storage::dao::group_dao::GroupDao;
use crate::storage::dao::message;
use crate::storage::dao::message::MessageDao;
use crate::storage::dao::user;
use crate::storage::dao::user::UserDao;
use crate::storage::db_actor::encryption;
use crate::storage::db_actor::encryption::derive_encryption_key;
use crate::storage::entities::{Channel, ChannelMember, Friend, Group, Message, MessageModel, User};
use crate::storage::sql;
use crate::storage::sql::{plain, SqlValue, Statement, StatementModel};
use crate::text;
use crate::text::{parse_u64, same_text, u64_text};

verus! {

/// What the owner of the databases is asked to do, each time for one user.
#[derive(Debug)]
pub enum DbCommand {
    /// Open the database of a user.
    InitUser { uid: String, db_path: String },
    /// Run any statement.
    Execute { uid: String, sql: String, params: Vec<SqlValue> },
    /// Set the status of a message by its number.
    UpdateMessageStatus { uid: String, id: i64, status: i32 },
    /// Set the id that the server gave a message.
    UpdateMessageServerId { uid: String, id: i64, server_message_id: u64 },
    /// Save a message that came in or goes out.
    SaveReceivedMessage { uid: String, message: Message, is_outgoing: bool },
    /// Run any query; its rows are read as JSON.
    Query { uid: String, sql: String, params: Vec<SqlValue> },
    /// Read a message.
    GetMessageById { uid: String, id: i64 },
    /// Read the channel of a message.
    GetMessageChannelId { uid: String, id: i64 },
    /// Read a page of messages before a local id.
    GetMessagesBefore { uid: String, channel_id: u64, before_id: u64, limit: u32 },
    /// Read the least local id of a channel.
    GetEarliestId { uid: String, channel_id: u64 },
    /// Read a page of messages after a local id.
    GetMessagesAfter { uid: String, channel_id: u64, after_id: u64, limit: u32 },
    /// Store a message that the user writes.
    SendMessage {
        uid: String,
        channel_id: u64,
        channel_type: i32,
        from_uid: u64,
        content: String,
        message_type: i32,
    },
    /// Mark a message as revoked.
    RevokeMessage { uid: String, id: i64, revoker_id: u64 },
    /// Replace the content of a message.
    EditMessage { uid: String, id: i64, new_content: String },
    /// Delete a message.
    DeleteMessage { uid: String, id: i64 },
    /// Replace the content of a message.
    UpdateMessageContent { uid: String, id: i64, new_content: String },
    /// Record a reaction to a message.
    AddMessageReaction { uid: String, id: i64, user_id: u64, reaction: String },
    /// Store a channel.
    SaveChannel { uid: String, channel: Channel },
    /// Read the channels.
    GetChannels { uid: String },
    /// Read a channel.
    GetChannelByChannel { uid: String, channel_id: u64, channel_type: u8 },
    /// Read a direct channel.
    GetDirectChannelById { uid: String, channel_id: u64 },
    /// Set the position up to which a channel is known.
    UpdateChannelPts { uid: String, channel_id: u64, channel_type: u8, new_pts: u64 },
    /// Find the direct channel of a user.
    FindChannelIdByUser { uid: String, target_user_id: u64 },
    /// Set whether a channel is a favourite.
    UpdateChannelSave { uid: String, channel_id: u64, channel_type: i32, save: i32 },
    /// Set the notification mode of a channel.
    UpdateChannelMute { uid: String, channel_id: u64, channel_type: i32, mute: i32 },
    /// Set the extra record of a channel.
    UpdateChannelExtra { uid: String, channel_id: u64, channel_type: i32, extra: String },
    /// Store a user.
    SaveUser { uid: String, user: User },
    /// Store users one by one.
    SaveUsers { uid: String, users: Vec<User> },
    /// Read a user.
    GetUser { uid: String, user_id: u64 },
    /// Read some users.
    GetUsersByIds { uid: String, ids: Vec<u64> },
    /// Store a friendship.
    SaveFriend { uid: String, friend: Friend },
    /// Store friendships together.
    SaveFriends { uid: String, friends: Vec<Friend> },
    /// Read a page of friendships.
    GetFriends { uid: String, limit: u32, offset: u32 },
    /// Count the friendships.
    GetFriendsCount { uid: String },
    /// Remove a friendship.
    DeleteFriend { uid: String, user_id: u64 },
    /// Store a member of a channel.
    SaveChannelMember { uid: String, member: ChannelMember },
    /// Store members of channels together.
    SaveChannelMembers { uid: String, members: Vec<ChannelMember> },
    /// Read a page of a group's members.
    GetGroupMembers { uid: String, group_id: u64, limit: Option<u32>, offset: Option<u32> },
    /// Remove a member from a channel.
    DeleteChannelMember { uid: String, channel_id: u64, channel_type: i32, member_uid: u64 },
    /// Read a page of groups.
    GetGroups { uid: String, limit: u32, offset: u32 },
    /// Read a group.
    GetGroup { uid: String, group_id: u64 },
    /// Store groups one by one.
    SaveGroups { uid: String, groups: Vec<Group> },
    /// Close the database of a user.
    CloseUser { uid: String },
    /// Stop.
    Shutdown,
}

impl DbCommand {
    /// The user whose database the command is for.
    pub open spec fn user(self) -> Option<Seq<char>> {
        match self {
            DbCommand::InitUser { uid, .. } => Some(uid@),
            DbCommand::Execute { uid, .. } => Some(uid@),
            DbCommand::UpdateMessageStatus { uid, .. } => Some(uid@),
            DbCommand::UpdateMessageServerId { uid, .. } => Some(uid@),
            DbCommand::SaveReceivedMessage { uid, .. } => Some(uid@),
            DbCommand::Query { uid, .. } => Some(uid@),
            DbCommand::GetMessageById { uid, .. } => Some(uid@),
            DbCommand::GetMessageChannelId { uid, .. } => Some(uid@),
            DbCommand::GetMessagesBefore { uid, .. } => Some(uid@),
            DbCommand::GetEarliestId { uid, .. } => Some(uid@),
            DbCommand::GetMessagesAfter { uid, .. } => Some(uid@),
            DbCommand::SendMessage { uid, .. } => Some(uid@),
            DbCommand::RevokeMessage { uid, .. } => Some(uid@),
            DbCommand::EditMessage { uid, .. } => Some(uid@),
            DbCommand::DeleteMessage { uid, .. } => Some(uid@),
            DbCommand::UpdateMessageContent { uid, .. } => Some(uid@),
            DbCommand::AddMessageReaction { uid, .. } => Some(uid@),
            DbCommand::SaveChannel { uid, .. } => Some(uid@),
            DbCommand::GetChannels { uid, .. } => Some(uid@),
            DbCommand::GetChannelByChannel { uid, .. } => Some(uid@),
            DbCommand::GetDirectChannelById { uid, .. } => Some(uid@),
            DbCommand::UpdateChannelPts { uid, .. } => Some(uid@),
            DbCommand::FindChannelIdByUser { uid, .. } => Some(uid@),
            DbCommand::UpdateChannelSave { uid, .. } => Some(uid@),
            DbCommand::UpdateChannelMute { uid, .. } => Some(uid@),
            DbCommand::UpdateChannelExtra { uid, .. } => Some(uid@),
            DbCommand::SaveUser { uid, .. } => Some(uid@),
            DbCommand::SaveUsers { uid, .. } => Some(uid@),
            DbCommand::GetUser { uid, .. } => Some(uid@),
            DbCommand::GetUsersByIds { uid, .. } => Some(uid@),
            DbCommand::SaveFriend { uid, .. } => Some(uid@),
            DbCommand::SaveFriends { uid, .. } => Some(uid@),
            DbCommand::GetFriends { uid, .. } => Some(uid@),
            DbCommand::GetFriendsCount { uid, .. } => Some(uid@),
            DbCommand::DeleteFriend { uid, .. } => Some(uid@),
            DbCommand::SaveChannelMember { uid, .. } => Some(uid@),
            DbCommand::SaveChannelMembers { uid, .. } => Some(uid@),
            DbCommand::GetGroupMembers { uid, .. } => Some(uid@),
            DbCommand::DeleteChannelMember { uid, .. } => Some(uid@),
            DbCommand::GetGroups { uid, .. } => Some(uid@),
            DbCommand::GetGroup { uid, .. } => Some(uid@),
            DbCommand::SaveGroups { uid, .. } => Some(uid@),
            DbCommand::CloseUser { uid } => Some(uid@),
            DbCommand::Shutdown => None,
        }
    }
}

/// What is to be done about a command.
#[derive(Debug)]
pub enum DbStep {
    /// End the work.
    Stop,
    /// There is nothing to do.
    Done,
    /// Answer with an error.
    Refuse(PrivchatSDKError),
    /// Open the database at a path with a key, bring it up to date and count its core tables.
    Open { uid: String, path: String, key: String },
    /// Run the statements in order, then answer with an error where one is given.
    Run { statements: Vec<Statement>, then_fail: Option<PrivchatSDKError> },
    /// Run the statements in order in one transaction.
    Together(Vec<Statement>),
    /// Count the message table, then run the update.
    Checked { check: Statement, update: Statement },
    /// Save a message step by step.
    Save { message: Message, is_outgoing: bool },
}

/// What a [`DbStep`] asks.
#[verifier::ext_equal]
pub enum StepModel {
    Stop,
    Done,
    Refuse(ErrorModel),
    Open { uid: Seq<char>, path: Seq<char>, key: Seq<char> },
    Run { statements: Seq<StatementModel>, then_fail: Option<ErrorModel> },
    Together(Seq<StatementModel>),
    Checked { check: StatementModel, update: StatementModel },
    Save { message: MessageModel, is_outgoing: bool },
}

/// The statements of a list, in order.
pub open spec fn statements_of(statements: Seq<Statement>) -> Seq<StatementModel> {
    Seq::new(statements.len(), |i: int| statements[i]@)
}

impl View for DbStep {
    type V = StepModel;

    open spec fn view(&self) -> StepModel {
        match *self {
            DbStep::Stop => StepModel::Stop,
            DbStep::Done => StepModel::Done,
            DbStep::Refuse(e) => StepModel::Refuse(e@),
            DbStep::Open { uid, path, key } => StepModel::Open {
                uid: uid@,
                path: path@,
                key: key@,
            },
            DbStep::Run { statements, then_fail } => StepModel::Run {
                statements: statements_of(statements@),
                then_fail: match then_fail {
                    Some(e) => Some(e@),
                    None => None,
                },
            },
            DbStep::Together(statements) => StepModel::Together(statements_of(statements@)),
            DbStep::Checked { check, update } => StepModel::Checked {
                check: check@,
                update: update@,
            },
            DbStep::Save { message, is_outgoing } => StepModel::Save {
                message: message@,
                is_outgoing,
            },
        }
    }
}

/// One statement to run.
pub open spec fn one(statement: StatementModel) -> StepModel {
    StepModel::Run { statements: seq![statement], then_fail: None }
}

/// The error for an identifier that the database cannot hold.
pub open spec fn sql_refusal(what: Seq<char>) -> ErrorModel {
    ErrorModel::Database(what + "out of range integral type conversion attempted"@)
}

/// Some of `count` statements to run; where some are left out, they are followed by an error.
pub open spec fn one_by_one(
    statements: Seq<StatementModel>,
    count: nat,
    what: Seq<char>,
) -> StepModel {
    StepModel::Run {
        statements,
        then_fail: if statements.len() == count {
            None
        } else {
            Some(sql_refusal(what))
        },
    }
}

/// The statements that store users, up to the first that cannot be stored.
pub open spec fn storable_users(users: Seq<User>) -> Seq<StatementModel>
    decreases users.len(),
{
    if users.len() == 0 || !user::bindable(users[0]@) {
        Seq::empty()
    } else {
        seq![
            sql::upsertion(
                "\"user\""@,
                user::user_bindings(users[0]@),
                "user_id"@,
                user::user_updated(),
            ),
        ] + storable_users(users.drop_first())
    }
}

/// The statements that store groups, up to the first that cannot be stored.
pub open spec fn storable_groups(groups: Seq<Group>) -> Seq<StatementModel>
    decreases groups.len(),
{
    if groups.len() == 0 || !group_dao::bindable(groups[0]@) {
        Seq::empty()
    } else {
        seq![
            sql::upsertion(
                "\"group\""@,
                group_dao::group_bindings(groups[0]@),
                "group_id"@,
                group_dao::group_updated(),
            ),
        ] + storable_groups(groups.drop_first())
    }
}

/// A message that the user writes, as it is stored before it is sent.
pub open spec fn written_message(
    channel_id: u64,
    channel_type: i32,
    from_uid: u64,
    content: Seq<char>,
    message_type: i32,
    now: i64,
) -> MessageModel {
    MessageModel {
        id: None,
        server_message_id: None,
        pts: now,
        channel_id,
        channel_type,
        timestamp: Some(now),
        from_uid,
        message_type,
        content,
        status: 0,
        voice_status: 0,
        created_at: now,
        updated_at: now,
        searchable_word: content,
        local_message_id: 0,
        is_deleted: 0,
        setting: 0,
        order_seq: now,
        extra: "{}"@,
        flame: 0,
        flame_second: 0,
        viewed: 0,
        viewed_at: 0,
        topic_id: ""@,
        expire_time: None,
        expire_timestamp: None,
        revoked: 0,
        revoked_at: 0,
        revoked_by: None,
    }
}

/// A message that the user writes, as it is stored before it is sent.
pub fn write_message(
    channel_id: u64,
    channel_type: i32,
    from_uid: u64,
    content: &str,
    message_type: i32,
    now: i64,
) -> (r: Message)
    ensures
        r@ == written_message(channel_id, channel_type, from_uid, content@, message_type, now),
{
    Message {
        id: None,
        server_message_id: None,
        pts: now,
        channel_id,
        channel_type,
        timestamp: Some(now),
        from_uid,
        message_type,
        content: content.to_owned(),
        status: 0,
        voice_status: 0,
        created_at: now,
        updated_at: now,
        searchable_word: content.to_owned(),
        local_message_id: 0,
        is_deleted: 0,
        setting: 0,
        order_seq: now,
        extra: "{}".to_owned(),
        flame: 0,
        flame_second: 0,
        viewed: 0,
        viewed_at: 0,
        topic_id: "".to_owned(),
        expire_time: None,
        expire_timestamp: None,
        revoked: 0,
        revoked_at: 0,
        revoked_by: None,
    }
}

/// The statement that counts the message table.
pub open spec fn message_table_statement() -> StatementModel {
    StatementModel {
        sql: "SELECT COUNT(*) FROM sqlite_master WHERE type='table' AND name='message'"@,
        params: Seq::empty(),
    }
}

fn message_table() -> (r: Statement)
    ensures
        r@ == message_table_statement(),
{
    plain("SELECT COUNT(*) FROM sqlite_master WHERE type='table' AND name='message'")
}

/// What a command is to do on the open database of its user at a time; `now_seconds` is the time in
/// seconds.
pub open spec fn work_of(cmd: DbCommand, now: i64, now_seconds: i64) -> StepModel {
    match cmd {
        DbCommand::Execute { sql, params, .. } => {
            one(StatementModel { sql: sql@, params: sql::values_of(params@) })
        },
        DbCommand::UpdateMessageStatus { id, status, .. } => StepModel::Checked {
            check: message_table_statement(),
            update: message::update_status_number_statement(id, status, now),
        },
        DbCommand::UpdateMessageServerId { id, server_message_id, .. } => {
            one(message::update_server_message_id_statement(id, server_message_id, now))
        },
        DbCommand::SaveReceivedMessage { message, is_outgoing, .. } => {
            StepModel::Save { message: message@, is_outgoing }
        },
        DbCommand::Query { sql, params, .. } => {
            one(StatementModel { sql: sql@, params: sql::values_of(params@) })
        },
        DbCommand::GetMessageById { id, .. } => one(message::get_by_id_statement(id)),
        DbCommand::GetMessageChannelId { id, .. } => one(message::get_channel_id_statement(id)),
        DbCommand::GetMessagesBefore { channel_id, before_id, limit, .. } => {
            one(message::messages_before_statement(channel_id, before_id, limit))
        },
        DbCommand::GetEarliestId { channel_id, .. } => {
            one(message::earliest_id_statement(channel_id))
        },
        DbCommand::GetMessagesAfter { channel_id, after_id, limit, .. } => {
            one(message::messages_after_statement(channel_id, after_id, limit))
        },
        DbCommand::SendMessage { channel_id, channel_type, from_uid, content, message_type, .. } => {
            one(
                sql::insertion(
                    "INSERT INTO "@,
                    "message"@,
                    message::message_bindings(
                        written_message(
                            channel_id,
                            channel_type,
                            from_uid,
                            content@,
                            message_type,
                            now,
                        ),
                        now,
                    ),
                ),
            )
        },
        DbCommand::RevokeMessage { id, revoker_id, .. } => StepModel::Together(
            seq![
                message::mark_revoked_statement(id, revoker_id, now),
                message::record_revocation_statement(id, revoker_id, now_seconds),
            ],
        ),
        DbCommand::EditMessage { id, new_content, .. } => StepModel::Together(
            seq![
                message::update_content_statement(id, new_content@, now),
                message::record_edit_statement(id, new_content@, now_seconds),
            ],
        ),
        DbCommand::DeleteMessage { id, .. } => one(message::soft_delete_statement(id, now)),
        DbCommand::UpdateMessageContent { id, new_content, .. } => StepModel::Together(
            seq![
                message::update_content_statement(id, new_content@, now),
                message::record_edit_statement(id, new_content@, now_seconds),
            ],
        ),
        DbCommand::AddMessageReaction { id, user_id, reaction, .. } => {
            one(message::add_reaction_statement(id, user_id, reaction@, now))
        },
        DbCommand::SaveChannel { channel, .. } => if channel::bindable(channel@) {
            one(
                sql::upsertion(
                    "channel"@,
                    channel::channel_bindings(channel@),
                    "channel_id"@,
                    channel::channel_updated(),
                ),
            )
        } else {
            StepModel::Refuse(sql_refusal(Seq::empty()))
        },
        DbCommand::GetChannels { .. } => one(channel::list_statement()),
        DbCommand::GetChannelByChannel { channel_id, channel_type, .. } => {
            if channel_id <= i64::MAX {
                one(channel::get_by_channel_statement(channel_id))
            } else {
                StepModel::Refuse(sql_refusal(Seq::empty()))
            }
        },
        DbCommand::GetDirectChannelById { channel_id, .. } => if channel_id <= i64::MAX {
            one(channel::get_direct_channel_by_id_statement(channel_id))
        } else {
            StepModel::Refuse(sql_refusal(Seq::empty()))
        },
        DbCommand::UpdateChannelPts { channel_id, channel_type, new_pts, .. } => {
            one(channel::update_pts_statement(channel_id, new_pts))
        },
        DbCommand::FindChannelIdByUser { target_user_id, .. } => {
            one(channel::find_by_username_statement(text::decimal(target_user_id as nat)))
        },
        DbCommand::UpdateChannelSave { channel_id, channel_type, save, .. } => {
            if channel_id <= i64::MAX {
                one(channel::update_save_statement(channel_id, save, now))
            } else {
                StepModel::Refuse(sql_refusal(Seq::empty()))
            }
        },
        DbCommand::UpdateChannelMute { channel_id, channel_type, mute, .. } => {
            if channel_id <= i64::MAX {
                one(channel::update_mute_statement(channel_id, mute, now))
            } else {
                StepModel::Refuse(sql_refusal(Seq::empty()))
            }
        },
        DbCommand::UpdateChannelExtra { channel_id, channel_type, extra, .. } => {
            one(channel::update_extra_statement(channel_id, extra@))
        },
        DbCommand::SaveUser { user, .. } => if user::bindable(user@) {
            one(
                sql::upsertion(
                    "\"user\""@,
                    user::user_bindings(user@),
                    "user_id"@,
                    user::user_updated(),
                ),
            )
        } else {
            StepModel::Refuse(sql_refusal("保存用户失败: "@))
        },
        DbCommand::SaveUsers { users, .. } => {
            one_by_one(storable_users(users@), users@.len(), "批量保存用户失败: "@)
        },
        DbCommand::GetUser { user_id, .. } => if user_id <= i64::MAX {
            one(user::get_by_id_statement(user_id))
        } else {
            StepModel::Refuse(sql_refusal("查询用户失败: "@))
        },
        DbCommand::GetUsersByIds { ids, .. } => if ids@.len() == 0 {
            StepModel::Run { statements: Seq::empty(), then_fail: None }
        } else {
            one(user::users_statement(ids@))
        },
        DbCommand::SaveFriend { friend, .. } => if friend_dao::bindable(friend@) {
            one(
                sql::upsertion(
                    "friend"@,
                    friend_dao::friend_bindings(friend@),
                    "user_id"@,
                    friend_dao::friend_updated(),
                ),
            )
        } else {
            StepModel::Refuse(sql_refusal("保存好友失败: "@))
        },
        DbCommand::SaveFriends { friends, .. } => if friend_dao::all_bindable(friends@) {
            StepModel::Together(
                Seq::new(
                    friends@.len(),
                    |i: int| sql::upsertion(
                        "friend"@,
                        friend_dao::friend_bindings(friends@[i]@),
                        "user_id"@,
                        friend_dao::friend_updated(),
                    ),
                ),
            )
        } else {
            StepModel::Refuse(sql_refusal("批量保存好友失败: "@))
        },
        DbCommand::GetFriends { limit, offset, .. } => {
            one(friend_dao::list_statement(limit, offset))
        },
        DbCommand::GetFriendsCount { .. } => one(friend_dao::count_statement()),
        DbCommand::DeleteFriend { user_id, .. } => if user_id <= i64::MAX {
            one(friend_dao::delete_by_user_id_statement(user_id))
        } else {
            StepModel::Refuse(sql_refusal("删除好友失败: "@))
        },
        DbCommand::SaveChannelMember { member, .. } => if channel_member::bindable(member@) {
            one(
                sql::upsertion(
                    "channel_member"@,
                    channel_member::channel_member_bindings(member@),
                    "channel_id, channel_type, member_uid"@,
                    channel_member::channel_member_updated(),
                ),
            )
        } else {
            StepModel::Refuse(sql_refusal("保存频道成员失败: "@))
        },
        DbCommand::SaveChannelMembers { members, .. } => if channel_member::all_bindable(members@) {
            StepModel::Together(
                Seq::new(
                    members@.len(),
                    |i: int| sql::upsertion(
                        "channel_member"@,
                        channel_member::channel_member_bindings(members@[i]@),
                        "channel_id, channel_type, member_uid"@,
                        channel_member::channel_member_updated(),
                    ),
                ),
            )
        } else {
            StepModel::Refuse(sql_refusal("批量保存频道成员失败: "@))
        },
        DbCommand::GetGroupMembers { group_id, limit, offset, .. } => {
            one(channel_member::list_members_statement(group_id, 2, limit, offset))
        },
        DbCommand::DeleteChannelMember { channel_id, channel_type, member_uid, .. } => {
            if channel_id <= i64::MAX {
                one(channel_member::delete_statement(channel_id, channel_type, member_uid))
            } else {
                StepModel::Refuse(sql_refusal("删除频道成员失败: "@))
            }
        },
        DbCommand::GetGroups { limit, offset, .. } => one(group_dao::list_statement(limit, offset)),
        DbCommand::GetGroup { group_id, .. } => if group_id <= i64::MAX {
            one(group_dao::get_by_id_statement(group_id))
        } else {
            StepModel::Refuse(sql_refusal("查询群失败: "@))
        },
        DbCommand::SaveGroups { groups, .. } => {
            one_by_one(storable_groups(groups@), groups@.len(), "保存群失败: "@)
        },
        _ => StepModel::Done,
    }
}

/// The form in which `std` shows a text in quotes, with what is not printable escaped.
pub uninterp spec fn quoted(s: Seq<char>) -> Seq<char>;

/// The `Debug` form of a `str` in `std`, written with `format!`. It depends on the text alone: the text
/// in double quotes, with quotes, backslashes and what is not printable escaped. Which characters are
/// printable is not said.
#[verifier::external_body]
fn quote(s: &str) -> (r: String)
    ensures
        r@ == quoted(s@),
{
    format!("{:?}", s)
}

/// The users with open databases, as a text.
pub open spec fn user_list(users: Seq<Seq<char>>) -> Seq<char>
    decreases users.len(),
{
    if users.len() == 0 {
        Seq::empty()
    } else {
        let before = if users.len() == 1 {
            Seq::empty()
        } else {
            user_list(users.drop_last()) + ", "@
        };
        before + quoted(users.last())
    }
}

/// The error for a command on a database that is not open.
pub open spec fn not_open(cmd: DbCommand, open: Seq<Seq<char>>) -> ErrorModel {
    match cmd {
        DbCommand::UpdateMessageStatus { uid, .. } => ErrorModel::Database(
            "用户数据库不存在: requested="@ + uid@ + ", available=["@ + user_list(open) + "]"@,
        ),
        _ => ErrorModel::Database(
            "用户数据库不存在: "@ + match cmd.user() {
                Some(uid) => uid,
                None => Seq::empty(),
            },
        ),
    }
}

/// What is to be done about a command while the databases of the users `open` are open.
pub open spec fn step_for(
    open: Seq<Seq<char>>,
    cmd: DbCommand,
    now: i64,
    now_seconds: i64,
) -> StepModel {
    match cmd {
        DbCommand::Shutdown => StepModel::Stop,
        DbCommand::CloseUser { .. } => StepModel::Done,
        DbCommand::InitUser { uid, db_path } => if open.contains(uid@) {
            StepModel::Done
        } else {
            StepModel::Open {
                uid: uid@,
                path: db_path@,
                key: encryption::hex_text(
                    encryption::sha256_digest(encryption::key_material(uid@)),
                ),
            }
        },
        _ => if open.contains(cmd.user()->0) {
            work_of(cmd, now, now_seconds)
        } else {
            StepModel::Refuse(not_open(cmd, open))
        },
    }
}

/// The users whose databases are open after a command; a database counts as open only once it was
/// found complete.
pub open spec fn open_after(open: Seq<Seq<char>>, cmd: DbCommand) -> Seq<Seq<char>> {
    match cmd {
        DbCommand::CloseUser { uid } => without(open, uid@),
        _ => open,
    }
}

/// A list without a text.
pub open spec fn without(list: Seq<Seq<char>>, s: Seq<char>) -> Seq<Seq<char>>
    decreases list.len(),
{
    if list.len() == 0 {
        Seq::empty()
    } else {
        let before = without(list.drop_last(), s);
        if list.last() == s {
            before
        } else {
            before.push(list.last())
        }
    }
}

fn copy_value(v: &SqlValue) -> (r: SqlValue)
    ensures
        r@ == v@,
{
    match v {
        SqlValue::Null => SqlValue::Null,
        SqlValue::Integer(i) => SqlValue::Integer(*i),
        SqlValue::Real(s) => SqlValue::Real(s.clone()),
        SqlValue::Text(s) => SqlValue::Text(s.clone()),
        SqlValue::Blob(b) => {
            let mut out: Vec<u8> = Vec::new();
            let length: usize = b.len();
            let mut i: usize = 0;
            while i < length
                invariant
                    i <= length == b@.len(),
                    out@ == b@.take(i as int),
                decreases length - i,
            {
                out.push(b[i]);
                i = i + 1;
            }
            assert(out@ =~= b@);
            SqlValue::Blob(out)
        },
    }
}

fn copy_values(values: &Vec<SqlValue>) -> (r: Vec<SqlValue>)
    ensures
        sql::values_of(r@) == sql::values_of(values@),
{
    let mut out: Vec<SqlValue> = Vec::new();
    let length: usize = values.len();
    let mut i: usize = 0;
    while i < length
        invariant
            i <= length == values@.len(),
            out@.len() == i,
            forall|j: int| 0 <= j < i ==> (#[trigger] out@[j])@ == values@[j]@,
        decreases length - i,
    {
        out.push(copy_value(&values[i]));
        i = i + 1;
    }
    assert(sql::values_of(out@) =~= sql::values_of(values@));
    out
}

fn run_one(s: Statement) -> (r: DbStep)
    ensures
        r@ == one(s@),
{
    let r = DbStep::Run { statements: vec![s], then_fail: None };
    assert(r@->statements =~= seq![s@]);
    r
}

fn run_none() -> (r: DbStep)
    ensures
        r@ == (StepModel::Run { statements: Seq::empty(), then_fail: None }),
{
    let r = DbStep::Run { statements: Vec::new(), then_fail: None };
    assert(r@->statements =~= Seq::<StatementModel>::empty());
    r
}

fn run_both(s: (Statement, Statement)) -> (r: DbStep)
    ensures
        r@ == StepModel::Together(seq![s.0@, s.1@]),
{
    let r = DbStep::Together(vec![s.0, s.1]);
    assert(r@->Together_0 =~= seq![s.0@, s.1@]);
    r
}

fn refusal(what: &str) -> (r: PrivchatSDKError)
    ensures
        r@ == sql_refusal(what@),
{
    let mut s = what.to_owned();
    s.append("out of range integral type conversion attempted");
    PrivchatSDKError::Database(s)
}

fn run_or_refuse(s: Result<Statement, PrivchatSDKError>, what: &str) -> (r: DbStep)
    ensures
        match s {
            Ok(s) => r@ == one(s@),
            Err(_) => r@ == StepModel::Refuse(sql_refusal(what@)),
        },
{
    match s {
        Ok(s) => run_one(s),
        Err(_) => DbStep::Refuse(refusal(what)),
    }
}

fn together_or_refuse(s: Result<Vec<Statement>, PrivchatSDKError>, what: &str) -> (r: DbStep)
    ensures
        match s {
            Ok(s) => r@ == StepModel::Together(statements_of(s@)),
            Err(_) => r@ == StepModel::Refuse(sql_refusal(what@)),
        },
{
    match s {
        Ok(s) => DbStep::Together(s),
        Err(_) => DbStep::Refuse(refusal(what)),
    }
}

fn users_one_by_one(users: &Vec<User>) -> (r: DbStep)
    ensures
        r@ == one_by_one(storable_users(users@), users@.len(), "批量保存用户失败: "@),
{
    let mut out: Vec<Statement> = Vec::new();
    let length: usize = users.len();
    let mut i: usize = 0;
    proof {
        assert(users@.skip(0) =~= users@);
        assert(statements_of(out@) + storable_users(users@) =~= storable_users(users@));
    }
    while i < length
        invariant
            i <= length == users@.len(),
            out@.len() == i,
            storable_users(users@) == statements_of(out@) + storable_users(users@.skip(i as int)),
        decreases length - i,
    {
        proof {
            assert(users@.skip(i as int)[0] == users@[i as int]);
            assert(users@.skip(i as int).drop_first() =~= users@.skip(i + 1));
        }
        match UserDao::upsert(&users[i]) {
            Ok(s) => {
                let ghost before = out@;
                out.push(s);
                proof {
                    assert(statements_of(out@) =~= statements_of(before) + seq![s@]);
                    assert(storable_users(users@) =~= statements_of(out@) + storable_users(
                        users@.skip(i + 1),
                    ));
                }
            },
            Err(_) => {
                proof {
                    assert(storable_users(users@) =~= statements_of(out@));
                }
                return DbStep::Run {
                    statements: out,
                    then_fail: Some(refusal("批量保存用户失败: ")),
                };
            },
        }
        i = i + 1;
    }
    proof {
        assert(users@.skip(i as int) =~= Seq::<User>::empty());
        assert(storable_users(users@) =~= statements_of(out@));
    }
    DbStep::Run { statements: out, then_fail: None }
}

fn groups_one_by_one(groups: &Vec<Group>) -> (r: DbStep)
    ensures
        r@ == one_by_one(storable_groups(groups@), groups@.len(), "保存群失败: "@),
{
    let mut out: Vec<Statement> = Vec::new();
    let length: usize = groups.len();
    let mut i: usize = 0;
    proof {
        assert(groups@.skip(0) =~= groups@);
        assert(statements_of(out@) + storable_groups(groups@) =~= storable_groups(groups@));
    }
    while i < length
        invariant
            i <= length == groups@.len(),
            out@.len() == i,
            storable_groups(groups@) == statements_of(out@) + storable_groups(
                groups@.skip(i as int),
            ),
        decreases length - i,
    {
        proof {
            assert(groups@.skip(i as int)[0] == groups@[i as int]);
            assert(groups@.skip(i as int).drop_first() =~= groups@.skip(i + 1));
        }
        match GroupDao::upsert(&groups[i]) {
            Ok(s) => {
                let ghost before = out@;
                out.push(s);
                proof {
                    assert(statements_of(out@) =~= statements_of(before) + seq![s@]);
                    assert(storable_groups(groups@) =~= statements_of(out@) + storable_groups(
                        groups@.skip(i + 1),
                    ));
                }
            },
            Err(_) => {
                proof {
                    assert(storable_groups(groups@) =~= statements_of(out@));
                }
                return DbStep::Run {
                    statements: out,
                    then_fail: Some(refusal("保存群失败: ")),
                };
            },
        }
        i = i + 1;
    }
    proof {
        assert(groups@.skip(i as int) =~= Seq::<Group>::empty());
        assert(storable_groups(groups@) =~= statements_of(out@));
    }
    DbStep::Run { statements: out, then_fail: None }
}

fn refuse_user(uid: &str) -> (r: DbStep)
    ensures
        r@ == StepModel::Refuse(ErrorModel::Database("用户数据库不存在: "@ + uid@)),
{
    let mut s = "用户数据库不存在: ".to_owned();
    s.append(uid);
    DbStep::Refuse(PrivchatSDKError::Database(s))
}

/// The owner of the users' databases: which of them are open.
#[derive(Debug)]
pub struct DbActor {
    open_users: Vec<String>,
}

impl View for DbActor {
    type V = Seq<Seq<char>>;

    closed spec fn view(&self) -> Seq<Seq<char>> {
        Seq::new(self.open_users@.len(), |i: int| self.open_users@[i]@)
    }
}

impl DbActor {
    /// No database is open at first.
    pub fn new() -> (r: Self)
        ensures
            r@ == Seq::<Seq<char>>::empty(),
    {
        let r = DbActor { open_users: Vec::new() };
        assert(r@ =~= Seq::<Seq<char>>::empty());
        r
    }

    /// Whether the database of a user is open.
    pub fn is_open(&self, uid: &str) -> (r: bool)
        ensures
            r == self@.contains(uid@),
    {
        let length: usize = self.open_users.len();
        let mut i: usize = 0;
        while i < length
            invariant
                i <= length == self.open_users@.len(),
                forall|j: int| 0 <= j < i ==> self@[j] != uid@,
            decreases length - i,
        {
            if same_text(self.open_users[i].as_str(), uid) {
                assert(self@[i as int] == uid@);
                return true;
            }
            i = i + 1;
        }
        false
    }

    fn refuse_status(&self, uid: &str) -> (r: DbStep)
        ensures
            r@ == StepModel::Refuse(
                ErrorModel::Database(
                    "用户数据库不存在: requested="@ + uid@ + ", available=["@ + user_list(self@)
                        + "]"@,
                ),
            ),
    {
        let mut s = "用户数据库不存在: requested=".to_owned();
        s.append(uid);
        s.append(", available=[");
        let ghost head = s@;
        let length: usize = self.open_users.len();
        let mut i: usize = 0;
        proof {
            assert(self@.take(0) =~= Seq::<Seq<char>>::empty());
        }
        while i < length
            invariant
                i <= length == self.open_users@.len(),
                s@ == head + user_list(self@.take(i as int)),
            decreases length - i,
        {
            proof {
                assert(self@.take(i + 1).drop_last() =~= self@.take(i as int));
                assert(self@.take(i + 1).last() == self.open_users@[i as int]@);
            }
            if i > 0 {
                s.append(", ");
            }
            s.append(quote(self.open_users[i].as_str()).as_str());
            proof {
                let name = quoted(self.open_users@[i as int]@);
                if i == 0 {
                    assert(s@ =~= head + (Seq::empty() + name));
                } else {
                    assert(s@ =~= head + (user_list(self@.take(i as int)) + ", "@ + name));
                }
            }
            i = i + 1;
        }
        proof {
            assert(self@.take(i as int) =~= self@);
        }
        s.append("]");
        DbStep::Refuse(PrivchatSDKError::Database(s))
    }

    fn close(&mut self, uid: &str)
        ensures
            final(self)@ == without(old(self)@, uid@),
    {
        let ghost all = self@;
        let mut kept: Vec<String> = Vec::new();
        let length: usize = self.open_users.len();
        let mut i: usize = 0;
        proof {
            assert(all.take(0) =~= Seq::<Seq<char>>::empty());
        }
        while i < length
            invariant
                i <= length == self.open_users@.len(),
                all == self@,
                Seq::new(kept@.len(), |j: int| kept@[j]@) == without(all.take(i as int), uid@),
            decreases length - i,
        {
            proof {
                assert(all.take(i + 1).drop_last() =~= all.take(i as int));
                assert(all.take(i + 1).last() == self.open_users@[i as int]@);
            }
            if !same_text(self.open_users[i].as_str(), uid) {
                let ghost before = Seq::new(kept@.len(), |j: int| kept@[j]@);
                kept.push(self.open_users[i].clone());
                proof {
                    assert(Seq::new(kept@.len(), |j: int| kept@[j]@) =~= before.push(
                        self.open_users@[i as int]@,
                    ));
                }
            }
            i = i + 1;
        }
        proof {
            assert(all.take(i as int) =~= all);
        }
        self.open_users = kept;
    }

    /// What is to be done about a command.
    pub fn step(&mut self, command: &DbCommand, now: i64, now_seconds: i64) -> (r: DbStep)
        ensures
            r@ == step_for(old(self)@, *command, now, now_seconds),
            final(self)@ == open_after(old(self)@, *command),
    {
        match command {
            DbCommand::CloseUser { uid } => {
                self.close(uid.as_str());
                DbStep::Done
            },
            _ => self.plan(command, now, now_seconds),
        }
    }

    #[verifier::rlimit(60)]
    fn plan(&self, command: &DbCommand, now: i64, now_seconds: i64) -> (r: DbStep)
        ensures
            r@ == step_for(self@, *command, now, now_seconds),
    {
        proof {
            assert(Seq::<char>::empty() + "out of range integral type conversion attempted"@
                =~= "out of range integral type conversion attempted"@);
            reveal_strlit("");
            assert(""@ =~= Seq::<char>::empty());
        }
        let r = match command {
                DbCommand::Shutdown => DbStep::Stop,
                DbCommand::CloseUser { .. } => DbStep::Done,
                DbCommand::InitUser { uid, db_path } => {
                    if self.is_open(uid.as_str()) {
                        DbStep::Done
                    } else {
                        DbStep::Open {
                            uid: uid.clone(),
                            path: db_path.clone(),
                            key: derive_encryption_key(uid.as_str()),
                        }
                    }
                },
                DbCommand::Execute { uid, sql, params } => {
                    if !self.is_open(uid.as_str()) {
                        return refuse_user(uid.as_str());
                    }
                    run_one(Statement { sql: sql.clone(), params: copy_values(params) })
                },
                DbCommand::UpdateMessageStatus { uid, id, status } => {
                    if !self.is_open(uid.as_str()) {
                        return self.refuse_status(uid.as_str());
                    }
                    DbStep::Checked {
                        check: message_table(),
                        update: MessageDao::update_status_number(*id, *status, now),
                    }
                },
                DbCommand::UpdateMessageServerId { uid, id, server_message_id } => {
                    if !self.is_open(uid.as_str()) {
                        return refuse_user(uid.as_str());
                    }
                    run_one(MessageDao::update_server_message_id(*id, *server_message_id, now))
                },
                DbCommand::SaveReceivedMessage { uid, message, is_outgoing } => {
                    if !self.is_open(uid.as_str()) {
                        return refuse_user(uid.as_str());
                    }
                    DbStep::Save { message: message.clone(), is_outgoing: *is_outgoing }
                },
                DbCommand::Query { uid, sql, params } => {
                    if !self.is_open(uid.as_str()) {
                        return refuse_user(uid.as_str());
                    }
                    run_one(Statement { sql: sql.clone(), params: copy_values(params) })
                },
                DbCommand::GetMessageById { uid, id } => {
                    if !self.is_open(uid.as_str()) {
                        return refuse_user(uid.as_str());
                    }
                    run_one(MessageDao::get_by_id(*id))
                },
                DbCommand::GetMessageChannelId { uid, id } => {
                    if !self.is_open(uid.as_str()) {
                        return refuse_user(uid.as_str());
                    }
                    run_one(MessageDao::get_channel_id(*id))
                },
                DbCommand::GetMessagesBefore { uid, channel_id, before_id, limit } => {
                    if !self.is_open(uid.as_str()) {
                        return refuse_user(uid.as_str());
                    }
                    run_one(MessageDao::messages_before(*channel_id, *before_id, *limit))
                },
                DbCommand::GetEarliestId { uid, channel_id } => {
                    if !self.is_open(uid.as_str()) {
                        return refuse_user(uid.as_str());
                    }
                    run_one(MessageDao::earliest_id(*channel_id))
                },
                DbCommand::GetMessagesAfter { uid, channel_id, after_id, limit } => {
                    if !self.is_open(uid.as_str()) {
                        return refuse_user(uid.as_str());
                    }
                    run_one(MessageDao::messages_after(*channel_id, *after_id, *limit))
                },
                DbCommand::SendMessage { uid, channel_id, channel_type, from_uid, content, message_type } => {
                    if !self.is_open(uid.as_str()) {
                        return refuse_user(uid.as_str());
                    }
                    run_or_refuse(
                        MessageDao::insert(
                            &write_message(
                                *channel_id,
                                *channel_type,
                                *from_uid,
                                content.as_str(),
                                *message_type,
                                now,
                            ),
                            now,
                        ),
                        "",
                    )
                },
                DbCommand::RevokeMessage { uid, id, revoker_id } => {
                    if !self.is_open(uid.as_str()) {
                        return refuse_user(uid.as_str());
                    }
                    run_both(MessageDao::revoke(*id, *revoker_id, now, now_seconds))
                },
                DbCommand::EditMessage { uid, id, new_content } => {
                    if !self.is_open(uid.as_str()) {
                        return refuse_user(uid.as_str());
                    }
                    run_both(MessageDao::edit(*id, new_content.as_str(), now, now_seconds))
                },
                DbCommand::DeleteMessage { uid, id } => {
                    if !self.is_open(uid.as_str()) {
                        return refuse_user(uid.as_str());
                    }
                    run_one(MessageDao::soft_delete(*id, now))
                },
                DbCommand::UpdateMessageContent { uid, id, new_content } => {
                    if !self.is_open(uid.as_str()) {
                        return refuse_user(uid.as_str());
                    }
                    run_both(MessageDao::edit(*id, new_content.as_str(), now, now_seconds))
                },
                DbCommand::AddMessageReaction { uid, id, user_id, reaction } => {
                    if !self.is_open(uid.as_str()) {
                        return refuse_user(uid.as_str());
                    }
                    run_one(MessageDao::add_reaction(*id, *user_id, reaction.as_str(), now))
                },
                DbCommand::SaveChannel { uid, channel } => {
                    if !self.is_open(uid.as_str()) {
                        return refuse_user(uid.as_str());
                    }
                    run_or_refuse(ChannelDao::upsert(channel), "")
                },
                DbCommand::GetChannels { uid } => {
                    if !self.is_open(uid.as_str()) {
                        return refuse_user(uid.as_str());
                    }
                    run_one(ChannelDao::list())
                },
                DbCommand::GetChannelByChannel { uid, channel_id, channel_type } => {
                    if !self.is_open(uid.as_str()) {
                        return refuse_user(uid.as_str());
                    }
                    run_or_refuse(ChannelDao::get_by_channel(*channel_id, *channel_type as i32), "")
                },
                DbCommand::GetDirectChannelById { uid, channel_id } => {
                    if !self.is_open(uid.as_str()) {
                        return refuse_user(uid.as_str());
                    }
                    run_or_refuse(ChannelDao::get_direct_channel_by_id(*channel_id), "")
                },
                DbCommand::UpdateChannelPts { uid, channel_id, channel_type, new_pts } => {
                    if !self.is_open(uid.as_str()) {
                        return refuse_user(uid.as_str());
                    }
                    run_one(ChannelDao::update_pts(*channel_id, *channel_type as i32, *new_pts))
                },
                DbCommand::FindChannelIdByUser { uid, target_user_id } => {
                    if !self.is_open(uid.as_str()) {
                        return refuse_user(uid.as_str());
                    }
                    run_one(ChannelDao::find_by_username(u64_text(*target_user_id).as_str()))
                },
                DbCommand::UpdateChannelSave { uid, channel_id, channel_type, save } => {
                    if !self.is_open(uid.as_str()) {
                        return refuse_user(uid.as_str());
                    }
                    run_or_refuse(
                        ChannelDao::update_save(*channel_id, *channel_type, *save, now),
                        "",
                    )
                },
                DbCommand::UpdateChannelMute { uid, channel_id, channel_type, mute } => {
                    if !self.is_open(uid.as_str()) {
                        return refuse_user(uid.as_str());
                    }
                    run_or_refuse(
                        ChannelDao::update_mute(*channel_id, *channel_type, *mute, now),
                        "",
                    )
                },
                DbCommand::UpdateChannelExtra { uid, channel_id, channel_type, extra } => {
                    if !self.is_open(uid.as_str()) {
                        return refuse_user(uid.as_str());
                    }
                    run_one(ChannelDao::update_extra(*channel_id, *channel_type, extra.as_str()))
                },
                DbCommand::SaveUser { uid, user } => {
                    if !self.is_open(uid.as_str()) {
                        return refuse_user(uid.as_str());
                    }
                    run_or_refuse(UserDao::upsert(user), "保存用户失败: ")
                },
                DbCommand::SaveUsers { uid, users } => {
                    if !self.is_open(uid.as_str()) {
                        return refuse_user(uid.as_str());
                    }
                    users_one_by_one(users)
                },
                DbCommand::GetUser { uid, user_id } => {
                    if !self.is_open(uid.as_str()) {
                        return refuse_user(uid.as_str());
                    }
                    run_or_refuse(UserDao::get_by_id(*user_id), "查询用户失败: ")
                },
                DbCommand::GetUsersByIds { uid, ids } => {
                    if !self.is_open(uid.as_str()) {
                        return refuse_user(uid.as_str());
                    }
                    match UserDao::get_by_ids(ids) { Some(s) => run_one(s), None => run_none() }
                },
                DbCommand::SaveFriend { uid, friend } => {
                    if !self.is_open(uid.as_str()) {
                        return refuse_user(uid.as_str());
                    }
                    run_or_refuse(FriendDao::upsert(friend), "保存好友失败: ")
                },
                DbCommand::SaveFriends { uid, friends } => {
                    if !self.is_open(uid.as_str()) {
                        return refuse_user(uid.as_str());
                    }
                    together_or_refuse(FriendDao::upsert_many(friends), "批量保存好友失败: ")
                },
                DbCommand::GetFriends { uid, limit, offset } => {
                    if !self.is_open(uid.as_str()) {
                        return refuse_user(uid.as_str());
                    }
                    run_one(FriendDao::list(*limit, *offset))
                },
                DbCommand::GetFriendsCount { uid } => {
                    if !self.is_open(uid.as_str()) {
                        return refuse_user(uid.as_str());
                    }
                    run_one(FriendDao::count())
                },
                DbCommand::DeleteFriend { uid, user_id } => {
                    if !self.is_open(uid.as_str()) {
                        return refuse_user(uid.as_str());
                    }
                    run_or_refuse(FriendDao::delete_by_user_id(*user_id), "删除好友失败: ")
                },
                DbCommand::SaveChannelMember { uid, member } => {
                    if !self.is_open(uid.as_str()) {
                        return refuse_user(uid.as_str());
                    }
                    run_or_refuse(ChannelMemberDao::upsert(member), "保存频道成员失败: ")
                },
                DbCommand::SaveChannelMembers { uid, members } => {
                    if !self.is_open(uid.as_str()) {
                        return refuse_user(uid.as_str());
                    }
                    together_or_refuse(ChannelMemberDao::upsert_batch(members), "批量保存频道成员失败: ")
                },
                DbCommand::GetGroupMembers { uid, group_id, limit, offset } => {
                    if !self.is_open(uid.as_str()) {
                        return refuse_user(uid.as_str());
                    }
                    run_one(ChannelMemberDao::list_members(*group_id, 2, *limit, *offset))
                },
                DbCommand::DeleteChannelMember { uid, channel_id, channel_type, member_uid } => {
                    if !self.is_open(uid.as_str()) {
                        return refuse_user(uid.as_str());
                    }
                    run_or_refuse(
                        ChannelMemberDao::delete(*channel_id, *channel_type, *member_uid),
                        "删除频道成员失败: ",
                    )
                },
                DbCommand::GetGroups { uid, limit, offset } => {
                    if !self.is_open(uid.as_str()) {
                        return refuse_user(uid.as_str());
                    }
                    run_one(GroupDao::list(*limit, *offset))
                },
                DbCommand::GetGroup { uid, group_id } => {
                    if !self.is_open(uid.as_str()) {
                        return refuse_user(uid.as_str());
                    }
                    run_or_refuse(GroupDao::get_by_id(*group_id), "查询群失败: ")
                },
                DbCommand::SaveGroups { uid, groups } => {
                    if !self.is_open(uid.as_str()) {
                        return refuse_user(uid.as_str());
                    }
                    groups_one_by_one(groups)
                },
        };
        assert(r@ =~= step_for(self@, *command, now, now_seconds));
        r
    }

    /// Takes over a database that was opened and brought up to date, where its three core tables
    /// are there.
    pub fn opened(&mut self, uid: &str, core_tables: i32) -> (r: Result<(), PrivchatSDKError>)
        ensures
            core_tables >= 3 ==> r is Ok && final(self)@ == old(self)@.push(uid@),
            core_tables < 3 ==> r is Err && r->Err_0@ == ErrorModel::Database(
                "数据库初始化不完整：关键表缺失"@,
            ) && final(self)@ == old(self)@,
    {
        if core_tables < 3 {
            return Err(
                PrivchatSDKError::Database("数据库初始化不完整：关键表缺失".to_owned()),
            );
        }
        let ghost before = self@;
        self.open_users.push(uid.to_owned());
        assert(self@ =~= before.push(uid@));
        Ok(())
    }
}

/// Counts the core tables of a database.
pub fn core_tables() -> (r: Statement)
    ensures
        r@ == (StatementModel {
            sql:
                "SELECT COUNT(*) FROM sqlite_master WHERE type='table' AND name IN ('message', 'channel', 'channel_member')"@,
            params: Seq::empty(),
        }),
{
    plain(
        "SELECT COUNT(*) FROM sqlite_master WHERE type='table' AND name IN ('message', 'channel', 'channel_member')",
    )
}

/// Whether the status of a message may be set: not where the message table was counted and is not
/// there.
pub fn status_check(message_tables: Option<i32>) -> (r: Result<(), PrivchatSDKError>)
    ensures
        r is Err <==> message_tables == Some(0i32),
        r is Err ==> r->Err_0@ == ErrorModel::Database(
            "message 表不存在，数据库可能未正确初始化"@,
        ),
{
    match message_tables {
        Some(count) => {
            if count == 0 {
                return Err(
                    PrivchatSDKError::Database(
                        "message 表不存在，数据库可能未正确初始化".to_owned(),
                    ),
                );
            }
            Ok(())
        },
        None => Ok(()),
    }
}

proof fn lemma_without(list: Seq<Seq<char>>, s: Seq<char>)
    ensures
        !without(list, s).contains(s),
        forall|x: Seq<char>| x != s ==> (
            #[trigger] without(list, s).contains(x) <==> list.contains(x)
        ),
    decreases list.len(),
{
    if list.len() > 0 {
        lemma_without(list.drop_last(), s);
        let before = without(list.drop_last(), s);
        let all = without(list, s);
        if list.last() != s {
            assert(all == before.push(list.last()));
            assert(!all.contains(s)) by {
                if all.contains(s) {
                    let i = choose|i: int| 0 <= i < all.len() && all[i] == s;
                    assert(before[i] == s);
                }
            }
        }
        assert forall|x: Seq<char>| x != s implies (#[trigger] all.contains(x) <==> list.contains(x)) by {
            if list.contains(x) {
                let i = choose|i: int| 0 <= i < list.len() && list[i] == x;
                if i < list.len() - 1 {
                    assert(list.drop_last()[i] == x);
                    assert(before.contains(x));
                    let k = choose|k: int| 0 <= k < before.len() && before[k] == x;
                    assert(all[k] == x);
                } else {
                    assert(all[all.len() - 1] == x);
                }
            }
            if all.contains(x) {
                let i = choose|i: int| 0 <= i < all.len() && all[i] == x;
                if i < before.len() {
                    assert(before[i] == x);
                    assert(before.contains(x));
                    let k = choose|k: int| 0 <= k < list.drop_last().len() && list.drop_last()[k] == x;
                    assert(list[k] == x);
                } else {
                    assert(list[list.len() - 1] == x);
                }
            }
        }
    }
}

/// Only the owner's own users are served: a command on the database of a user that is not open is
/// refused, whatever it asks, and changes no database.
pub proof fn law_no_work_without_an_open_database(
    open: Seq<Seq<char>>,
    cmd: DbCommand,
    now: i64,
    now_seconds: i64,
)
    requires
        cmd.user() is Some,
        !open.contains(cmd.user()->0),
        !(cmd is InitUser),
        !(cmd is CloseUser),
    ensures
        step_for(open, cmd, now, now_seconds) == StepModel::Refuse(not_open(cmd, open)),
{
}

impl DbCommand {
    /// The command to mark a message as revoked by the user whose database it is in; a user whose
    /// name is no number counts as user 0.
    pub fn revoke_message(uid: String, id: i64) -> (r: Self)
        ensures
            r == (DbCommand::RevokeMessage {
                uid,
                id,
                revoker_id: match text::unsigned_value(uid@, u64::MAX as nat) {
                    Some(n) => n as u64,
                    None => 0,
                },
            }),
    {
        let revoker_id: u64 = match parse_u64(uid.as_str()) {
            Some(n) => n,
            None => 0,
        };
        DbCommand::RevokeMessage { uid, id, revoker_id }
    }
}

/// Closing the database of a user closes that database and no other.
pub proof fn law_closing_closes_one_database(open: Seq<Seq<char>>, uid: String)
    ensures
        !open_after(open, DbCommand::CloseUser { uid }).contains(uid@),
        forall|other: Seq<char>|
            other != uid@ ==> (#[trigger] open_after(open, DbCommand::CloseUser { uid }).contains(
                other,
            ) <==> open.contains(other)),
{
    lemma_without(open, uid@);
}

/// Opening a database that is open does nothing.
pub proof fn law_opening_twice_does_nothing(
    open: Seq<Seq<char>>,
    uid: String,
    db_path: String,
    now: i64,
    now_seconds: i64,
)
    requires
        open.contains(uid@),
    ensures
        step_for(open, DbCommand::InitUser { uid, db_path }, now, now_seconds) == StepModel::Done,
{
}

/// Every command but the last is for the user it names.
pub proof fn law_a_command_is_for_the_user_it_names(cmd: DbCommand)
    ensures
        cmd.user() is None <==> cmd is Shutdown,
        cmd matches DbCommand::InitUser { uid, .. } ==> cmd.user() == Some(uid@),
        cmd matches DbCommand::Execute { uid, .. } ==> cmd.user() == Some(uid@),
        cmd matches DbCommand::UpdateMessageStatus { uid, .. } ==> cmd.user() == Some(uid@),
        cmd matches DbCommand::UpdateMessageServerId { uid, .. } ==> cmd.user() == Some(uid@),
        cmd matches DbCommand::SaveReceivedMessage { uid, .. } ==> cmd.user() == Some(uid@),
        cmd matches DbCommand::Query { uid, .. } ==> cmd.user() == Some(uid@),
        cmd matches DbCommand::GetMessageById { uid, .. } ==> cmd.user() == Some(uid@),
        cmd matches DbCommand::GetMessageChannelId { uid, .. } ==> cmd.user() == Some(uid@),
        cmd matches DbCommand::GetMessagesBefore { uid, .. } ==> cmd.user() == Some(uid@),
        cmd matches DbCommand::GetEarliestId { uid, .. } ==> cmd.user() == Some(uid@),
        cmd matches DbCommand::GetMessagesAfter { uid, .. } ==> cmd.user() == Some(uid@),
        cmd matches DbCommand::SendMessage { uid, .. } ==> cmd.user() == Some(uid@),
        cmd matches DbCommand::RevokeMessage { uid, .. } ==> cmd.user() == Some(uid@),
        cmd matches DbCommand::EditMessage { uid, .. } ==> cmd.user() == Some(uid@),
        cmd matches DbCommand::DeleteMessage { uid, .. } ==> cmd.user() == Some(uid@),
        cmd matches DbCommand::UpdateMessageContent { uid, .. } ==> cmd.user() == Some(uid@),
        cmd matches DbCommand::AddMessageReaction { uid, .. } ==> cmd.user() == Some(uid@),
        cmd matches DbCommand::SaveChannel { uid, .. } ==> cmd.user() == Some(uid@),
        cmd matches DbCommand::GetChannels { uid, .. } ==> cmd.user() == Some(uid@),
        cmd matches DbCommand::GetChannelByChannel { uid, .. } ==> cmd.user() == Some(uid@),
        cmd matches DbCommand::GetDirectChannelById { uid, .. } ==> cmd.user() == Some(uid@),
        cmd matches DbCommand::UpdateChannelPts { uid, .. } ==> cmd.user() == Some(uid@),
        cmd matches DbCommand::FindChannelIdByUser { uid, .. } ==> cmd.user() == Some(uid@),
        cmd matches DbCommand::UpdateChannelSave { uid, .. } ==> cmd.user() == Some(uid@),
        cmd matches DbCommand::UpdateChannelMute { uid, .. } ==> cmd.user() == Some(uid@),
        cmd matches DbCommand::UpdateChannelExtra { uid, .. } ==> cmd.user() == Some(uid@),
        cmd matches DbCommand::SaveUser { uid, .. } ==> cmd.user() == Some(uid@),
        cmd matches DbCommand::SaveUsers { uid, .. } ==> cmd.user() == Some(uid@),
        cmd matches DbCommand::GetUser { uid, .. } ==> cmd.user() == Some(uid@),
        cmd matches DbCommand::GetUsersByIds { uid, .. } ==> cmd.user() == Some(uid@),
        cmd matches DbCommand::SaveFriend { uid, .. } ==> cmd.user() == Some(uid@),
        cmd matches DbCommand::SaveFriends { uid, .. } ==> cmd.user() == Some(uid@),
        cmd matches DbCommand::GetFriends { uid, .. } ==> cmd.user() == Some(uid@),
        cmd matches DbCommand::GetFriendsCount { uid, .. } ==> cmd.user() == Some(uid@),
        cmd matches DbCommand::DeleteFriend { uid, .. } ==> cmd.user() == Some(uid@),
        cmd matches DbCommand::SaveChannelMember { uid, .. } ==> cmd.user() == Some(uid@),
        cmd matches DbCommand::SaveChannelMembers { uid, .. } ==> cmd.user() == Some(uid@),
        cmd matches DbCommand::GetGroupMembers { uid, .. } ==> cmd.user() == Some(uid@),
        cmd matches DbCommand::DeleteChannelMember { uid, .. } ==> cmd.user() == Some(uid@),
        cmd matches DbCommand::GetGroups { uid, .. } ==> cmd.user() == Some(uid@),
        cmd matches DbCommand::GetGroup { uid, .. } ==> cmd.user() == Some(uid@),
        cmd matches DbCommand::SaveGroups { uid, .. } ==> cmd.user() == Some(uid@),
        cmd matches DbCommand::CloseUser { uid } ==> cmd.user() == Some(uid@),
{
}

/// Whether a command runs just one statement.
pub open spec fn runs(step: StepModel, statement: StatementModel) -> bool {
    step matches StepModel::Run { statements, then_fail } && statements.len() == 1 && statements[0]
        == statement && then_fail is None
}

/// A command about a message reads or changes the message of its row or its channel. A change of status
/// is made only where the table is there; revoking and editing change the message and its record
/// together.
pub proof fn law_commands_about_messages(cmd: DbCommand, now: i64, now_seconds: i64)
    ensures
        ({
            let step = work_of(cmd, now, now_seconds);
            &&& cmd matches DbCommand::UpdateMessageStatus { id, status, .. } ==> step matches
                StepModel::Checked { check, update } && update == message::update_status_number_statement(
                id,
                status,
                now,
            ) && check.sql
                == "SELECT COUNT(*) FROM sqlite_master WHERE type='table' AND name='message'"@
                && check.params.len() == 0
            &&& cmd matches DbCommand::UpdateMessageServerId { id, server_message_id, .. } ==> runs(
                step,
                message::update_server_message_id_statement(id, server_message_id, now),
            )
            &&& cmd matches DbCommand::SaveReceivedMessage { message, is_outgoing, .. } ==> step
                == (StepModel::Save { message: message@, is_outgoing })
            &&& cmd matches DbCommand::GetMessageById { id, .. } ==> runs(
                step,
                message::get_by_id_statement(id),
            )
            &&& cmd matches DbCommand::GetMessageChannelId { id, .. } ==> runs(
                step,
                message::get_channel_id_statement(id),
            )
            &&& cmd matches DbCommand::GetMessagesBefore { channel_id, before_id, limit, .. } ==> runs(
                step,
                message::messages_before_statement(channel_id, before_id, limit),
            )
            &&& cmd matches DbCommand::GetMessagesAfter { channel_id, after_id, limit, .. } ==> runs(
                step,
                message::messages_after_statement(channel_id, after_id, limit),
            )
            &&& cmd matches DbCommand::GetEarliestId { channel_id, .. } ==> runs(
                step,
                message::earliest_id_statement(channel_id),
            )
            &&& cmd matches DbCommand::RevokeMessage { id, revoker_id, .. } ==> step matches
                StepModel::Together(both) && both.len() == 2 && both[0]
                == message::mark_revoked_statement(id, revoker_id, now) && both[1]
                == message::record_revocation_statement(id, revoker_id, now_seconds)
            &&& cmd matches DbCommand::EditMessage { id, new_content, .. } ==> step matches
                StepModel::Together(both) && both.len() == 2 && both[0]
                == message::update_content_statement(id, new_content@, now) && both[1]
                == message::record_edit_statement(id, new_content@, now_seconds)
            &&& cmd matches DbCommand::DeleteMessage { id, .. } ==> runs(
                step,
                message::soft_delete_statement(id, now),
            )
            &&& cmd matches DbCommand::AddMessageReaction { id, user_id, reaction, .. } ==> runs(
                step,
                message::add_reaction_statement(id, user_id, reaction@, now),
            )
        }),
{
}

/// New content is stored in the same way as an edit.
pub proof fn law_new_content_is_an_edit(
    uid: String,
    id: i64,
    new_content: String,
    now: i64,
    now_seconds: i64,
)
    ensures
        work_of(DbCommand::UpdateMessageContent { uid, id, new_content }, now, now_seconds) == work_of(
            DbCommand::EditMessage { uid, id, new_content },
            now,
            now_seconds,
        ),
{
}

/// A message that the user writes is stored as the user's own of this moment, in the channel and of the
/// type that the command names: still a draft, not numbered by the server, and without marks.
pub proof fn law_a_written_message_is_stored(
    uid: String,
    channel_id: u64,
    channel_type: i32,
    from_uid: u64,
    content: String,
    message_type: i32,
    now: i64,
    now_seconds: i64,
)
    ensures
        ({
            let m = written_message(channel_id, channel_type, from_uid, content@, message_type, now);
            &&& m.channel_id == channel_id && m.channel_type == channel_type
            &&& m.from_uid == from_uid && m.content == content@ && m.message_type == message_type
            &&& m.searchable_word == content@ && m.extra == "{}"@ && m.topic_id.len() == 0
            &&& m.timestamp == Some(now) && m.created_at == now && m.updated_at == now
            &&& m.pts == now && m.order_seq == now
            &&& m.id is None && m.server_message_id is None && m.local_message_id == 0
            &&& m.status == 0 && m.voice_status == 0 && m.setting == 0
            &&& m.is_deleted == 0 && m.revoked == 0 && m.revoked_at == 0 && m.revoked_by is None
            &&& m.viewed == 0 && m.viewed_at == 0 && m.flame == 0 && m.flame_second == 0
            &&& m.expire_time is None && m.expire_timestamp is None
            &&& runs(
                work_of(
                    DbCommand::SendMessage {
                        uid,
                        channel_id,
                        channel_type,
                        from_uid,
                        content,
                        message_type,
                    },
                    now,
                    now_seconds,
                ),
                sql::insertion("INSERT INTO "@, "message"@, message::message_bindings(m, now)),
            )
        }),
{
    reveal_strlit("");
}

/// A command about a channel reads or changes the channel it names; what the database cannot number is
/// refused.
pub proof fn law_commands_about_channels(cmd: DbCommand, now: i64, now_seconds: i64)
    ensures
        ({
            let step = work_of(cmd, now, now_seconds);
            let refused = StepModel::Refuse(
                ErrorModel::Database("out of range integral type conversion attempted"@),
            );
            &&& cmd matches DbCommand::SaveChannel { channel, .. } ==> if channel.channel_id <= i64::MAX
                && channel.last_local_message_id <= i64::MAX && channel.parent_channel_id <= i64::MAX {
                runs(
                    step,
                    sql::upsertion(
                        "channel"@,
                        channel::channel_bindings(channel@),
                        "channel_id"@,
                        channel::channel_updated(),
                    ),
                )
            } else {
                step == refused
            }
            &&& cmd is GetChannels ==> runs(step, channel::list_statement())
            &&& cmd matches DbCommand::GetChannelByChannel { channel_id, .. } ==> if channel_id
                <= i64::MAX {
                runs(step, channel::get_by_channel_statement(channel_id))
            } else {
                step == refused
            }
            &&& cmd matches DbCommand::GetDirectChannelById { channel_id, .. } ==> if channel_id
                <= i64::MAX {
                runs(step, channel::get_direct_channel_by_id_statement(channel_id))
            } else {
                step == refused
            }
            &&& cmd matches DbCommand::UpdateChannelPts { channel_id, new_pts, .. } ==> runs(
                step,
                channel::update_pts_statement(channel_id, new_pts),
            )
            &&& cmd matches DbCommand::FindChannelIdByUser { target_user_id, .. } ==> runs(
                step,
                channel::find_by_username_statement(text::decimal(target_user_id as nat)),
            )
            &&& cmd matches DbCommand::UpdateChannelSave { channel_id, save, .. } ==> if channel_id
                <= i64::MAX {
                runs(step, channel::update_save_statement(channel_id, save, now))
            } else {
                step == refused
            }
            &&& cmd matches DbCommand::UpdateChannelMute { channel_id, mute, .. } ==> if channel_id
                <= i64::MAX {
                runs(step, channel::update_mute_statement(channel_id, mute, now))
            } else {
                step == refused
            }
            &&& cmd matches DbCommand::UpdateChannelExtra { channel_id, extra, .. } ==> runs(
                step,
                channel::update_extra_statement(channel_id, extra@),
            )
        }),
{
    let plain = "out of range integral type conversion attempted"@;
    assert(Seq::<char>::empty() + plain =~= plain);
}

/// A command about users, friends, members or groups reads or changes those it names. Users and groups
/// are stored one by one up to the first that cannot be, friends and members all or none.
pub proof fn law_commands_about_people(cmd: DbCommand, now: i64, now_seconds: i64)
    ensures
        ({
            let step = work_of(cmd, now, now_seconds);
            &&& cmd matches DbCommand::GetUser { user_id, .. } ==> if user_id <= i64::MAX {
                runs(step, user::get_by_id_statement(user_id))
            } else {
                step is Refuse
            }
            &&& cmd matches DbCommand::GetUsersByIds { ids, .. } ==> if ids@.len() > 0 {
                runs(step, user::users_statement(ids@))
            } else {
                step matches StepModel::Run { statements, then_fail } && statements.len() == 0
                    && then_fail is None
            }
            &&& cmd matches DbCommand::SaveUser { user, .. } ==> if user::bindable(user@) {
                runs(
                    step,
                    sql::upsertion(
                        "\"user\""@,
                        user::user_bindings(user@),
                        "user_id"@,
                        user::user_updated(),
                    ),
                )
            } else {
                step is Refuse
            }
            &&& cmd matches DbCommand::SaveFriend { friend, .. } ==> if friend_dao::bindable(friend@) {
                runs(
                    step,
                    sql::upsertion(
                        "friend"@,
                        friend_dao::friend_bindings(friend@),
                        "user_id"@,
                        friend_dao::friend_updated(),
                    ),
                )
            } else {
                step is Refuse
            }
            &&& cmd matches DbCommand::SaveFriends { friends, .. } ==> if friend_dao::all_bindable(
                friends@,
            ) {
                &&& step matches StepModel::Together(all)
                &&& all.len() == friends@.len()
                &&& forall|i: int|
                    0 <= i < all.len() ==> #[trigger] all[i] == sql::upsertion(
                        "friend"@,
                        friend_dao::friend_bindings(friends@[i]@),
                        "user_id"@,
                        friend_dao::friend_updated(),
                    )
            } else {
                step is Refuse
            }
            &&& cmd matches DbCommand::GetFriends { limit, offset, .. } ==> runs(
                step,
                friend_dao::list_statement(limit, offset),
            )
            &&& cmd is GetFriendsCount ==> runs(step, friend_dao::count_statement())
            &&& cmd matches DbCommand::DeleteFriend { user_id, .. } ==> if user_id <= i64::MAX {
                runs(step, friend_dao::delete_by_user_id_statement(user_id))
            } else {
                step is Refuse
            }
            &&& cmd matches DbCommand::SaveChannelMember { member, .. } ==> if channel_member::bindable(
                member@,
            ) {
                runs(
                    step,
                    sql::upsertion(
                        "channel_member"@,
                        channel_member::channel_member_bindings(member@),
                        "channel_id, channel_type, member_uid"@,
                        channel_member::channel_member_updated(),
                    ),
                )
            } else {
                step is Refuse
            }
            &&& cmd matches DbCommand::SaveChannelMembers { members, .. }
                ==> if channel_member::all_bindable(members@) {
                &&& step matches StepModel::Together(all)
                &&& all.len() == members@.len()
                &&& forall|i: int|
                    0 <= i < all.len() ==> #[trigger] all[i] == sql::upsertion(
                        "channel_member"@,
                        channel_member::channel_member_bindings(members@[i]@),
                        "channel_id, channel_type, member_uid"@,
                        channel_member::channel_member_updated(),
                    )
            } else {
                step is Refuse
            }
            &&& cmd matches DbCommand::GetGroupMembers { group_id, limit, offset, .. } ==> runs(
                step,
                channel_member::list_members_statement(group_id, 2, limit, offset),
            )
            &&& cmd matches DbCommand::DeleteChannelMember { channel_id, channel_type, member_uid, .. }
                ==> if channel_id <= i64::MAX {
                runs(step, channel_member::delete_statement(channel_id, channel_type, member_uid))
            } else {
                step is Refuse
            }
            &&& cmd matches DbCommand::GetGroups { limit, offset, .. } ==> runs(
                step,
                group_dao::list_statement(limit, offset),
            )
            &&& cmd matches DbCommand::GetGroup { group_id, .. } ==> if group_id <= i64::MAX {
                runs(step, group_dao::get_by_id_statement(group_id))
            } else {
                step is Refuse
            }
        }),
{
}

/// Users who are stored one by one are stored in order up to the first who cannot be, and the refusal
/// comes after them just where there is one.
pub proof fn law_users_are_stored_up_to_the_first_refusal(users: Seq<User>, groups: Seq<Group>, i: int)
    ensures
        storable_users(users).len() <= users.len(),
        storable_groups(groups).len() <= groups.len(),
        0 <= i < storable_users(users).len() ==> user::bindable(users[i]@) && storable_users(users)[i]
            == sql::upsertion(
            "\"user\""@,
            user::user_bindings(users[i]@),
            "user_id"@,
            user::user_updated(),
        ),
        storable_users(users).len() < users.len() ==> !user::bindable(
            users[storable_users(users).len() as int]@,
        ),
        0 <= i < storable_groups(groups).len() ==> group_dao::bindable(groups[i]@) && storable_groups(
            groups,
        )[i] == sql::upsertion(
            "\"group\""@,
            group_dao::group_bindings(groups[i]@),
            "group_id"@,
            group_dao::group_updated(),
        ),
        storable_groups(groups).len() < groups.len() ==> !group_dao::bindable(
            groups[storable_groups(groups).len() as int]@,
        ),
    decreases users.len() + groups.len(),
{
    if users.len() > 0 && user::bindable(users[0]@) {
        let rest = users.drop_first();
        law_users_are_stored_up_to_the_first_refusal(rest, groups, i - 1);
        assert(forall|k: int| 0 <= k < rest.len() ==> rest[k] == users[k + 1]);
    }
    if groups.len() > 0 && group_dao::bindable(groups[0]@) {
        let rest = groups.drop_first();
        law_users_are_stored_up_to_the_first_refusal(users, rest, i - 1);
        assert(forall|k: int| 0 <= k < rest.len() ==> rest[k] == groups[k + 1]);
    }
}

/// A list that is stored one by one fails at its end just where not all of it could be stored.
pub proof fn law_a_list_fails_where_something_is_left(
    statements: Seq<StatementModel>,
    count: nat,
    what: Seq<char>,
)
    ensures
        one_by_one(statements, count, what) matches StepModel::Run { statements: all, then_fail } && all
            == statements && (then_fail is None <==> statements.len() == count) && (then_fail matches Some(
            e,
        ) ==> e == ErrorModel::Database(what + "out of range integral type conversion attempted"@)),
{
}

/// A user's database that is not open is named in the refusal, and where a status was to be changed the
/// open ones are too.
pub proof fn law_a_refusal_names_the_database(cmd: DbCommand, open: Seq<Seq<char>>)
    ensures
        cmd matches DbCommand::UpdateMessageStatus { uid, .. } ==> not_open(cmd, open)
            == ErrorModel::Database(
            "用户数据库不存在: requested="@ + uid@ + ", available=["@ + user_list(open) + "]"@,
        ),
        !(cmd is UpdateMessageStatus) && cmd.user() is Some ==> not_open(cmd, open) == ErrorModel::Database(
            "用户数据库不存在: "@ + cmd.user()->0,
        ),
{
}

/// A database is opened with the key made of the user's id, at the path that is given; stopping stops,
/// and closing leaves all other databases open.
pub proof fn law_a_database_is_opened_for_its_user(
    open: Seq<Seq<char>>,
    uid: String,
    db_path: String,
    other: Seq<char>,
    now: i64,
    now_seconds: i64,
)
    ensures
        !open.contains(uid@) ==> step_for(open, DbCommand::InitUser { uid, db_path }, now, now_seconds)
            == (StepModel::Open {
            uid: uid@,
            path: db_path@,
            key: encryption::hex_text(
                encryption::sha256_digest(
                    vstd::utf8::encode_utf8("privchat_sdk_encryption_key_v1"@)
                        + vstd::utf8::encode_utf8(uid@),
                ),
            ),
        }),
        step_for(open, DbCommand::Shutdown, now, now_seconds) is Stop,
        step_for(open, DbCommand::CloseUser { uid }, now, now_seconds) is Done,
        without(open.push(other), uid@) == (if other == uid@ {
            without(open, uid@)
        } else {
            without(open, uid@).push(other)
        }),
{
    assert(open.push(other).drop_last() =~= open);
}

} // verus!
