//! The requests that the SDK sends to the server on behalf of its user.

use vstd::prelude::*;
use crate::error::{ErrorModel, PrivchatSDKError};
use crate::json;
use crate::sdk::state;
use crate::sdk::state::PrivchatSDK;
use crate::storage::entities::clone_text;

verus! {

/// What the server is told of the device.
#[derive(Debug)]
pub struct DeviceInfo {
    pub device_id: String,
    /// The name of the kind of device.
    pub device_type: String,
    pub app_id: String,
    pub push_token: Option<String>,
    pub push_channel: Option<String>,
    pub device_name: String,
    pub device_model: Option<String>,
    pub os_version: Option<String>,
    pub app_version: Option<String>,
    pub manufacturer: Option<String>,
    pub device_fingerprint: Option<String>,
}

/// A request to the server.
#[derive(Debug)]
pub enum Request {
    /// Make an account.
    Register {
        username: String,
        password: String,
        device_id: String,
        device_info: Option<DeviceInfo>,
    },
    /// Log in.
    Login {
        username: String,
        password: String,
        device_id: String,
        device_info: Option<DeviceInfo>,
    },
    /// Search for users.
    SearchUsers { from_user_id: u64, query: String, page: u32, page_size: u32 },
    /// Ask a user to be friends.
    FriendApply {
        from_user_id: u64,
        target_user_id: u64,
        message: Option<String>,
        source: String,
        source_id: Option<String>,
    },
    /// Read the requests of others to be friends.
    FriendPending { user_id: u64 },
    /// Accept a request to be friends.
    FriendAccept { from_user_id: u64, target_user_id: u64 },
    /// Reject a request to be friends.
    FriendReject { from_user_id: u64, target_user_id: u64 },
    /// End a friendship.
    FriendRemove { user_id: u64, friend_id: u64 },
    /// Find or make the direct channel with a user; the server fills in the asking user.
    DirectChannel {
        target_user_id: u64,
        source: Option<String>,
        source_id: Option<String>,
        user_id: u64,
    },
    /// Make a group.
    GroupCreate { creator_id: u64, name: String, member_ids: Option<Vec<u64>> },
    /// Add a user to a group.
    GroupMemberAdd { group_id: u64, inviter_id: u64, user_id: u64, role: String },
    /// Remove a user from a group.
    GroupMemberRemove { group_id: u64, operator_id: u64, user_id: u64 },
    /// Leave a group.
    GroupMemberLeave { group_id: u64, user_id: u64 },
    /// Join a group by its code.
    GroupJoinByQrCode {
        user_id: u64,
        qr_key: String,
        token: Option<String>,
        message: Option<String>,
    },
    /// Block a user.
    BlacklistAdd { user_id: u64, blocked_user_id: u64 },
    /// Unblock a user.
    BlacklistRemove { user_id: u64, blocked_user_id: u64 },
    /// Read the blocked users.
    BlacklistList { user_id: u64 },
    /// Pin a channel, or unpin it.
    ChannelPin { user_id: u64, channel_id: u64, pinned: bool },
    /// Hide a channel.
    ChannelHide { user_id: u64, channel_id: u64 },
    /// Mute a channel, or unmute it.
    ChannelMute { user_id: u64, channel_id: u64, muted: bool },
    /// Read the history of a channel.
    MessageHistory { user_id: u64, channel_id: u64, limit: u32 },
    /// Revoke a message; the server fills in the asking user.
    MessageRevoke { server_message_id: u64, channel_id: u64, user_id: u64 },
    /// React to a message.
    ReactionAdd { server_message_id: u64, user_id: u64, emoji: String },
    /// Take a reaction back.
    ReactionRemove { server_message_id: u64, user_id: u64, emoji: String },
    /// Read the reactions to a message.
    ReactionList { server_message_id: u64, user_id: u64 },
    /// Follow whether users are online.
    SubscribePresence { user_ids: Vec<u64> },
    /// No longer follow whether users are online.
    UnsubscribePresence { user_ids: Vec<u64> },
    /// Ask whether users are online.
    OnlineStatus { user_ids: Vec<u64> },
    /// Read the devices of a user.
    DeviceList { user_id: u64, device_id: Option<String> },
    /// Set whether a device gets push messages.
    DevicePushUpdate { device_id: String, apns_armed: bool, push_token: Option<String> },
    /// Ask which devices get push messages.
    DevicePushStatus { device_id: Option<String> },
    /// Ask up to which position the server knows a channel.
    ChannelPts { channel_id: u64, channel_type: u8 },
    /// Ask for leave to upload a file.
    UploadToken {
        user_id: u64,
        filename: String,
        file_size: i64,
        mime_type: String,
        file_type: String,
        business_type: String,
    },
}

/// What a [`Request`] asks.
pub enum RequestModel {
    Register {
        username: Seq<char>,
        password: Seq<char>,
        device_id: Seq<char>,
        device_info: Option<DeviceInfo>,
    },
    Login {
        username: Seq<char>,
        password: Seq<char>,
        device_id: Seq<char>,
        device_info: Option<DeviceInfo>,
    },
    SearchUsers { from_user_id: u64, query: Seq<char>, page: u32, page_size: u32 },
    FriendApply {
        from_user_id: u64,
        target_user_id: u64,
        message: Option<Seq<char>>,
        source: Seq<char>,
        source_id: Option<Seq<char>>,
    },
    FriendPending { user_id: u64 },
    FriendAccept { from_user_id: u64, target_user_id: u64 },
    FriendReject { from_user_id: u64, target_user_id: u64 },
    FriendRemove { user_id: u64, friend_id: u64 },
    DirectChannel {
        target_user_id: u64,
        source: Option<Seq<char>>,
        source_id: Option<Seq<char>>,
        user_id: u64,
    },
    GroupCreate { creator_id: u64, name: Seq<char>, member_ids: Option<Seq<u64>> },
    GroupMemberAdd { group_id: u64, inviter_id: u64, user_id: u64, role: Seq<char> },
    GroupMemberRemove { group_id: u64, operator_id: u64, user_id: u64 },
    GroupMemberLeave { group_id: u64, user_id: u64 },
    GroupJoinByQrCode {
        user_id: u64,
        qr_key: Seq<char>,
        token: Option<Seq<char>>,
        message: Option<Seq<char>>,
    },
    BlacklistAdd { user_id: u64, blocked_user_id: u64 },
    BlacklistRemove { user_id: u64, blocked_user_id: u64 },
    BlacklistList { user_id: u64 },
    ChannelPin { user_id: u64, channel_id: u64, pinned: bool },
    ChannelHide { user_id: u64, channel_id: u64 },
    ChannelMute { user_id: u64, channel_id: u64, muted: bool },
    MessageHistory { user_id: u64, channel_id: u64, limit: u32 },
    MessageRevoke { server_message_id: u64, channel_id: u64, user_id: u64 },
    ReactionAdd { server_message_id: u64, user_id: u64, emoji: Seq<char> },
    ReactionRemove { server_message_id: u64, user_id: u64, emoji: Seq<char> },
    ReactionList { server_message_id: u64, user_id: u64 },
    SubscribePresence { user_ids: Seq<u64> },
    UnsubscribePresence { user_ids: Seq<u64> },
    OnlineStatus { user_ids: Seq<u64> },
    DeviceList { user_id: u64, device_id: Option<Seq<char>> },
    DevicePushUpdate { device_id: Seq<char>, apns_armed: bool, push_token: Option<Seq<char>> },
    DevicePushStatus { device_id: Option<Seq<char>> },
    ChannelPts { channel_id: u64, channel_type: u8 },
    UploadToken {
        user_id: u64,
        filename: Seq<char>,
        file_size: i64,
        mime_type: Seq<char>,
        file_type: Seq<char>,
        business_type: Seq<char>,
    },
}

impl View for Request {
    type V = RequestModel;

    open spec fn view(&self) -> RequestModel {
        match *self {
            Request::Register { username, password, device_id, device_info } => {
                RequestModel::Register {
                    username: username@,
                    password: password@,
                    device_id: device_id@,
                    device_info,
                }
            },
            Request::Login { username, password, device_id, device_info } => RequestModel::Login {
                username: username@,
                password: password@,
                device_id: device_id@,
                device_info,
            },
            Request::SearchUsers {
                from_user_id,
                query,
                page,
                page_size,
            } => RequestModel::SearchUsers {
                from_user_id,
                query: query@,
                page,
                page_size,
            },
            Request::FriendApply {
                from_user_id,
                target_user_id,
                message,
                source,
                source_id,
            } => RequestModel::FriendApply {
                from_user_id,
                target_user_id,
                message: json::opt_view(message),
                source: source@,
                source_id: json::opt_view(source_id),
            },
            Request::FriendPending { user_id } => RequestModel::FriendPending {
                user_id,
            },
            Request::FriendAccept { from_user_id, target_user_id } => RequestModel::FriendAccept {
                from_user_id,
                target_user_id,
            },
            Request::FriendReject { from_user_id, target_user_id } => RequestModel::FriendReject {
                from_user_id,
                target_user_id,
            },
            Request::FriendRemove { user_id, friend_id } => RequestModel::FriendRemove {
                user_id,
                friend_id,
            },
            Request::DirectChannel {
                target_user_id,
                source,
                source_id,
                user_id,
            } => RequestModel::DirectChannel {
                target_user_id,
                source: json::opt_view(source),
                source_id: json::opt_view(source_id),
                user_id,
            },
            Request::GroupCreate { creator_id, name, member_ids } => RequestModel::GroupCreate {
                creator_id,
                name: name@,
                member_ids: match member_ids {
                    Some(ids) => Some(ids@),
                    None => None,
                },
            },
            Request::GroupMemberAdd {
                group_id,
                inviter_id,
                user_id,
                role,
            } => RequestModel::GroupMemberAdd {
                group_id,
                inviter_id,
                user_id,
                role: role@,
            },
            Request::GroupMemberRemove {
                group_id,
                operator_id,
                user_id,
            } => RequestModel::GroupMemberRemove {
                group_id,
                operator_id,
                user_id,
            },
            Request::GroupMemberLeave { group_id, user_id } => RequestModel::GroupMemberLeave {
                group_id,
                user_id,
            },
            Request::GroupJoinByQrCode {
                user_id,
                qr_key,
                token,
                message,
            } => RequestModel::GroupJoinByQrCode {
                user_id,
                qr_key: qr_key@,
                token: json::opt_view(token),
                message: json::opt_view(message),
            },
            Request::BlacklistAdd { user_id, blocked_user_id } => RequestModel::BlacklistAdd {
                user_id,
                blocked_user_id,
            },
            Request::BlacklistRemove { user_id, blocked_user_id } => RequestModel::BlacklistRemove {
                user_id,
                blocked_user_id,
            },
            Request::BlacklistList { user_id } => RequestModel::BlacklistList {
                user_id,
            },
            Request::ChannelPin { user_id, channel_id, pinned } => RequestModel::ChannelPin {
                user_id,
                channel_id,
                pinned,
            },
            Request::ChannelHide { user_id, channel_id } => RequestModel::ChannelHide {
                user_id,
                channel_id,
            },
            Request::ChannelMute { user_id, channel_id, muted } => RequestModel::ChannelMute {
                user_id,
                channel_id,
                muted,
            },
            Request::MessageHistory { user_id, channel_id, limit } => RequestModel::MessageHistory {
                user_id,
                channel_id,
                limit,
            },
            Request::MessageRevoke {
                server_message_id,
                channel_id,
                user_id,
            } => RequestModel::MessageRevoke {
                server_message_id,
                channel_id,
                user_id,
            },
            Request::ReactionAdd {
                server_message_id,
                user_id,
                emoji,
            } => RequestModel::ReactionAdd {
                server_message_id,
                user_id,
                emoji: emoji@,
            },
            Request::ReactionRemove {
                server_message_id,
                user_id,
                emoji,
            } => RequestModel::ReactionRemove {
                server_message_id,
                user_id,
                emoji: emoji@,
            },
            Request::ReactionList { server_message_id, user_id } => RequestModel::ReactionList {
                server_message_id,
                user_id,
            },
            Request::SubscribePresence { user_ids } => RequestModel::SubscribePresence {
                user_ids: user_ids@,
            },
            Request::UnsubscribePresence { user_ids } => RequestModel::UnsubscribePresence {
                user_ids: user_ids@,
            },
            Request::OnlineStatus { user_ids } => RequestModel::OnlineStatus {
                user_ids: user_ids@,
            },
            Request::DeviceList { user_id, device_id } => RequestModel::DeviceList {
                user_id,
                device_id: json::opt_view(device_id),
            },
            Request::DevicePushUpdate {
                device_id,
                apns_armed,
                push_token,
            } => RequestModel::DevicePushUpdate {
                device_id: device_id@,
                apns_armed,
                push_token: json::opt_view(push_token),
            },
            Request::DevicePushStatus { device_id } => RequestModel::DevicePushStatus {
                device_id: json::opt_view(device_id),
            },
            Request::ChannelPts { channel_id, channel_type } => RequestModel::ChannelPts {
                channel_id,
                channel_type,
            },
            Request::UploadToken {
                user_id,
                filename,
                file_size,
                mime_type,
                file_type,
                business_type,
            } => RequestModel::UploadToken {
                user_id,
                filename: filename@,
                file_size,
                mime_type: mime_type@,
                file_type: file_type@,
                business_type: business_type@,
            },
        }
    }
}

impl PrivchatSDK {
    /// Whether the server can be called, or why not.
    pub open spec fn link(self) -> Result<(), ErrorModel> {
        match state::lifecycle_fault(self) {
            Some(e) => Err(e),
            None => if self.connected() {
                Ok(())
            } else {
                Err(ErrorModel::NotConnected)
            },
        }
    }

    /// Whether the server can be called.
    pub fn require_link(&self) -> (r: Result<(), PrivchatSDKError>)
        ensures
            match r {
                Ok(_) => self.link() is Ok,
                Err(e) => self.link() == Err::<(), _>(e@),
            },
    {
        match self.check_initialized() {
            Ok(_) => self.check_connected(),
            Err(e) => Err(e),
        }
    }
}

/// Whether `r` is the request that a user's session makes, or the error where there is none.
pub open spec fn asks(
    session: Result<u64, ErrorModel>,
    r: Result<Request, PrivchatSDKError>,
    request: RequestModel,
) -> bool {
    match r {
        Ok(q) => session is Ok && q@ == request,
        Err(e) => session == Err::<u64, _>(e@),
    }
}

/// Whether `r` is the request that a connection makes, or the error where there is none.
pub open spec fn asks_over(
    link: Result<(), ErrorModel>,
    r: Result<Request, PrivchatSDKError>,
    request: RequestModel,
) -> bool {
    match r {
        Ok(q) => link is Ok && q@ == request,
        Err(e) => link == Err::<(), _>(e@),
    }
}

/// Whether `r` is the request about some users, nothing where no user is meant, or the error where
/// there is no connection.
pub open spec fn asks_about(
    link: Result<(), ErrorModel>,
    user_ids: Seq<u64>,
    r: Result<Option<Request>, PrivchatSDKError>,
    request: RequestModel,
) -> bool {
    match r {
        Ok(Some(q)) => link is Ok && user_ids.len() > 0 && q@ == request,
        Ok(None) => link is Ok && user_ids.len() == 0,
        Err(e) => link == Err::<(), _>(e@),
    }
}

fn copy_ids(ids: &Vec<u64>) -> (r: Vec<u64>)
    ensures
        r@ == ids@,
{
    let mut out: Vec<u64> = Vec::new();
    let length: usize = ids.len();
    let mut i: usize = 0;
    while i < length
        invariant
            i <= length == ids@.len(),
            out@ == ids@.take(i as int),
        decreases length - i,
    {
        out.push(ids[i]);
        i = i + 1;
    }
    out
}

fn own_text(s: Option<&str>) -> (r: Option<String>)
    ensures
        json::opt_view(r) == match s {
            Some(s) => Some(s@),
            None => None,
        },
{
    match s {
        Some(s) => Some(s.to_owned()),
        None => None,
    }
}

/// The request to make an account; no nickname, phone or mail address is given.
pub fn register_request(
    username: &str,
    password: &str,
    device_id: &str,
    device_info: Option<DeviceInfo>,
) -> (r: Request)
    ensures
        r@ == (RequestModel::Register {
            username: username@,
            password: password@,
            device_id: device_id@,
            device_info,
        }),
{
    Request::Register {
        username: username.to_owned(),
        password: password.to_owned(),
        device_id: device_id.to_owned(),
        device_info,
    }
}

/// The request to log in.
pub fn login_request(
    username: &str,
    password: &str,
    device_id: &str,
    device_info: Option<DeviceInfo>,
) -> (r: Request)
    ensures
        r@ == (RequestModel::Login {
            username: username@,
            password: password@,
            device_id: device_id@,
            device_info,
        }),
{
    Request::Login {
        username: username.to_owned(),
        password: password.to_owned(),
        device_id: device_id.to_owned(),
        device_info,
    }
}

impl PrivchatSDK {
    /// Searches for users; the first page of 20.
    pub fn search_users(&self, query: &str) -> (r: Result<Request, PrivchatSDKError>)
        ensures
            asks(
                self.session(),
                r,
                RequestModel::SearchUsers {
                    from_user_id: self.session()->Ok_0,
                    query: query@,
                    page: 1,
                    page_size: 20,
                },
            ),
    {
        match self.require_session() {
            Ok(me) => Ok(
                Request::SearchUsers {
                    from_user_id: me,
                    query: query.to_owned(),
                    page: 1,
                    page_size: 20,
                },
            ),
            Err(e) => Err(e),
        }
    }

    /// Asks a user to be friends, as found by a search.
    pub fn send_friend_request(
        &self,
        to_user_id: u64,
        remark: Option<&str>,
        search_session_id: &Option<String>,
    ) -> (r: Result<Request, PrivchatSDKError>)
        ensures
            asks(
                self.session(),
                r,
                RequestModel::FriendApply {
                    from_user_id: self.session()->Ok_0,
                    target_user_id: to_user_id,
                    message: match remark {
                        Some(s) => Some(s@),
                        None => None,
                    },
                    source: "search"@,
                    source_id: json::opt_view(*search_session_id),
                },
            ),
    {
        match self.require_session() {
            Ok(me) => Ok(
                Request::FriendApply {
                    from_user_id: me,
                    target_user_id: to_user_id,
                    message: own_text(remark),
                    source: "search".to_owned(),
                    source_id: clone_text(search_session_id),
                },
            ),
            Err(e) => Err(e),
        }
    }

    /// Reads the requests of others to be friends; the server knows the asking user.
    pub fn get_friend_pending_requests(&self) -> (r: Result<Request, PrivchatSDKError>)
        ensures
            asks_over(
                self.link(),
                r,
                RequestModel::FriendPending {
                    user_id: 0,
                },
            ),
    {
        match self.require_link() {
            Ok(_) => Ok(
                Request::FriendPending {
                    user_id: 0,
                },
            ),
            Err(e) => Err(e),
        }
    }

    /// Accepts a request to be friends.
    pub fn accept_friend_request(&self, from_user_id: u64) -> (r: Result<Request, PrivchatSDKError>)
        ensures
            asks(
                self.session(),
                r,
                RequestModel::FriendAccept {
                    from_user_id: from_user_id,
                    target_user_id: self.session()->Ok_0,
                },
            ),
    {
        match self.require_session() {
            Ok(me) => Ok(
                Request::FriendAccept {
                    from_user_id: from_user_id,
                    target_user_id: me,
                },
            ),
            Err(e) => Err(e),
        }
    }

    /// Rejects a request to be friends.
    pub fn reject_friend_request(&self, from_user_id: u64) -> (r: Result<Request, PrivchatSDKError>)
        ensures
            asks(
                self.session(),
                r,
                RequestModel::FriendReject {
                    from_user_id: from_user_id,
                    target_user_id: self.session()->Ok_0,
                },
            ),
    {
        match self.require_session() {
            Ok(me) => Ok(
                Request::FriendReject {
                    from_user_id: from_user_id,
                    target_user_id: me,
                },
            ),
            Err(e) => Err(e),
        }
    }

    /// Ends a friendship.
    pub fn delete_friend(&self, friend_user_id: u64) -> (r: Result<Request, PrivchatSDKError>)
        ensures
            asks(
                self.session(),
                r,
                RequestModel::FriendRemove {
                    user_id: self.session()->Ok_0,
                    friend_id: friend_user_id,
                },
            ),
    {
        match self.require_session() {
            Ok(me) => Ok(
                Request::FriendRemove {
                    user_id: me,
                    friend_id: friend_user_id,
                },
            ),
            Err(e) => Err(e),
        }
    }

    /// Finds or makes the direct channel with a user; nobody has one with themselves.
    pub fn get_or_create_direct_channel(
        &self,
        target_user_id: u64,
        source: &Option<String>,
        source_id: &Option<String>,
    ) -> (r: Result<Request, PrivchatSDKError>)
        ensures
            match self.session() {
                Err(e) => r is Err && r->Err_0@ == e,
                Ok(me) => if me == target_user_id {
                    r is Err && r->Err_0@ == ErrorModel::Other("不能与自己创建私聊会话"@)
                } else {
                    r is Ok && r->Ok_0@ == (RequestModel::DirectChannel {
                        target_user_id,
                        source: json::opt_view(*source),
                        source_id: json::opt_view(*source_id),
                        user_id: 0,
                    })
                },
            },
    {
        match self.require_session() {
            Ok(me) => {
                if me == target_user_id {
                    return Err(PrivchatSDKError::Other("不能与自己创建私聊会话".to_owned()));
                }
                Ok(
                    Request::DirectChannel {
                        target_user_id,
                        source: clone_text(source),
                        source_id: clone_text(source_id),
                        user_id: 0,
                    },
                )
            },
            Err(e) => Err(e),
        }
    }

    /// Makes a group; without members none are named.
    pub fn create_group(&self, name: &str, member_ids: &Vec<u64>) -> (r: Result<
        Request,
        PrivchatSDKError,
    >)
        ensures
            asks(
                self.session(),
                r,
                RequestModel::GroupCreate {
                    creator_id: self.session()->Ok_0,
                    name: name@,
                    member_ids: if member_ids@.len() == 0 {
                        None
                    } else {
                        Some(member_ids@)
                    },
                },
            ),
    {
        match self.require_session() {
            Ok(me) => Ok(
                Request::GroupCreate {
                    creator_id: me,
                    name: name.to_owned(),
                    member_ids: if member_ids.len() == 0 {
                        None
                    } else {
                        Some(copy_ids(member_ids))
                    },
                },
            ),
            Err(e) => Err(e),
        }
    }

    /// Adds users to a group as members, one request for each.
    pub fn invite_to_group(&self, group_id: u64, user_ids: &Vec<u64>) -> (r: Result<
        Vec<Request>,
        PrivchatSDKError,
    >)
        ensures
            match self.session() {
                Err(e) => r is Err && r->Err_0@ == e,
                Ok(me) => r is Ok && r->Ok_0@.len() == user_ids@.len() && forall|i: int|
                    0 <= i < user_ids@.len() ==> (#[trigger] r->Ok_0@[i])@ == (
                    RequestModel::GroupMemberAdd {
                        group_id,
                        inviter_id: me,
                        user_id: user_ids@[i],
                        role: "member"@,
                    }),
            },
    {
        let me: u64 = match self.require_session() {
            Ok(me) => me,
            Err(e) => return Err(e),
        };
        let mut out: Vec<Request> = Vec::new();
        let length: usize = user_ids.len();
        let mut i: usize = 0;
        while i < length
            invariant
                i <= length == user_ids@.len(),
                out@.len() == i,
                forall|j: int|
                    0 <= j < i ==> (#[trigger] out@[j])@ == (RequestModel::GroupMemberAdd {
                        group_id,
                        inviter_id: me,
                        user_id: user_ids@[j],
                        role: "member"@,
                    }),
            decreases length - i,
        {
            out.push(
                Request::GroupMemberAdd {
                    group_id,
                    inviter_id: me,
                    user_id: user_ids[i],
                    role: "member".to_owned(),
                },
            );
            i = i + 1;
        }
        Ok(out)
    }

    /// Removes a user from a group.
    pub fn remove_group_member(
        &self,
        group_id: u64,
        user_id: u64,
    ) -> (r: Result<Request, PrivchatSDKError>)
        ensures
            asks(
                self.session(),
                r,
                RequestModel::GroupMemberRemove {
                    group_id: group_id,
                    operator_id: self.session()->Ok_0,
                    user_id: user_id,
                },
            ),
    {
        match self.require_session() {
            Ok(me) => Ok(
                Request::GroupMemberRemove {
                    group_id: group_id,
                    operator_id: me,
                    user_id: user_id,
                },
            ),
            Err(e) => Err(e),
        }
    }

    /// Leaves a group.
    pub fn leave_group(&self, group_id: u64) -> (r: Result<Request, PrivchatSDKError>)
        ensures
            asks(
                self.session(),
                r,
                RequestModel::GroupMemberLeave {
                    group_id: group_id,
                    user_id: self.session()->Ok_0,
                },
            ),
    {
        match self.require_session() {
            Ok(me) => Ok(
                Request::GroupMemberLeave {
                    group_id: group_id,
                    user_id: me,
                },
            ),
            Err(e) => Err(e),
        }
    }

    /// Joins a group by its code.
    pub fn join_group_by_qrcode(
        &self,
        qr_key: &str,
        token: &Option<String>,
        message: &Option<String>,
    ) -> (r: Result<Request, PrivchatSDKError>)
        ensures
            asks(
                self.session(),
                r,
                RequestModel::GroupJoinByQrCode {
                    user_id: self.session()->Ok_0,
                    qr_key: qr_key@,
                    token: json::opt_view(*token),
                    message: json::opt_view(*message),
                },
            ),
    {
        match self.require_session() {
            Ok(me) => Ok(
                Request::GroupJoinByQrCode {
                    user_id: me,
                    qr_key: qr_key.to_owned(),
                    token: clone_text(token),
                    message: clone_text(message),
                },
            ),
            Err(e) => Err(e),
        }
    }

    /// Blocks a user.
    pub fn add_to_blacklist(&self, blocked_user_id: u64) -> (r: Result<Request, PrivchatSDKError>)
        ensures
            asks(
                self.session(),
                r,
                RequestModel::BlacklistAdd {
                    user_id: self.session()->Ok_0,
                    blocked_user_id: blocked_user_id,
                },
            ),
    {
        match self.require_session() {
            Ok(me) => Ok(
                Request::BlacklistAdd {
                    user_id: me,
                    blocked_user_id: blocked_user_id,
                },
            ),
            Err(e) => Err(e),
        }
    }

    /// Unblocks a user.
    pub fn remove_from_blacklist(
        &self,
        blocked_user_id: u64,
    ) -> (r: Result<Request, PrivchatSDKError>)
        ensures
            asks(
                self.session(),
                r,
                RequestModel::BlacklistRemove {
                    user_id: self.session()->Ok_0,
                    blocked_user_id: blocked_user_id,
                },
            ),
    {
        match self.require_session() {
            Ok(me) => Ok(
                Request::BlacklistRemove {
                    user_id: me,
                    blocked_user_id: blocked_user_id,
                },
            ),
            Err(e) => Err(e),
        }
    }

    /// Reads the blocked users.
    pub fn get_blacklist(&self) -> (r: Result<Request, PrivchatSDKError>)
        ensures
            asks(
                self.session(),
                r,
                RequestModel::BlacklistList {
                    user_id: self.session()->Ok_0,
                },
            ),
    {
        match self.require_session() {
            Ok(me) => Ok(
                Request::BlacklistList {
                    user_id: me,
                },
            ),
            Err(e) => Err(e),
        }
    }

    /// Pins a channel, or unpins it.
    pub fn pin_channel(&self, channel_id: u64, pin: bool) -> (r: Result<Request, PrivchatSDKError>)
        ensures
            asks(
                self.session(),
                r,
                RequestModel::ChannelPin {
                    user_id: self.session()->Ok_0,
                    channel_id: channel_id,
                    pinned: pin,
                },
            ),
    {
        match self.require_session() {
            Ok(me) => Ok(
                Request::ChannelPin {
                    user_id: me,
                    channel_id: channel_id,
                    pinned: pin,
                },
            ),
            Err(e) => Err(e),
        }
    }

    /// Hides a channel.
    pub fn hide_channel(&self, channel_id: u64) -> (r: Result<Request, PrivchatSDKError>)
        ensures
            asks(
                self.session(),
                r,
                RequestModel::ChannelHide {
                    user_id: self.session()->Ok_0,
                    channel_id: channel_id,
                },
            ),
    {
        match self.require_session() {
            Ok(me) => Ok(
                Request::ChannelHide {
                    user_id: me,
                    channel_id: channel_id,
                },
            ),
            Err(e) => Err(e),
        }
    }

    /// Mutes a channel, or unmutes it.
    pub fn mute_channel(
        &self,
        channel_id: u64,
        muted: bool,
    ) -> (r: Result<Request, PrivchatSDKError>)
        ensures
            asks(
                self.session(),
                r,
                RequestModel::ChannelMute {
                    user_id: self.session()->Ok_0,
                    channel_id: channel_id,
                    muted: muted,
                },
            ),
    {
        match self.require_session() {
            Ok(me) => Ok(
                Request::ChannelMute {
                    user_id: me,
                    channel_id: channel_id,
                    muted: muted,
                },
            ),
            Err(e) => Err(e),
        }
    }

    /// Reads the history of a channel, up to 100 messages where no limit is given.
    pub fn sync_messages(
        &self,
        channel_id: u64,
        limit: Option<u32>,
    ) -> (r: Result<Request, PrivchatSDKError>)
        ensures
            asks(
                self.session(),
                r,
                RequestModel::MessageHistory {
                    user_id: self.session()->Ok_0,
                    channel_id: channel_id,
                    limit: match limit {
                        Some(n) => n,
                        None => 100,
                    },
                },
            ),
    {
        match self.require_session() {
            Ok(me) => Ok(
                Request::MessageHistory {
                    user_id: me,
                    channel_id: channel_id,
                    limit: match limit {
                        Some(n) => n,
                        None => 100,
                    },
                },
            ),
            Err(e) => Err(e),
        }
    }

    /// Reads the devices of the user.
    pub fn list_my_devices(
        &self,
        device_id: &Option<String>,
    ) -> (r: Result<Request, PrivchatSDKError>)
        ensures
            asks(
                self.session(),
                r,
                RequestModel::DeviceList {
                    user_id: self.session()->Ok_0,
                    device_id: json::opt_view(*device_id),
                },
            ),
    {
        match self.require_session() {
            Ok(me) => Ok(
                Request::DeviceList {
                    user_id: me,
                    device_id: clone_text(device_id),
                },
            ),
            Err(e) => Err(e),
        }
    }

    /// Sets whether a device gets push messages.
    pub fn update_device_push_state(
        &self,
        device_id: &str,
        apns_armed: bool,
        push_token: &Option<String>,
    ) -> (r: Result<Request, PrivchatSDKError>)
        ensures
            asks_over(
                self.link(),
                r,
                RequestModel::DevicePushUpdate {
                    device_id: device_id@,
                    apns_armed: apns_armed,
                    push_token: json::opt_view(*push_token),
                },
            ),
    {
        match self.require_link() {
            Ok(_) => Ok(
                Request::DevicePushUpdate {
                    device_id: device_id.to_owned(),
                    apns_armed: apns_armed,
                    push_token: clone_text(push_token),
                },
            ),
            Err(e) => Err(e),
        }
    }

    /// Asks which devices get push messages.
    pub fn get_device_push_status(
        &self,
        device_id: Option<&str>,
    ) -> (r: Result<Request, PrivchatSDKError>)
        ensures
            asks_over(
                self.link(),
                r,
                RequestModel::DevicePushStatus {
                    device_id: match device_id {
                        Some(s) => Some(s@),
                        None => None,
                    },
                },
            ),
    {
        match self.require_link() {
            Ok(_) => Ok(
                Request::DevicePushStatus {
                    device_id: own_text(device_id),
                },
            ),
            Err(e) => Err(e),
        }
    }

    /// Follows whether users are online.
    pub fn subscribe_presence(
        &self,
        user_ids: &Vec<u64>,
    ) -> (r: Result<Option<Request>, PrivchatSDKError>)
        ensures
            asks_about(
                self.link(),
                user_ids@,
                r,
                RequestModel::SubscribePresence { user_ids: user_ids@ },
            ),
    {
        match self.require_link() {
            Ok(_) => {
                if user_ids.len() == 0 {
                    Ok(None)
                } else {
                    Ok(Some(Request::SubscribePresence { user_ids: copy_ids(user_ids) }))
                }
            },
            Err(e) => Err(e),
        }
    }

    /// No longer follows whether users are online.
    pub fn unsubscribe_presence(
        &self,
        user_ids: &Vec<u64>,
    ) -> (r: Result<Option<Request>, PrivchatSDKError>)
        ensures
            asks_about(
                self.link(),
                user_ids@,
                r,
                RequestModel::UnsubscribePresence { user_ids: user_ids@ },
            ),
    {
        match self.require_link() {
            Ok(_) => {
                if user_ids.len() == 0 {
                    Ok(None)
                } else {
                    Ok(Some(Request::UnsubscribePresence { user_ids: copy_ids(user_ids) }))
                }
            },
            Err(e) => Err(e),
        }
    }

    /// Asks whether users are online.
    pub fn fetch_presence(
        &self,
        user_ids: &Vec<u64>,
    ) -> (r: Result<Option<Request>, PrivchatSDKError>)
        ensures
            asks_about(
                self.link(),
                user_ids@,
                r,
                RequestModel::OnlineStatus { user_ids: user_ids@ },
            ),
    {
        match self.require_link() {
            Ok(_) => {
                if user_ids.len() == 0 {
                    Ok(None)
                } else {
                    Ok(Some(Request::OnlineStatus { user_ids: copy_ids(user_ids) }))
                }
            },
            Err(e) => Err(e),
        }
    }

    /// Asks up to which position the server knows a channel. A broken connection shows only when
    /// the server is called.
    pub fn get_channel_sync_state(&self, channel_id: u64, channel_type: u8) -> (r: Result<
        Request,
        PrivchatSDKError,
    >)
        ensures
            match state::lifecycle_fault(*self) {
                Some(e) => r is Err && r->Err_0@ == e,
                None => r is Ok && r->Ok_0@ == (RequestModel::ChannelPts {
                    channel_id,
                    channel_type,
                }),
            },
    {
        match self.check_initialized() {
            Ok(_) => Ok(Request::ChannelPts { channel_id, channel_type }),
            Err(e) => Err(e),
        }
    }
}

/// A request is made exactly where there is a session, and its error is why there is none.
pub proof fn law_no_request_without_a_session(
    session: Result<u64, ErrorModel>,
    r: Result<Request, PrivchatSDKError>,
    request: RequestModel,
)
    requires
        asks(session, r, request),
    ensures
        r is Ok <==> session is Ok,
        r is Err ==> session == Err::<u64, _>(r->Err_0@),
{
}

/// A request is made just where its session or link is there, and it is the one that was meant; where
/// it is not made, the fault is that of the session or link. About no users nothing is asked.
pub proof fn law_a_request_is_the_one_meant(
    session: Result<u64, ErrorModel>,
    link: Result<(), ErrorModel>,
    user_ids: Seq<u64>,
    r: Result<Request, PrivchatSDKError>,
    about: Result<Option<Request>, PrivchatSDKError>,
    request: RequestModel,
)
    ensures
        asks(session, r, request) ==> (r is Ok <==> session is Ok) && (r matches Ok(q) ==> q@ == request)
            && (r matches Err(e) ==> session->Err_0 == e@),
        asks_over(link, r, request) ==> (r is Ok <==> link is Ok) && (r matches Ok(q) ==> q@ == request)
            && (r matches Err(e) ==> link->Err_0 == e@),
        asks_about(link, user_ids, about, request) ==> (about is Ok <==> link is Ok) && (about matches Ok(
            sent,
        ) ==> (sent is Some <==> user_ids.len() > 0) && (sent matches Some(q) ==> q@ == request)) && (
        about matches Err(e) ==> link->Err_0 == e@),
{
}

/// A link is there just where the sdk runs and is connected.
pub proof fn law_a_link_needs_a_connection(sdk: PrivchatSDK)
    ensures
        sdk.link() is Ok <==> state::lifecycle_fault(sdk) is None && sdk.connected(),
        state::lifecycle_fault(sdk) matches Some(e) ==> sdk.link() == Err::<(), _>(e),
        state::lifecycle_fault(sdk) is None && !sdk.connected() ==> sdk.link() == Err::<(), _>(
            ErrorModel::NotConnected,
        ),
{
}

} // verus!
