//! Accounts, friends and groups: what the server's answers mean, and what they change.

use vstd::prelude::*;
use crate::error::{ErrorModel, PrivchatSDKError};
use crate::json::{JsonTree, JsonValue};
use crate::storage::entities::{Channel, ChannelModel};
use crate::sdk::state::PrivchatSDK;
use crate::text;
use crate::text::{same_text, u64_text};

verus! {

/// The user and the token that the server gave, or why it refused: `refusal` stands where it gives
/// no reason.
pub open spec fn credentials_in(response: JsonTree, refusal: Seq<char>) -> Result<
    (u64, Seq<char>),
    ErrorModel,
> {
    if response.bool_at("success"@) != Some(true) {
        Err(
            ErrorModel::Auth(
                match response.str_at("message"@) {
                    Some(m) => m,
                    None => refusal,
                },
            ),
        )
    } else {
        match response.u64_at("user_id"@) {
            None => Err(ErrorModel::Auth("缺少 user_id"@)),
            Some(user_id) => match response.str_at("token"@) {
                None => Err(ErrorModel::Auth("缺少 token"@)),
                Some(token) => Ok((user_id, token)),
            },
        }
    }
}

fn credentials(response: &JsonValue, refusal: &str) -> (r: Result<(u64, String), PrivchatSDKError>)
    ensures
        match credentials_in(response@, refusal@) {
            Ok((user_id, token)) => r is Ok && r->Ok_0.0 == user_id && r->Ok_0.1@ == token,
            Err(e) => r is Err && r->Err_0@ == e,
        },
{
    let success = match response.bool_at("success") {
        Some(b) => b,
        None => false,
    };
    if !success {
        let message = match response.str_at("message") {
            Some(m) => m,
            None => refusal.to_owned(),
        };
        return Err(PrivchatSDKError::Auth(message));
    }
    let user_id: u64 = match response.u64_at("user_id") {
        Some(id) => id,
        None => return Err(PrivchatSDKError::Auth("缺少 user_id".to_owned())),
    };
    match response.str_at("token") {
        Some(token) => Ok((user_id, token)),
        None => Err(PrivchatSDKError::Auth("缺少 token".to_owned())),
    }
}

impl PrivchatSDK {
    /// The user and the token of a new account.
    pub fn register(response: &JsonValue) -> (r: Result<(u64, String), PrivchatSDKError>)
        ensures
            match credentials_in(response@, "注册失败"@) {
                Ok((user_id, token)) => r is Ok && r->Ok_0.0 == user_id && r->Ok_0.1@ == token,
                Err(e) => r is Err && r->Err_0@ == e,
            },
    {
        credentials(response, "注册失败")
    }
}

impl PrivchatSDK {
    /// The user and the token of a login.
    pub fn login(response: &JsonValue) -> (r: Result<(u64, String), PrivchatSDKError>)
        ensures
            match credentials_in(response@, "登录失败"@) {
                Ok((user_id, token)) => r is Ok && r->Ok_0.0 == user_id && r->Ok_0.1@ == token,
                Err(e) => r is Err && r->Err_0@ == e,
            },
    {
        credentials(response, "登录失败")
    }
}

/// A new direct channel with a user, named by the user's id until the name is known.
pub open spec fn direct_channel_with(
    channel_id: u64,
    peer: u64,
    follow: i32,
    now: i64,
) -> ChannelModel {
    ChannelModel {
        id: None,
        channel_id,
        channel_type: 1,
        last_local_message_id: 0,
        last_msg_timestamp: Some(now),
        last_msg_content: Seq::empty(),
        unread_count: 0,
        last_msg_pts: 0,
        show_nick: 0,
        username: text::decimal(peer as nat),
        channel_name: text::decimal(peer as nat),
        channel_remark: Seq::empty(),
        top: 0,
        mute: 0,
        save: 0,
        forbidden: 0,
        follow,
        is_deleted: 0,
        receipt: 0,
        status: 1,
        invite: 0,
        robot: 0,
        version: 1,
        online: 0,
        last_offline: 0,
        avatar: Seq::empty(),
        category: Seq::empty(),
        extra: "{}"@,
        created_at: now,
        updated_at: now,
        avatar_cache_key: Seq::empty(),
        remote_extra: Some("{}"@),
        flame: 0,
        flame_second: 0,
        device_flag: 0,
        parent_channel_id: 0,
        parent_channel_type: 0,
    }
}

fn new_direct_channel(channel_id: u64, peer: u64, follow: i32, now: i64) -> (r: Channel)
    ensures
        r@ == direct_channel_with(channel_id, peer, follow, now),
{
    Channel {
        id: None,
        channel_id,
        channel_type: 1,
        last_local_message_id: 0,
        last_msg_timestamp: Some(now),
        last_msg_content: String::new(),
        unread_count: 0,
        last_msg_pts: 0,
        show_nick: 0,
        username: u64_text(peer),
        channel_name: u64_text(peer),
        channel_remark: String::new(),
        top: 0,
        mute: 0,
        save: 0,
        forbidden: 0,
        follow,
        is_deleted: 0,
        receipt: 0,
        status: 1,
        invite: 0,
        robot: 0,
        version: 1,
        online: 0,
        last_offline: 0,
        avatar: String::new(),
        category: String::new(),
        extra: "{}".to_owned(),
        created_at: now,
        updated_at: now,
        avatar_cache_key: String::new(),
        remote_extra: Some("{}".to_owned()),
        flame: 0,
        flame_second: 0,
        device_flag: 0,
        parent_channel_id: 0,
        parent_channel_type: 0,
    }
}

/// The direct channel to store once the server named it: nothing where it named none, or where
/// the channel is known.
pub open spec fn channel_to_store(
    channel_id: u64,
    known: bool,
    peer: u64,
    follow: i32,
    now: i64,
) -> Option<ChannelModel> {
    if channel_id > 0 && !known {
        Some(direct_channel_with(channel_id, peer, follow, now))
    } else {
        None
    }
}

/// Whether the database is to be asked for a direct channel that the server named.
pub fn asks_for_channel(channel_id: u64) -> (r: bool)
    ensures
        r == (channel_id > 0),
{
    channel_id > 0
}

/// The channel to store when a request to be friends was accepted. Friends are followed.
pub fn accepted_friend_channel(channel_id: u64, known: bool, from_user_id: u64, now: i64) -> (r:
    Option<Channel>)
    ensures
        match channel_to_store(channel_id, known, from_user_id, 1, now) {
            Some(c) => r is Some && r->0@ == c,
            None => r is None,
        },
{
    if channel_id > 0 && !known {
        Some(new_direct_channel(channel_id, from_user_id, 1, now))
    } else {
        None
    }
}

/// The channel to store when a direct channel with a user was found or made.
pub fn direct_channel_to_store(channel_id: u64, known: bool, target_user_id: u64, now: i64) -> (r:
    Option<Channel>)
    ensures
        match channel_to_store(channel_id, known, target_user_id, 0, now) {
            Some(c) => r is Some && r->0@ == c,
            None => r is None,
        },
{
    if channel_id > 0 && !known {
        Some(new_direct_channel(channel_id, target_user_id, 0, now))
    } else {
        None
    }
}

/// What accepting a request to be friends gives back.
pub fn accepted_friend(channel_id: u64) -> (r: JsonValue)
    ensures
        r@ == JsonTree::Object(map!["channel_id"@ => JsonTree::Int(channel_id as int)]),
{
    let mut r = JsonValue::object();
    r.set("channel_id", JsonValue::unsigned(channel_id));
    assert(r@->Object_0 =~= map!["channel_id"@ => JsonTree::Int(channel_id as int)]);
    r
}

/// Whether a user who asked to join a group is in it.
pub fn has_joined(status: &str) -> (r: bool)
    ensures
        r == (status@ == "joined"@),
{
    same_text(status, "joined")
}

/// How many of the invitations went through.
pub open spec fn successes(results: Seq<bool>) -> nat
    decreases results.len(),
{
    if results.len() == 0 {
        0
    } else if results.last() {
        successes(results.drop_last()) + 1
    } else {
        successes(results.drop_last())
    }
}

/// What inviting users to a group gives back: one success is enough.
pub open spec fn invitation_tree(results: Seq<bool>) -> JsonTree {
    JsonTree::Object(
        map![
            "success"@ => JsonTree::Bool(successes(results) > 0),
            "total"@ => JsonTree::Int(results.len() as int),
            "success_count"@ => JsonTree::Int(successes(results) as int),
        ],
    )
}

/// What inviting users to a group gives back; `results` says of each user whether it went through.
pub fn invitation_result(results: &Vec<bool>) -> (r: JsonValue)
    ensures
        r@ == invitation_tree(results@),
{
    let length: usize = results.len();
    let mut count: u64 = 0;
    let mut i: usize = 0;
    proof {
        assert(results@.take(0) =~= Seq::<bool>::empty());
    }
    while i < length
        invariant
            i <= length == results@.len(),
            count == successes(results@.take(i as int)),
            count <= i,
        decreases length - i,
    {
        proof {
            assert(results@.take(i + 1).drop_last() =~= results@.take(i as int));
            assert(results@.take(i + 1).last() == results@[i as int]);
        }
        if results[i] {
            count = count + 1;
        }
        i = i + 1;
    }
    proof {
        assert(results@.take(i as int) =~= results@);
    }
    let mut r = JsonValue::object();
    r.set("success", JsonValue::Bool(count > 0));
    r.set("total", JsonValue::unsigned(length as u64));
    r.set("success_count", JsonValue::unsigned(count));
    assert(r@->Object_0 =~= invitation_tree(results@)->Object_0);
    r
}

impl PrivchatSDK {
    /// Whether users were added to a channel: only a group has members to add.
    pub fn add_channel_members(channel_type: i32, results: &Vec<bool>) -> (r: Result<
        bool,
        PrivchatSDKError,
    >)
        ensures
            channel_type == 2 ==> r is Ok && r->Ok_0 == (successes(results@) > 0),
            channel_type != 2 ==> r is Err && r->Err_0@ == ErrorModel::InvalidInput(
                "私聊会话不能添加成员"@,
            ),
    {
        if channel_type == 2 {
            let result = invitation_result(results);
            let ghost fields = result@->Object_0;
            proof {
                reveal_strlit("success");
                reveal_strlit("total");
                reveal_strlit("success_count");
                assert("success"@.len() == 7 && "total"@.len() == 5 && "success_count"@.len() == 13);
                assert(fields["success"@] == JsonTree::Bool(successes(results@) > 0));
            }
            return Ok(
                match result.bool_at("success") {
                    Some(b) => b,
                    None => false,
                },
            );
        }
        Err(PrivchatSDKError::InvalidInput("私聊会话不能添加成员".to_owned()))
    }
}

impl PrivchatSDK {
    /// Whether a member can be removed from a channel: only a group has members to remove.
    pub fn remove_channel_member(channel_type: i32) -> (r: Result<(), PrivchatSDKError>)
        ensures
            r is Ok <==> channel_type == 2,
            r is Err ==> r->Err_0@ == ErrorModel::InvalidInput("私聊会话不能移除成员"@),
    {
        if channel_type == 2 {
            Ok(())
        } else {
            Err(PrivchatSDKError::InvalidInput("私聊会话不能移除成员".to_owned()))
        }
    }
}

impl PrivchatSDK {
    /// The other user of a direct channel, where its user name is an id.
    pub fn dm_peer_user_id(channel: Option<&Channel>) -> (r: Option<u64>)
        ensures
            match channel {
                Some(c) => match text::unsigned_value(c.username@, u64::MAX as nat) {
                    Some(id) => r == Some(id as u64),
                    None => r is None,
                },
                None => r is None,
            },
    {
        match channel {
            Some(c) => text::parse_u64(c.username.as_str()),
            None => None,
        }
    }
}

/// The other user of a direct channel is the one that it was stored for.
pub proof fn law_a_stored_direct_channel_knows_its_peer(
    channel_id: u64,
    peer: u64,
    follow: i32,
    now: i64,
)
    ensures
        text::unsigned_value(
            direct_channel_with(channel_id, peer, follow, now).username,
            u64::MAX as nat,
        ) == Some(peer as nat),
{
    text::law_decimal_round_trip(peer as nat, u64::MAX as nat);
}

/// A login succeeds just where the server says so and gives a user and a token, and then with these
/// two; a refusal carries the server's words, or else those of the caller.
pub proof fn law_a_login_needs_user_and_token(response: JsonTree, refusal: Seq<char>)
    ensures
        credentials_in(response, refusal) is Ok <==> response.bool_at("success"@) == Some(true)
            && response.u64_at("user_id"@) is Some && response.str_at("token"@) is Some,
        credentials_in(response, refusal) matches Ok(c) ==> Some(c.0) == response.u64_at("user_id"@)
            && Some(c.1) == response.str_at("token"@),
        response.bool_at("success"@) != Some(true) ==> credentials_in(response, refusal) == Err::<
            (u64, Seq<char>),
            _,
        >(
            ErrorModel::Auth(
                if response.str_at("message"@) is Some {
                    response.str_at("message"@)->0
                } else {
                    refusal
                },
            ),
        ),
        credentials_in(response, refusal) matches Err(e) ==> e is Auth,
        response.bool_at("success"@) == Some(true) && response.u64_at("user_id"@) is None
            ==> credentials_in(response, refusal) == Err::<(u64, Seq<char>), _>(
            ErrorModel::Auth("缺少 user_id"@),
        ),
        response.bool_at("success"@) == Some(true) && response.u64_at("user_id"@) is Some
            && response.str_at("token"@) is None ==> credentials_in(response, refusal) == Err::<
            (u64, Seq<char>),
            _,
        >(ErrorModel::Auth("缺少 token"@)),
{
}

/// A conversation is stored just where the server named one that is not known yet, as a plain direct
/// conversation of this moment with the peer, without messages or marks but for the given one.
pub proof fn law_only_new_conversations_are_stored(
    channel_id: u64,
    known: bool,
    peer: u64,
    follow: i32,
    now: i64,
)
    ensures
        channel_to_store(channel_id, known, peer, follow, now) is Some <==> channel_id > 0 && !known,
        channel_to_store(channel_id, known, peer, follow, now) matches Some(c) ==> {
            &&& c.channel_id == channel_id && c.channel_type == 1 && c.follow == follow
            &&& c.username == text::decimal(peer as nat) && c.channel_name == c.username
            &&& c.last_msg_timestamp == Some(now) && c.created_at == now && c.updated_at == now
            &&& c.status == 1 && c.version == 1 && c.is_deleted == 0 && c.id is None
            &&& c.unread_count == 0 && c.last_msg_content.len() == 0 && c.last_msg_pts == 0
            &&& c.last_local_message_id == 0 && c.channel_remark.len() == 0 && c.avatar.len() == 0
            &&& c.top == 0 && c.mute == 0 && c.save == 0 && c.forbidden == 0 && c.receipt == 0
            &&& c.show_nick == 0 && c.invite == 0 && c.robot == 0 && c.online == 0 && c.last_offline == 0
            &&& c.extra == "{}"@ && c.remote_extra == Some("{}"@) && c.category.len() == 0
            &&& c.flame == 0 && c.flame_second == 0 && c.device_flag == 0 && c.avatar_cache_key.len() == 0
            &&& c.parent_channel_id == 0 && c.parent_channel_type == 0
        },
{
}

/// An invitation counts each user who could be invited once, out of all who were asked, and succeeds
/// where there is at least one.
pub proof fn law_invitations_are_counted(results: Seq<bool>, worked: bool)
    ensures
        successes(Seq::empty()) == 0,
        successes(results.push(worked)) == successes(results) + if worked {
            1int
        } else {
            0
        },
        successes(results) <= results.len(),
        ({
            let t = invitation_tree(results);
            &&& t.get("total"@) == Some(JsonTree::Int(results.len() as int))
            &&& t.get("success_count"@) == Some(JsonTree::Int(successes(results) as int))
            &&& t.bool_at("success"@) == Some(
                exists|i: int| 0 <= i < results.len() && #[trigger] results[i],
            )
        }),
    decreases results.len(),
{
    reveal_strlit("success");
    reveal_strlit("total");
    reveal_strlit("success_count");
    assert("success"@.len() == 7 && "total"@.len() == 5 && "success_count"@.len() == 13);
    assert(results.push(worked).drop_last() =~= results);
    if results.len() > 0 {
        let front = results.drop_last();
        law_invitations_are_counted(front, worked);
        assert(results.last() == results[results.len() - 1]);
        if exists|i: int| 0 <= i < front.len() && #[trigger] front[i] {
            let i = choose|i: int| 0 <= i < front.len() && #[trigger] front[i];
            assert(results[i]);
        }
        assert(forall|i: int| 0 <= i < front.len() ==> front[i] == results[i]);
        assert((successes(front) > 0) == (exists|i: int| 0 <= i < front.len() && #[trigger] front[i])) by {
            let t = invitation_tree(front);
            assert(t.bool_at("success"@) == Some(successes(front) > 0));
        }
        if !results.last() && exists|i: int| 0 <= i < results.len() && #[trigger] results[i] {
            let i = choose|i: int| 0 <= i < results.len() && #[trigger] results[i];
            assert(front[i]);
        }
    }
}

} // verus!
