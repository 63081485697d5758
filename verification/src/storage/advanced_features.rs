//! Read receipts, revoking and editing of messages that the server has numbered.
//!
//! The message ids of this module are those of the server, not the local primary keys.

use vstd::prelude::*;
use crate::error::{ErrorModel, PrivchatSDKError};
use crate::json;
use crate::storage::entities;
use crate::storage::entities::{MessageStatus, clone_text};
use crate::text;
use crate::text::u64_text;

verus! {

/// That a user has read a message.
#[derive(Debug, Clone, Copy, PartialEq, Eq, Structural)]
pub struct ReadReceiptEvent {
    pub message_id: u64,
    pub channel_id: u64,
    pub channel_type: i32,
    pub reader_uid: u64,
    pub read_at: u64,
    /// Whether other devices have still to be told.
    pub need_sync: bool,
}

/// That a message was revoked.
#[derive(Debug)]
pub struct MessageRevokeEvent {
    pub message_id: u64,
    pub channel_id: u64,
    pub channel_type: i32,
    pub revoker_uid: u64,
    pub revoked_at: u64,
    pub reason: Option<String>,
}

/// What a [`MessageRevokeEvent`] holds.
pub struct MessageRevokeEventModel {
    pub message_id: u64,
    pub channel_id: u64,
    pub channel_type: i32,
    pub revoker_uid: u64,
    pub revoked_at: u64,
    pub reason: Option<Seq<char>>,
}

impl View for MessageRevokeEvent {
    type V = MessageRevokeEventModel;

    open spec fn view(&self) -> MessageRevokeEventModel {
        MessageRevokeEventModel {
            message_id: self.message_id,
            channel_id: self.channel_id,
            channel_type: self.channel_type,
            revoker_uid: self.revoker_uid,
            revoked_at: self.revoked_at,
            reason: json::opt_view(self.reason),
        }
    }
}

impl Clone for MessageRevokeEvent {
    fn clone(&self) -> (r: Self)
        ensures
            r == *self,
    {
        MessageRevokeEvent {
            message_id: self.message_id,
            channel_id: self.channel_id,
            channel_type: self.channel_type,
            revoker_uid: self.revoker_uid,
            revoked_at: self.revoked_at,
            reason: clone_text(&self.reason),
        }
    }
}

/// That a message was edited.
#[derive(Debug)]
pub struct MessageEditEvent {
    pub message_id: u64,
    pub channel_id: u64,
    pub channel_type: i32,
    pub editor_uid: u64,
    pub new_content: String,
    pub edited_at: u64,
    /// The edits of a message count from 1.
    pub edit_version: u32,
}

/// What a [`MessageEditEvent`] holds.
pub struct MessageEditEventModel {
    pub message_id: u64,
    pub channel_id: u64,
    pub channel_type: i32,
    pub editor_uid: u64,
    pub new_content: Seq<char>,
    pub edited_at: u64,
    pub edit_version: u32,
}

impl View for MessageEditEvent {
    type V = MessageEditEventModel;

    open spec fn view(&self) -> MessageEditEventModel {
        MessageEditEventModel {
            message_id: self.message_id,
            channel_id: self.channel_id,
            channel_type: self.channel_type,
            editor_uid: self.editor_uid,
            new_content: self.new_content@,
            edited_at: self.edited_at,
            edit_version: self.edit_version,
        }
    }
}

impl Clone for MessageEditEvent {
    fn clone(&self) -> (r: Self)
        ensures
            r == *self,
    {
        MessageEditEvent {
            message_id: self.message_id,
            channel_id: self.channel_id,
            channel_type: self.channel_type,
            editor_uid: self.editor_uid,
            new_content: self.new_content.clone(),
            edited_at: self.edited_at,
            edit_version: self.edit_version,
        }
    }
}

/// How far a user has read a channel.
#[derive(Debug, Clone, Copy, PartialEq, Eq, Structural)]
pub struct ChannelReadState {
    pub channel_id: u64,
    pub channel_type: i32,
    pub user_id: u64,
    pub last_read_message_id: Option<u64>,
    pub last_read_seq: i64,
    pub last_read_at: u64,
    pub unread_count: i32,
}

/// What the database knows of a message that someone wants to revoke or edit.
#[derive(Debug, Clone, Copy, PartialEq, Eq, Structural)]
pub struct MessageFacts {
    pub channel_id: u64,
    pub channel_type: i32,
    pub from_uid: u64,
    pub status: i32,
    /// When the message was written, in seconds since the Unix epoch.
    pub created_at: i64,
}

impl MessageFacts {
    /// Whether the message was not written after `now`.
    pub open spec fn written_by(self, now: u64) -> bool {
        0 <= self.created_at <= now
    }
}

/// Whether a status lets its message be revoked. The statuses are those of
/// [`MessageStatus::can_revoke`].
pub open spec fn revocable(status: MessageStatus) -> bool {
    status is Sent || status is Delivered || status is Read
}

/// The outcome of asking to revoke a message: nothing where it may be revoked, else the error.
pub open spec fn revoke_refusal(
    limit: u64,
    facts: MessageFacts,
    revoker_uid: u64,
    now: u64,
) -> Option<ErrorModel> {
    if revoker_uid != facts.from_uid {
        Some(ErrorModel::InvalidOperation("Only message sender can revoke the message"@))
    } else if now - facts.created_at > limit {
        Some(
            ErrorModel::InvalidOperation(
                "Message revoke time limit exceeded: "@ + text::decimal(limit as nat)
                    + " seconds"@,
            ),
        )
    } else {
        match entities::status_of(facts.status) {
            None => Some(ErrorModel::InvalidOperation("Invalid message status"@)),
            Some(status) => if revocable(status) {
                None
            } else {
                Some(
                    ErrorModel::InvalidOperation(
                        "Message with status "@ + entities::status_name(status)
                            + " cannot be revoked"@,
                    ),
                )
            },
        }
    }
}

/// Whether it depends on the time whether a user may change a message: the user wrote it, and its
/// status allows it.
pub open spec fn asks_for_time(facts: Option<MessageFacts>, user_id: u64) -> bool {
    facts matches Some(f) && f.from_uid == user_id && (entities::status_of(f.status) matches Some(
        status,
    ) && revocable(status))
}

/// Whether a message may be changed by a user now: the user wrote it, its status allows it, and no
/// more than `limit` seconds have passed. A status that does not exist is an error.
pub open spec fn may_change(
    limit: u64,
    facts: Option<MessageFacts>,
    user_id: u64,
    now: u64,
) -> Result<bool, ErrorModel> {
    match facts {
        None => Ok(false),
        Some(f) => if f.from_uid != user_id {
            Ok(false)
        } else {
            match entities::status_of(f.status) {
                None => Err(ErrorModel::InvalidOperation("Invalid message status"@)),
                Some(status) => if !revocable(status) {
                    Ok(false)
                } else {
                    Ok(now - f.created_at <= limit)
                },
            }
        },
    }
}

/// The outcome of asking to edit a message: nothing where it may be edited, else the error.
pub open spec fn edit_refusal(limit: u64, facts: MessageFacts, editor_uid: u64, now: u64) -> Option<
    ErrorModel,
> {
    if editor_uid != facts.from_uid {
        Some(ErrorModel::InvalidOperation("Only message sender can edit the message"@))
    } else if now - facts.created_at > limit {
        Some(
            ErrorModel::InvalidOperation(
                "Message edit time limit exceeded: "@ + text::decimal(limit as nat) + " seconds"@,
            ),
        )
    } else {
        None
    }
}

/// The receipt of one reader for one message.
pub open spec fn receipt(
    message_id: u64,
    channel_id: u64,
    channel_type: i32,
    reader_uid: u64,
    now: u64,
) -> ReadReceiptEvent {
    ReadReceiptEvent {
        message_id,
        channel_id,
        channel_type,
        reader_uid,
        read_at: now,
        need_sync: true,
    }
}

fn time_limit_text(prefix: &str, limit: u64) -> (r: String)
    ensures
        r@ == prefix@ + text::decimal(limit as nat) + " seconds"@,
{
    let mut s = prefix.to_owned();
    s.append(u64_text(limit).as_str());
    s.append(" seconds");
    s
}

fn status_from(value: i32) -> (r: Option<MessageStatus>)
    ensures
        r == entities::status_of(value),
{
    let r = MessageStatus::from_i32(value);
    proof {
        match r {
            Some(s) => {
                entities::law_status_numbers(s, s);
            },
            None => {
                assert forall|s: MessageStatus| entities::status_number(s) != value by {
                    entities::law_status_numbers(s, s);
                }
            },
        }
    }
    r
}

/// Decides on read receipts, revoking and editing.
#[derive(Debug, Clone, Copy, PartialEq, Eq, Structural)]
pub struct AdvancedFeaturesManager {
    /// For how many seconds a message can be revoked.
    pub revoke_time_limit: u64,
    /// For how many seconds a message can be edited.
    pub edit_time_limit: u64,
}

impl AdvancedFeaturesManager {
    /// A manager with its two time limits in seconds.
    pub fn new(revoke_time_limit: u64, edit_time_limit: u64) -> (r: Self)
        ensures
            r.revoke_time_limit == revoke_time_limit,
            r.edit_time_limit == edit_time_limit,
    {
        AdvancedFeaturesManager { revoke_time_limit, edit_time_limit }
    }

    /// The receipt to store and report for a message that was read at `now`.
    pub fn mark_message_as_read(
        &self,
        message_id: u64,
        channel_id: u64,
        channel_type: i32,
        reader_uid: u64,
        now: u64,
    ) -> (r: ReadReceiptEvent)
        ensures
            r == receipt(message_id, channel_id, channel_type, reader_uid, now),
    {
        ReadReceiptEvent {
            message_id,
            channel_id,
            channel_type,
            reader_uid,
            read_at: now,
            need_sync: true,
        }
    }

    /// The receipts to store and report for messages that were read at `now`, one for each message
    /// in their order.
    pub fn batch_mark_messages_as_read(
        &self,
        message_ids: &Vec<u64>,
        channel_id: u64,
        channel_type: i32,
        reader_uid: u64,
        now: u64,
    ) -> (r: Vec<ReadReceiptEvent>)
        ensures
            r@ == message_ids@.map_values(
                |id: u64| receipt(id, channel_id, channel_type, reader_uid, now),
            ),
    {
        let mut events: Vec<ReadReceiptEvent> = Vec::new();
        let mut i: usize = 0;
        while i < message_ids.len()
            invariant
                i <= message_ids@.len(),
                events@ == message_ids@.take(i as int).map_values(
                    |id: u64| receipt(id, channel_id, channel_type, reader_uid, now),
                ),
            decreases message_ids@.len() - i,
        {
            events.push(
                self.mark_message_as_read(
                    message_ids[i],
                    channel_id,
                    channel_type,
                    reader_uid,
                    now,
                ),
            );
            i = i + 1;
        }
        proof {
            assert(message_ids@.take(i as int) =~= message_ids@);
        }
        events
    }

    /// How far the user has read a channel, once `unread_count` messages are found beyond
    /// `last_read_seq`.
    pub fn update_channel_read_state(
        &self,
        channel_id: u64,
        channel_type: i32,
        user_id: u64,
        last_read_message_id: Option<u64>,
        last_read_seq: i64,
        unread_count: i32,
        now: u64,
    ) -> (r: ChannelReadState)
        ensures
            r == (ChannelReadState {
                channel_id,
                channel_type,
                user_id,
                last_read_message_id,
                last_read_seq,
                last_read_at: now,
                unread_count,
            }),
    {
        ChannelReadState {
            channel_id,
            channel_type,
            user_id,
            last_read_message_id,
            last_read_seq,
            last_read_at: now,
            unread_count,
        }
    }

    /// The position up to which a user has read, for counting what is unread: 0 where the user has
    /// no read state.
    pub fn last_read_position(&self, state: Option<i64>) -> (r: i64)
        ensures
            r == match state {
                Some(seq) => seq,
                None => 0,
            },
    {
        match state {
            Some(seq) => seq,
            None => 0,
        }
    }

    /// Revokes a message: only the sender may, only within the time limit, and only where the
    /// status allows it.
    pub fn revoke_message(
        &self,
        message_id: u64,
        revoker_uid: u64,
        reason: Option<&str>,
        facts: &MessageFacts,
        now: u64,
    ) -> (r: Result<MessageRevokeEvent, PrivchatSDKError>)
        requires
            revoker_uid == facts.from_uid ==> facts.written_by(now),
        ensures
            match r {
                Ok(e) => revoke_refusal(self.revoke_time_limit, *facts, revoker_uid, now) is None && e@
                    == (MessageRevokeEventModel {
                    message_id,
                    channel_id: facts.channel_id,
                    channel_type: facts.channel_type,
                    revoker_uid,
                    revoked_at: now,
                    reason: match reason {
                        Some(s) => Some(s@),
                        None => None,
                    },
                }),
                Err(e) => revoke_refusal(self.revoke_time_limit, *facts, revoker_uid, now) == Some(
                    e@,
                ),
            },
    {
        if revoker_uid != facts.from_uid {
            return Err(
                PrivchatSDKError::InvalidOperation(
                    "Only message sender can revoke the message".to_owned(),
                ),
            );
        }
        if now - facts.created_at as u64 > self.revoke_time_limit {
            return Err(
                PrivchatSDKError::InvalidOperation(
                    time_limit_text("Message revoke time limit exceeded: ", self.revoke_time_limit),
                ),
            );
        }
        let status = match status_from(facts.status) {
            Some(status) => status,
            None => return Err(
                PrivchatSDKError::InvalidOperation("Invalid message status".to_owned()),
            ),
        };
        if !status.can_revoke() {
            let mut s = "Message with status ".to_owned();
            s.append(status.display_name());
            s.append(" cannot be revoked");
            return Err(PrivchatSDKError::InvalidOperation(s));
        }
        Ok(
            MessageRevokeEvent {
                message_id,
                channel_id: facts.channel_id,
                channel_type: facts.channel_type,
                revoker_uid,
                revoked_at: now,
                reason: match reason {
                    Some(s) => Some(s.to_owned()),
                    None => None,
                },
            },
        )
    }

    /// Whether a user may revoke a message; `facts` is absent where there is no such message.
    pub fn can_revoke_message(&self, facts: Option<MessageFacts>, user_id: u64, now: u64) -> (r: Result<
        bool,
        PrivchatSDKError,
    >)
        requires
            asks_for_time(facts, user_id) ==> facts->0.written_by(now),
        ensures
            match r {
                Ok(b) => may_change(self.revoke_time_limit, facts, user_id, now) == Ok::<
                    _,
                    ErrorModel,
                >(b),
                Err(e) => may_change(self.revoke_time_limit, facts, user_id, now) == Err::<bool, _>(
                    e@,
                ),
            },
    {
        may_change_message(self.revoke_time_limit, facts, user_id, now)
    }

    /// Edits a message: only the sender may, and only within the time limit. `current_version`
    /// counts the earlier edits.
    pub fn edit_message(
        &self,
        message_id: u64,
        editor_uid: u64,
        new_content: &str,
        facts: &MessageFacts,
        current_version: u32,
        now: u64,
    ) -> (r: Result<MessageEditEvent, PrivchatSDKError>)
        requires
            editor_uid == facts.from_uid ==> facts.written_by(now),
            current_version < u32::MAX,
        ensures
            match r {
                Ok(e) => edit_refusal(self.edit_time_limit, *facts, editor_uid, now) is None && e@
                    == (MessageEditEventModel {
                    message_id,
                    channel_id: facts.channel_id,
                    channel_type: facts.channel_type,
                    editor_uid,
                    new_content: new_content@,
                    edited_at: now,
                    edit_version: (current_version + 1) as u32,
                }),
                Err(e) => edit_refusal(self.edit_time_limit, *facts, editor_uid, now) == Some(e@),
            },
    {
        if editor_uid != facts.from_uid {
            return Err(
                PrivchatSDKError::InvalidOperation(
                    "Only message sender can edit the message".to_owned(),
                ),
            );
        }
        if now - facts.created_at as u64 > self.edit_time_limit {
            return Err(
                PrivchatSDKError::InvalidOperation(
                    time_limit_text("Message edit time limit exceeded: ", self.edit_time_limit),
                ),
            );
        }
        Ok(
            MessageEditEvent {
                message_id,
                channel_id: facts.channel_id,
                channel_type: facts.channel_type,
                editor_uid,
                new_content: new_content.to_owned(),
                edited_at: now,
                edit_version: current_version + 1,
            },
        )
    }

    /// Whether a user may edit a message; `facts` is absent where there is no such message.
    pub fn can_edit_message(&self, facts: Option<MessageFacts>, user_id: u64, now: u64) -> (r: Result<
        bool,
        PrivchatSDKError,
    >)
        requires
            asks_for_time(facts, user_id) ==> facts->0.written_by(now),
        ensures
            match r {
                Ok(b) => may_change(self.edit_time_limit, facts, user_id, now) == Ok::<_, ErrorModel>(
                    b,
                ),
                Err(e) => may_change(self.edit_time_limit, facts, user_id, now) == Err::<bool, _>(
                    e@,
                ),
            },
    {
        may_change_message(self.edit_time_limit, facts, user_id, now)
    }

    /// The time before which records are cleaned up so that `days_to_keep` days stay.
    pub fn cleanup_cutoff(&self, days_to_keep: u32, now: u64) -> (r: u64)
        requires
            days_to_keep * 24 * 3600 <= now,
        ensures
            r == now - days_to_keep * 24 * 3600,
    {
        now - days_to_keep as u64 * 24 * 3600
    }
}

fn may_change_message(limit: u64, facts: Option<MessageFacts>, user_id: u64, now: u64) -> (r: Result<
    bool,
    PrivchatSDKError,
>)
    requires
        asks_for_time(facts, user_id) ==> facts->0.written_by(now),
    ensures
        match r {
            Ok(b) => may_change(limit, facts, user_id, now) == Ok::<_, ErrorModel>(b),
            Err(e) => may_change(limit, facts, user_id, now) == Err::<bool, _>(e@),
        },
{
    match facts {
        None => Ok(false),
        Some(f) => {
            if f.from_uid != user_id {
                return Ok(false);
            }
            let status = match status_from(f.status) {
                Some(status) => status,
                None => return Err(
                    PrivchatSDKError::InvalidOperation("Invalid message status".to_owned()),
                ),
            };
            if !status.can_revoke() {
                return Ok(false);
            }
            Ok(now - f.created_at as u64 <= limit)
        },
    }
}

/// A message that may be revoked by the answer to the question can be revoked, and one that may not
/// cannot.
pub proof fn law_may_revoke_means_can_revoke(limit: u64, facts: MessageFacts, user_id: u64, now: u64)
    ensures
        may_change(limit, Some(facts), user_id, now) == Ok::<_, ErrorModel>(true) <==> revoke_refusal(
            limit,
            facts,
            user_id,
            now,
        ) is None,
{
}

/// A message that may be edited by the answer to the question can be edited.
pub proof fn law_may_edit_means_can_edit(limit: u64, facts: MessageFacts, user_id: u64, now: u64)
    requires
        may_change(limit, Some(facts), user_id, now) == Ok::<_, ErrorModel>(true),
    ensures
        edit_refusal(limit, facts, user_id, now) is None,
{
}

/// Nobody but the sender changes a message.
pub proof fn law_only_the_sender_changes_a_message(
    limit: u64,
    facts: MessageFacts,
    user_id: u64,
    now: u64,
)
    requires
        user_id != facts.from_uid,
    ensures
        revoke_refusal(limit, facts, user_id, now) is Some,
        edit_refusal(limit, facts, user_id, now) is Some,
        may_change(limit, Some(facts), user_id, now) == Ok::<_, ErrorModel>(false),
{
}

/// A message that can no longer be revoked can never be revoked later.
pub proof fn law_the_time_limit_is_final(
    limit: u64,
    facts: MessageFacts,
    user_id: u64,
    now: u64,
    later: u64,
)
    requires
        now <= later,
        revoke_refusal(limit, facts, user_id, now) is Some,
    ensures
        revoke_refusal(limit, facts, user_id, later) is Some,
{
}

/// A message is revoked just by its sender, within the time limit, and while it is sent, delivered or
/// read (2, 3 and 4); it is edited just by its sender and within the time limit. The last second
/// counts.
pub proof fn law_when_a_message_may_be_changed(limit: u64, facts: MessageFacts, user_id: u64, now: u64)
    ensures
        revoke_refusal(limit, facts, user_id, now) is None <==> user_id == facts.from_uid && now
            - facts.created_at <= limit && 2 <= facts.status <= 4,
        edit_refusal(limit, facts, user_id, now) is None <==> user_id == facts.from_uid && now
            - facts.created_at <= limit,
        may_change(limit, Some(facts), user_id, now) == Ok::<_, ErrorModel>(true) <==> user_id
            == facts.from_uid && now - facts.created_at <= limit && 2 <= facts.status <= 4,
        may_change(limit, None, user_id, now) == Ok::<_, ErrorModel>(false),
        may_change(limit, Some(facts), user_id, now) is Err <==> user_id == facts.from_uid && !(0
            <= facts.status <= 10),
        asks_for_time(Some(facts), user_id) <==> user_id == facts.from_uid && 2 <= facts.status <= 4,
        !asks_for_time(None, user_id),
{
    entities::law_other_numbers_are_no_status(facts.status);
    if entities::status_of(facts.status) is Some {
        let status = entities::status_of(facts.status)->0;
        entities::law_status_numbers_follow_the_way();
        entities::law_status_numbers(status, MessageStatus::Sent);
        entities::law_status_numbers(status, MessageStatus::Delivered);
        entities::law_status_numbers(status, MessageStatus::Read);
    }
}

/// A refusal says first that another user wrote the message, then that the time is over, naming the
/// limit, then what is wrong with the status.
pub proof fn law_refusals_say_why(limit: u64, facts: MessageFacts, user_id: u64, now: u64)
    ensures
        user_id != facts.from_uid ==> revoke_refusal(limit, facts, user_id, now) == Some(
            ErrorModel::InvalidOperation("Only message sender can revoke the message"@),
        ) && edit_refusal(limit, facts, user_id, now) == Some(
            ErrorModel::InvalidOperation("Only message sender can edit the message"@),
        ),
        user_id == facts.from_uid && now - facts.created_at > limit ==> revoke_refusal(
            limit,
            facts,
            user_id,
            now,
        ) == Some(
            ErrorModel::InvalidOperation(
                "Message revoke time limit exceeded: "@ + text::decimal(limit as nat) + " seconds"@,
            ),
        ) && edit_refusal(limit, facts, user_id, now) == Some(
            ErrorModel::InvalidOperation(
                "Message edit time limit exceeded: "@ + text::decimal(limit as nat) + " seconds"@,
            ),
        ),
        user_id == facts.from_uid && now - facts.created_at <= limit && !(0 <= facts.status <= 10)
            ==> revoke_refusal(limit, facts, user_id, now) == Some(
            ErrorModel::InvalidOperation("Invalid message status"@),
        ),
        user_id == facts.from_uid && now - facts.created_at <= limit && 0 <= facts.status <= 10 && !(2
            <= facts.status <= 4) ==> revoke_refusal(limit, facts, user_id, now) == Some(
            ErrorModel::InvalidOperation(
                "Message with status "@ + entities::status_name(entities::status_of(facts.status)->0)
                    + " cannot be revoked"@,
            ),
        ),
{
    law_when_a_message_may_be_changed(limit, facts, user_id, now);
    entities::law_other_numbers_are_no_status(facts.status);
}

/// A receipt names the message, its channel and its reader, has the time of reading, and is still to be
/// told to the server.
pub proof fn law_a_receipt_names_its_reader(
    message_id: u64,
    channel_id: u64,
    channel_type: i32,
    reader_uid: u64,
    now: u64,
)
    ensures
        ({
            let r = receipt(message_id, channel_id, channel_type, reader_uid, now);
            &&& r.message_id == message_id && r.reader_uid == reader_uid && r.read_at == now
            &&& r.channel_id == channel_id && r.channel_type == channel_type
            &&& r.need_sync
        }),
{
}

} // verus!
