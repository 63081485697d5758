//! Read receipts, revoking and editing together with the events that report them, and the count of
//! all that is unread.

use vstd::prelude::*;
use crate::error::{ErrorModel, PrivchatSDKError};
use crate::events::{ConnectionState, SDKEvent, TypingEvent};
use crate::json;
use crate::json::{parse_json, JsonTree, JsonValue};
use crate::storage::advanced_features;
use crate::storage::advanced_features::{
    AdvancedFeaturesManager, ChannelReadState, MessageEditEventModel, MessageFacts,
    MessageRevokeEventModel, ReadReceiptEvent,
};
use crate::storage::dao::channel;
use crate::storage::dao::channel::ChannelDao;
use crate::storage::entities::Channel;
use crate::storage::sql::Statement;

verus! {

/// The events that report what was read: a receipt for each message, in order, and then how much is
/// still unread.
pub open spec fn is_read_report(
    events: Seq<SDKEvent>,
    receipts: Seq<ReadReceiptEvent>,
    channel_id: u64,
    channel_type: i32,
    unread_count: i32,
) -> bool {
    &&& events.len() == receipts.len() + 1
    &&& forall|i: int|
        0 <= i < receipts.len() ==> #[trigger] events[i] == SDKEvent::ReadReceiptReceived(
            receipts[i],
        )
    &&& events.last() == SDKEvent::UnreadCountChanged { channel_id, channel_type, unread_count }
}

/// Whether a message event reports a revocation.
pub open spec fn reports_revocation(event: SDKEvent, revocation: MessageRevokeEventModel) -> bool {
    event matches SDKEvent::MessageRevoked(e) && e@ == revocation
}

/// Whether a message event reports an edit.
pub open spec fn reports_edit(event: SDKEvent, edit: MessageEditEventModel) -> bool {
    event matches SDKEvent::MessageEdited(e) && e@ == edit
}

/// Whether the extra record of a channel mutes it.
pub open spec fn mutes(extra: Option<JsonTree>) -> bool {
    match extra {
        Some(tree) => tree.bool_at("muted"@) == Some(true),
        None => false,
    }
}

/// Whether the extra record of a channel mutes it.
pub open spec fn is_muted(extra: Seq<char>) -> bool {
    mutes(json::json_parsed(extra))
}

/// The sum of what is unread in the channels that count.
pub open spec fn unread_sum(channels: Seq<Channel>, exclude_muted: bool) -> int
    decreases channels.len(),
{
    if channels.len() == 0 {
        0
    } else {
        let before = unread_sum(channels.drop_last(), exclude_muted);
        let last = channels.last();
        if exclude_muted && is_muted(last.extra@) {
            before
        } else {
            before + last.unread_count
        }
    }
}

/// Whether the sums of what is unread in the first channels all fit an `i32`.
pub open spec fn sums_fit(channels: Seq<Channel>, exclude_muted: bool) -> bool {
    forall|n: int|
        0 <= n <= channels.len() ==> i32::MIN <= #[trigger] unread_sum(
            channels.take(n),
            exclude_muted,
        ) <= i32::MAX
}

/// The total that the database gave, the sum over the channel list, and whether they agree.
#[derive(Debug, Clone, Copy, PartialEq, Eq, Structural)]
pub struct UnreadVerification {
    pub total: i32,
    pub sum: i32,
    pub is_consistent: bool,
}

/// Whether an extra record that was read mutes its channel.
pub fn muted_by(extra: &Option<JsonValue>) -> (r: bool)
    ensures
        r == mutes(
            match *extra {
                Some(v) => Some(v@),
                None => None,
            },
        ),
{
    match extra {
        Some(v) => match v.bool_at("muted") {
            Some(b) => b,
            None => false,
        },
        None => false,
    }
}

/// Advanced features together with the events that report them.
#[derive(Debug, Clone, Copy)]
pub struct AdvancedFeaturesIntegration {
    pub features: AdvancedFeaturesManager,
}

impl AdvancedFeaturesIntegration {
    /// The integration of a manager.
    pub fn new(features: AdvancedFeaturesManager) -> (r: Self)
        ensures
            r.features == features,
    {
        AdvancedFeaturesIntegration { features }
    }

    /// How far the reader has read the channel of a message that was marked as read: nothing where
    /// the message has no position.
    pub fn read_position(&self, message_seq: Option<i64>) -> (r: Option<i64>)
        ensures
            r == match message_seq {
                Some(seq) => if seq > 0 {
                    Some(seq)
                } else {
                    None
                },
                None => None,
            },
    {
        match message_seq {
            Some(seq) => {
                if seq > 0 {
                    Some(seq)
                } else {
                    None
                }
            },
            None => None,
        }
    }

    /// Reports that a message was read. `unread_count` is what is still unread once the read state
    /// of the channel is up to date.
    pub fn mark_message_as_read(
        &self,
        message_id: u64,
        channel_id: u64,
        channel_type: i32,
        reader_uid: u64,
        unread_count: i32,
        now: u64,
    ) -> (r: Vec<SDKEvent>)
        ensures
            is_read_report(
                r@,
                seq![
                    advanced_features::receipt(
                        message_id,
                        channel_id,
                        channel_type,
                        reader_uid,
                        now,
                    ),
                ],
                channel_id,
                channel_type,
                unread_count,
            ),
    {
        let receipt = self.features.mark_message_as_read(
            message_id,
            channel_id,
            channel_type,
            reader_uid,
            now,
        );
        vec![
            SDKEvent::ReadReceiptReceived(receipt),
            SDKEvent::UnreadCountChanged { channel_id, channel_type, unread_count },
        ]
    }

    /// Reports that messages were read.
    pub fn batch_mark_messages_as_read(
        &self,
        message_ids: &Vec<u64>,
        channel_id: u64,
        channel_type: i32,
        reader_uid: u64,
        unread_count: i32,
        now: u64,
    ) -> (r: Vec<SDKEvent>)
        ensures
            is_read_report(
                r@,
                message_ids@.map_values(
                    |id: u64|
                        advanced_features::receipt(id, channel_id, channel_type, reader_uid, now),
                ),
                channel_id,
                channel_type,
                unread_count,
            ),
    {
        let receipts = self.features.batch_mark_messages_as_read(
            message_ids,
            channel_id,
            channel_type,
            reader_uid,
            now,
        );
        let mut events: Vec<SDKEvent> = Vec::new();
        let length: usize = receipts.len();
        let mut i: usize = 0;
        while i < length
            invariant
                i <= length == receipts@.len(),
                events@.len() == i,
                forall|j: int|
                    0 <= j < i ==> #[trigger] events@[j] == SDKEvent::ReadReceiptReceived(
                        receipts@[j],
                    ),
            decreases length - i,
        {
            events.push(SDKEvent::ReadReceiptReceived(receipts[i]));
            i = i + 1;
        }
        events.push(SDKEvent::UnreadCountChanged { channel_id, channel_type, unread_count });
        events
    }

    /// Reports how far a channel was read.
    pub fn update_channel_read_state(&self, state: &ChannelReadState) -> (r: SDKEvent)
        ensures
            r == (SDKEvent::UnreadCountChanged {
                channel_id: state.channel_id,
                channel_type: state.channel_type,
                unread_count: state.unread_count,
            }),
    {
        SDKEvent::UnreadCountChanged {
            channel_id: state.channel_id,
            channel_type: state.channel_type,
            unread_count: state.unread_count,
        }
    }

    /// Revokes a message and reports it. `facts` is absent where there is no such message.
    pub fn revoke_message(
        &self,
        message_id: u64,
        revoker_uid: u64,
        reason: Option<&str>,
        facts: Option<MessageFacts>,
        now: u64,
    ) -> (r: Result<SDKEvent, PrivchatSDKError>)
        requires
            advanced_features::asks_for_time(facts, revoker_uid) ==> facts->0.written_by(now),
        ensures
            match advanced_features::may_change(
                self.features.revoke_time_limit,
                facts,
                revoker_uid,
                now,
            ) {
                Err(e) => r is Err && r->Err_0@ == e,
                Ok(false) => r is Err && r->Err_0@ == ErrorModel::InvalidOperation(
                    "Cannot revoke this message"@,
                ),
                Ok(true) => r is Ok && reports_revocation(
                    r->Ok_0,
                    MessageRevokeEventModel {
                        message_id,
                        channel_id: facts->0.channel_id,
                        channel_type: facts->0.channel_type,
                        revoker_uid,
                        revoked_at: now,
                        reason: match reason {
                            Some(s) => Some(s@),
                            None => None,
                        },
                    },
                ),
            },
    {
        match self.features.can_revoke_message(facts, revoker_uid, now) {
            Err(e) => Err(e),
            Ok(false) => Err(
                PrivchatSDKError::InvalidOperation("Cannot revoke this message".to_owned()),
            ),
            Ok(true) => match facts {
                Some(facts) => match self.features.revoke_message(
                    message_id,
                    revoker_uid,
                    reason,
                    &facts,
                    now,
                ) {
                    Ok(e) => Ok(SDKEvent::MessageRevoked(e)),
                    Err(e) => Err(e),
                },
                None => Err(
                    PrivchatSDKError::InvalidOperation("Cannot revoke this message".to_owned()),
                ),
            },
        }
    }

    /// Edits a message and reports it. `facts` is absent where there is no such message, and
    /// `current_version` counts the earlier edits.
    pub fn edit_message(
        &self,
        message_id: u64,
        editor_uid: u64,
        new_content: &str,
        facts: Option<MessageFacts>,
        current_version: u32,
        now: u64,
    ) -> (r: Result<SDKEvent, PrivchatSDKError>)
        requires
            advanced_features::asks_for_time(facts, editor_uid) ==> facts->0.written_by(now),
            current_version < u32::MAX,
        ensures
            match advanced_features::may_change(
                self.features.edit_time_limit,
                facts,
                editor_uid,
                now,
            ) {
                Err(e) => r is Err && r->Err_0@ == e,
                Ok(false) => r is Err && r->Err_0@ == ErrorModel::InvalidOperation(
                    "Cannot edit this message"@,
                ),
                Ok(true) => r is Ok && reports_edit(
                    r->Ok_0,
                    MessageEditEventModel {
                        message_id,
                        channel_id: facts->0.channel_id,
                        channel_type: facts->0.channel_type,
                        editor_uid,
                        new_content: new_content@,
                        edited_at: now,
                        edit_version: (current_version + 1) as u32,
                    },
                ),
            },
    {
        match self.features.can_edit_message(facts, editor_uid, now) {
            Err(e) => Err(e),
            Ok(false) => Err(
                PrivchatSDKError::InvalidOperation("Cannot edit this message".to_owned()),
            ),
            Ok(true) => match facts {
                Some(facts) => match self.features.edit_message(
                    message_id,
                    editor_uid,
                    new_content,
                    &facts,
                    current_version,
                    now,
                ) {
                    Ok(e) => Ok(SDKEvent::MessageEdited(e)),
                    Err(e) => Err(e),
                },
                None => Err(
                    PrivchatSDKError::InvalidOperation("Cannot edit this message".to_owned()),
                ),
            },
        }
    }

    /// Reports that a user types, or no longer does.
    pub fn send_typing_indicator(
        &self,
        channel_id: u64,
        channel_type: i32,
        user_id: u64,
        is_typing: bool,
    ) -> (r: SDKEvent)
        ensures
            r == SDKEvent::TypingIndicator(
                TypingEvent { channel_id, channel_type, user_id, is_typing },
            ),
    {
        SDKEvent::TypingIndicator(TypingEvent { channel_id, channel_type, user_id, is_typing })
    }

    /// Reports whether a user is online.
    pub fn update_user_presence(&self, user_id: u64, is_online: bool, last_seen: Option<u64>) -> (r:
        SDKEvent)
        ensures
            r == (SDKEvent::UserPresenceChanged { user_id, is_online, last_seen }),
    {
        SDKEvent::UserPresenceChanged { user_id, is_online, last_seen }
    }

    /// Reports that the connection was made or broke.
    pub fn update_connection_state(&self, is_connected: bool) -> (r: SDKEvent)
        ensures
            r == if is_connected {
                SDKEvent::ConnectionStateChanged {
                    old_state: ConnectionState::Disconnected,
                    new_state: ConnectionState::Connected,
                }
            } else {
                SDKEvent::ConnectionStateChanged {
                    old_state: ConnectionState::Connected,
                    new_state: ConnectionState::Disconnected,
                }
            },
    {
        if is_connected {
            SDKEvent::ConnectionStateChanged {
                old_state: ConnectionState::Disconnected,
                new_state: ConnectionState::Connected,
            }
        } else {
            SDKEvent::ConnectionStateChanged {
                old_state: ConnectionState::Connected,
                new_state: ConnectionState::Disconnected,
            }
        }
    }

    /// Reports that a message went out.
    pub fn emit_message_sent(&self, message_id: u64, channel_id: u64, channel_type: i32) -> (r:
        SDKEvent)
        ensures
            r == (SDKEvent::MessageSent { message_id, channel_id, channel_type }),
    {
        SDKEvent::MessageSent { message_id, channel_id, channel_type }
    }

    /// Reports that a message could not be sent.
    pub fn emit_message_send_failed(
        &self,
        message_id: u64,
        channel_id: u64,
        channel_type: i32,
        error: &str,
    ) -> (r: SDKEvent)
        ensures
            r matches SDKEvent::MessageSendFailed {
                message_id: m,
                channel_id: c,
                channel_type: t,
                error: e,
            } && m == message_id && c == channel_id && t == channel_type && e@ == error@,
    {
        SDKEvent::MessageSendFailed {
            message_id,
            channel_id,
            channel_type,
            error: error.to_owned(),
        }
    }

    /// Asks for the total of what is unread, with or without muted channels.
    pub fn get_total_unread_count(&self, exclude_muted: bool) -> (r: Statement)
        ensures
            r@ == if exclude_muted {
                channel::get_total_unread_count_exclude_muted_statement()
            } else {
                channel::get_total_unread_count_statement()
            },
    {
        if exclude_muted {
            ChannelDao::get_total_unread_count_exclude_muted()
        } else {
            ChannelDao::get_total_unread_count()
        }
    }

    /// Compares the total that the database gave with the sum over the channel list.
    pub fn verify_total_unread_count(
        &self,
        total: i32,
        channels: &Vec<Channel>,
        exclude_muted: bool,
    ) -> (r: Option<UnreadVerification>)
        ensures
            r is Some <==> sums_fit(channels@, exclude_muted),
            r is Some ==> r->0.total == total && r->0.sum == unread_sum(channels@, exclude_muted)
                && r->0.is_consistent == (total == unread_sum(channels@, exclude_muted)),
    {
        let mut sum: i32 = 0;
        let length: usize = channels.len();
        let mut i: usize = 0;
        proof {
            assert(channels@.take(0) =~= Seq::<Channel>::empty());
        }
        while i < length
            invariant
                i <= length == channels@.len(),
                sum == unread_sum(channels@.take(i as int), exclude_muted),
                forall|n: int|
                    0 <= n <= i ==> i32::MIN <= #[trigger] unread_sum(
                        channels@.take(n),
                        exclude_muted,
                    ) <= i32::MAX,
            decreases length - i,
        {
            proof {
                assert(channels@.take(i + 1).drop_last() =~= channels@.take(i as int));
                assert(channels@.take(i + 1).last() == channels@[i as int]);
            }
            let counts = if exclude_muted {
                !muted_by(&parse_json(channels[i].extra.as_str()))
            } else {
                true
            };
            if counts {
                match sum.checked_add(channels[i].unread_count) {
                    Some(next) => {
                        sum = next;
                    },
                    None => {
                        assert(!(i32::MIN <= unread_sum(channels@.take(i + 1), exclude_muted)
                            <= i32::MAX));
                        return None;
                    },
                }
            }
            i = i + 1;
        }
        assert(channels@.take(i as int) =~= channels@);
        Some(UnreadVerification { total, sum, is_consistent: total == sum })
    }

    /// How many days of read receipts and of edit history regular maintenance keeps.
    pub fn maintenance_days(&self) -> (r: (u32, u32))
        ensures
            r == (30u32, 7u32),
    {
        (30, 7)
    }
}

/// Where no channel is muted, leaving the muted channels out changes nothing.
pub proof fn law_no_muted_channel_changes_the_sum(channels: Seq<Channel>)
    requires
        forall|i: int| 0 <= i < channels.len() ==> !is_muted((#[trigger] channels[i]).extra@),
    ensures
        unread_sum(channels, true) == unread_sum(channels, false),
    decreases channels.len(),
{
    if channels.len() > 0 {
        assert forall|i: int| 0 <= i < channels.drop_last().len() implies !is_muted(
            (#[trigger] channels.drop_last()[i]).extra@,
        ) by {
            assert(channels.drop_last()[i] == channels[i]);
        }
        law_no_muted_channel_changes_the_sum(channels.drop_last());
        assert(!is_muted(channels[channels.len() - 1].extra@));
    }
}

/// A channel is muted just where its extra data says so with `true`.
pub proof fn law_a_channel_is_muted_outright(fields: Map<Seq<char>, JsonTree>, muted: bool)
    ensures
        mutes(Some(JsonTree::Object(fields.insert("muted"@, JsonTree::Bool(muted))))) == muted,
        !fields.dom().contains("muted"@) ==> !mutes(Some(JsonTree::Object(fields))),
        !mutes(None),
{
}

/// Each channel adds its unread messages to the sum, unless it is muted and such channels are left out.
pub proof fn law_each_channel_adds_its_unread_messages(
    channels: Seq<Channel>,
    c: Channel,
    exclude_muted: bool,
)
    ensures
        !exclude_muted || !mutes(json::json_parsed(c.extra@)) ==> unread_sum(
            channels.push(c),
            exclude_muted,
        ) == unread_sum(channels, exclude_muted) + c.unread_count,
        exclude_muted && mutes(json::json_parsed(c.extra@)) ==> unread_sum(
            channels.push(c),
            exclude_muted,
        )
            == unread_sum(channels, exclude_muted),
        unread_sum(Seq::empty(), exclude_muted) == 0,
{
    assert(channels.push(c).drop_last() =~= channels);
}

/// A report of reading has an event for each receipt, and the new count of the channel at the end.
pub proof fn law_a_read_report_ends_with_the_count(
    events: Seq<SDKEvent>,
    receipts: Seq<ReadReceiptEvent>,
    channel_id: u64,
    channel_type: i32,
    unread_count: i32,
    i: int,
)
    requires
        is_read_report(events, receipts, channel_id, channel_type, unread_count),
        0 <= i < receipts.len(),
    ensures
        events.len() == receipts.len() + 1,
        events[i] == SDKEvent::ReadReceiptReceived(receipts[i]),
        events[receipts.len() as int] == (SDKEvent::UnreadCountChanged {
            channel_id,
            channel_type,
            unread_count,
        }),
{
}

/// The event of a revocation or an edit is about that revocation or edit.
pub proof fn law_changes_are_reported_as_they_were(
    event: SDKEvent,
    revocation: MessageRevokeEventModel,
    edit: MessageEditEventModel,
)
    ensures
        reports_revocation(event, revocation) <==> (event matches SDKEvent::MessageRevoked(e) && e@
            == revocation),
        reports_edit(event, edit) <==> (event matches SDKEvent::MessageEdited(e) && e@ == edit),
        !(reports_revocation(event, revocation) && reports_edit(event, edit)),
{
}

} // verus!
