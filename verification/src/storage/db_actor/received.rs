//! Saving a message: find out whether it is known, store it, and keep its channel up to date.

use vstd::prelude::*;
use crate::storage::db_actor::channels;
use crate::storage::db_actor::channels::saturating_sum;
use crate::storage::entities::{Channel, ChannelModel, Message, MessageModel};

verus! {

/// How the channel of a message is looked up: a direct conversation by its id alone, so that the
/// types 0 and 1 do not make two records, any other channel by id and type.
#[derive(Debug, Clone, Copy, PartialEq, Eq, Structural)]
pub enum ChannelLookup {
    Direct { channel_id: u64 },
    Exact { channel_id: u64, channel_type: i32 },
}

/// What the database is asked while a message is saved.
#[derive(Debug)]
pub enum SaveAction {
    /// Look for the row of a message that is not deleted.
    FindMessage { channel_id: u64, server_message_id: u64 },
    /// Insert the message.
    InsertMessage,
    /// Look the channel of the message up.
    FindChannel { row_id: i64, lookup: ChannelLookup },
    /// Insert or replace the channel of the message.
    SaveChannel { row_id: i64, channel: Channel },
    /// The message is saved in this row.
    Finish { row_id: i64 },
}

/// What the database answered.
#[derive(Debug)]
pub enum SaveEvent {
    Begin,
    MessageLookedUp { found: Option<i64> },
    MessageInserted { row_id: i64 },
    ChannelLookedUp { row_id: i64, found: Option<Channel> },
    /// The channel was saved, or could not be saved: the message counts as saved either way.
    ChannelSaved { row_id: i64 },
}

impl MessageModel {
    /// Whether the message belongs to a conversation of two users.
    pub open spec fn direct(self) -> bool {
        self.channel_type == 0 || self.channel_type == 1
    }

    /// How the channel of the message is looked up.
    pub open spec fn channel_lookup(self) -> ChannelLookup {
        if self.direct() {
            ChannelLookup::Direct { channel_id: self.channel_id }
        } else {
            ChannelLookup::Exact { channel_id: self.channel_id, channel_type: self.channel_type }
        }
    }
}

/// A channel that is made for its first message.
pub open spec fn channel_for(m: MessageModel, outgoing: bool, now: i64) -> ChannelModel {
    ChannelModel {
        id: None,
        channel_id: m.channel_id,
        channel_type: if m.direct() {
            1
        } else {
            m.channel_type
        },
        last_local_message_id: 0,
        last_msg_timestamp: m.timestamp,
        last_msg_content: m.content,
        unread_count: if outgoing {
            0
        } else {
            1
        },
        last_msg_pts: m.pts,
        show_nick: 0,
        username: Seq::empty(),
        channel_name: Seq::empty(),
        channel_remark: Seq::empty(),
        top: 0,
        mute: 0,
        save: 0,
        forbidden: 0,
        follow: 0,
        is_deleted: 0,
        receipt: 0,
        status: 1,
        invite: 0,
        robot: 0,
        version: 1,
        online: 0,
        last_offline: 0,
        avatar: Seq::empty(),
        category: Seq::empty(),
        extra: Seq::empty(),
        created_at: now,
        updated_at: now,
        avatar_cache_key: Seq::empty(),
        remote_extra: None,
        flame: 0,
        flame_second: 0,
        device_flag: 0,
        parent_channel_id: 0,
        parent_channel_type: 0,
    }
}

/// The channel of a message once the message is saved. A message that came in counts as unread.
pub open spec fn channel_after(
    existing: Option<ChannelModel>,
    m: MessageModel,
    outgoing: bool,
    now: i64,
) -> ChannelModel {
    match existing {
        Some(c) => ChannelModel {
            last_msg_timestamp: m.timestamp,
            last_msg_content: m.content,
            unread_count: if outgoing {
                c.unread_count
            } else {
                channels::saturated(c.unread_count + 1)
            },
            last_msg_pts: m.pts,
            ..c
        },
        None => channel_for(m, outgoing, now),
    }
}

/// What an action asks, apart from how the channel it saves is held.
pub enum SaveActionModel {
    FindMessage { channel_id: u64, server_message_id: u64 },
    InsertMessage,
    FindChannel { row_id: i64, lookup: ChannelLookup },
    SaveChannel { row_id: i64, channel: ChannelModel },
    Finish { row_id: i64 },
}

/// What an answer says, apart from how the channel in it is held.
pub enum SaveEventModel {
    Begin,
    MessageLookedUp { found: Option<i64> },
    MessageInserted { row_id: i64 },
    ChannelLookedUp { row_id: i64, found: Option<ChannelModel> },
    ChannelSaved { row_id: i64 },
}

impl View for SaveAction {
    type V = SaveActionModel;

    open spec fn view(&self) -> SaveActionModel {
        match *self {
            SaveAction::FindMessage { channel_id, server_message_id } => SaveActionModel::FindMessage {
                channel_id,
                server_message_id,
            },
            SaveAction::InsertMessage => SaveActionModel::InsertMessage,
            SaveAction::FindChannel { row_id, lookup } => SaveActionModel::FindChannel {
                row_id,
                lookup,
            },
            SaveAction::SaveChannel { row_id, channel } => SaveActionModel::SaveChannel {
                row_id,
                channel: channel@,
            },
            SaveAction::Finish { row_id } => SaveActionModel::Finish { row_id },
        }
    }
}

impl View for SaveEvent {
    type V = SaveEventModel;

    open spec fn view(&self) -> SaveEventModel {
        match *self {
            SaveEvent::Begin => SaveEventModel::Begin,
            SaveEvent::MessageLookedUp { found } => SaveEventModel::MessageLookedUp { found },
            SaveEvent::MessageInserted { row_id } => SaveEventModel::MessageInserted { row_id },
            SaveEvent::ChannelLookedUp { row_id, found } => SaveEventModel::ChannelLookedUp {
                row_id,
                found: match found {
                    Some(c) => Some(c@),
                    None => None,
                },
            },
            SaveEvent::ChannelSaved { row_id } => SaveEventModel::ChannelSaved { row_id },
        }
    }
}

/// What is asked next after an answer.
pub open spec fn next_save_action(
    m: MessageModel,
    outgoing: bool,
    event: SaveEventModel,
    now: i64,
) -> SaveActionModel {
    match event {
        SaveEventModel::Begin => match m.server_message_id {
            Some(id) => SaveActionModel::FindMessage {
                channel_id: m.channel_id,
                server_message_id: id,
            },
            None => SaveActionModel::InsertMessage,
        },
        SaveEventModel::MessageLookedUp { found } => match found {
            Some(row_id) => SaveActionModel::FindChannel { row_id, lookup: m.channel_lookup() },
            None => SaveActionModel::InsertMessage,
        },
        SaveEventModel::MessageInserted { row_id } => SaveActionModel::FindChannel {
            row_id,
            lookup: m.channel_lookup(),
        },
        SaveEventModel::ChannelLookedUp { row_id, found } => SaveActionModel::SaveChannel {
            row_id,
            channel: channel_after(found, m, outgoing, now),
        },
        SaveEventModel::ChannelSaved { row_id } => SaveActionModel::Finish { row_id },
    }
}

/// How the channel of a message is looked up.
pub fn lookup_for(message: &Message) -> (r: ChannelLookup)
    ensures
        r == message@.channel_lookup(),
{
    if message.channel_type == 0 || message.channel_type == 1 {
        ChannelLookup::Direct { channel_id: message.channel_id }
    } else {
        ChannelLookup::Exact {
            channel_id: message.channel_id,
            channel_type: message.channel_type,
        }
    }
}

fn new_channel_for(message: &Message, outgoing: bool, now: i64) -> (r: Channel)
    ensures
        r@ == channel_for(message@, outgoing, now),
{
    let direct = message.channel_type == 0 || message.channel_type == 1;
    Channel {
        id: None,
        channel_id: message.channel_id,
        channel_type: if direct {
            1
        } else {
            message.channel_type
        },
        last_local_message_id: 0,
        last_msg_timestamp: message.timestamp,
        last_msg_content: message.content.clone(),
        unread_count: if outgoing {
            0
        } else {
            1
        },
        last_msg_pts: message.pts,
        show_nick: 0,
        username: String::new(),
        channel_name: String::new(),
        channel_remark: String::new(),
        top: 0,
        mute: 0,
        save: 0,
        forbidden: 0,
        follow: 0,
        is_deleted: 0,
        receipt: 0,
        status: 1,
        invite: 0,
        robot: 0,
        version: 1,
        online: 0,
        last_offline: 0,
        avatar: String::new(),
        category: String::new(),
        extra: String::new(),
        created_at: now,
        updated_at: now,
        avatar_cache_key: String::new(),
        remote_extra: None,
        flame: 0,
        flame_second: 0,
        device_flag: 0,
        parent_channel_id: 0,
        parent_channel_type: 0,
    }
}

/// The channel of a message once the message is saved.
pub fn channel_after_message(
    existing: Option<Channel>,
    message: &Message,
    outgoing: bool,
    now: i64,
) -> (r: Channel)
    ensures
        r@ == channel_after(
            match existing {
                Some(c) => Some(c@),
                None => None,
            },
            message@,
            outgoing,
            now,
        ),
{
    match existing {
        Some(existing) => {
            let mut c = existing;
            c.last_msg_timestamp = message.timestamp;
            c.last_msg_content = message.content.clone();
            if !outgoing {
                c.unread_count = saturating_sum(c.unread_count, 1);
            }
            c.last_msg_pts = message.pts;
            c
        },
        None => new_channel_for(message, outgoing, now),
    }
}

/// Decides what to ask the database next while a message is saved.
pub fn save_received_message_step(
    message: &Message,
    outgoing: bool,
    event: SaveEvent,
    now: i64,
) -> (r: SaveAction)
    ensures
        r@ == next_save_action(message@, outgoing, event@, now),
{
    match event {
        SaveEvent::Begin => match message.server_message_id {
            Some(id) => SaveAction::FindMessage {
                channel_id: message.channel_id,
                server_message_id: id,
            },
            None => SaveAction::InsertMessage,
        },
        SaveEvent::MessageLookedUp { found } => match found {
            Some(row_id) => SaveAction::FindChannel { row_id, lookup: lookup_for(message) },
            None => SaveAction::InsertMessage,
        },
        SaveEvent::MessageInserted { row_id } => SaveAction::FindChannel {
            row_id,
            lookup: lookup_for(message),
        },
        SaveEvent::ChannelLookedUp { row_id, found } => SaveAction::SaveChannel {
            row_id,
            channel: channel_after_message(found, message, outgoing, now),
        },
        SaveEvent::ChannelSaved { row_id } => SaveAction::Finish { row_id },
    }
}

/// The message and channel tables, row by row.
pub struct Tables {
    pub messages: Map<i64, MessageModel>,
    pub channels: Seq<ChannelModel>,
}

/// Whether a stored message is the one that the server knows under an id.
pub open spec fn is_stored_as(m: MessageModel, channel_id: u64, server_message_id: u64) -> bool {
    m.channel_id == channel_id && m.server_message_id == Some(server_message_id) && m.is_deleted == 0
}

impl Tables {
    /// The row of a message that is not deleted, by its channel and server id.
    pub open spec fn find_message(self, channel_id: u64, server_message_id: u64) -> Option<i64> {
        if exists|row: i64| #[trigger]
            self.messages.dom().contains(row) && is_stored_as(
                self.messages[row],
                channel_id,
                server_message_id,
            ) {
            Some(
                choose|row: i64| #[trigger]
                    self.messages.dom().contains(row) && is_stored_as(
                        self.messages[row],
                        channel_id,
                        server_message_id,
                    ),
            )
        } else {
            None
        }
    }
}

/// The message table after a message was saved, and the row that holds the message. `fresh` is the
/// key that the database gives a new row.
pub open spec fn saved(t: Tables, m: MessageModel, fresh: i64) -> (Map<i64, MessageModel>, i64) {
    let begin = next_save_action(m, false, SaveEventModel::Begin, 0);
    let after_lookup = match begin {
        SaveActionModel::FindMessage { channel_id, server_message_id } => next_save_action(
            m,
            false,
            SaveEventModel::MessageLookedUp { found: t.find_message(channel_id, server_message_id) },
            0,
        ),
        other => other,
    };
    match after_lookup {
        SaveActionModel::FindChannel { row_id, .. } => (t.messages, row_id),
        _ => (t.messages.insert(fresh, m), fresh),
    }
}

/// Whether at most one row holds each message that the server has numbered.
pub open spec fn no_message_twice(messages: Map<i64, MessageModel>) -> bool {
    forall|a: i64, b: i64, channel_id: u64, id: u64|
        #![trigger is_stored_as(messages[a], channel_id, id), is_stored_as(messages[b], channel_id, id)]
        messages.dom().contains(a) && messages.dom().contains(b) && is_stored_as(
            messages[a],
            channel_id,
            id,
        ) && is_stored_as(messages[b], channel_id, id) ==> a == b
}

/// Saving a message that the server has numbered a second time, whatever it says then, adds no row and
/// finds the row of the first time.
pub proof fn law_a_message_is_stored_once(
    t: Tables,
    m: MessageModel,
    again: MessageModel,
    fresh: i64,
    other: i64,
)
    requires
        no_message_twice(t.messages),
        m.server_message_id is Some,
        m.is_deleted == 0,
        again.channel_id == m.channel_id,
        again.server_message_id == m.server_message_id,
        !t.messages.dom().contains(fresh),
    ensures
        ({
            let (rows, row) = saved(t, m, fresh);
            let then = Tables { messages: rows, channels: t.channels };
            &&& rows.dom().contains(row)
            &&& is_stored_as(rows[row], m.channel_id, m.server_message_id->0)
            &&& saved(then, again, other) == (rows, row)
        }),
{
    let id = m.server_message_id->0;
    let (rows, row) = saved(t, m, fresh);
    let then = Tables { messages: rows, channels: t.channels };
    match t.find_message(m.channel_id, id) {
        Some(found) => {
            assert(rows == t.messages);
        },
        None => {
            assert(rows == t.messages.insert(fresh, m));
            assert(rows[row] == m);
        },
    }
    law_saving_stores_no_message_twice(t, m, fresh);
    assert(then.messages.dom().contains(row));
    assert(then.find_message(m.channel_id, id) is Some);
    let found = then.find_message(m.channel_id, id)->0;
    assert(is_stored_as(rows[found], m.channel_id, id));
    assert(is_stored_as(rows[row], m.channel_id, id));
}

/// Saving keeps it that no message is stored twice.
pub proof fn law_saving_stores_no_message_twice(t: Tables, m: MessageModel, fresh: i64)
    requires
        no_message_twice(t.messages),
        !t.messages.dom().contains(fresh),
    ensures
        no_message_twice(saved(t, m, fresh).0),
{
    let rows = saved(t, m, fresh).0;
    assert forall|a: i64, b: i64, channel_id: u64, id: u64|
        #![trigger is_stored_as(rows[a], channel_id, id), is_stored_as(rows[b], channel_id, id)]
        rows.dom().contains(a) && rows.dom().contains(b) && is_stored_as(rows[a], channel_id, id)
            && is_stored_as(rows[b], channel_id, id) implies a == b by {
        if rows != t.messages && a != b {
            let old_row = if a == fresh {
                b
            } else {
                a
            };
            assert(t.messages.dom().contains(old_row));
            assert(rows[old_row] == t.messages[old_row]);
            if a == fresh || b == fresh {
                assert(m.channel_id == channel_id && m.server_message_id == Some(id));
                assert(t.find_message(channel_id, id) is Some);
            } else {
                assert(rows[a] == t.messages[a] && rows[b] == t.messages[b]);
                assert(is_stored_as(t.messages[a], channel_id, id));
                assert(is_stored_as(t.messages[b], channel_id, id));
            }
        }
    }
}

/// A message that the user sent never counts as unread; one that came in counts once.
pub proof fn law_only_incoming_messages_are_unread(
    existing: ChannelModel,
    m: MessageModel,
    now: i64,
)
    ensures
        channel_after(Some(existing), m, true, now).unread_count == existing.unread_count,
        existing.unread_count < i32::MAX ==> channel_after(Some(existing), m, false, now).unread_count
            == existing.unread_count + 1,
        channel_after(None, m, true, now).unread_count == 0,
        channel_after(None, m, false, now).unread_count == 1,
{
}

/// Whatever was known of the channel, it shows the message as its last one.
pub proof fn law_channel_shows_the_saved_message(
    existing: Option<ChannelModel>,
    m: MessageModel,
    outgoing: bool,
    now: i64,
)
    ensures
        channel_after(existing, m, outgoing, now).last_msg_content == m.content,
        channel_after(existing, m, outgoing, now).last_msg_timestamp == m.timestamp,
        channel_after(existing, m, outgoing, now).last_msg_pts == m.pts,
{
}

/// Whether a channel in the table is one that a look-up finds.
pub open spec fn is_found(c: ChannelModel, lookup: ChannelLookup) -> bool {
    match lookup {
        ChannelLookup::Direct { channel_id } => c.channel_id == channel_id && 0 <= c.channel_type <= 1,
        ChannelLookup::Exact { channel_id, channel_type } => c.channel_id == channel_id
            && c.channel_type == channel_type,
    }
}

/// The channel that is saved for a message is the one that the next message of the conversation finds:
/// it has the message's channel id, and its type, where both types of a direct conversation become 1.
pub proof fn law_the_saved_channel_is_found_again(
    existing: Option<ChannelModel>,
    m: MessageModel,
    next: MessageModel,
    outgoing: bool,
    now: i64,
)
    requires
        existing matches Some(c) ==> is_found(c, m.channel_lookup()),
        next.channel_id == m.channel_id,
        next.channel_type == m.channel_type || (0 <= m.channel_type <= 1 && 0 <= next.channel_type
            <= 1),
    ensures
        is_found(channel_after(existing, m, outgoing, now), next.channel_lookup()),
        channel_after(existing, m, outgoing, now).channel_id == m.channel_id,
        !(0 <= m.channel_type <= 1) ==> channel_after(existing, m, outgoing, now).channel_type
            == m.channel_type,
        0 <= m.channel_type <= 1 ==> channel_after(None, m, outgoing, now).channel_type == 1,
{
}

/// A look-up for a message never finds a channel of another id, nor a group for a direct message, nor a
/// direct conversation or another kind of channel for a group's.
pub proof fn law_a_message_is_not_put_into_another_channel(m: MessageModel, c: ChannelModel)
    ensures
        is_found(c, m.channel_lookup()) <==> c.channel_id == m.channel_id && if 0 <= m.channel_type
            <= 1 {
            c.channel_type == 0 || c.channel_type == 1
        } else {
            c.channel_type == m.channel_type
        },
{
}

/// A channel that is known keeps all that is not about its last message: its row, kind, names, marks
/// and times.
pub proof fn law_a_known_channel_keeps_its_settings(
    c: ChannelModel,
    m: MessageModel,
    outgoing: bool,
    now: i64,
)
    ensures
        (ChannelModel {
            last_msg_timestamp: c.last_msg_timestamp,
            last_msg_content: c.last_msg_content,
            unread_count: c.unread_count,
            last_msg_pts: c.last_msg_pts,
            ..channel_after(Some(c), m, outgoing, now)
        }) == c,
{
}

/// A channel that is made for its first message has no row yet, is in use and not deleted, and is not
/// pinned, muted, blocked, followed or kept; it was made and changed now, and nothing else is known of
/// it.
pub proof fn law_a_new_channel_is_plain(m: MessageModel, outgoing: bool, now: i64)
    ensures
        ({
            let c = channel_after(None, m, outgoing, now);
            &&& c.id is None
            &&& c.status == 1 && c.version == 1 && c.is_deleted == 0
            &&& c.top == 0 && c.mute == 0 && c.save == 0 && c.forbidden == 0 && c.follow == 0
            &&& c.show_nick == 0 && c.receipt == 0 && c.invite == 0 && c.robot == 0
            &&& c.online == 0 && c.last_offline == 0 && c.device_flag == 0
            &&& c.flame == 0 && c.flame_second == 0
            &&& c.parent_channel_id == 0 && c.parent_channel_type == 0
            &&& c.last_local_message_id == 0
            &&& c.created_at == now && c.updated_at == now
            &&& c.username.len() == 0 && c.channel_name.len() == 0 && c.channel_remark.len() == 0
            &&& c.avatar.len() == 0 && c.category.len() == 0 && c.extra.len() == 0
            &&& c.avatar_cache_key.len() == 0 && c.remote_extra is None
        }),
{
}

/// The number of unread messages of a channel never falls when a message is saved, and a full counter
/// stays full.
pub proof fn law_unread_messages_do_not_get_lost(
    c: ChannelModel,
    m: MessageModel,
    outgoing: bool,
    now: i64,
)
    ensures
        channel_after(Some(c), m, outgoing, now).unread_count >= c.unread_count,
        c.unread_count == i32::MAX ==> channel_after(Some(c), m, outgoing, now).unread_count
            == i32::MAX,
{
}

/// A message is looked for before it is stored just where the server has numbered it, and then under
/// its own channel and number; it is stored where it was not found, and its channel is brought up to
/// date in every case. The row of the message is the same in all the steps, and the last.
pub proof fn law_saving_goes_on_to_the_channel(
    m: MessageModel,
    outgoing: bool,
    row: i64,
    found: Option<ChannelModel>,
    now: i64,
)
    ensures
        next_save_action(m, outgoing, SaveEventModel::Begin, now) == (match m.server_message_id {
            Some(id) => SaveActionModel::FindMessage {
                channel_id: m.channel_id,
                server_message_id: id,
            },
            None => SaveActionModel::InsertMessage,
        }),
        next_save_action(m, outgoing, SaveEventModel::MessageLookedUp { found: None }, now)
            is InsertMessage,
        next_save_action(m, outgoing, SaveEventModel::MessageLookedUp { found: Some(row) }, now)
            == next_save_action(m, outgoing, SaveEventModel::MessageInserted { row_id: row }, now),
        next_save_action(m, outgoing, SaveEventModel::MessageInserted { row_id: row }, now) matches
            SaveActionModel::FindChannel { row_id, lookup } && row_id == row && (forall|c: ChannelModel|
            #[trigger]
            is_found(c, lookup) ==> c.channel_id == m.channel_id),
        next_save_action(
            m,
            outgoing,
            SaveEventModel::ChannelLookedUp { row_id: row, found },
            now,
        ) matches
            SaveActionModel::SaveChannel { row_id, channel } && row_id == row && channel.last_msg_content
            == m.content && (found matches Some(c) ==> channel.channel_id == c.channel_id
            && channel.channel_type == c.channel_type),
        next_save_action(m, outgoing, SaveEventModel::ChannelSaved { row_id: row }, now) == (
        SaveActionModel::Finish { row_id: row }),
{
}

/// A message is found just where the table holds one that is not deleted, in the channel, under the
/// server's number.
pub proof fn law_a_stored_message_is_found(t: Tables, row: i64, channel_id: u64, number: u64)
    ensures
        t.messages.dom().contains(row) && t.messages[row].channel_id == channel_id
            && t.messages[row].server_message_id == Some(number) && t.messages[row].is_deleted == 0
            ==> t.find_message(channel_id, number) is Some,
        t.find_message(channel_id, number) matches Some(found) ==> t.messages.dom().contains(found)
            && t.messages[found].channel_id == channel_id && t.messages[found].server_message_id == Some(
            number,
        ) && t.messages[found].is_deleted == 0,
{
    if t.messages.dom().contains(row) && is_stored_as(t.messages[row], channel_id, number) {
        assert(t.find_message(channel_id, number) is Some);
    }
}

} // verus!
