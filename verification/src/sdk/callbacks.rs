//! What the listeners of an application are told of the events of the SDK.

use vstd::prelude::*;
use crate::events::{ConnectionState, SDKEvent};
use crate::sdk::outgoing::TextMap;
use crate::sdk::state::PrivchatSDK;
use crate::text;
use crate::text::u64_text;

verus! {

/// What a message holds.
#[derive(Debug, Clone, Copy, PartialEq, Eq, Structural)]
pub enum MessageType {
    Text,
    Image,
    Audio,
    Video,
    File,
    System,
}

/// How far a message has come.
#[derive(Debug, Clone, Copy, PartialEq, Eq, Structural)]
pub enum MessageStatus {
    Draft,
    Sending,
    Sent,
    Delivered,
    Read,
    Failed,
    Revoked,
}

/// A message that an application wants to send.
#[derive(Debug)]
pub struct MessageInput {
    pub content: String,
    pub session_id: String,
    pub message_type: MessageType,
    pub extra: TextMap,
}

/// A message that an application is told of.
#[derive(Debug)]
pub struct MessageOutput {
    pub server_message_id: u64,
    pub content: String,
    pub sender_id: u64,
    pub session_id: u64,
    pub message_type: MessageType,
    pub status: MessageStatus,
    pub created_at: u64,
    pub extra: TextMap,
}

/// What a [`MessageOutput`] holds.
pub struct MessageOutputModel {
    pub server_message_id: u64,
    pub content: Seq<char>,
    pub sender_id: u64,
    pub session_id: u64,
    pub message_type: MessageType,
    pub status: MessageStatus,
    pub created_at: u64,
    pub extra: Map<Seq<char>, Seq<char>>,
}

impl View for MessageOutput {
    type V = MessageOutputModel;

    open spec fn view(&self) -> MessageOutputModel {
        MessageOutputModel {
            server_message_id: self.server_message_id,
            content: self.content@,
            sender_id: self.sender_id,
            session_id: self.session_id,
            message_type: self.message_type,
            status: self.status,
            created_at: self.created_at,
            extra: self.extra@,
        }
    }
}

/// What listeners for messages are told of an event. The content stays in the store.
pub open spec fn message_notice(event: SDKEvent) -> Option<MessageOutputModel> {
    match event {
        SDKEvent::MessageReceived {
            server_message_id,
            channel_id,
            channel_type,
            from_uid,
            timestamp,
            content,
        } => Some(
            MessageOutputModel {
                server_message_id,
                content: Seq::empty(),
                sender_id: from_uid,
                session_id: channel_id,
                message_type: MessageType::Text,
                status: MessageStatus::Sent,
                created_at: timestamp,
                extra: Map::empty(),
            },
        ),
        _ => None,
    }
}

impl PrivchatSDK {
    /// What listeners for messages are told of an event.
    pub fn on_message_received(event: &SDKEvent) -> (r: Option<MessageOutput>)
        ensures
            match r {
                Some(m) => message_notice(*event) == Some(m@),
                None => message_notice(*event) is None,
            },
    {
        match event {
            SDKEvent::MessageReceived { server_message_id, channel_id, from_uid, timestamp, .. } => {
                Some(
                    MessageOutput {
                        server_message_id: *server_message_id,
                        content: String::new(),
                        sender_id: *from_uid,
                        session_id: *channel_id,
                        message_type: MessageType::Text,
                        status: MessageStatus::Sent,
                        created_at: *timestamp,
                        extra: TextMap::new(),
                    },
                )
            },
            _ => None,
        }
    }
}

/// What listeners for typing are told of an event: who, in which channel, and whether they type.
pub open spec fn typing_notice(event: SDKEvent) -> Option<(Seq<char>, Seq<char>, bool)> {
    match event {
        SDKEvent::TypingStarted(e) => Some(
            (text::decimal(e.user_id as nat), text::decimal(e.channel_id as nat), true),
        ),
        SDKEvent::TypingStopped(e) => Some(
            (text::decimal(e.user_id as nat), text::decimal(e.channel_id as nat), false),
        ),
        SDKEvent::TypingIndicator(e) => Some(
            (text::decimal(e.user_id as nat), text::decimal(e.channel_id as nat), e.is_typing),
        ),
        _ => None,
    }
}

impl PrivchatSDK {
    /// What listeners for typing are told of an event: who, in which channel, and whether they type.
    pub fn on_typing_indicator(event: &SDKEvent) -> (r: Option<(String, String, bool)>)
        ensures
            match r {
                Some(n) => typing_notice(*event) == Some((n.0@, n.1@, n.2)),
                None => typing_notice(*event) is None,
            },
    {
        match event {
            SDKEvent::TypingStarted(e) => Some((u64_text(e.user_id), u64_text(e.channel_id), true)),
            SDKEvent::TypingStopped(e) => Some((u64_text(e.user_id), u64_text(e.channel_id), false)),
            SDKEvent::TypingIndicator(e) => Some(
                (u64_text(e.user_id), u64_text(e.channel_id), e.is_typing),
            ),
            _ => None,
        }
    }
}

/// What listeners for reactions are told of an event: the message, who, the emoji, and whether the
/// reaction was added.
pub open spec fn reaction_notice(event: SDKEvent) -> Option<
    (Seq<char>, Seq<char>, Seq<char>, bool),
> {
    match event {
        SDKEvent::ReactionAdded(e) => Some(
            (text::decimal(e.message_id as nat), text::decimal(e.user_id as nat), e.emoji@, true),
        ),
        SDKEvent::ReactionRemoved(e) => Some(
            (text::decimal(e.message_id as nat), text::decimal(e.user_id as nat), e.emoji@, false),
        ),
        _ => None,
    }
}

impl PrivchatSDK {
    /// What listeners for reactions are told of an event.
    pub fn on_reaction_changed(event: &SDKEvent) -> (r: Option<(String, String, String, bool)>)
        ensures
            match r {
                Some(n) => reaction_notice(*event) == Some((n.0@, n.1@, n.2@, n.3)),
                None => reaction_notice(*event) is None,
            },
    {
        match event {
            SDKEvent::ReactionAdded(e) => Some(
                (u64_text(e.message_id), u64_text(e.user_id), e.emoji.clone(), true),
            ),
            SDKEvent::ReactionRemoved(e) => Some(
                (u64_text(e.message_id), u64_text(e.user_id), e.emoji.clone(), false),
            ),
            _ => None,
        }
    }
}

/// What listeners for the connection are told of an event: whether there is one now.
pub open spec fn connection_notice(event: SDKEvent) -> Option<bool> {
    match event {
        SDKEvent::ConnectionStateChanged { old_state, new_state } => Some(
            new_state == ConnectionState::Connected,
        ),
        _ => None,
    }
}

impl PrivchatSDK {
    /// What listeners for the connection are told of an event.
    pub fn on_connection_state_changed(event: &SDKEvent) -> (r: Option<bool>)
        ensures
            r == connection_notice(*event),
    {
        match event {
            SDKEvent::ConnectionStateChanged { new_state, .. } => Some(
                *new_state == ConnectionState::Connected,
            ),
            _ => None,
        }
    }
}

/// No event reaches two kinds of listeners.
pub proof fn law_an_event_reaches_one_kind_of_listener(event: SDKEvent)
    ensures
        message_notice(event) is Some ==> typing_notice(event) is None && reaction_notice(event)
            is None && connection_notice(event) is None,
        typing_notice(event) is Some ==> reaction_notice(event) is None && connection_notice(event)
            is None,
        reaction_notice(event) is Some ==> connection_notice(event) is None,
{
}

/// A listener for messages hears of each that came in, by its number, sender, channel and time, as a
/// text that was sent.
pub proof fn law_a_message_listener_hears_who_wrote(
    server_message_id: u64,
    channel_id: u64,
    channel_type: i32,
    from_uid: u64,
    timestamp: u64,
    content: String,
)
    ensures
        message_notice(
            SDKEvent::MessageReceived {
                server_message_id,
                channel_id,
                channel_type,
                from_uid,
                timestamp,
                content,
            },
        ) matches Some(m) && {
            &&& m.server_message_id == server_message_id
            &&& m.sender_id == from_uid && m.session_id == channel_id && m.created_at == timestamp
            &&& m.message_type == MessageType::Text && m.status == MessageStatus::Sent
            &&& m.content.len() == 0
        },
{
}

/// A listener for typing hears who types where, and whether they began or stopped.
pub proof fn law_a_typing_listener_hears_who_types(event: SDKEvent)
    ensures
        event matches SDKEvent::TypingStarted(e) ==> typing_notice(event) == Some(
            (text::decimal(e.user_id as nat), text::decimal(e.channel_id as nat), true),
        ),
        event matches SDKEvent::TypingStopped(e) ==> typing_notice(event) == Some(
            (text::decimal(e.user_id as nat), text::decimal(e.channel_id as nat), false),
        ),
        event matches SDKEvent::TypingIndicator(e) ==> typing_notice(event) == Some(
            (text::decimal(e.user_id as nat), text::decimal(e.channel_id as nat), e.is_typing),
        ),
        typing_notice(event) is Some ==> event is TypingStarted || event is TypingStopped || event
            is TypingIndicator,
{
}

/// A listener for reactions hears who reacted to which message with what, and whether it was taken
/// back.
pub proof fn law_a_reaction_listener_hears_who_reacted(event: SDKEvent)
    ensures
        event matches SDKEvent::ReactionAdded(e) ==> reaction_notice(event) == Some(
            (text::decimal(e.message_id as nat), text::decimal(e.user_id as nat), e.emoji@, true),
        ),
        event matches SDKEvent::ReactionRemoved(e) ==> reaction_notice(event) == Some(
            (text::decimal(e.message_id as nat), text::decimal(e.user_id as nat), e.emoji@, false),
        ),
        reaction_notice(event) is Some ==> event is ReactionAdded || event is ReactionRemoved,
{
}

/// A listener for the connection hears `true` just where the new state is connected, whatever the old
/// one was.
pub proof fn law_a_connection_listener_hears_the_new_state(
    old_state: ConnectionState,
    new_state: ConnectionState,
)
    ensures
        connection_notice(SDKEvent::ConnectionStateChanged { old_state, new_state }) == Some(
            new_state == ConnectionState::Connected,
        ),
{
}

} // verus!
