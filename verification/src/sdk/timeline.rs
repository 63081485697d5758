//! Pages of messages and what a search finds.

use vstd::prelude::*;
use crate::events::{
    SDKEvent, SearchHit, SearchHitModel, SearchPage, TimelineDiffKind, TimelineMessage,
    TimelineMessageModel,
};
use crate::json;
use crate::json::{JsonTree, JsonValue};
use crate::storage::entities::{Message, MessageModel};
use crate::sdk::state::PrivchatSDK;
use crate::text;
use crate::text::parse_u64;

verus! {

/// A number of the database as a time or a position; nothing counts as 0.
pub open spec fn unsigned_or_zero(n: Option<i64>) -> u64 {
    match n {
        Some(n) => n as u64,
        None => 0,
    }
}

fn or_zero(n: Option<i64>) -> (r: u64)
    ensures
        r == unsigned_or_zero(n),
{
    match n {
        Some(n) => #[verifier::truncate] (n as u64),
        None => 0,
    }
}

/// A stored message as a conversation shows it.
pub open spec fn shown(m: MessageModel) -> TimelineMessageModel {
    TimelineMessageModel {
        id: unsigned_or_zero(m.id),
        server_message_id: m.server_message_id,
        channel_id: m.channel_id,
        channel_type: m.channel_type,
        from_uid: m.from_uid,
        content: m.content,
        message_type: m.message_type,
        timestamp: unsigned_or_zero(m.timestamp),
        pts: m.pts as u64,
    }
}

/// A stored message as a conversation shows it.
pub fn timeline_message(m: &Message) -> (r: TimelineMessage)
    ensures
        r@ == shown(m@),
{
    TimelineMessage {
        id: or_zero(m.id),
        server_message_id: m.server_message_id,
        channel_id: m.channel_id,
        channel_type: m.channel_type,
        from_uid: m.from_uid,
        content: m.content.clone(),
        message_type: m.message_type,
        timestamp: or_zero(m.timestamp),
        pts: #[verifier::truncate] (m.pts as u64),
    }
}

/// Whether an event shows a page of messages, in order.
pub open spec fn shows_page(
    event: SDKEvent,
    channel_id: u64,
    messages: Seq<Message>,
    timestamp: u64,
) -> bool {
    event matches SDKEvent::TimelineDiff {
        channel_id: c,
        diff_kind: TimelineDiffKind::Append { messages: on_show },
        timestamp: t,
    } && c == channel_id && t == timestamp && on_show@.len() == messages.len() && forall|i: int|
        0 <= i < messages.len() ==> (#[trigger] on_show@[i])@ == shown(messages[i]@)
}

/// The event that shows a page of messages: none for an empty page.
pub fn page_event(channel_id: u64, messages: &Vec<Message>, timestamp: u64) -> (r: Option<SDKEvent>)
    ensures
        r is None <==> messages@.len() == 0,
        r is Some ==> shows_page(r->0, channel_id, messages@, timestamp),
{
    let length: usize = messages.len();
    if length == 0 {
        return None;
    }
    let mut on_show: Vec<TimelineMessage> = Vec::new();
    let mut i: usize = 0;
    while i < length
        invariant
            i <= length == messages@.len(),
            on_show@.len() == i,
            forall|j: int| 0 <= j < i ==> (#[trigger] on_show@[j])@ == shown(messages@[j]@),
        decreases length - i,
    {
        on_show.push(timeline_message(&messages[i]));
        i = i + 1;
    }
    Some(
        SDKEvent::TimelineDiff {
            channel_id,
            diff_kind: TimelineDiffKind::Append { messages: on_show },
            timestamp,
        },
    )
}

/// The local id before which a page of messages ends; without one the latest page is meant.
pub fn page_end(before_message_id: Option<u64>) -> (r: u64)
    ensures
        r == match before_message_id {
            Some(id) => id,
            None => u64::MAX,
        },
{
    match before_message_id {
        Some(id) => id,
        None => u64::MAX,
    }
}

// Searching.

/// What a search shows of a message: nothing where the server does not know the message.
pub open spec fn hit_of(m: MessageModel) -> Option<SearchHitModel> {
    match m.server_message_id {
        Some(id) => Some(
            SearchHitModel {
                channel_id: m.channel_id,
                server_message_id: id,
                sender: m.from_uid,
                body: m.content,
                timestamp_ms: unsigned_or_zero(m.timestamp),
            },
        ),
        None => None,
    }
}

/// What a search shows of messages, in order.
pub open spec fn hits_in(messages: Seq<Message>) -> Seq<SearchHitModel>
    decreases messages.len(),
{
    if messages.len() == 0 {
        Seq::empty()
    } else {
        let before = hits_in(messages.drop_last());
        match hit_of(messages.last()@) {
            Some(hit) => before.push(hit),
            None => before,
        }
    }
}

/// The hits of a list, in order.
pub open spec fn hits_of(hits: Seq<SearchHit>) -> Seq<SearchHitModel> {
    Seq::new(hits.len(), |i: int| hits[i]@)
}

/// How many messages come before the page.
pub open spec fn start_of(offset: Option<u32>) -> u32 {
    match offset {
        Some(n) => n,
        None => 0,
    }
}

impl PrivchatSDK {
    /// The page of hits in the messages that a search found. A full page is followed by another.
    pub fn search_channel(messages: &Vec<Message>, limit: u32, offset: Option<u32>) -> (r: SearchPage)
        requires
            hits_in(messages@).len() == limit ==> start_of(offset) + limit <= u32::MAX,
        ensures
            hits_of(r.hits@) == hits_in(messages@),
            r.next_offset == if hits_in(messages@).len() == limit {
                Some((start_of(offset) + limit) as u32)
            } else {
                None
            },
    {
        let mut hits: Vec<SearchHit> = Vec::new();
        let length: usize = messages.len();
        let mut i: usize = 0;
        proof {
            assert(messages@.take(0) =~= Seq::<Message>::empty());
            assert(hits_of(hits@) =~= Seq::<SearchHitModel>::empty());
        }
        while i < length
            invariant
                i <= length == messages@.len(),
                hits_of(hits@) == hits_in(messages@.take(i as int)),
            decreases length - i,
        {
            proof {
                assert(messages@.take(i + 1).drop_last() =~= messages@.take(i as int));
                assert(messages@.take(i + 1).last() == messages@[i as int]);
            }
            let m = &messages[i];
            match m.server_message_id {
                Some(id) => {
                    let ghost before = hits@;
                    let hit = SearchHit {
                        channel_id: m.channel_id,
                        server_message_id: id,
                        sender: m.from_uid,
                        body: m.content.clone(),
                        timestamp_ms: or_zero(m.timestamp),
                    };
                    hits.push(hit);
                    assert(hits_of(hits@) =~= hits_of(before).push(hit@));
                },
                None => {},
            }
            i = i + 1;
        }
        proof {
            assert(messages@.take(i as int) =~= messages@);
            assert(hits@.len() == hits_of(hits@).len());
        }
        let full = hits.len() == limit as usize;
        let start: u32 = match offset {
            Some(n) => n,
            None => 0,
        };
        let next_offset = if full {
            Some(start + limit)
        } else {
            None
        };
        SearchPage { hits, next_offset }
    }
}

/// The channel that a search is for, where its text is an id. Without one nothing is searched.
pub fn searched_channel(channel_id: Option<&str>) -> (r: Option<u64>)
    ensures
        match channel_id {
            Some(s) => match text::unsigned_value(s@, u64::MAX as nat) {
                Some(id) => r == Some(id as u64),
                None => r is None,
            },
            None => r is None,
        },
{
    match channel_id {
        Some(s) => parse_u64(s),
        None => None,
    }
}

/// A message that a search found, as JSON. A message without a time shows when it was stored.
pub open spec fn found_tree(m: MessageModel) -> JsonTree {
    JsonTree::Object(
        map![
            "message_id"@ => match m.server_message_id {
                Some(id) => JsonTree::Int(id as int),
                None => JsonTree::Null,
            },
            "channel_id"@ => JsonTree::Int(m.channel_id as int),
            "channel_type"@ => JsonTree::Int(m.channel_type as int),
            "from_uid"@ => JsonTree::Int(m.from_uid as int),
            "content"@ => JsonTree::Text(m.content),
            "timestamp"@ => JsonTree::Int(
                match m.timestamp {
                    Some(t) => t as int,
                    None => m.created_at as int,
                },
            ),
        ],
    )
}

fn found_json(m: &Message) -> (r: JsonValue)
    ensures
        r@ == found_tree(m@),
{
    let time: i64 = match m.timestamp {
        Some(t) => t,
        None => m.created_at,
    };
    let mut r = JsonValue::object();
    r.set(
        "message_id",
        match m.server_message_id {
            Some(id) => JsonValue::unsigned(id),
            None => JsonValue::Null,
        },
    );
    r.set("channel_id", JsonValue::unsigned(m.channel_id));
    r.set("channel_type", JsonValue::signed(m.channel_type as i64));
    r.set("from_uid", JsonValue::unsigned(m.from_uid));
    r.set("content", JsonValue::text(m.content.as_str()));
    r.set("timestamp", JsonValue::signed(time));
    assert(r@->Object_0 =~= found_tree(m@)->Object_0);
    r
}

impl PrivchatSDK {
    /// The messages that a search found, as JSON.
    pub fn search_messages(messages: &Vec<Message>) -> (r: JsonValue)
        ensures
            r@ == JsonTree::Object(
                map![
                    "messages"@ => JsonTree::Array(
                        Seq::new(messages@.len(), |i: int| found_tree(messages@[i]@)),
                    ),
                ],
            ),
    {
        let ghost wanted = Seq::new(messages@.len(), |i: int| found_tree(messages@[i]@));
        let mut items: Vec<JsonValue> = Vec::new();
        let length: usize = messages.len();
        let mut i: usize = 0;
        while i < length
            invariant
                i <= length == messages@.len(),
                items@.len() == i,
                forall|j: int| 0 <= j < i ==> (#[trigger] items@[j])@ == found_tree(messages@[j]@),
            decreases length - i,
        {
            items.push(found_json(&messages[i]));
            i = i + 1;
        }
        proof {
            json::lemma_item_trees(items@);
            assert(json::item_trees(items@) =~= wanted);
        }
        let list = JsonValue::Array(items);
        let mut r = JsonValue::object();
        r.set("messages", list);
        assert(r@->Object_0 =~= map!["messages"@ => JsonTree::Array(wanted)]);
        r
    }
}

/// A search shows no more messages than it found, and all of them exactly where the server knows
/// them all.
pub proof fn law_a_search_leaves_out_only_unknown_messages(messages: Seq<Message>)
    ensures
        hits_in(messages).len() <= messages.len(),
        hits_in(messages).len() == messages.len() <==> forall|i: int|
            0 <= i < messages.len() ==> (#[trigger] messages[i]).server_message_id is Some,
    decreases messages.len(),
{
    if messages.len() > 0 {
        let front = messages.drop_last();
        law_a_search_leaves_out_only_unknown_messages(front);
        assert(forall|i: int| 0 <= i < front.len() ==> front[i] == messages[i]);
        assert(messages.last() == messages[messages.len() - 1]);
        if hits_in(messages).len() == messages.len() {
            assert forall|i: int| 0 <= i < messages.len() implies (
            #[trigger] messages[i]).server_message_id is Some by {
                if i < front.len() {
                    assert(front[i].server_message_id is Some);
                }
            }
        }
        if forall|i: int|
            0 <= i < messages.len() ==> (#[trigger] messages[i]).server_message_id is Some {
            assert forall|i: int| 0 <= i < front.len() implies (
            #[trigger] front[i]).server_message_id is Some by {
                assert(messages[i].server_message_id is Some);
            }
        }
    }
}

/// A stored message shows as it is: under its row and the server's number, with its channel, sender,
/// content, type, time and position. A message without a row or a time shows 0 there.
pub proof fn law_a_message_shows_as_it_is_stored(m: MessageModel)
    ensures
        ({
            let s = shown(m);
            &&& s.server_message_id == m.server_message_id
            &&& s.channel_id == m.channel_id && s.channel_type == m.channel_type
            &&& s.from_uid == m.from_uid && s.content == m.content && s.message_type == m.message_type
            &&& m.id matches Some(n) ==> (n >= 0 ==> s.id == n)
            &&& m.id is None ==> s.id == 0
            &&& m.timestamp matches Some(t) ==> (t >= 0 ==> s.timestamp == t)
            &&& m.timestamp is None ==> s.timestamp == 0
            &&& m.pts >= 0 ==> s.pts == m.pts
        }),
{
}

/// A page shows all its messages in their order, in the channel and at the time it was asked for.
pub proof fn law_a_page_shows_all_its_messages(
    event: SDKEvent,
    channel_id: u64,
    messages: Seq<Message>,
    timestamp: u64,
)
    requires
        shows_page(event, channel_id, messages, timestamp),
    ensures
        event matches SDKEvent::TimelineDiff {
            channel_id: c,
            diff_kind: TimelineDiffKind::Append { messages: on_show },
            timestamp: t,
        } && c == channel_id && t == timestamp && on_show@.len() == messages.len() && forall|i: int|
            0 <= i < messages.len() ==> (#[trigger] on_show@[i]).content@ == messages[i].content@
                && on_show@[i].server_message_id == messages[i].server_message_id && on_show@[i].from_uid
                == messages[i].from_uid,
{
    if let SDKEvent::TimelineDiff { diff_kind: TimelineDiffKind::Append { messages: on_show }, .. } = event {
        assert forall|i: int| 0 <= i < messages.len() implies (#[trigger] on_show@[i]).content@
            == messages[i].content@ && on_show@[i].server_message_id == messages[i].server_message_id
            && on_show@[i].from_uid == messages[i].from_uid by {
            assert(on_show@[i]@ == shown(messages[i]@));
        }
    }
}

/// A search shows each message that the server has numbered, in its order, with its channel, sender,
/// content and time.
pub proof fn law_a_hit_is_the_message_found(messages: Seq<Message>, m: Message)
    ensures
        m.server_message_id is Some ==> {
            let hits = hits_in(messages.push(m));
            &&& hits.len() == hits_in(messages).len() + 1
            &&& hits.drop_last() == hits_in(messages)
            &&& Some(hits.last().server_message_id) == m.server_message_id
            &&& hits.last().channel_id == m.channel_id && hits.last().sender == m.from_uid
            &&& hits.last().body == m.content@
            &&& m.timestamp matches Some(t) ==> (t >= 0 ==> hits.last().timestamp_ms == t)
            &&& m.timestamp is None ==> hits.last().timestamp_ms == 0
        },
        m.server_message_id is None ==> hits_in(messages.push(m)) == hits_in(messages),
        hits_in(Seq::empty()).len() == 0,
{
    assert(messages.push(m).drop_last() =~= messages);
    if m.server_message_id is Some {
        assert(hits_in(messages.push(m)).drop_last() =~= hits_in(messages));
    }
}

/// A page begins where it is asked to, or else at the first message.
pub proof fn law_a_page_begins_at_the_first_message(offset: u32)
    ensures
        start_of(Some(offset)) == offset,
        start_of(None) == 0,
{
}

/// A found message says each of its parts under its own name; where it has no time of its own, that of
/// its storing.
pub proof fn law_a_found_message_says_what_it_is(m: MessageModel)
    ensures
        ({
            let t = found_tree(m);
            &&& m.server_message_id is Some ==> t.u64_at("message_id"@) == m.server_message_id
            &&& m.server_message_id is None ==> t.get("message_id"@) == Some(JsonTree::Null)
            &&& t.u64_at("channel_id"@) == Some(m.channel_id)
            &&& t.i64_at("channel_type"@) == Some(m.channel_type as i64)
            &&& t.u64_at("from_uid"@) == Some(m.from_uid)
            &&& t.str_at("content"@) == Some(m.content)
            &&& m.timestamp is Some ==> t.i64_at("timestamp"@) == m.timestamp
            &&& m.timestamp is None ==> t.i64_at("timestamp"@) == Some(m.created_at)
        }),
{
    reveal_strlit("message_id");
    reveal_strlit("channel_id");
    reveal_strlit("channel_type");
    reveal_strlit("from_uid");
    reveal_strlit("content");
    reveal_strlit("timestamp");
    assert("message_id"@.len() == 10 && "channel_id"@.len() == 10 && "channel_type"@.len() == 12
        && "from_uid"@.len() == 8 && "content"@.len() == 7 && "timestamp"@.len() == 9);
    assert("message_id"@[0] == 'm' && "channel_id"@[0] == 'c');
}

} // verus!
