//! Messages that the server pushes: how a batch is ordered, stored and reported.

use vstd::prelude::*;
use crate::clock::now_millis;
use crate::events::{SDKEvent, TimelineDiffKind, TimelineMessage, TimelineMessageModel};
use crate::json;
use crate::json::{JsonTree, JsonValue, parse_json_bytes};
use crate::order;
use crate::order::{Ranked, stable_sort};
use crate::storage::entities::{Message, MessageModel};

verus! {

/// A message as the server pushes it.
#[derive(Debug)]
pub struct PushMessage {
    pub server_message_id: u64,
    /// Position of the message in its channel.
    pub message_seq: u32,
    pub channel_id: u64,
    pub channel_type: u8,
    pub from_uid: u64,
    /// When the message was sent, in seconds or milliseconds since the Unix epoch.
    pub timestamp: u64,
    pub message_type: u32,
    pub payload: Vec<u8>,
    /// Whether the sender wants a receipt.
    pub need_receipt: bool,
    pub topic: String,
    /// For how long the message stays, in seconds; 0 where it stays.
    pub expire: u32,
}

/// Pushed messages rank by channel and, within a channel, by their position in it.
impl Ranked for PushMessage {
    open spec fn rank(&self) -> (int, int, int) {
        (self.channel_id as int, self.channel_type as int, self.message_seq as int)
    }

    fn ranks_before(&self, other: &Self) -> (r: bool) {
        if self.channel_id != other.channel_id {
            self.channel_id < other.channel_id
        } else if self.channel_type != other.channel_type {
            self.channel_type < other.channel_type
        } else {
            self.message_seq < other.message_seq
        }
    }
}

/// A time in milliseconds, given in seconds or in milliseconds: what is below 10^12 counts as
/// seconds.
pub open spec fn as_millis(timestamp: u64) -> u64 {
    if timestamp < 1_000_000_000_000 {
        (timestamp * 1000) as u64
    } else {
        timestamp
    }
}

/// A time in milliseconds, given in seconds or in milliseconds.
pub fn timestamp_millis(timestamp: u64) -> (r: u64)
    ensures
        r == as_millis(timestamp),
{
    if timestamp < 1_000_000_000_000 {
        timestamp * 1000
    } else {
        timestamp
    }
}

/// Whatever unit a time between 2001 and 33658 comes in, one and the same second gives times in
/// milliseconds less than a second apart.
pub proof fn law_seconds_and_millis_agree(seconds: u64, millis: u64)
    requires
        1_000_000_000 <= seconds < 1_000_000_000_000,
        seconds * 1000 <= millis < seconds * 1000 + 1000,
    ensures
        0 <= as_millis(millis) - as_millis(seconds) < 1000,
{
}

/// What `String::from_utf8_lossy` makes of bytes.
pub uninterp spec fn lossy_text(bytes: Seq<u8>) -> Seq<char>;

/// `String::from_utf8_lossy`: bytes as text, with replacement characters for what is not UTF-8. The
/// result depends on the bytes alone, and bytes that are UTF-8 give the text that they encode.
#[verifier::external_body]
fn text_from_utf8_lossy(bytes: &Vec<u8>) -> (r: String)
    ensures
        r@ == lossy_text(bytes@),
        vstd::utf8::valid_utf8(bytes@) ==> vstd::utf8::encode_utf8(r@) == bytes@,
{
    String::from_utf8_lossy(bytes).to_string()
}

/// The text of a payload: of a JSON payload the text under `content`, else the payload itself.
pub open spec fn content_of(parsed: Option<JsonTree>, raw: Seq<char>) -> Seq<char> {
    match parsed {
        Some(t) => t.str_or_empty("content"@),
        None => raw,
    }
}

/// The text of a payload that `parsed` and `raw` were read from.
pub fn content_from(parsed: Option<JsonValue>, raw: String) -> (r: String)
    ensures
        r@ == content_of(
            match parsed {
                Some(v) => Some(v@),
                None => None,
            },
            raw@,
        ),
{
    match parsed {
        Some(v) => v.str_or_empty("content"),
        None => raw,
    }
}

/// The text of a payload.
pub open spec fn text_of_payload(payload: Seq<u8>) -> Seq<char> {
    content_of(json::json_parsed_bytes(payload), lossy_text(payload))
}

/// The text of a payload.
pub fn payload_content(payload: &Vec<u8>) -> (r: String)
    ensures
        r@ == text_of_payload(payload@),
{
    let parsed = match parse_json_bytes(payload.as_slice()) {
        Ok(v) => Some(v),
        Err(_) => None,
    };
    content_from(parsed, text_from_utf8_lossy(payload))
}

/// A pushed message as the database keeps it, received at `now`.
pub open spec fn stored_form(p: PushMessage, content: Seq<char>, now: i64) -> MessageModel {
    MessageModel {
        id: None,
        server_message_id: Some(p.server_message_id),
        pts: p.message_seq as i64,
        channel_id: p.channel_id,
        channel_type: p.channel_type as i32,
        timestamp: Some(as_millis(p.timestamp) as i64),
        from_uid: p.from_uid,
        message_type: p.message_type as i32,
        content,
        status: 2,
        voice_status: 0,
        created_at: now,
        updated_at: now,
        searchable_word: content,
        local_message_id: 0,
        is_deleted: 0,
        setting: if p.need_receipt {
            1
        } else {
            0
        },
        order_seq: p.message_seq as i64,
        extra: "{}"@,
        flame: 0,
        flame_second: 0,
        viewed: 0,
        viewed_at: 0,
        topic_id: p.topic@,
        expire_time: if p.expire > 0 {
            Some(p.expire as i64)
        } else {
            None
        },
        expire_timestamp: None,
        revoked: 0,
        revoked_at: 0,
        revoked_by: None,
    }
}

/// A pushed message as the conversation shows it.
pub open spec fn shown_form(p: PushMessage, content: Seq<char>) -> TimelineMessageModel {
    TimelineMessageModel {
        id: p.server_message_id,
        server_message_id: Some(p.server_message_id),
        channel_id: p.channel_id,
        channel_type: p.channel_type as i32,
        from_uid: p.from_uid,
        content,
        message_type: p.message_type as i32,
        timestamp: as_millis(p.timestamp),
        pts: p.message_seq as u64,
    }
}

/// The message to store for a pushed one, received at `now`.
pub fn message_of_push(push: &PushMessage, content: &str, now: i64) -> (r: Message)
    ensures
        r@ == stored_form(*push, content@, now),
{
    Message {
        id: None,
        server_message_id: Some(push.server_message_id),
        pts: push.message_seq as i64,
        channel_id: push.channel_id,
        channel_type: push.channel_type as i32,
        timestamp: Some(#[verifier::truncate] (timestamp_millis(push.timestamp) as i64)),
        from_uid: push.from_uid,
        message_type: #[verifier::truncate] (push.message_type as i32),
        content: content.to_owned(),
        status: 2,
        voice_status: 0,
        created_at: now,
        updated_at: now,
        searchable_word: content.to_owned(),
        local_message_id: 0,
        is_deleted: 0,
        setting: if push.need_receipt {
            1
        } else {
            0
        },
        order_seq: push.message_seq as i64,
        extra: "{}".to_owned(),
        flame: 0,
        flame_second: 0,
        viewed: 0,
        viewed_at: 0,
        topic_id: push.topic.clone(),
        expire_time: if push.expire > 0 {
            Some(push.expire as i64)
        } else {
            None
        },
        expire_timestamp: None,
        revoked: 0,
        revoked_at: 0,
        revoked_by: None,
    }
}

/// The message to store for a pushed one that was received now.
pub fn received_message(push: &PushMessage) -> (r: Message)
    ensures
        exists|now: i64|
            r@ == #[trigger] stored_form(*push, text_of_payload(push.payload@), now),
{
    let content = payload_content(&push.payload);
    let now: i64 = now_millis();
    message_of_push(push, content.as_str(), now)
}

/// The entry of the conversation for a pushed message.
pub fn timeline_message_of_push(push: &PushMessage, content: &str) -> (r: TimelineMessage)
    ensures
        r@ == shown_form(*push, content@),
{
    TimelineMessage {
        id: push.server_message_id,
        server_message_id: Some(push.server_message_id),
        channel_id: push.channel_id,
        channel_type: push.channel_type as i32,
        from_uid: push.from_uid,
        content: content.to_owned(),
        message_type: #[verifier::truncate] (push.message_type as i32),
        timestamp: timestamp_millis(push.timestamp),
        pts: push.message_seq as u64,
    }
}

/// The event that reports a pushed message.
pub fn message_received_event(push: &PushMessage, content: &str) -> (r: SDKEvent)
    ensures
        reports_push(r, *push, content@),
{
    SDKEvent::MessageReceived {
        server_message_id: push.server_message_id,
        channel_id: push.channel_id,
        channel_type: push.channel_type as i32,
        from_uid: push.from_uid,
        timestamp: timestamp_millis(push.timestamp),
        content: content.to_owned(),
    }
}

/// Orders a batch of pushed messages: by channel, and within a channel by position.
pub fn order_batch(batch: Vec<PushMessage>) -> (r: Vec<PushMessage>)
    ensures
        order::stably_sorted(batch@, r@),
{
    stable_sort(batch)
}

/// What follows the question whether the position of a pushed message leaves a gap.
#[derive(Debug, Clone, Copy, PartialEq, Eq, Structural)]
pub enum PtsAction {
    /// Messages are missing: fetch them from the server.
    SyncChannel,
    /// Nothing is missing: this is now the channel's position.
    UpdateLocalPts,
    /// The question was not answered.
    Leave,
}

/// Decides what follows the question whether there is a gap; `gap` is absent where the question
/// failed.
pub fn pts_action(gap: Option<bool>) -> (r: PtsAction)
    ensures
        r == match gap {
            Some(true) => PtsAction::SyncChannel,
            Some(false) => PtsAction::UpdateLocalPts,
            None => PtsAction::Leave,
        },
{
    match gap {
        Some(missing) => if missing {
            PtsAction::SyncChannel
        } else {
            PtsAction::UpdateLocalPts
        },
        None => PtsAction::Leave,
    }
}

/// The new messages of one channel.
#[derive(Debug)]
pub struct TimelineBatch {
    pub channel_id: u64,
    pub channel_type: i32,
    pub messages: Vec<TimelineMessage>,
}

/// The messages of one channel, in their order.
pub open spec fn of_channel(
    messages: Seq<TimelineMessage>,
    channel_id: u64,
    channel_type: i32,
) -> Seq<TimelineMessage> {
    messages.filter(|m: TimelineMessage| m.channel_id == channel_id && m.channel_type == channel_type)
}

/// Whether one of the batches is that of a message's channel.
pub open spec fn has_batch(batches: Seq<TimelineBatch>, m: TimelineMessage) -> bool {
    exists|b: int|
        0 <= b < batches.len() && (#[trigger] batches[b]).channel_id == m.channel_id
            && batches[b].channel_type == m.channel_type
}

/// Whether `batches` has the messages channel by channel: each channel that has messages once, with
/// all its messages in their order, and no other channel.
pub open spec fn by_channel(messages: Seq<TimelineMessage>, batches: Seq<TimelineBatch>) -> bool {
    &&& forall|b: int|
        0 <= b < batches.len() ==> (#[trigger] batches[b]).messages@ == of_channel(
            messages,
            batches[b].channel_id,
            batches[b].channel_type,
        ) && batches[b].messages@.len() > 0
    &&& forall|a: int, b: int|
        0 <= a < b < batches.len() ==> !((#[trigger] batches[a]).channel_id == (
        #[trigger] batches[b]).channel_id && batches[a].channel_type == batches[b].channel_type)
    &&& forall|m: int| 0 <= m < messages.len() ==> has_batch(batches, #[trigger] messages[m])
}

proof fn lemma_of_channel_push(
    messages: Seq<TimelineMessage>,
    m: TimelineMessage,
    channel_id: u64,
    channel_type: i32,
)
    ensures
        of_channel(messages.push(m), channel_id, channel_type) == if m.channel_id == channel_id
            && m.channel_type == channel_type {
            of_channel(messages, channel_id, channel_type).push(m)
        } else {
            of_channel(messages, channel_id, channel_type)
        },
{
    reveal(Seq::filter);
    assert(messages.push(m).drop_last() =~= messages);
}

proof fn lemma_of_channel_absent(
    messages: Seq<TimelineMessage>,
    channel_id: u64,
    channel_type: i32,
)
    requires
        forall|m: int|
            0 <= m < messages.len() ==> !((#[trigger] messages[m]).channel_id == channel_id
                && messages[m].channel_type == channel_type),
    ensures
        of_channel(messages, channel_id, channel_type) == Seq::<TimelineMessage>::empty(),
    decreases messages.len(),
{
    reveal(Seq::filter);
    if messages.len() > 0 {
        let front = messages.drop_last();
        assert(forall|m: int| 0 <= m < front.len() ==> front[m] == messages[m]);
        lemma_of_channel_absent(front, channel_id, channel_type);
        assert(messages.last() == messages[messages.len() - 1]);
    }
}

proof fn lemma_add_to_batch(
    messages: Seq<TimelineMessage>,
    before: Seq<TimelineBatch>,
    after: Seq<TimelineBatch>,
    m: TimelineMessage,
    at: int,
)
    requires
        by_channel(messages, before),
        0 <= at < before.len(),
        before[at].channel_id == m.channel_id,
        before[at].channel_type == m.channel_type,
        after.len() == before.len(),
        forall|b: int| 0 <= b < before.len() && b != at ==> #[trigger] after[b] == before[b],
        after[at].channel_id == m.channel_id,
        after[at].channel_type == m.channel_type,
        after[at].messages@ == before[at].messages@.push(m),
    ensures
        by_channel(messages.push(m), after),
{
    let all = messages.push(m);
    assert forall|b: int| 0 <= b < after.len() implies (#[trigger] after[b]).messages@ == of_channel(
        all,
        after[b].channel_id,
        after[b].channel_type,
    ) && after[b].messages@.len() > 0 by {
        lemma_of_channel_push(messages, m, after[b].channel_id, after[b].channel_type);
        assert(before[b].messages@ == of_channel(
            messages,
            before[b].channel_id,
            before[b].channel_type,
        ));
        if b != at {
            let (lo, hi) = if b < at {
                (b, at)
            } else {
                (at, b)
            };
            assert(!(before[lo].channel_id == before[hi].channel_id && before[lo].channel_type
                == before[hi].channel_type));
        }
    }
    assert forall|a: int, b: int| 0 <= a < b < after.len() implies !((
    #[trigger] after[a]).channel_id == (#[trigger] after[b]).channel_id && after[a].channel_type
        == after[b].channel_type) by {
        assert(!(before[a].channel_id == before[b].channel_id && before[a].channel_type
            == before[b].channel_type));
    }
    assert forall|i: int| 0 <= i < all.len() implies has_batch(
        after,
        #[trigger] all[i],
    ) by {
        if i < messages.len() {
            assert(messages[i] == all[i]);
            let b = choose|b: int|
                0 <= b < before.len() && (#[trigger] before[b]).channel_id == messages[i].channel_id
                    && before[b].channel_type == messages[i].channel_type;
            assert(after[b].channel_id == all[i].channel_id);
        } else {
            assert(after[at].channel_id == all[i].channel_id);
        }
    }
}

proof fn lemma_add_batch(
    messages: Seq<TimelineMessage>,
    before: Seq<TimelineBatch>,
    batch: TimelineBatch,
    m: TimelineMessage,
)
    requires
        by_channel(messages, before),
        forall|b: int|
            0 <= b < before.len() ==> !((#[trigger] before[b]).channel_id == m.channel_id
                && before[b].channel_type == m.channel_type),
        batch.channel_id == m.channel_id,
        batch.channel_type == m.channel_type,
        batch.messages@ == seq![m],
    ensures
        by_channel(messages.push(m), before.push(batch)),
{
    let all = messages.push(m);
    let after = before.push(batch);
    assert forall|i: int| 0 <= i < messages.len() implies !((
    #[trigger] messages[i]).channel_id == m.channel_id && messages[i].channel_type
        == m.channel_type) by {
        let b = choose|b: int|
            0 <= b < before.len() && (#[trigger] before[b]).channel_id == messages[i].channel_id
                && before[b].channel_type == messages[i].channel_type;
        assert(!(before[b].channel_id == m.channel_id && before[b].channel_type == m.channel_type));
    }
    lemma_of_channel_absent(messages, m.channel_id, m.channel_type);
    assert forall|b: int| 0 <= b < after.len() implies (#[trigger] after[b]).messages@ == of_channel(
        all,
        after[b].channel_id,
        after[b].channel_type,
    ) && after[b].messages@.len() > 0 by {
        lemma_of_channel_push(messages, m, after[b].channel_id, after[b].channel_type);
        if b < before.len() {
            assert(before[b] == after[b]);
        } else {
            assert(Seq::<TimelineMessage>::empty().push(m) =~= seq![m]);
        }
    }
    assert forall|a: int, b: int| 0 <= a < b < after.len() implies !((
    #[trigger] after[a]).channel_id == (#[trigger] after[b]).channel_id && after[a].channel_type
        == after[b].channel_type) by {
        assert(before[a] == after[a]);
        if b < before.len() {
            assert(before[b] == after[b]);
        }
    }
    assert forall|i: int| 0 <= i < all.len() implies has_batch(
        after,
        #[trigger] all[i],
    ) by {
        if i < messages.len() {
            assert(messages[i] == all[i]);
            let b = choose|b: int|
                0 <= b < before.len() && (#[trigger] before[b]).channel_id == messages[i].channel_id
                    && before[b].channel_type == messages[i].channel_type;
            assert(after[b].channel_id == all[i].channel_id);
        } else {
            assert(after[before.len() as int].channel_id == all[i].channel_id);
        }
    }
}

/// Puts messages together channel by channel, the channels in the order in which they first appear.
pub fn group_by_channel(messages: Vec<TimelineMessage>) -> (r: Vec<TimelineBatch>)
    ensures
        by_channel(messages@, r@),
{
    let mut batches: Vec<TimelineBatch> = Vec::new();
    let mut i: usize = 0;
    proof {
        assert(messages@.take(0) =~= Seq::<TimelineMessage>::empty());
    }
    while i < messages.len()
        invariant
            i <= messages@.len(),
            by_channel(messages@.take(i as int), batches@),
        decreases messages@.len() - i,
    {
        let m = messages[i].clone();
        let ghost message = m;
        let ghost before = batches@;
        proof {
            assert(messages@.take(i + 1) =~= messages@.take(i as int).push(message));
        }
        let mut at: usize = 0;
        while at < batches.len() && !(batches[at].channel_id == m.channel_id
            && batches[at].channel_type == m.channel_type)
            invariant
                at <= batches@.len(),
                forall|b: int|
                    0 <= b < at ==> !((#[trigger] batches@[b]).channel_id == m.channel_id
                        && batches@[b].channel_type == m.channel_type),
            decreases batches@.len() - at,
        {
            at = at + 1;
        }
        if at < batches.len() {
            let mut batch = batches.remove(at);
            batch.messages.push(m);
            batches.insert(at, batch);
            proof {
                lemma_add_to_batch(
                    messages@.take(i as int),
                    before,
                    batches@,
                    message,
                    at as int,
                );
            }
        } else {
            let mut list: Vec<TimelineMessage> = Vec::new();
            let channel_id: u64 = m.channel_id;
            let channel_type: i32 = m.channel_type;
            list.push(m);
            let batch = TimelineBatch { channel_id, channel_type, messages: list };
            proof {
                assert(batch.messages@ =~= seq![message]);
                lemma_add_batch(messages@.take(i as int), before, batch, message);
            }
            batches.push(batch);
        }
        i = i + 1;
    }
    proof {
        assert(messages@.take(i as int) =~= messages@);
    }
    batches
}

/// The latest time among messages; 0 where there are none.
pub open spec fn latest_time(messages: Seq<TimelineMessage>) -> u64
    decreases messages.len(),
{
    if messages.len() == 0 {
        0
    } else if messages.last().timestamp > latest_time(messages.drop_last()) {
        messages.last().timestamp
    } else {
        latest_time(messages.drop_last())
    }
}

fn latest(messages: &Vec<TimelineMessage>) -> (r: u64)
    ensures
        r == latest_time(messages@),
{
    let mut best: u64 = 0;
    let mut i: usize = 0;
    while i < messages.len()
        invariant
            i <= messages@.len(),
            best == latest_time(messages@.take(i as int)),
        decreases messages@.len() - i,
    {
        proof {
            assert(messages@.take(i + 1).drop_last() =~= messages@.take(i as int));
        }
        if messages[i].timestamp > best {
            best = messages[i].timestamp;
        }
        i = i + 1;
    }
    proof {
        assert(messages@.take(i as int) =~= messages@);
    }
    best
}

/// The event that appends the new messages of a channel to its conversation, at the time of the
/// latest of them.
pub fn timeline_event(batch: TimelineBatch) -> (r: SDKEvent)
    ensures
        r matches SDKEvent::TimelineDiff {
            channel_id,
            diff_kind: TimelineDiffKind::Append { messages },
            timestamp,
        } && channel_id == batch.channel_id && messages == batch.messages && timestamp
            == latest_time(batch.messages@),
{
    let timestamp: u64 = latest(&batch.messages);
    SDKEvent::TimelineDiff {
        channel_id: batch.channel_id,
        diff_kind: TimelineDiffKind::Append { messages: batch.messages },
        timestamp,
    }
}

/// No message is reported later than the event that appends it says.
pub proof fn law_no_message_is_later_than_its_event(messages: Seq<TimelineMessage>, i: int)
    requires
        0 <= i < messages.len(),
    ensures
        messages[i].timestamp <= latest_time(messages),
    decreases messages.len(),
{
    if i < messages.len() - 1 {
        law_no_message_is_later_than_its_event(messages.drop_last(), i);
    }
}

/// In an ordered batch the messages of one channel come by rising position.
pub proof fn law_ordered_batch_rises_in_each_channel(
    batch: Seq<PushMessage>,
    ordered: Seq<PushMessage>,
    i: int,
    j: int,
)
    requires
        order::stably_sorted(batch, ordered),
        0 <= i < j < ordered.len(),
        ordered[i].channel_id == ordered[j].channel_id,
        ordered[i].channel_type == ordered[j].channel_type,
    ensures
        ordered[i].message_seq <= ordered[j].message_seq,
{
    assert(!order::rank_lt(ordered[j].rank(), ordered[i].rank()));
}

/// Whether an event reports a pushed message with a text.
pub open spec fn reports_push(event: SDKEvent, p: PushMessage, text: Seq<char>) -> bool {
    event matches SDKEvent::MessageReceived {
        server_message_id,
        channel_id,
        channel_type,
        from_uid,
        timestamp,
        content,
    } && server_message_id == p.server_message_id && channel_id == p.channel_id && channel_type
        == p.channel_type && from_uid == p.from_uid && timestamp == as_millis(p.timestamp) && content@
        == text
}

/// What is done for one pushed message: it is stored, and reported.
#[derive(Debug)]
pub struct PushStep {
    pub push: PushMessage,
    pub message: Message,
    pub event: SDKEvent,
}

/// What is done for a batch of pushed messages: a step for each, and then one event for the new
/// messages of each channel.
#[derive(Debug)]
pub struct Delivery {
    pub steps: Vec<PushStep>,
    pub timeline: Vec<TimelineBatch>,
}

/// The messages of the steps.
pub open spec fn pushes_of(steps: Seq<PushStep>) -> Seq<PushMessage> {
    steps.map_values(|s: PushStep| s.push)
}

/// Whether the entries are those of the messages, one by one.
pub open spec fn entries_of(shown: Seq<TimelineMessage>, pushes: Seq<PushMessage>) -> bool {
    &&& shown.len() == pushes.len()
    &&& forall|i: int|
        0 <= i < pushes.len() ==> (#[trigger] shown[i])@ == shown_form(
            pushes[i],
            text_of_payload(pushes[i].payload@),
        )
}

/// Whether a batch is delivered at the time `now`: in order, each message stored and reported.
pub open spec fn is_delivery(batch: Seq<PushMessage>, steps: Seq<PushStep>, now: i64) -> bool {
    &&& order::stably_sorted(batch, pushes_of(steps))
    &&& forall|i: int|
        0 <= i < steps.len() ==> (#[trigger] steps[i]).message@ == stored_form(
            steps[i].push,
            text_of_payload(steps[i].push.payload@),
            now,
        ) && reports_push(steps[i].event, steps[i].push, text_of_payload(steps[i].push.payload@))
}

/// Whether the timeline has the entries of all messages, channel by channel.
pub open spec fn shows_all(pushes: Seq<PushMessage>, timeline: Seq<TimelineBatch>) -> bool {
    exists|shown: Seq<TimelineMessage>|
        #[trigger] entries_of(shown, pushes) && by_channel(shown, timeline)
}

/// What is done for a batch of pushed messages that was received at `now`.
pub fn deliver(batch: Vec<PushMessage>, now: i64) -> (r: Delivery)
    ensures
        is_delivery(batch@, r.steps@, now),
        shows_all(pushes_of(r.steps@), r.timeline@),
{
    let ghost received = batch@;
    let mut rest = order_batch(batch);
    let ghost ordered = rest@;
    let mut steps: Vec<PushStep> = Vec::new();
    let mut shown: Vec<TimelineMessage> = Vec::new();
    proof {
        assert(ordered.skip(0) =~= ordered);
    }
    while rest.len() > 0
        invariant
            rest@.len() + steps@.len() == ordered.len(),
            rest@ == ordered.skip(steps@.len() as int),
            shown@.len() == steps@.len(),
            forall|i: int| 0 <= i < steps@.len() ==> (#[trigger] steps@[i]).push == ordered[i],
            forall|i: int|
                0 <= i < steps@.len() ==> (#[trigger] steps@[i]).message@ == stored_form(
                    steps@[i].push,
                    text_of_payload(steps@[i].push.payload@),
                    now,
                ),
            forall|i: int|
                0 <= i < steps@.len() ==> reports_push(
                    (#[trigger] steps@[i]).event,
                    steps@[i].push,
                    text_of_payload(steps@[i].push.payload@),
                ),
            forall|i: int|
                0 <= i < shown@.len() ==> (#[trigger] shown@[i])@ == shown_form(
                    ordered[i],
                    text_of_payload(ordered[i].payload@),
                ),
        decreases rest.len(),
    {
        let ghost done = steps@.len() as int;
        let push = rest.remove(0);
        proof {
            assert(push == ordered[done]);
            assert(rest@ =~= ordered.skip(done + 1));
        }
        let content = payload_content(&push.payload);
        let message = message_of_push(&push, content.as_str(), now);
        let event = message_received_event(&push, content.as_str());
        shown.push(timeline_message_of_push(&push, content.as_str()));
        steps.push(PushStep { push, message, event });
    }
    proof {
        assert(pushes_of(steps@) =~= ordered);
        assert(entries_of(shown@, pushes_of(steps@)));
    }
    let timeline = group_by_channel(shown);
    Delivery { steps, timeline }
}

/// Whether an entry is one of the entries of a channel.
pub open spec fn is_entry_of(
    m: TimelineMessage,
    shown: Seq<TimelineMessage>,
    channel_id: u64,
    channel_type: i32,
) -> bool {
    exists|k: int|
        0 <= k < shown.len() && #[trigger] shown[k] == m && m.channel_id == channel_id
            && m.channel_type == channel_type
}

/// The entries of one channel have rising positions, where those of the whole sequence have in each
/// channel.
proof fn lemma_channel_rises(shown: Seq<TimelineMessage>, channel_id: u64, channel_type: i32)
    requires
        forall|i: int, j: int|
            0 <= i < j < shown.len() && (#[trigger] shown[i]).channel_id == (
            #[trigger] shown[j]).channel_id && shown[i].channel_type == shown[j].channel_type
                ==> shown[i].pts <= shown[j].pts,
    ensures
        forall|i: int|
            0 <= i < of_channel(shown, channel_id, channel_type).len() ==> is_entry_of(
                #[trigger] of_channel(shown, channel_id, channel_type)[i],
                shown,
                channel_id,
                channel_type,
            ),
        forall|i: int, j: int|
            0 <= i < j < of_channel(shown, channel_id, channel_type).len() ==> (
            #[trigger] of_channel(shown, channel_id, channel_type)[i]).pts <= (
            #[trigger] of_channel(shown, channel_id, channel_type)[j]).pts,
    decreases shown.len(),
{
    reveal(Seq::filter);
    let all = of_channel(shown, channel_id, channel_type);
    if shown.len() > 0 {
        let front = shown.drop_last();
        let before = of_channel(front, channel_id, channel_type);
        lemma_channel_rises(front, channel_id, channel_type);
        let last = shown.last();
        assert forall|i: int| 0 <= i < all.len() implies is_entry_of(
            #[trigger] all[i],
            shown,
            channel_id,
            channel_type,
        ) by {
            if i < before.len() {
                assert(all[i] == before[i]);
                assert(is_entry_of(before[i], front, channel_id, channel_type));
                let k = choose|k: int| 0 <= k < front.len() && #[trigger] front[k] == before[i];
                assert(shown[k] == front[k]);
            } else {
                assert(shown[shown.len() - 1] == all[i]);
            }
        }
        assert forall|i: int, j: int| 0 <= i < j < all.len() implies (#[trigger] all[i]).pts <= (
        #[trigger] all[j]).pts by {
            assert(all[i] == before[i]);
            if j < before.len() {
                assert(all[j] == before[j]);
            } else {
                assert(is_entry_of(before[i], front, channel_id, channel_type));
                let k = choose|k: int| 0 <= k < front.len() && #[trigger] front[k] == before[i];
                assert(shown[k] == front[k]);
                assert(shown[shown.len() - 1] == last);
            }
        }
    }
}

/// However the messages of a batch came in, each channel gets its new messages by rising position.
pub proof fn law_new_messages_are_appended_by_position(
    batch: Seq<PushMessage>,
    steps: Seq<PushStep>,
    timeline: Seq<TimelineBatch>,
    now: i64,
    b: int,
    i: int,
    j: int,
)
    requires
        is_delivery(batch, steps, now),
        shows_all(pushes_of(steps), timeline),
        0 <= b < timeline.len(),
        0 <= i < j < timeline[b].messages@.len(),
    ensures
        timeline[b].messages@[i].pts <= timeline[b].messages@[j].pts,
{
    let pushes = pushes_of(steps);
    let shown = choose|shown: Seq<TimelineMessage>|
        #[trigger] entries_of(shown, pushes) && by_channel(shown, timeline);
    assert forall|x: int, y: int|
        0 <= x < y < shown.len() && (#[trigger] shown[x]).channel_id == (
        #[trigger] shown[y]).channel_id && shown[x].channel_type == shown[y].channel_type implies shown[x].pts
        <= shown[y].pts by {
        assert(shown[x]@ == shown_form(pushes[x], text_of_payload(pushes[x].payload@)));
        assert(shown[y]@ == shown_form(pushes[y], text_of_payload(pushes[y].payload@)));
        law_ordered_batch_rises_in_each_channel(batch, pushes, x, y);
    }
    let batch_of = timeline[b];
    lemma_channel_rises(shown, batch_of.channel_id, batch_of.channel_type);
    assert(batch_of.messages@ == of_channel(shown, batch_of.channel_id, batch_of.channel_type));
}

/// A time in seconds becomes a thousand times as many milliseconds; a time that is in milliseconds
/// already is kept. The two are told apart at a million million.
pub proof fn law_times_are_in_milliseconds(timestamp: u64)
    ensures
        timestamp < 1_000_000_000_000 ==> as_millis(timestamp) == timestamp * 1000,
        timestamp >= 1_000_000_000_000 ==> as_millis(timestamp) == timestamp,
{
}

/// A pushed message shows what its JSON holds under `content`, nothing where it holds no such text, and
/// the bytes themselves where they are no JSON.
pub proof fn law_a_push_shows_its_content(
    fields: Map<Seq<char>,
    JsonTree>,
    s: Seq<char>,
    raw: Seq<char>,
)
    ensures
        content_of(Some(JsonTree::Object(fields.insert("content"@, JsonTree::Text(s)))), raw) == s,
        !fields.dom().contains("content"@) ==> content_of(
            Some(JsonTree::Object(fields)),
            raw,
        ).len() == 0,
        content_of(None, raw) == raw,
{
}

/// A pushed message is stored and shown alike: under the same ids, in the same channel, from the same
/// sender, of the same type, with the same content and time and at the same position.
pub proof fn law_a_push_is_stored_and_shown_alike(p: PushMessage, content: Seq<char>, now: i64)
    ensures
        ({
            let stored = stored_form(p, content, now);
            let shown = shown_form(p, content);
            &&& stored.server_message_id == Some(p.server_message_id)
            &&& shown.server_message_id == Some(p.server_message_id) && shown.id == p.server_message_id
            &&& stored.channel_id == p.channel_id && shown.channel_id == p.channel_id
            &&& stored.channel_type == p.channel_type && shown.channel_type == p.channel_type
            &&& stored.from_uid == p.from_uid && shown.from_uid == p.from_uid
            &&& stored.content == content && shown.content == content
            &&& stored.message_type == shown.message_type
            &&& p.message_type <= i32::MAX ==> stored.message_type == p.message_type
            &&& stored.pts == p.message_seq && shown.pts == p.message_seq
            &&& stored.order_seq == p.message_seq
            &&& stored.timestamp == Some(shown.timestamp as i64)
            &&& p.timestamp < 1_000_000_000_000 ==> shown.timestamp == p.timestamp * 1000
            &&& p.timestamp >= 1_000_000_000_000 ==> shown.timestamp == p.timestamp
        }),
{
}

/// A pushed message is stored as one that was sent and can be searched by its content; it is not
/// deleted, revoked, seen or burning, and has no row yet. A wanted receipt is its setting, and it
/// expires just where the push says after how long.
pub proof fn law_a_stored_push_is_plain(p: PushMessage, content: Seq<char>, now: i64)
    ensures
        ({
            let m = stored_form(p, content, now);
            &&& m.id is None && m.local_message_id == 0
            &&& m.status == 2 && m.voice_status == 0
            &&& m.searchable_word == content && m.extra == "{}"@ && m.topic_id == p.topic@
            &&& m.created_at == now && m.updated_at == now
            &&& m.is_deleted == 0 && m.revoked == 0 && m.revoked_at == 0 && m.revoked_by is None
            &&& m.viewed == 0 && m.viewed_at == 0 && m.flame == 0 && m.flame_second == 0
            &&& m.setting == 1 <==> p.need_receipt
            &&& m.setting == 0 <==> !p.need_receipt
            &&& m.expire_time is None <==> p.expire == 0
            &&& m.expire_time matches Some(t) ==> t == p.expire
            &&& m.expire_timestamp is None
        }),
{
}

/// The event of a push says of it what the push says.
pub proof fn law_a_push_event_names_its_message(event: SDKEvent, p: PushMessage, text: Seq<char>)
    requires
        reports_push(event, p, text),
    ensures
        event matches SDKEvent::MessageReceived {
            server_message_id,
            channel_id,
            channel_type,
            from_uid,
            timestamp,
            content,
        } && server_message_id == p.server_message_id && channel_id == p.channel_id && channel_type
            == p.channel_type && from_uid == p.from_uid && content@ == text && (p.timestamp
            >= 1_000_000_000_000 ==> timestamp == p.timestamp) && (p.timestamp < 1_000_000_000_000
            ==> timestamp == p.timestamp * 1000),
{
}

/// The messages of a channel are just those with its id and type, in the order they came in.
pub proof fn law_a_batch_holds_its_channel_only(
    messages: Seq<TimelineMessage>,
    m: TimelineMessage,
    channel_id: u64,
    channel_type: i32,
)
    ensures
        m.channel_id == channel_id && m.channel_type == channel_type ==> of_channel(
            messages.push(m),
            channel_id,
            channel_type,
        ) == of_channel(messages, channel_id, channel_type).push(m),
        m.channel_id != channel_id || m.channel_type != channel_type ==> of_channel(
            messages.push(m),
            channel_id,
            channel_type,
        ) == of_channel(messages, channel_id, channel_type),
        of_channel(Seq::empty(), channel_id, channel_type).len() == 0,
{
    reveal(Seq::filter);
    assert(messages.push(m).drop_last() =~= messages);
}

/// The time of an event is that of one of its messages, where it has any.
pub proof fn law_an_event_is_as_late_as_one_of_its_messages(messages: Seq<TimelineMessage>)
    ensures
        messages.len() > 0 ==> latest_time(messages) == 0 || exists|i: int|
            0 <= i < messages.len() && (#[trigger] messages[i]).timestamp == latest_time(messages),
        messages.len() == 0 ==> latest_time(messages) == 0,
    decreases messages.len(),
{
    if messages.len() > 0 {
        let front = messages.drop_last();
        law_an_event_is_as_late_as_one_of_its_messages(front);
        if messages.last().timestamp > latest_time(front) {
            assert(messages[messages.len() - 1].timestamp == latest_time(messages));
        } else if front.len() > 0 && latest_time(front) != 0 {
            let i = choose|i: int|
                0 <= i < front.len() && (#[trigger] front[i]).timestamp == latest_time(front);
            assert(messages[i].timestamp == latest_time(messages));
        }
    }
}

} // verus!
