//! Messages that the user sends: the message to store and the task to queue.

use vstd::prelude::*;
use crate::clock::now_millis;
use crate::events::{SDKEvent, SendStatusState};
use crate::json;
use crate::json::{JsonField, JsonTree, JsonValue, write_json};
use crate::storage::entities::{Message, MessageModel};
use crate::text;
use crate::text::{same_text, u64_text};

verus! {

/// How a message is sent.
#[derive(Debug)]
pub struct SendMessageOptions {
    /// The local key of the message that this one answers.
    pub in_reply_to_message_id: Option<u64>,
    /// The users that the message mentions.
    pub mentions: Vec<u64>,
    /// Whether the message notifies nobody.
    pub silent: bool,
    /// What the caller adds; only an object counts.
    pub extra: Option<JsonValue>,
}

impl Default for SendMessageOptions {
    fn default() -> (r: Self)
        ensures
            r.in_reply_to_message_id is None,
            r.mentions@.len() == 0,
            !r.silent,
            r.extra is None,
    {
        SendMessageOptions {
            in_reply_to_message_id: None,
            mentions: Vec::new(),
            silent: false,
            extra: None,
        }
    }
}

/// One entry of a [`TextMap`].
#[derive(Debug)]
pub struct TextEntry {
    pub name: String,
    pub value: String,
}

/// Texts under names.
#[derive(Debug)]
pub struct TextMap {
    pub entries: Vec<TextEntry>,
}

/// The texts under their names. Of two entries with one name the later counts.
pub open spec fn text_map(entries: Seq<TextEntry>) -> Map<Seq<char>, Seq<char>>
    decreases entries.len(),
{
    if entries.len() == 0 {
        Map::empty()
    } else {
        text_map(entries.drop_last()).insert(entries.last().name@, entries.last().value@)
    }
}

impl View for TextMap {
    type V = Map<Seq<char>, Seq<char>>;

    open spec fn view(&self) -> Map<Seq<char>, Seq<char>> {
        text_map(self.entries@)
    }
}

proof fn lemma_text_map_last(entries: Seq<TextEntry>, i: int)
    requires
        0 <= i < entries.len(),
        forall|j: int| i < j < entries.len() ==> entries[j].name@ != entries[i].name@,
    ensures
        text_map(entries).dom().contains(entries[i].name@),
        text_map(entries)[entries[i].name@] == entries[i].value@,
    decreases entries.len(),
{
    if i < entries.len() - 1 {
        let front = entries.drop_last();
        assert(forall|j: int| 0 <= j < front.len() ==> front[j] == entries[j]);
        lemma_text_map_last(front, i);
    }
}

proof fn lemma_text_map_absent(entries: Seq<TextEntry>, name: Seq<char>)
    requires
        forall|j: int| 0 <= j < entries.len() ==> (#[trigger] entries[j]).name@ != name,
    ensures
        !text_map(entries).dom().contains(name),
    decreases entries.len(),
{
    if entries.len() > 0 {
        let front = entries.drop_last();
        assert(forall|j: int| 0 <= j < front.len() ==> front[j] == entries[j]);
        lemma_text_map_absent(front, name);
    }
}

impl TextMap {
    /// A map without entries.
    pub fn new() -> (r: Self)
        ensures
            r@ == Map::<Seq<char>, Seq<char>>::empty(),
    {
        TextMap { entries: Vec::new() }
    }

    /// Puts a text under a name, in place of an earlier one.
    pub fn set(&mut self, name: &str, value: &str)
        ensures
            final(self)@ == old(self)@.insert(name@, value@),
    {
        let ghost before = self.entries@;
        self.entries.push(TextEntry { name: name.to_owned(), value: value.to_owned() });
        proof {
            assert(self.entries@.drop_last() =~= before);
        }
    }

    /// The text under a name.
    pub fn get(&self, name: &str) -> (r: Option<&str>)
        ensures
            match r {
                Some(s) => self@.dom().contains(name@) && self@[name@] == s@,
                None => !self@.dom().contains(name@),
            },
    {
        let mut i: usize = self.entries.len();
        while i > 0
            invariant
                i <= self.entries@.len(),
                forall|j: int|
                    i <= j < self.entries@.len() ==> (#[trigger] self.entries@[j]).name@ != name@,
            decreases i,
        {
            i = i - 1;
            if same_text(self.entries[i].name.as_str(), name) {
                proof {
                    lemma_text_map_last(self.entries@, i as int);
                }
                return Some(self.entries[i].value.as_str());
            }
        }
        proof {
            lemma_text_map_absent(self.entries@, name@);
        }
        None
    }
}

/// What the sending queue keeps of a message.
#[derive(Debug)]
pub struct MessageData {
    /// The local key of the message.
    pub id: i64,
    pub channel_id: u64,
    pub channel_type: i32,
    pub from_uid: u64,
    pub content: String,
    pub message_type: i32,
    /// The transport id of this sending attempt.
    pub local_message_id: u64,
    pub extra: TextMap,
}

/// How urgent a task is.
#[derive(Debug, Clone, Copy, PartialEq, Eq, Structural)]
pub enum QueuePriority {
    Normal,
}

/// Where a task stands.
#[derive(Debug, Clone, Copy, PartialEq, Eq, Structural)]
pub enum TaskStatus {
    Pending,
    Sending,
    Failed,
}

/// A message that waits to be sent.
#[derive(Debug)]
pub struct SendTask {
    pub id: i64,
    pub channel_id: u64,
    pub message_data: MessageData,
    pub priority: QueuePriority,
    pub status: TaskStatus,
    pub retry_count: u32,
    pub last_error: Option<String>,
    pub last_failure_reason: Option<String>,
    pub next_retry_at: Option<u64>,
}

/// The trees of numbers.
pub open spec fn number_trees(ids: Seq<u64>) -> Seq<JsonTree> {
    ids.map_values(|id: u64| JsonTree::Int(id as int))
}

/// What the options say of a message, before what the caller adds.
pub open spec fn own_extra(reply_to: u64, mentions: Seq<u64>, silent: bool) -> Map<
    Seq<char>,
    JsonTree,
> {
    let a = if reply_to != 0 {
        Map::<Seq<char>, JsonTree>::empty().insert(
            "reply_to_message_id"@,
            JsonTree::Int(reply_to as int),
        )
    } else {
        Map::empty()
    };
    let b = if mentions.len() > 0 {
        a.insert("mentioned_user_ids"@, JsonTree::Array(number_trees(mentions)))
    } else {
        a
    };
    if silent {
        b.insert("silent"@, JsonTree::Bool(true))
    } else {
        b
    }
}

/// The members of what the caller adds.
pub open spec fn added_fields(extra: Option<JsonValue>) -> Map<Seq<char>, JsonTree> {
    match extra {
        Some(v) => match v@ {
            JsonTree::Object(fields) => fields,
            _ => Map::empty(),
        },
        None => Map::empty(),
    }
}

/// The extra data of a message: what the options say, overridden by what the caller adds.
pub open spec fn extra_tree(options: SendMessageOptions, reply_to: u64) -> JsonTree {
    JsonTree::Object(
        own_extra(reply_to, options.mentions@, options.silent).union_prefer_right(
            added_fields(options.extra),
        ),
    )
}

/// A member's text for the sending queue: a text as it is, any other value as JSON.
pub open spec fn queue_text(t: JsonTree) -> Seq<char> {
    match t {
        JsonTree::Text(s) => s,
        other => json::json_text(other),
    }
}

/// The members of what the caller adds, as texts.
pub open spec fn added_texts(extra: Option<JsonValue>) -> Map<Seq<char>, Seq<char>> {
    added_fields(extra).map_values(|t: JsonTree| queue_text(t))
}

/// What the options say of a message, as texts, before what the caller adds.
pub open spec fn own_texts(reply_to: u64, mentions: Seq<u64>, silent: bool) -> Map<
    Seq<char>,
    Seq<char>,
> {
    let a = if reply_to != 0 {
        Map::<Seq<char>, Seq<char>>::empty().insert(
            "reply_to_message_id"@,
            text::decimal(reply_to as nat),
        )
    } else {
        Map::empty()
    };
    let b = if mentions.len() > 0 {
        a.insert("mentioned_user_ids"@, json::json_text(JsonTree::Array(number_trees(mentions))))
    } else {
        a
    };
    if silent {
        b.insert("silent"@, "true"@)
    } else {
        b
    }
}

/// The extra data of a queued message.
pub open spec fn extra_texts(options: SendMessageOptions, reply_to: u64) -> Map<Seq<char>, Seq<char>> {
    own_texts(reply_to, options.mentions@, options.silent).union_prefer_right(
        added_texts(options.extra),
    )
}

/// A message that the user sends, as the database keeps it.
pub open spec fn outgoing_form(
    channel_id: u64,
    user_id: u64,
    content: Seq<char>,
    local_message_id: u64,
    extra: Seq<char>,
    now: i64,
) -> MessageModel {
    MessageModel {
        id: None,
        server_message_id: None,
        pts: now,
        channel_id,
        channel_type: 1,
        timestamp: Some(now),
        from_uid: user_id,
        message_type: 1,
        content,
        status: 0,
        voice_status: 0,
        created_at: now,
        updated_at: now,
        searchable_word: content,
        local_message_id,
        is_deleted: 0,
        setting: 0,
        order_seq: now,
        extra,
        flame: 0,
        flame_second: 0,
        viewed: 0,
        viewed_at: 0,
        topic_id: Seq::empty(),
        expire_time: None,
        expire_timestamp: None,
        revoked: 0,
        revoked_at: 0,
        revoked_by: None,
    }
}

fn numbers(ids: &Vec<u64>) -> (r: JsonValue)
    ensures
        r@ == JsonTree::Array(number_trees(ids@)),
{
    let mut items: Vec<JsonValue> = Vec::new();
    let mut i: usize = 0;
    proof {
        assert(number_trees(ids@.take(0)) =~= Seq::<JsonTree>::empty());
    }
    while i < ids.len()
        invariant
            i <= ids@.len(),
            json::item_trees(items@) == number_trees(ids@.take(i as int)),
        decreases ids@.len() - i,
    {
        let ghost before = items@;
        items.push(JsonValue::unsigned(ids[i]));
        proof {
            assert(items@.drop_last() =~= before);
            assert(number_trees(ids@.take(i + 1)) =~= number_trees(ids@.take(i as int)).push(
                JsonTree::Int(ids@[i as int] as int),
            ));
        }
        i = i + 1;
    }
    proof {
        assert(ids@.take(i as int) =~= ids@);
    }
    JsonValue::Array(items)
}

proof fn lemma_add_field(
    own: Map<Seq<char>, JsonTree>,
    done: Map<Seq<char>, JsonTree>,
    name: Seq<char>,
    value: JsonTree,
)
    ensures
        own.union_prefer_right(done).insert(name, value) == own.union_prefer_right(
            done.insert(name, value),
        ),
{
    assert(own.union_prefer_right(done).insert(name, value) =~= own.union_prefer_right(
        done.insert(name, value),
    ));
}

/// The extra data of a message that answers `reply_to`, the server's id of a message or 0.
pub fn message_extra(options: &SendMessageOptions, reply_to: u64) -> (r: JsonValue)
    ensures
        r@ == extra_tree(*options, reply_to),
{
    let mut object = JsonValue::object();
    if reply_to != 0 {
        object.set("reply_to_message_id", JsonValue::unsigned(reply_to));
    }
    if options.mentions.len() > 0 {
        object.set("mentioned_user_ids", numbers(&options.mentions));
    }
    if options.silent {
        object.set("silent", JsonValue::Bool(true));
    }
    let ghost own = own_extra(reply_to, options.mentions@, options.silent);
    proof {
        assert(own.union_prefer_right(Map::empty()) =~= own);
    }
    if let Some(JsonValue::Object(fields)) = &options.extra {
        let mut i: usize = 0;
        proof {
            assert(fields@.take(0) =~= Seq::<JsonField>::empty());
        }
        while i < fields.len()
            invariant
                i <= fields@.len(),
                object@ == JsonTree::Object(
                    own.union_prefer_right(json::field_trees(fields@.take(i as int))),
                ),
            decreases fields@.len() - i,
        {
            let ghost done = json::field_trees(fields@.take(i as int));
            object.set(fields[i].name.as_str(), fields[i].value.duplicate());
            proof {
                assert(fields@.take(i + 1).drop_last() =~= fields@.take(i as int));
                lemma_add_field(own, done, fields@[i as int].name@, fields@[i as int].value@);
            }
            i = i + 1;
        }
        proof {
            assert(fields@.take(i as int) =~= fields@);
        }
    }
    object
}

proof fn lemma_add_text(
    own: Map<Seq<char>, Seq<char>>,
    done: Map<Seq<char>, JsonTree>,
    name: Seq<char>,
    value: JsonTree,
)
    ensures
        own.union_prefer_right(done.map_values(|t: JsonTree| queue_text(t))).insert(
            name,
            queue_text(value),
        ) == own.union_prefer_right(
            done.insert(name, value).map_values(|t: JsonTree| queue_text(t)),
        ),
{
    let f = |t: JsonTree| queue_text(t);
    assert(done.insert(name, value).map_values(f) =~= done.map_values(f).insert(
        name,
        queue_text(value),
    ));
    assert(own.union_prefer_right(done.map_values(f)).insert(name, queue_text(value))
        =~= own.union_prefer_right(done.map_values(f).insert(name, queue_text(value))));
}

/// The extra data of a queued message that answers `reply_to`.
pub fn queue_extra(options: &SendMessageOptions, reply_to: u64) -> (r: TextMap)
    ensures
        r@ == extra_texts(*options, reply_to),
{
    let mut texts = TextMap::new();
    if reply_to != 0 {
        texts.set("reply_to_message_id", u64_text(reply_to).as_str());
    }
    if options.mentions.len() > 0 {
        texts.set("mentioned_user_ids", write_json(&numbers(&options.mentions)).as_str());
    }
    if options.silent {
        texts.set("silent", "true");
    }
    let ghost own = own_texts(reply_to, options.mentions@, options.silent);
    proof {
        let f = |t: JsonTree| queue_text(t);
        let none = Map::<Seq<char>, JsonTree>::empty();
        assert(none.map_values(f) =~= Map::<Seq<char>, Seq<char>>::empty());
        assert(own.union_prefer_right(none.map_values(f)) =~= own);
    }
    if let Some(JsonValue::Object(fields)) = &options.extra {
        let mut i: usize = 0;
        proof {
            assert(fields@.take(0) =~= Seq::<JsonField>::empty());
        }
        while i < fields.len()
            invariant
                i <= fields@.len(),
                texts@ == own.union_prefer_right(
                    json::field_trees(fields@.take(i as int)).map_values(
                        |t: JsonTree| queue_text(t),
                    ),
                ),
            decreases fields@.len() - i,
        {
            let ghost done = json::field_trees(fields@.take(i as int));
            let value = &fields[i].value;
            match value.as_str() {
                Some(s) => texts.set(fields[i].name.as_str(), s),
                None => texts.set(fields[i].name.as_str(), write_json(value).as_str()),
            }
            proof {
                assert(fields@.take(i + 1).drop_last() =~= fields@.take(i as int));
                lemma_add_text(own, done, fields@[i as int].name@, fields@[i as int].value@);
            }
            i = i + 1;
        }
        proof {
            assert(fields@.take(i as int) =~= fields@);
        }
    }
    texts
}

/// The server's id of the message that is answered; 0 where none is, or where the server has not
/// numbered it.
pub fn reply_target(answered: Option<&Message>) -> (r: u64)
    ensures
        r == match answered {
            Some(m) => match m.server_message_id {
                Some(id) => id,
                None => 0,
            },
            None => 0,
        },
{
    match answered {
        Some(m) => match m.server_message_id {
            Some(id) => id,
            None => 0,
        },
        None => 0,
    }
}

/// The message to store for a message that the user sends at `now`.
pub fn outgoing_message(
    channel_id: u64,
    user_id: u64,
    content: &str,
    options: &SendMessageOptions,
    reply_to: u64,
    local_message_id: u64,
    now: i64,
) -> (r: Message)
    ensures
        r@ == outgoing_form(
            channel_id,
            user_id,
            content@,
            local_message_id,
            json::json_text(extra_tree(*options, reply_to)),
            now,
        ),
{
    Message {
        id: None,
        server_message_id: None,
        pts: now,
        channel_id,
        channel_type: 1,
        timestamp: Some(now),
        from_uid: user_id,
        message_type: 1,
        content: content.to_owned(),
        status: 0,
        voice_status: 0,
        created_at: now,
        updated_at: now,
        searchable_word: content.to_owned(),
        local_message_id,
        is_deleted: 0,
        setting: 0,
        order_seq: now,
        extra: write_json(&message_extra(options, reply_to)),
        flame: 0,
        flame_second: 0,
        viewed: 0,
        viewed_at: 0,
        topic_id: String::new(),
        expire_time: None,
        expire_timestamp: None,
        revoked: 0,
        revoked_at: 0,
        revoked_by: None,
    }
}

/// The message to store for a message that the user sends now.
pub fn outgoing_message_now(
    channel_id: u64,
    user_id: u64,
    content: &str,
    options: &SendMessageOptions,
    reply_to: u64,
    local_message_id: u64,
) -> (r: Message)
    ensures
        exists|now: i64|
            r@ == #[trigger] outgoing_form(
                channel_id,
                user_id,
                content@,
                local_message_id,
                json::json_text(extra_tree(*options, reply_to)),
                now,
            ),
{
    let now: i64 = now_millis();
    outgoing_message(channel_id, user_id, content, options, reply_to, local_message_id, now)
}

/// The task to queue for a message that was stored in the row `row_id`.
pub fn send_task(
    row_id: i64,
    channel_id: u64,
    user_id: u64,
    content: &str,
    options: &SendMessageOptions,
    reply_to: u64,
    local_message_id: u64,
) -> (r: SendTask)
    ensures
        r.id == row_id,
        r.channel_id == channel_id,
        r.priority == QueuePriority::Normal,
        r.status == TaskStatus::Pending,
        r.retry_count == 0,
        r.last_error is None,
        r.last_failure_reason is None,
        r.next_retry_at is None,
        r.message_data.id == row_id,
        r.message_data.channel_id == channel_id,
        r.message_data.channel_type == 1,
        r.message_data.from_uid == user_id,
        r.message_data.content@ == content@,
        r.message_data.message_type == 1,
        r.message_data.local_message_id == local_message_id,
        r.message_data.extra@ == extra_texts(*options, reply_to),
{
    SendTask {
        id: row_id,
        channel_id,
        message_data: MessageData {
            id: row_id,
            channel_id,
            channel_type: 1,
            from_uid: user_id,
            content: content.to_owned(),
            message_type: 1,
            local_message_id,
            extra: queue_extra(options, reply_to),
        },
        priority: QueuePriority::Normal,
        status: TaskStatus::Pending,
        retry_count: 0,
        last_error: None,
        last_failure_reason: None,
        next_retry_at: None,
    }
}

/// The event that reports a task as queued.
pub fn enqueued_event(task: &SendTask, timestamp: u64) -> (r: SDKEvent)
    ensures
        r matches SDKEvent::SendStatusUpdate {
            channel_id,
            id,
            state,
            attempts,
            error,
            timestamp: at,
        } && channel_id == task.message_data.channel_id && id == task.id as u64 && state
            == SendStatusState::Enqueued && attempts == 0 && error is None && at == timestamp,
{
    SDKEvent::SendStatusUpdate {
        channel_id: task.message_data.channel_id,
        id: #[verifier::truncate] (task.id as u64),
        state: SendStatusState::Enqueued,
        attempts: 0,
        error: None,
        timestamp,
    }
}

/// Makes a task ready to be sent again under a new transport id, so that the server does not take
/// it for the attempt that failed.
pub fn retry_task(task: SendTask, new_local_message_id: u64) -> (r: SendTask)
    ensures
        r == (SendTask {
            message_data: MessageData {
                local_message_id: new_local_message_id,
                ..task.message_data
            },
            status: TaskStatus::Pending,
            retry_count: 0,
            last_error: None,
            last_failure_reason: None,
            next_retry_at: None,
            ..task
        }),
{
    let mut task = task;
    task.message_data.local_message_id = new_local_message_id;
    task.status = TaskStatus::Pending;
    task.retry_count = 0;
    task.last_error = None;
    task.last_failure_reason = None;
    task.next_retry_at = None;
    task
}

/// What the caller adds under a name wins over what the options say under it.
pub proof fn law_added_fields_win(options: SendMessageOptions, reply_to: u64, name: Seq<char>)
    requires
        added_fields(options.extra).dom().contains(name),
    ensures
        extra_tree(options, reply_to).get(name) == Some(added_fields(options.extra)[name]),
{
}

/// A message sent without options carries an empty object.
pub proof fn law_plain_message_has_no_extra(options: SendMessageOptions)
    requires
        options.mentions@.len() == 0,
        !options.silent,
        options.extra is None,
    ensures
        extra_tree(options, 0) == JsonTree::Object(Map::empty()),
        extra_texts(options, 0) == Map::<Seq<char>, Seq<char>>::empty(),
{
    assert(extra_tree(options, 0)->Object_0 =~= Map::<Seq<char>, JsonTree>::empty());
    assert(extra_texts(options, 0) =~= Map::<Seq<char>, Seq<char>>::empty());
}

/// The stored message and the queued task speak of the same extra names.
pub proof fn law_store_and_queue_agree_on_names(options: SendMessageOptions, reply_to: u64)
    ensures
        extra_tree(options, reply_to)->Object_0.dom() == extra_texts(options, reply_to).dom(),
{
    let a = extra_tree(options, reply_to)->Object_0;
    let b = extra_texts(options, reply_to);
    assert(a.dom() =~= b.dom());
}

proof fn lemma_names_of_extra()
    ensures
        "reply_to_message_id"@ != "mentioned_user_ids"@,
        "reply_to_message_id"@ != "silent"@,
        "mentioned_user_ids"@ != "silent"@,
{
    reveal_strlit("reply_to_message_id");
    reveal_strlit("mentioned_user_ids");
    reveal_strlit("silent");
    assert("reply_to_message_id"@.len() == 19 && "mentioned_user_ids"@.len() == 18 && "silent"@.len() == 6);
}

/// A message says which message it answers, whom it mentions and that it is silent just where it does,
/// unless its own extra fields say otherwise; and it says nothing else of itself.
pub proof fn law_a_message_says_what_it_answers(
    options: SendMessageOptions,
    reply_to: u64,
    name: Seq<char>,
)
    ensures
        ({
            let t = extra_tree(options, reply_to);
            let added = added_fields(options.extra).dom();
            &&& !added.contains("reply_to_message_id"@) ==> (if reply_to != 0 {
                t.u64_at("reply_to_message_id"@) == Some(reply_to)
            } else {
                t.get("reply_to_message_id"@) is None
            })
            &&& !added.contains("mentioned_user_ids"@) ==> (if options.mentions@.len() > 0 {
                &&& t.get("mentioned_user_ids"@) matches Some(JsonTree::Array(ids))
                &&& ids.len() == options.mentions@.len()
                &&& forall|i: int|
                    0 <= i < ids.len() ==> #[trigger] ids[i] == JsonTree::Int(
                        options.mentions@[i] as int,
                    )
            } else {
                t.get("mentioned_user_ids"@) is None
            })
            &&& !added.contains("silent"@) ==> (if options.silent {
                t.bool_at("silent"@) == Some(true)
            } else {
                t.get("silent"@) is None
            })
            &&& t.get(name) is Some && !added.contains(name) ==> name == "reply_to_message_id"@ || name
                == "mentioned_user_ids"@ || name == "silent"@
        }),
{
    lemma_names_of_extra();
}

/// The queue holds the same of a message as texts: the answered message by its number, the mentions as
/// JSON, and `true` for a silent message. A text is queued as it is, and anything else as its JSON.
pub proof fn law_the_queue_holds_texts(options: SendMessageOptions, reply_to: u64, name: Seq<char>)
    ensures
        ({
            let m = extra_texts(options, reply_to);
            let added = added_fields(options.extra);
            &&& !added.dom().contains("reply_to_message_id"@) && reply_to != 0 ==> m.dom().contains(
                "reply_to_message_id"@,
            ) && m["reply_to_message_id"@] == text::decimal(reply_to as nat)
            &&& !added.dom().contains("reply_to_message_id"@) && reply_to == 0 ==> !m.dom().contains(
                "reply_to_message_id"@,
            )
            &&& !added.dom().contains("silent"@) && options.silent ==> m.dom().contains("silent"@)
                && m["silent"@] == "true"@
            &&& !added.dom().contains("silent"@) && !options.silent ==> !m.dom().contains("silent"@)
            &&& !added.dom().contains("mentioned_user_ids"@) && options.mentions@.len() > 0 ==> m.dom(
            ).contains("mentioned_user_ids"@) && m["mentioned_user_ids"@] == json::json_text(
                JsonTree::Array(options.mentions@.map_values(|id: u64| JsonTree::Int(id as int))),
            )
            &&& !added.dom().contains("mentioned_user_ids"@) && options.mentions@.len() == 0 ==> !m.dom(
            ).contains("mentioned_user_ids"@)
            &&& added.dom().contains(name) ==> m.dom().contains(name) && (added[name] matches
                JsonTree::Text(s) ==> m[name] == s) && (!(added[name] is Text) ==> m[name]
                == json::json_text(added[name]))
        }),
{
    lemma_names_of_extra();
    assert(number_trees(options.mentions@) =~= options.mentions@.map_values(
        |id: u64| JsonTree::Int(id as int),
    ));
}

/// A message that is being sent is the user's own text of this moment in the channel: it is still to be
/// sent, the server has not numbered it, it can be searched by its content, and it is not deleted,
/// revoked, seen or burning.
pub proof fn law_an_outgoing_message_is_the_users_own(
    channel_id: u64,
    user_id: u64,
    content: Seq<char>,
    local_message_id: u64,
    extra: Seq<char>,
    now: i64,
)
    ensures
        ({
            let m = outgoing_form(channel_id, user_id, content, local_message_id, extra, now);
            &&& m.channel_id == channel_id && m.from_uid == user_id
            &&& m.content == content && m.searchable_word == content && m.extra == extra
            &&& m.local_message_id == local_message_id
            &&& m.id is None && m.server_message_id is None
            &&& m.channel_type == 1 && m.message_type == 1
            &&& m.status == 0 && m.voice_status == 0 && m.setting == 0
            &&& m.timestamp == Some(now) && m.created_at == now && m.updated_at == now
            &&& m.pts == now && m.order_seq == now
            &&& m.is_deleted == 0 && m.revoked == 0 && m.revoked_at == 0 && m.revoked_by is None
            &&& m.viewed == 0 && m.viewed_at == 0 && m.flame == 0 && m.flame_second == 0
            &&& m.topic_id.len() == 0 && m.expire_time is None && m.expire_timestamp is None
        }),
{
}

/// A text under a name is the one that was put there last.
pub proof fn law_the_last_text_of_a_name_counts(
    entries: Seq<TextEntry>,
    entry: TextEntry,
    other: Seq<char>,
)
    ensures
        text_map(entries.push(entry)).dom().contains(entry.name@),
        text_map(entries.push(entry))[entry.name@] == entry.value@,
        other != entry.name@ ==> (text_map(entries.push(entry)).dom().contains(other) <==> text_map(
            entries,
        ).dom().contains(other)),
        other != entry.name@ && text_map(entries).dom().contains(other) ==> text_map(entries.push(entry))[other]
            == text_map(entries)[other],
        text_map(Seq::empty()) == Map::<Seq<char>, Seq<char>>::empty(),
{
    assert(entries.push(entry).drop_last() =~= entries);
}

} // verus!
