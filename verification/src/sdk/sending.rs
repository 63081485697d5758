//! The way of a message out: it is given an id, stored, queued, and sent from the queue.

use vstd::prelude::*;
use crate::error::{ErrorModel, PrivchatSDKError};
use crate::ids;
use crate::ids::{failure, IdGenerator};
use crate::json;
use crate::sdk::callbacks::MessageInput;
use crate::sdk::outgoing;
use crate::sdk::outgoing::{
    outgoing_message, reply_target, retry_task, send_task, MessageData, QueuePriority,
    SendMessageOptions, SendTask, TaskStatus,
};
use crate::sdk::state;
use crate::sdk::state::PrivchatSDK;
use crate::storage::entities::{Message, MessageModel};
use crate::text;
use crate::text::{i64_text, u64_text};

verus! {

/// How far a message has come on its way out.
#[derive(Debug, Clone, Copy, PartialEq, Eq, Structural)]
pub enum SendStage {
    /// The message that it answers is looked up.
    LookingUp { id: i64 },
    /// It is being stored.
    Saving,
    /// It is stored in a row, and its task is being queued.
    Queueing { row_id: i64 },
    /// Its task is queued, and what empties the queue must run.
    Starting { row_id: i64 },
    /// It is on its way.
    Finished { row_id: i64 },
}

/// What is to be done next for a message.
#[derive(Debug)]
pub enum SendAction {
    /// Look the message with this key up.
    LookUp { id: i64 },
    /// Store a message that goes out.
    Save { message: Message },
    /// Keep the task, put it into the queue and report it as queued; the channel list has changed.
    Enqueue { task: SendTask },
    /// See to it that what empties the queue runs.
    EnsureConsumer,
    /// Nothing is left: the message goes by the id that was drawn for it, and is stored in this row.
    Done { id: u64, row_id: i64 },
}

/// How something that was to be done went.
#[derive(Debug)]
pub enum SendEvent {
    /// The message that was looked up, if it was found.
    Answered(Option<Message>),
    /// The row of the stored message.
    Saved(Result<i64, PrivchatSDKError>),
    /// Whether the task is queued.
    Queued(Result<(), PrivchatSDKError>),
    /// Whether what empties the queue runs.
    ConsumerRuns(Result<(), PrivchatSDKError>),
}

/// What a [`SendEvent`] says.
pub enum SendEventModel {
    /// The server's id of the message that was looked up, or 0.
    Answered(u64),
    Saved(Result<i64, ErrorModel>),
    /// Why the task is not queued, if it is not.
    Queued(Option<ErrorModel>),
    /// Why what empties the queue does not run, if it does not.
    ConsumerRuns(Option<ErrorModel>),
}

/// The server's id of a message that was looked up; 0 where there is none.
pub open spec fn target_of(answered: Option<Message>) -> u64 {
    match answered {
        Some(m) => match m.server_message_id {
            Some(id) => id,
            None => 0,
        },
        None => 0,
    }
}

/// The error of an outcome that is one.
pub open spec fn fault_in(r: Result<(), PrivchatSDKError>) -> Option<ErrorModel> {
    match r {
        Ok(_) => None,
        Err(e) => Some(e@),
    }
}

impl View for SendEvent {
    type V = SendEventModel;

    open spec fn view(&self) -> SendEventModel {
        match *self {
            SendEvent::Answered(m) => SendEventModel::Answered(target_of(m)),
            SendEvent::Saved(r) => SendEventModel::Saved(
                match r {
                    Ok(row_id) => Ok(row_id),
                    Err(e) => Err(e@),
                },
            ),
            SendEvent::Queued(r) => SendEventModel::Queued(fault_in(r)),
            SendEvent::ConsumerRuns(r) => SendEventModel::ConsumerRuns(fault_in(r)),
        }
    }
}

/// Whether an event is the outcome of what a stage asks for.
pub open spec fn awaits(stage: SendStage, event: SendEventModel) -> bool {
    match stage {
        SendStage::LookingUp { id } => event is Answered,
        SendStage::Saving => event is Saved,
        SendStage::Queueing { row_id } => event is Queued,
        SendStage::Starting { row_id } => event is ConsumerRuns,
        SendStage::Finished { row_id } => false,
    }
}

/// The stage after an event that the stage awaits, or why the message cannot be sent.
pub open spec fn stage_after(stage: SendStage, event: SendEventModel) -> Result<
    SendStage,
    ErrorModel,
> {
    match (stage, event) {
        (SendStage::LookingUp { id }, _) => Ok(SendStage::Saving),
        (SendStage::Saving, SendEventModel::Saved(r)) => match r {
            Ok(row_id) => Ok(SendStage::Queueing { row_id }),
            Err(e) => Err(e),
        },
        (SendStage::Queueing { row_id }, SendEventModel::Queued(r)) => match r {
            None => Ok(SendStage::Starting { row_id }),
            Some(e) => Err(e),
        },
        (SendStage::Starting { row_id }, SendEventModel::ConsumerRuns(r)) => match r {
            None => Ok(SendStage::Finished { row_id }),
            Some(e) => Err(e),
        },
        _ => Ok(stage),
    }
}

/// A message on its way out.
#[derive(Debug)]
pub struct Sending {
    pub stage: SendStage,
    pub channel_id: u64,
    pub user_id: u64,
    pub content: String,
    pub options: SendMessageOptions,
    pub local_message_id: u64,
    /// The server's id of the message that it answers, or 0.
    pub reply_to: u64,
}

/// Whether a task sends a message that was stored in a row.
pub open spec fn is_task_of(task: SendTask, sending: Sending, row_id: i64) -> bool {
    &&& task.id == row_id
    &&& task.channel_id == sending.channel_id
    &&& task.priority == QueuePriority::Normal
    &&& task.status == TaskStatus::Pending
    &&& task.retry_count == 0
    &&& task.last_error is None
    &&& task.last_failure_reason is None
    &&& task.next_retry_at is None
    &&& task.message_data.id == row_id
    &&& task.message_data.channel_id == sending.channel_id
    &&& task.message_data.channel_type == 1
    &&& task.message_data.from_uid == sending.user_id
    &&& task.message_data.content@ == sending.content@
    &&& task.message_data.message_type == 1
    &&& task.message_data.local_message_id == sending.local_message_id
    &&& task.message_data.extra@ == outgoing::extra_texts(sending.options, sending.reply_to)
}

/// The form in which a message is stored at the time `now`.
pub open spec fn stored_form(sending: Sending, now: i64) -> MessageModel {
    outgoing::outgoing_form(
        sending.channel_id,
        sending.user_id,
        sending.content@,
        sending.local_message_id,
        json::json_text(outgoing::extra_tree(sending.options, sending.reply_to)),
        now,
    )
}

impl Sending {
    /// What is to be done in the present stage, at the time `now`.
    pub fn action(&self, now: i64) -> (r: SendAction)
        ensures
            match self.stage {
                SendStage::LookingUp { id } => r matches SendAction::LookUp { id: asked } && asked
                    == id,
                SendStage::Saving => r matches SendAction::Save { message } && message@
                    == stored_form(*self, now),
                SendStage::Queueing { row_id } => r matches SendAction::Enqueue { task }
                    && is_task_of(task, *self, row_id),
                SendStage::Starting { row_id } => r is EnsureConsumer,
                SendStage::Finished { row_id } => r == (SendAction::Done {
                    id: self.local_message_id,
                    row_id,
                }),
            },
    {
        match self.stage {
            SendStage::LookingUp { id } => SendAction::LookUp { id },
            SendStage::Saving => SendAction::Save {
                message: outgoing_message(
                    self.channel_id,
                    self.user_id,
                    self.content.as_str(),
                    &self.options,
                    self.reply_to,
                    self.local_message_id,
                    now,
                ),
            },
            SendStage::Queueing { row_id } => SendAction::Enqueue {
                task: send_task(
                    row_id,
                    self.channel_id,
                    self.user_id,
                    self.content.as_str(),
                    &self.options,
                    self.reply_to,
                    self.local_message_id,
                ),
            },
            SendStage::Starting { row_id } => SendAction::EnsureConsumer,
            SendStage::Finished { row_id } => SendAction::Done { id: self.local_message_id, row_id },
        }
    }

    /// Goes on after the event that the stage awaits; an error ends the way of the message.
    pub fn advance(&mut self, event: SendEvent) -> (r: Result<(), PrivchatSDKError>)
        requires
            awaits(old(self).stage, event@),
        ensures
            match stage_after(old(self).stage, event@) {
                Ok(stage) => r is Ok && *final(self) == (Sending {
                    stage,
                    reply_to: match event {
                        SendEvent::Answered(m) => target_of(m),
                        _ => old(self).reply_to,
                    },
                    ..*old(self)
                }),
                Err(e) => r is Err && r->Err_0@ == e && *final(self) == *old(self),
            },
    {
        match event {
            SendEvent::Answered(m) => {
                self.reply_to = reply_target(m.as_ref());
                self.stage = SendStage::Saving;
                Ok(())
            },
            SendEvent::Saved(saved) => match saved {
                Ok(row_id) => {
                    self.stage = SendStage::Queueing { row_id };
                    Ok(())
                },
                Err(e) => Err(e),
            },
            SendEvent::Queued(queued) => match (queued, self.stage) {
                (Ok(_), SendStage::Queueing { row_id }) => {
                    self.stage = SendStage::Starting { row_id };
                    Ok(())
                },
                (Ok(_), _) => Ok(()),
                (Err(e), _) => Err(e),
            },
            SendEvent::ConsumerRuns(runs) => match (runs, self.stage) {
                (Ok(_), SendStage::Starting { row_id }) => {
                    self.stage = SendStage::Finished { row_id };
                    Ok(())
                },
                (Ok(_), _) => Ok(()),
                (Err(e), _) => Err(e),
            },
        }
    }
}

/// The stage in which a message begins: one that answers another begins with looking that up.
pub open spec fn first_stage(options: SendMessageOptions) -> SendStage {
    match options.in_reply_to_message_id {
        Some(id) => SendStage::LookingUp { id: id as i64 },
        None => SendStage::Saving,
    }
}

/// Where a message begins, given the id that it gets; or why it cannot be sent.
pub open spec fn sending_begins(
    sdk: PrivchatSDK,
    channel_id: u64,
    content: Seq<char>,
    options: SendMessageOptions,
    next_id: Result<u64, Seq<char>>,
    r: Result<Sending, PrivchatSDKError>,
) -> bool {
    match (sdk.session(), next_id) {
        (Err(e), _) => r is Err && r->Err_0@ == e,
        (Ok(_), Err(why)) => r is Err && r->Err_0@ == ids::failed_for(
            "生成 local_message_id 失败: "@,
            why,
        ),
        (Ok(me), Ok(id)) => {
            &&& r matches Ok(sending)
            &&& sending.stage == first_stage(options)
            &&& sending.channel_id == channel_id
            &&& sending.user_id == me
            &&& sending.content@ == content
            &&& sending.options == options
            &&& sending.local_message_id == id
            &&& sending.reply_to == 0
        },
    }
}

/// What an attempt to draw an id says.
pub open spec fn drawn(next_id: Result<u64, String>) -> Result<u64, Seq<char>> {
    match next_id {
        Ok(id) => Ok(id),
        Err(why) => Err(why@),
    }
}

/// The queue of the user who is logged in at the store, or why there is none.
pub fn get_queue_manager(current_user: Option<u64>) -> (r: Result<u64, PrivchatSDKError>)
    ensures
        match current_user {
            Some(uid) => r == Ok::<u64, PrivchatSDKError>(uid),
            None => r is Err && r->Err_0@ == ErrorModel::Other("未登录，无法获取发送队列"@),
        },
{
    match current_user {
        Some(uid) => Ok(uid),
        None => Err(PrivchatSDKError::Other("未登录，无法获取发送队列".to_owned())),
    }
}

/// What is to be done with what empties the queue.
#[derive(Debug, Clone, Copy, PartialEq, Eq, Structural)]
pub enum QueueSwitch {
    Start,
    Stop,
    Leave,
}

impl PrivchatSDK {
    /// Begins to send a message, given the id that was drawn for it.
    pub fn begin_sending(
        &self,
        channel_id: u64,
        content: &str,
        options: SendMessageOptions,
        next_id: Result<u64, String>,
    ) -> (r: Result<Sending, PrivchatSDKError>)
        ensures
            sending_begins(*self, channel_id, content@, options, drawn(next_id), r),
    {
        let user_id: u64 = match self.require_session() {
            Ok(me) => me,
            Err(e) => return Err(e),
        };
        let local_message_id: u64 = match next_id {
            Ok(id) => id,
            Err(why) => return Err(failure("生成 local_message_id 失败: ", why.as_str())),
        };
        let stage = match options.in_reply_to_message_id {
            Some(id) => SendStage::LookingUp { id: #[verifier::truncate] (id as i64) },
            None => SendStage::Saving,
        };
        Ok(
            Sending {
                stage,
                channel_id,
                user_id,
                content: content.to_owned(),
                options,
                local_message_id,
                reply_to: 0,
            },
        )
    }

    /// Begins to send a message. Without a session no id is drawn.
    pub fn send_message_with_options(
        &self,
        ids: &IdGenerator,
        channel_id: u64,
        content: &str,
        options: SendMessageOptions,
    ) -> (r: Result<Sending, PrivchatSDKError>)
        ensures
            exists|next_id: Result<u64, Seq<char>>|
                #[trigger] sending_begins(*self, channel_id, content@, options, next_id, r),
            r matches Ok(sending) ==> sending.local_message_id <= i64::MAX,
    {
        match self.require_session() {
            Ok(_) => {},
            Err(e) => {
                let ghost next_id: Result<u64, Seq<char>> = Ok(0);
                let r: Result<Sending, PrivchatSDKError> = Err(e);
                assert(sending_begins(*self, channel_id, content@, options, next_id, r));
                return r;
            },
        }
        let next_id = ids.next_id();
        let ghost said = drawn(next_id);
        let r = self.begin_sending(channel_id, content, options, next_id);
        assert(sending_begins(*self, channel_id, content@, options, said, r));
        r
    }

    /// Begins to send a message that answers none, mentions nobody and adds nothing.
    pub fn send_message(&self, ids: &IdGenerator, channel_id: u64, content: &str) -> (r: Result<
        Sending,
        PrivchatSDKError,
    >)
        ensures
            match r {
                Ok(sending) => {
                    &&& self.session() == Ok::<_, ErrorModel>(sending.user_id)
                    &&& sending.stage == SendStage::Saving
                    &&& sending.channel_id == channel_id
                    &&& sending.content@ == content@
                    &&& sending.options.mentions@.len() == 0
                    &&& !sending.options.silent
                    &&& sending.options.extra is None
                    &&& sending.local_message_id <= i64::MAX
                    &&& sending.reply_to == 0
                },
                Err(e) => match self.session() {
                    Err(fault) => e@ == fault,
                    Ok(_) => ids::says(e@, "生成 local_message_id 失败: "@),
                },
            },
    {
        let options = SendMessageOptions::default();
        let r = self.send_message_with_options(ids, channel_id, content, options);
        proof {
            let next_id = choose|next_id: Result<u64, Seq<char>>|
                #[trigger] sending_begins(*self, channel_id, content@, options, next_id, r);
            let head = "生成 local_message_id 失败: "@;
            if next_id is Err {
                assert((head + next_id->Err_0).take(head.len() as int) =~= head);
            }
        }
        r
    }

    /// Draws an id for a message that an application describes.
    pub fn send_message_with_input(&self, input: &MessageInput, next_id: Result<u64, String>) -> (r:
        Result<u64, PrivchatSDKError>)
        ensures
            match (self.link(), drawn(next_id)) {
                (Err(e), _) => r is Err && r->Err_0@ == e,
                (Ok(_), Err(why)) => r is Err && r->Err_0@ == ids::failed_for(
                    "生成 message_id 失败: "@,
                    why,
                ),
                (Ok(_), Ok(id)) => r == Ok::<u64, PrivchatSDKError>(id),
            },
    {
        match self.require_link() {
            Ok(_) => {},
            Err(e) => return Err(e),
        }
        match next_id {
            Ok(id) => Ok(id),
            Err(why) => Err(failure("生成 message_id 失败: ", why.as_str())),
        }
    }

    /// What a text that was put into the queue goes by: the name that the caller gave it, or else the
    /// key of its row, under which it can be sent once more.
    pub fn enqueue_text(message_id: u64, txn_id: Option<String>) -> (r: String)
        ensures
            r@ == match txn_id {
                Some(id) => id@,
                None => text::decimal(message_id as nat),
            },
    {
        match txn_id {
            Some(id) => id,
            None => u64_text(message_id),
        }
    }

    /// The task that sends a message once more, under a new id: the task that was kept for it, as it
    /// was before the first attempt. `current_user` is who is logged in at the store.
    pub fn retry_message(
        &self,
        message_id: i64,
        current_user: Option<u64>,
        kept: Option<SendTask>,
        next_id: Result<u64, String>,
    ) -> (r: Result<SendTask, PrivchatSDKError>)
        ensures
            match state::lifecycle_fault(*self) {
                Some(e) => r is Err && r->Err_0@ == e,
                None => match (current_user, kept, drawn(next_id)) {
                    (None, _, _) => r is Err && r->Err_0@ == ErrorModel::Other(
                        "未登录，无法获取发送队列"@,
                    ),
                    (Some(_), None, _) => r is Err && r->Err_0@ == ErrorModel::InvalidInput(
                        "未找到 message.id="@ + text::signed_decimal(message_id as int)
                            + " 对应的消息"@,
                    ),
                    (Some(_), Some(_), Err(why)) => r is Err && r->Err_0@ == ids::failed_for(
                        "生成 local_message_id 失败: "@,
                        why,
                    ),
                    (Some(_), Some(task), Ok(id)) => r == Ok::<SendTask, PrivchatSDKError>(
                        SendTask {
                            message_data: MessageData { local_message_id: id, ..task.message_data },
                            status: TaskStatus::Pending,
                            retry_count: 0,
                            last_error: None,
                            last_failure_reason: None,
                            next_retry_at: None,
                            ..task
                        },
                    ),
                },
            },
    {
        match self.check_initialized() {
            Ok(_) => {},
            Err(e) => return Err(e),
        }
        match get_queue_manager(current_user) {
            Ok(_) => {},
            Err(e) => return Err(e),
        }
        match kept {
            Some(task) => match next_id {
                Ok(id) => Ok(retry_task(task, id)),
                Err(why) => Err(failure("生成 local_message_id 失败: ", why.as_str())),
            },
            None => {
                let mut s = "未找到 message.id=".to_owned();
                s.append(i64_text(message_id).as_str());
                s.append(" 对应的消息");
                Err(PrivchatSDKError::InvalidInput(s))
            },
        }
    }

    /// What is to be done with what empties the queue; `running` says whether it runs, where there is
    /// such a thing at all.
    pub fn send_queue_set_enabled(&self, running: Option<bool>, enabled: bool) -> (r: Result<
        QueueSwitch,
        PrivchatSDKError,
    >)
        ensures
            match state::lifecycle_fault(*self) {
                Some(e) => r is Err && r->Err_0@ == e,
                None => r == Ok::<QueueSwitch, PrivchatSDKError>(
                    if enabled && running != Some(true) {
                        QueueSwitch::Start
                    } else if !enabled && running == Some(true) {
                        QueueSwitch::Stop
                    } else {
                        QueueSwitch::Leave
                    },
                ),
            },
    {
        match self.check_initialized() {
            Ok(_) => {},
            Err(e) => return Err(e),
        }
        let runs = match running {
            Some(runs) => runs,
            None => false,
        };
        if enabled && !runs {
            Ok(QueueSwitch::Start)
        } else if !enabled && runs {
            Ok(QueueSwitch::Stop)
        } else {
            Ok(QueueSwitch::Leave)
        }
    }
}

/// The stage after all events of a sequence, each of which the stage before it awaits; nothing where
/// one is not awaited or ends the way of the message.
pub open spec fn stage_after_all(first: SendStage, events: Seq<SendEventModel>) -> Option<SendStage>
    decreases events.len(),
{
    if events.len() == 0 {
        Some(first)
    } else {
        match stage_after_all(first, events.drop_last()) {
            Some(stage) => if awaits(stage, events.last()) {
                match stage_after(stage, events.last()) {
                    Ok(next) => Some(next),
                    Err(_) => None,
                }
            } else {
                None
            },
            None => None,
        }
    }
}

/// The events on the way of a message that is stored first, up to a stage.
pub open spec fn way_to(stage: SendStage) -> Seq<SendEventModel> {
    match stage {
        SendStage::Queueing { row_id } => seq![SendEventModel::Saved(Ok(row_id))],
        SendStage::Starting { row_id } => seq![
            SendEventModel::Saved(Ok(row_id)),
            SendEventModel::Queued(None),
        ],
        SendStage::Finished { row_id } => seq![
            SendEventModel::Saved(Ok(row_id)),
            SendEventModel::Queued(None),
            SendEventModel::ConsumerRuns(None),
        ],
        _ => Seq::empty(),
    }
}

/// The id under which a message is given back to who sends it is the one with which it is stored and
/// with which its task is queued, whatever happens on its way.
pub proof fn law_one_id_is_stored_queued_and_given_back(
    saving: Sending,
    queueing: Sending,
    finished: Sending,
    task: SendTask,
    row_id: i64,
    now: i64,
)
    requires
        queueing == (Sending { stage: SendStage::Queueing { row_id }, ..saving }),
        finished == (Sending { stage: SendStage::Finished { row_id }, ..queueing }),
        is_task_of(task, queueing, row_id),
    ensures
        stored_form(saving, now).local_message_id == finished.local_message_id,
        stored_form(saving, now).from_uid == saving.user_id,
        stored_form(saving, now).channel_id == saving.channel_id,
        stored_form(saving, now).content == saving.content@,
        stored_form(saving, now).status == 0,
        task.message_data.local_message_id == finished.local_message_id,
        task.message_data.content@ == saving.content@,
        task.id == row_id,
{
}

/// A message that answers none is on its way exactly when it was stored, then queued, and then what
/// empties the queue runs.
pub proof fn law_a_message_is_stored_before_it_is_queued(events: Seq<SendEventModel>, row_id: i64)
    ensures
        stage_after_all(SendStage::Saving, events) == Some(SendStage::Finished { row_id })
            <==> events == way_to(SendStage::Finished { row_id }),
{
    if stage_after_all(SendStage::Saving, events) == Some(SendStage::Finished { row_id }) {
        lemma_one_way(events);
    }
    let way = way_to(SendStage::Finished { row_id });
    assert(way.drop_last() =~= way_to(SendStage::Starting { row_id }));
    assert(way.drop_last().drop_last() =~= way_to(SendStage::Queueing { row_id }));
    assert(way.drop_last().drop_last().drop_last() =~= Seq::<SendEventModel>::empty());
    reveal_with_fuel(stage_after_all, 4);
}

proof fn lemma_one_way(events: Seq<SendEventModel>)
    ensures
        stage_after_all(SendStage::Saving, events) matches Some(stage) ==> events == way_to(stage)
            && !(stage is LookingUp),
    decreases events.len(),
{
    if events.len() > 0 {
        let front = events.drop_last();
        lemma_one_way(front);
        assert(events =~= front.push(events.last()));
        if let Some(stage) = stage_after_all(SendStage::Saving, events) {
            assert(events =~= way_to(stage));
        }
    } else {
        assert(events =~= way_to(SendStage::Saving));
    }
}

/// A message answers the one that the server knows under the number of the answered message; where that
/// is not known it answers none.
pub proof fn law_an_answer_names_the_servers_number(m: Message, id: u64)
    ensures
        m.server_message_id == Some(id) ==> target_of(Some(m)) == id,
        m.server_message_id is None ==> target_of(Some(m)) == 0,
        target_of(None) == 0,
{
}

/// Only a message that answers another looks it up first; and whatever it finds, it is saved next. A
/// message whose saving, queueing or start failed goes no further, with that fault.
pub proof fn law_a_failed_step_ends_the_sending(
    options: SendMessageOptions,
    row_id: i64,
    id: i64,
    e: ErrorModel,
    event: SendEventModel,
)
    ensures
        first_stage(options) is LookingUp <==> options.in_reply_to_message_id is Some,
        first_stage(options) is Saving <==> options.in_reply_to_message_id is None,
        options.in_reply_to_message_id matches Some(n) ==> first_stage(options)
            == (SendStage::LookingUp { id: n as i64 }),
        stage_after(SendStage::LookingUp { id }, event) == Ok::<_, ErrorModel>(SendStage::Saving),
        stage_after(SendStage::Saving, SendEventModel::Saved(Ok(row_id))) == Ok::<_, ErrorModel>(
            SendStage::Queueing { row_id },
        ),
        stage_after(SendStage::Queueing { row_id }, SendEventModel::Queued(None)) == Ok::<_, ErrorModel>(
            SendStage::Starting { row_id },
        ),
        stage_after(SendStage::Starting { row_id }, SendEventModel::ConsumerRuns(None)) == Ok::<
            _,
            ErrorModel,
        >(SendStage::Finished { row_id }),
        stage_after(SendStage::Saving, SendEventModel::Saved(Err(e))) == Err::<SendStage, _>(e),
        stage_after(SendStage::Queueing { row_id }, SendEventModel::Queued(Some(e))) == Err::<
            SendStage,
            _,
        >(e),
        stage_after(SendStage::Starting { row_id }, SendEventModel::ConsumerRuns(Some(e))) == Err::<
            SendStage,
            _,
        >(e),
        !awaits(SendStage::Finished { row_id }, event),
{
}

/// The task in the queue is the message as it was stored: its row, channel, sender, content and local
/// number are the same, and it waits there untried.
pub proof fn law_the_queue_holds_the_stored_message(
    task: SendTask,
    sending: Sending,
    row_id: i64,
    now: i64,
)
    requires
        is_task_of(task, sending, row_id),
    ensures
        ({
            let m = stored_form(sending, now);
            &&& task.id == row_id && task.message_data.id == row_id
            &&& task.channel_id == m.channel_id && task.message_data.channel_id == m.channel_id
            &&& task.message_data.channel_type == m.channel_type
            &&& task.message_data.from_uid == m.from_uid
            &&& task.message_data.content@ == m.content
            &&& task.message_data.message_type == m.message_type
            &&& task.message_data.local_message_id == m.local_message_id
            &&& task.message_data.extra@ == outgoing::extra_texts(sending.options, sending.reply_to)
            &&& m.extra == json::json_text(outgoing::extra_tree(sending.options, sending.reply_to))
            &&& m.channel_id == sending.channel_id && m.from_uid == sending.user_id
            &&& m.content == sending.content@ && m.local_message_id == sending.local_message_id
            &&& task.priority == QueuePriority::Normal && task.status == TaskStatus::Pending
            &&& task.retry_count == 0 && task.last_error is None && task.next_retry_at is None
        }),
{
}

/// Sending begins for the user who is logged in, with the number that was drawn, and answers nothing
/// yet; without a user or a number it does not begin.
pub proof fn law_sending_needs_a_user_and_a_number(
    sdk: PrivchatSDK,
    channel_id: u64,
    content: Seq<char>,
    options: SendMessageOptions,
    next_id: Result<u64, Seq<char>>,
    r: Result<Sending, PrivchatSDKError>,
)
    requires
        sending_begins(sdk, channel_id, content, options, next_id, r),
    ensures
        r is Ok <==> sdk.session() is Ok && next_id is Ok,
        r matches Ok(sending) ==> {
            &&& sending.user_id == sdk.session()->Ok_0
            &&& sending.local_message_id == next_id->Ok_0
            &&& sending.channel_id == channel_id && sending.content@ == content
            &&& sending.options == options && sending.reply_to == 0
        },
        sdk.session() matches Err(e) ==> r->Err_0@ == e,
{
}

} // verus!
