//! The way of a file out: its message is stored, the file is prepared, and its task is queued.

use vstd::prelude::*;
use crate::error::{ErrorModel, PrivchatSDKError};
use crate::events::{AttachmentInfo, AttachmentInfoModel};
use crate::ids;
use crate::ids::failure;
use crate::json;
use crate::sdk::attachments::{
    file_send_task, pending_attachment, placeholder_token, AttachmentPlan, FileSendTask, SendMode,
};
use crate::sdk::requests::{Request, RequestModel};
use crate::sdk::sending;
use crate::text;

verus! {

/// How far a file has come on its way out. All but the first stage know the key of its message.
#[derive(Debug, Clone, Copy, PartialEq, Eq, Structural)]
pub enum FileStage {
    /// Its message is being stored.
    Saving,
    /// The placeholder of its thumbnail is being uploaded.
    Placing { message_id: i64 },
    /// The file is being prepared.
    Preparing { message_id: i64 },
    /// The file could not be prepared, and its message is being deleted.
    Deleting { message_id: i64 },
    /// Its task is being queued.
    Queueing { message_id: i64 },
    /// Its task is queued, and what empties the queue must run.
    Starting { message_id: i64 },
    /// It is on its way.
    Finished { message_id: i64 },
}

/// What is to be done next for a file.
#[derive(Debug)]
pub enum FileAction {
    /// Store a message with this content in a direct channel.
    Save { channel_id: u64, channel_type: i32, from_uid: u64, content: String, message_type: i32 },
    /// Ask for leave to upload the placeholder of a thumbnail, and upload it.
    UploadPlaceholder { token: Request },
    /// Prepare the file for sending, for a message and a time.
    Prepare { message_id: i64, timestamp_ms: i64, mode: SendMode },
    /// Delete the message.
    Delete { message_id: i64 },
    /// Put the task into the queue.
    Enqueue { task: FileSendTask },
    /// See to it that what empties the queue runs.
    EnsureConsumer,
    /// Nothing is left.
    Done { local_message_id: u64, info: AttachmentInfo },
}

/// How something that was to be done went.
#[derive(Debug)]
pub enum FileEvent {
    /// The key of the stored message, and when it was stored.
    Saved(Result<i64, PrivchatSDKError>, i64),
    /// The file id of the placeholder.
    Placed(Result<String, PrivchatSDKError>),
    /// Whether the file is prepared.
    Prepared(Result<(), PrivchatSDKError>),
    /// The message was deleted, or could not be.
    Deleted,
    /// Whether the task is queued.
    Queued(Result<(), PrivchatSDKError>),
    /// Whether what empties the queue runs.
    ConsumerRuns(Result<(), PrivchatSDKError>),
}

/// What a [`FileEvent`] says.
pub enum FileEventModel {
    Saved(Result<i64, ErrorModel>, i64),
    Placed(Result<Seq<char>, ErrorModel>),
    /// Why the file is not prepared, if it is not.
    Prepared(Option<ErrorModel>),
    Deleted,
    /// Why the task is not queued, if it is not.
    Queued(Option<ErrorModel>),
    /// Why what empties the queue does not run, if it does not.
    ConsumerRuns(Option<ErrorModel>),
}

impl View for FileEvent {
    type V = FileEventModel;

    open spec fn view(&self) -> FileEventModel {
        match *self {
            FileEvent::Saved(r, at) => FileEventModel::Saved(
                match r {
                    Ok(id) => Ok(id),
                    Err(e) => Err(e@),
                },
                at,
            ),
            FileEvent::Placed(r) => FileEventModel::Placed(
                match r {
                    Ok(id) => Ok(id@),
                    Err(e) => Err(e@),
                },
            ),
            FileEvent::Prepared(r) => FileEventModel::Prepared(sending::fault_in(r)),
            FileEvent::Deleted => FileEventModel::Deleted,
            FileEvent::Queued(r) => FileEventModel::Queued(sending::fault_in(r)),
            FileEvent::ConsumerRuns(r) => FileEventModel::ConsumerRuns(sending::fault_in(r)),
        }
    }
}

/// A file on its way out.
#[derive(Debug)]
pub struct FileSending {
    pub stage: FileStage,
    pub plan: AttachmentPlan,
    pub channel_id: u64,
    pub local_message_id: u64,
    pub file_size: u64,
    /// When the message was stored.
    pub timestamp_ms: i64,
    /// The uploaded placeholder, where one stands for the thumbnail.
    pub thumbnail_file_id: Option<String>,
    /// Why the file could not be prepared.
    pub error: Option<PrivchatSDKError>,
}

/// What changes on the way of a file.
pub struct FileProgress {
    pub stage: FileStage,
    pub timestamp_ms: i64,
    pub thumbnail_file_id: Option<Seq<char>>,
    pub error: Option<ErrorModel>,
}

impl FileSending {
    /// How far the file has come.
    pub open spec fn progress(self) -> FileProgress {
        FileProgress {
            stage: self.stage,
            timestamp_ms: self.timestamp_ms,
            thumbnail_file_id: json::opt_view(self.thumbnail_file_id),
            error: match self.error {
                Some(e) => Some(e@),
                None => None,
            },
        }
    }

    /// Whether the error of a preparation that failed is known while its message is deleted.
    pub open spec fn wf(self) -> bool {
        self.stage is Deleting ==> self.error is Some
    }
}

/// Whether an event is the outcome of what a stage asks for.
pub open spec fn file_awaits(stage: FileStage, event: FileEventModel) -> bool {
    match stage {
        FileStage::Saving => event is Saved,
        FileStage::Placing { message_id } => event is Placed,
        FileStage::Preparing { message_id } => event is Prepared,
        FileStage::Deleting { message_id } => event is Deleted,
        FileStage::Queueing { message_id } => event is Queued,
        FileStage::Starting { message_id } => event is ConsumerRuns,
        FileStage::Finished { message_id } => false,
    }
}

/// How far a file has come after an event that its stage awaits, or why it cannot be sent. Where the
/// file cannot be prepared, the way ends only after its message was deleted.
pub open spec fn progress_after(
    p: FileProgress,
    needs_placeholder: bool,
    event: FileEventModel,
) -> Result<FileProgress, ErrorModel> {
    match (p.stage, event) {
        (FileStage::Saving, FileEventModel::Saved(r, at)) => match r {
            Ok(message_id) => Ok(
                FileProgress {
                    stage: if needs_placeholder {
                        FileStage::Placing { message_id }
                    } else {
                        FileStage::Preparing { message_id }
                    },
                    timestamp_ms: at,
                    ..p
                },
            ),
            Err(e) => Err(e),
        },
        (FileStage::Placing { message_id }, FileEventModel::Placed(r)) => match r {
            Ok(file_id) => Ok(
                FileProgress {
                    stage: FileStage::Preparing { message_id },
                    thumbnail_file_id: Some(file_id),
                    ..p
                },
            ),
            Err(e) => Err(e),
        },
        (FileStage::Preparing { message_id }, FileEventModel::Prepared(fault)) => match fault {
            None => Ok(FileProgress { stage: FileStage::Queueing { message_id }, ..p }),
            Some(e) => Ok(
                FileProgress { stage: FileStage::Deleting { message_id }, error: Some(e), ..p },
            ),
        },
        (FileStage::Deleting { message_id }, FileEventModel::Deleted) => match p.error {
            Some(e) => Err(e),
            None => Ok(p),
        },
        (FileStage::Queueing { message_id }, FileEventModel::Queued(fault)) => match fault {
            None => Ok(FileProgress { stage: FileStage::Starting { message_id }, ..p }),
            Some(e) => Err(e),
        },
        (FileStage::Starting { message_id }, FileEventModel::ConsumerRuns(fault)) => match fault {
            None => Ok(FileProgress { stage: FileStage::Finished { message_id }, ..p }),
            Some(e) => Err(e),
        },
        _ => Ok(p),
    }
}

impl FileSending {
    /// Begins to send a file by a plan, given the id that was drawn for it.
    pub fn begin(
        plan: AttachmentPlan,
        channel_id: u64,
        file_size: u64,
        next_id: Result<u64, String>,
    ) -> (r: Result<Self, PrivchatSDKError>)
        ensures
            match sending::drawn(next_id) {
                Err(why) => r is Err && r->Err_0@ == ids::failed_for(
                    "生成 local_message_id 失败: "@,
                    why,
                ),
                Ok(id) => r == Ok::<FileSending, PrivchatSDKError>(
                    FileSending {
                        stage: FileStage::Saving,
                        plan,
                        channel_id,
                        local_message_id: id,
                        file_size,
                        timestamp_ms: 0,
                        thumbnail_file_id: None,
                        error: None,
                    },
                ),
            },
    {
        match next_id {
            Ok(local_message_id) => Ok(
                FileSending {
                    stage: FileStage::Saving,
                    plan,
                    channel_id,
                    local_message_id,
                    file_size,
                    timestamp_ms: 0,
                    thumbnail_file_id: None,
                    error: None,
                },
            ),
            Err(why) => Err(failure("生成 local_message_id 失败: ", why.as_str())),
        }
    }

    /// What is to be done in the present stage; the placeholder of a thumbnail has so many bytes.
    pub fn action(&self, placeholder_size: i64) -> (r: FileAction)
        ensures
            match self.stage {
                FileStage::Saving => r matches FileAction::Save {
                    channel_id,
                    channel_type,
                    from_uid,
                    content,
                    message_type,
                } && channel_id == self.channel_id && channel_type == 1 && from_uid
                    == self.plan.user_id && content@ == "{}"@ && message_type
                    == self.plan.message_type_number,
                FileStage::Placing { message_id } => r matches FileAction::UploadPlaceholder {
                    token,
                } && token@ == (RequestModel::UploadToken {
                    user_id: self.plan.user_id,
                    filename: "placeholder.png"@,
                    file_size: placeholder_size,
                    mime_type: "image/png"@,
                    file_type: "image"@,
                    business_type: "message"@,
                }),
                FileStage::Preparing { message_id } => r == (FileAction::Prepare {
                    message_id,
                    timestamp_ms: self.timestamp_ms,
                    mode: self.plan.mode,
                }),
                FileStage::Deleting { message_id } => r == (FileAction::Delete { message_id }),
                FileStage::Queueing { message_id } => {
                    &&& r matches FileAction::Enqueue { task }
                    &&& task.message_id == message_id
                    &&& task.uid@ == text::decimal(self.plan.user_id as nat)
                    &&& task.channel_id == self.channel_id
                    &&& task.channel_type == 1
                    &&& task.from_uid == self.plan.user_id
                    &&& task.local_message_id == self.local_message_id
                    &&& task.message_type@ == self.plan.message_type@
                    &&& task.timestamp_ms == self.timestamp_ms
                    &&& json::opt_view(task.thumbnail_file_id) == json::opt_view(
                        self.thumbnail_file_id,
                    )
                },
                FileStage::Starting { message_id } => r is EnsureConsumer,
                FileStage::Finished { message_id } => r matches FileAction::Done {
                    local_message_id,
                    info,
                } && local_message_id == self.local_message_id && info@ == (AttachmentInfoModel {
                    url: Seq::empty(),
                    mime_type: self.plan.mime_type@,
                    size: self.file_size,
                    thumbnail_url: None,
                    filename: Some(self.plan.filename@),
                    file_id: None,
                    width: None,
                    height: None,
                    duration: None,
                }),
            },
    {
        match self.stage {
            FileStage::Saving => FileAction::Save {
                channel_id: self.channel_id,
                channel_type: 1,
                from_uid: self.plan.user_id,
                content: "{}".to_owned(),
                message_type: self.plan.message_type_number,
            },
            FileStage::Placing { message_id } => FileAction::UploadPlaceholder {
                token: placeholder_token(self.plan.user_id, placeholder_size),
            },
            FileStage::Preparing { message_id } => FileAction::Prepare {
                message_id,
                timestamp_ms: self.timestamp_ms,
                mode: self.plan.mode,
            },
            FileStage::Deleting { message_id } => FileAction::Delete { message_id },
            FileStage::Queueing { message_id } => FileAction::Enqueue {
                task: file_send_task(
                    &self.plan,
                    message_id,
                    self.channel_id,
                    self.local_message_id,
                    self.timestamp_ms,
                    &self.thumbnail_file_id,
                ),
            },
            FileStage::Starting { message_id } => FileAction::EnsureConsumer,
            FileStage::Finished { message_id } => FileAction::Done {
                local_message_id: self.local_message_id,
                info: pending_attachment(&self.plan, self.file_size),
            },
        }
    }

    /// Goes on after the event that the stage awaits; an error ends the way of the file.
    pub fn advance(&mut self, event: FileEvent) -> (r: Result<(), PrivchatSDKError>)
        requires
            old(self).wf(),
            file_awaits(old(self).stage, event@),
        ensures
            final(self).plan == old(self).plan,
            final(self).channel_id == old(self).channel_id,
            final(self).local_message_id == old(self).local_message_id,
            final(self).file_size == old(self).file_size,
            match progress_after(old(self).progress(), old(self).plan.needs_placeholder, event@) {
                Ok(p) => r is Ok && final(self).progress() == p && final(self).wf(),
                Err(e) => r is Err && r->Err_0@ == e,
            },
    {
        match (self.stage, event) {
            (FileStage::Saving, FileEvent::Saved(saved, at)) => match saved {
                Ok(message_id) => {
                    self.timestamp_ms = at;
                    self.stage = if self.plan.needs_placeholder {
                        FileStage::Placing { message_id }
                    } else {
                        FileStage::Preparing { message_id }
                    };
                    Ok(())
                },
                Err(e) => Err(e),
            },
            (FileStage::Placing { message_id }, FileEvent::Placed(placed)) => match placed {
                Ok(file_id) => {
                    self.thumbnail_file_id = Some(file_id);
                    self.stage = FileStage::Preparing { message_id };
                    Ok(())
                },
                Err(e) => Err(e),
            },
            (FileStage::Preparing { message_id }, FileEvent::Prepared(prepared)) => match prepared {
                Ok(_) => {
                    self.stage = FileStage::Queueing { message_id };
                    Ok(())
                },
                Err(e) => {
                    self.stage = FileStage::Deleting { message_id };
                    self.error = Some(e);
                    Ok(())
                },
            },
            (FileStage::Deleting { message_id }, FileEvent::Deleted) => match self.error.take() {
                Some(e) => Err(e),
                None => Ok(()),
            },
            (FileStage::Queueing { message_id }, FileEvent::Queued(queued)) => match queued {
                Ok(_) => {
                    self.stage = FileStage::Starting { message_id };
                    Ok(())
                },
                Err(e) => Err(e),
            },
            (FileStage::Starting { message_id }, FileEvent::ConsumerRuns(runs)) => match runs {
                Ok(_) => {
                    self.stage = FileStage::Finished { message_id };
                    Ok(())
                },
                Err(e) => Err(e),
            },
            _ => Ok(()),
        }
    }
}

/// How far a file has come after all events of a sequence, each of which the stage before it awaits;
/// nothing where one is not awaited or ends its way.
pub open spec fn progress_after_all(
    first: FileProgress,
    needs_placeholder: bool,
    events: Seq<FileEventModel>,
) -> Option<FileProgress>
    decreases events.len(),
{
    if events.len() == 0 {
        Some(first)
    } else {
        match progress_after_all(first, needs_placeholder, events.drop_last()) {
            Some(p) => if file_awaits(p.stage, events.last()) {
                match progress_after(p, needs_placeholder, events.last()) {
                    Ok(next) => Some(next),
                    Err(_) => None,
                }
            } else {
                None
            },
            None => None,
        }
    }
}

/// Where a file begins.
pub open spec fn file_begins() -> FileProgress {
    FileProgress {
        stage: FileStage::Saving,
        timestamp_ms: 0,
        thumbnail_file_id: None,
        error: None,
    }
}

/// A file whose preparation failed never gets into the queue.
pub proof fn law_a_file_that_is_not_prepared_is_not_queued(
    needs_placeholder: bool,
    events: Seq<FileEventModel>,
    failed: int,
)
    requires
        0 <= failed < events.len(),
        events[failed] matches FileEventModel::Prepared(Some(_)),
    ensures
        match progress_after_all(file_begins(), needs_placeholder, events) {
            Some(p) => p.stage is Deleting && p.error is Some,
            None => true,
        },
    decreases events.len(),
{
    let front = events.drop_last();
    lemma_errors_are_known(needs_placeholder, front);
    if failed < front.len() {
        assert(front[failed] == events[failed]);
        law_a_file_that_is_not_prepared_is_not_queued(needs_placeholder, front, failed);
    }
}

proof fn lemma_errors_are_known(needs_placeholder: bool, events: Seq<FileEventModel>)
    ensures
        progress_after_all(file_begins(), needs_placeholder, events) matches Some(p) ==> (p.stage
            is Deleting <==> p.error is Some),
    decreases events.len(),
{
    if events.len() > 0 {
        lemma_errors_are_known(needs_placeholder, events.drop_last());
    }
}

/// A queued file has the thumbnail that was uploaded exactly where it needs a placeholder.
pub proof fn law_a_queued_file_has_its_placeholder(
    needs_placeholder: bool,
    events: Seq<FileEventModel>,
)
    ensures
        progress_after_all(file_begins(), needs_placeholder, events) matches Some(p) ==> (p.stage
            is Queueing || p.stage is Starting || p.stage is Finished || p.stage is Preparing
            || p.stage is Deleting ==> (p.thumbnail_file_id is Some <==> needs_placeholder)),
    decreases events.len(),
{
    lemma_no_thumbnail_before(needs_placeholder, events);
    if events.len() > 0 {
        law_a_queued_file_has_its_placeholder(needs_placeholder, events.drop_last());
        lemma_no_thumbnail_before(needs_placeholder, events.drop_last());
    }
}

proof fn lemma_no_thumbnail_before(needs_placeholder: bool, events: Seq<FileEventModel>)
    ensures
        progress_after_all(file_begins(), needs_placeholder, events) matches Some(p) ==> ((p.stage
            is Saving || p.stage is Placing) ==> p.thumbnail_file_id is None) && (p.stage is Placing
            ==> needs_placeholder),
    decreases events.len(),
{
    if events.len() > 0 {
        lemma_no_thumbnail_before(needs_placeholder, events.drop_last());
    }
}

/// A file goes from saving over its placeholder, where it needs one, and its preparation to the queue
/// and to the start of the sending. The row of its message stays the same, as do its time and its
/// placeholder once they are known.
pub proof fn law_a_file_goes_step_by_step(
    p: FileProgress,
    needs_placeholder: bool,
    row: i64,
    at: i64,
    file_id: Seq<char>,
)
    ensures
        p.stage is Saving ==> (progress_after(p, needs_placeholder, FileEventModel::Saved(Ok(row), at)) matches
            Ok(q) && q.timestamp_ms == at && q.thumbnail_file_id == p.thumbnail_file_id && q.error
            == p.error && q.stage == (if needs_placeholder {
            FileStage::Placing { message_id: row }
        } else {
            FileStage::Preparing { message_id: row }
        })),
        p.stage == (FileStage::Placing { message_id: row }) ==> (progress_after(
            p,
            needs_placeholder,
            FileEventModel::Placed(Ok(file_id)),
        ) matches Ok(q) && q.stage == (FileStage::Preparing { message_id: row }) && q.thumbnail_file_id
            == Some(file_id) && q.timestamp_ms == p.timestamp_ms),
        p.stage == (FileStage::Preparing { message_id: row }) ==> (progress_after(
            p,
            needs_placeholder,
            FileEventModel::Prepared(None),
        ) matches Ok(q) && q.stage == (FileStage::Queueing { message_id: row }) && q.thumbnail_file_id
            == p.thumbnail_file_id && q.timestamp_ms == p.timestamp_ms),
        p.stage == (FileStage::Queueing { message_id: row }) ==> (progress_after(
            p,
            needs_placeholder,
            FileEventModel::Queued(None),
        ) matches Ok(q) && q.stage == (FileStage::Starting { message_id: row }) && q.thumbnail_file_id
            == p.thumbnail_file_id && q.timestamp_ms == p.timestamp_ms),
        p.stage == (FileStage::Starting { message_id: row }) ==> (progress_after(
            p,
            needs_placeholder,
            FileEventModel::ConsumerRuns(None),
        ) matches Ok(q) && q.stage == (FileStage::Finished { message_id: row })),
{
}

/// Where a step fails, the sending of a file ends with the fault of that step; where the file cannot be
/// prepared, its message is deleted before.
pub proof fn law_a_file_fails_with_the_fault_of_its_step(
    p: FileProgress,
    needs_placeholder: bool,
    row: i64,
    at: i64,
    e: ErrorModel,
)
    ensures
        p.stage is Saving ==> progress_after(
            p,
            needs_placeholder,
            FileEventModel::Saved(Err(e), at),
        ) == Err::<
            FileProgress,
            _,
        >(e),
        p.stage is Placing ==> progress_after(
            p,
            needs_placeholder,
            FileEventModel::Placed(Err(e)),
        ) == Err::<
            FileProgress,
            _,
        >(e),
        p.stage == (FileStage::Preparing { message_id: row }) ==> (progress_after(
            p,
            needs_placeholder,
            FileEventModel::Prepared(Some(e)),
        ) matches Ok(q) && q.stage == (FileStage::Deleting { message_id: row }) && q.error == Some(e)
            && progress_after(q, needs_placeholder, FileEventModel::Deleted) == Err::<FileProgress, _>(e)),
        p.stage is Queueing ==> progress_after(p, needs_placeholder, FileEventModel::Queued(Some(e)))
            == Err::<FileProgress, _>(e),
        p.stage is Starting ==> progress_after(
            p,
            needs_placeholder,
            FileEventModel::ConsumerRuns(Some(e)),
        )
            == Err::<FileProgress, _>(e),
        file_begins().stage is Saving && file_begins().thumbnail_file_id is None && file_begins().error
            is None,
{
}

} // verus!
