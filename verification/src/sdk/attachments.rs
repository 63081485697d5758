//! Files that are sent with messages, and files that messages point at.

use vstd::prelude::*;
use crate::error::{ErrorModel, PrivchatSDKError};
use crate::events::{AttachmentInfo, AttachmentInfoModel};
use crate::json;
use crate::json::{parse_json, write_json, JsonTree, JsonValue};
use crate::sdk::requests::{Request, RequestModel};
use crate::sdk::state;
use crate::sdk::state::PrivchatSDK;
use crate::storage::entities::{clone_text, Message};
use crate::text;
use crate::text::{
    chars_of, find_last, parse_u64, same_text, text_begins_with, text_of, u64_text,
};

verus! {

/// A text in lower case, by `str::to_lowercase`.
pub uninterp spec fn lower_case(s: Seq<char>) -> Seq<char>;

/// `str::to_lowercase`. The result depends on the text alone.
#[verifier::external_body]
fn to_lower_case(s: &str) -> (r: String)
    ensures
        r@ == lower_case(s@),
{
    s.to_lowercase()
}

/// The part of a file name after its last dot; a name that begins with its only dot has none.
pub open spec fn extension_of(name: Seq<char>) -> Seq<char> {
    match text::last_index_of(name, '.') {
        Some(i) => if i > 0 {
            name.skip(i + 1)
        } else {
            Seq::empty()
        },
        None => Seq::empty(),
    }
}

fn extension(name: &str) -> (r: String)
    ensures
        r@ == extension_of(name@),
{
    let chars = chars_of(name);
    match find_last(&chars, '.') {
        Some(i) => {
            proof {
                text::lemma_last_index_of(name@, '.');
            }
            if i > 0 {
                let end: usize = chars.len();
                proof {
                    assert(chars@.subrange(i + 1, end as int) =~= name@.skip(i + 1));
                }
                text_of(&chars, i + 1, end)
            } else {
                String::new()
            }
        },
        None => String::new(),
    }
}

/// What a file is, by its extension in lower case: its type and its media type.
pub open spec fn file_type_of(extension: Seq<char>) -> (Seq<char>, Seq<char>) {
    if extension == "jpg"@ || extension == "jpeg"@ {
        ("image"@, "image/jpeg"@)
    } else if extension == "png"@ {
        ("image"@, "image/png"@)
    } else if extension == "gif"@ {
        ("image"@, "image/gif"@)
    } else if extension == "webp"@ {
        ("image"@, "image/webp"@)
    } else if extension == "mp4"@ {
        ("video"@, "video/mp4"@)
    } else if extension == "mov"@ {
        ("video"@, "video/quicktime"@)
    } else if extension == "avi"@ {
        ("video"@, "video/x-msvideo"@)
    } else if extension == "mp3"@ {
        ("audio"@, "audio/mpeg"@)
    } else if extension == "wav"@ {
        ("audio"@, "audio/wav"@)
    } else if extension == "pdf"@ {
        ("file"@, "application/pdf"@)
    } else if extension == "zip"@ {
        ("file"@, "application/zip"@)
    } else if extension == "txt"@ {
        ("file"@, "text/plain"@)
    } else {
        ("other"@, "application/octet-stream"@)
    }
}

/// What a file is, by its extension in lower case.
pub fn file_type(extension: &str) -> (r: (&'static str, &'static str))
    ensures
        r.0@ == file_type_of(extension@).0,
        r.1@ == file_type_of(extension@).1,
{
    if same_text(extension, "jpg") || same_text(extension, "jpeg") {
        ("image", "image/jpeg")
    } else if same_text(extension, "png") {
        ("image", "image/png")
    } else if same_text(extension, "gif") {
        ("image", "image/gif")
    } else if same_text(extension, "webp") {
        ("image", "image/webp")
    } else if same_text(extension, "mp4") {
        ("video", "video/mp4")
    } else if same_text(extension, "mov") {
        ("video", "video/quicktime")
    } else if same_text(extension, "avi") {
        ("video", "video/x-msvideo")
    } else if same_text(extension, "mp3") {
        ("audio", "audio/mpeg")
    } else if same_text(extension, "wav") {
        ("audio", "audio/wav")
    } else if same_text(extension, "pdf") {
        ("file", "application/pdf")
    } else if same_text(extension, "zip") {
        ("file", "application/zip")
    } else if same_text(extension, "txt") {
        ("file", "text/plain")
    } else {
        ("other", "application/octet-stream")
    }
}

/// What a file is, by its name; the case of the extension does not matter.
pub fn detect_file_type_and_mime(name: &str) -> (r: (&'static str, &'static str))
    ensures
        r.0@ == file_type_of(lower_case(extension_of(name@))).0,
        r.1@ == file_type_of(lower_case(extension_of(name@))).1,
{
    let lower = to_lower_case(extension(name).as_str());
    file_type(lower.as_str())
}

/// What a file is, by its media type.
pub open spec fn type_of_mime(mime: Seq<char>) -> Seq<char> {
    if text::begins_with(mime, "image/"@) {
        "image"@
    } else if text::begins_with(mime, "video/"@) {
        "video"@
    } else if text::begins_with(mime, "audio/"@) {
        "audio"@
    } else if mime == "application/pdf"@ || mime == "application/zip"@ {
        "file"@
    } else {
        "other"@
    }
}

/// What a file is, by its media type.
pub fn detect_file_type_from_mime(mime_type: &str) -> (r: &'static str)
    ensures
        r@ == type_of_mime(mime_type@),
{
    if text_begins_with(mime_type, "image/") {
        "image"
    } else if text_begins_with(mime_type, "video/") {
        "video"
    } else if text_begins_with(mime_type, "audio/") {
        "audio"
    } else if same_text(mime_type, "application/pdf") || same_text(mime_type, "application/zip") {
        "file"
    } else {
        "other"
    }
}

/// How a file is prepared for sending.
#[derive(Debug, Clone, Copy, PartialEq, Eq, Structural)]
pub enum SendMode {
    Image,
    Video,
    Document,
}

/// How a file of a type is sent: how it is prepared, what its message says that it is, and the number
/// of the message's type.
pub open spec fn mode_of(file_type: Seq<char>) -> (SendMode, Seq<char>, i32) {
    if file_type == "image"@ {
        (SendMode::Image, "image"@, 2)
    } else if file_type == "video"@ {
        (SendMode::Video, "video"@, 3)
    } else {
        (SendMode::Document, "file"@, 4)
    }
}

/// How a file of a type is sent.
pub fn send_mode(file_type: &str) -> (r: (SendMode, &'static str, i32))
    ensures
        r.0 == mode_of(file_type@).0,
        r.1@ == mode_of(file_type@).1,
        r.2 == mode_of(file_type@).2,
{
    if same_text(file_type, "image") {
        (SendMode::Image, "image", 2)
    } else if same_text(file_type, "video") {
        (SendMode::Video, "video", 3)
    } else {
        (SendMode::Document, "file", 4)
    }
}

/// What is to be done to send a file.
#[derive(Debug)]
pub struct AttachmentPlan {
    pub user_id: u64,
    pub filename: String,
    pub mime_type: String,
    pub mode: SendMode,
    pub message_type: String,
    pub message_type_number: i32,
    /// Whether a placeholder stands for the thumbnail of the file.
    pub needs_placeholder: bool,
}

/// What an [`AttachmentPlan`] holds.
pub struct AttachmentPlanModel {
    pub user_id: u64,
    pub filename: Seq<char>,
    pub mime_type: Seq<char>,
    pub mode: SendMode,
    pub message_type: Seq<char>,
    pub message_type_number: i32,
    pub needs_placeholder: bool,
}

impl View for AttachmentPlan {
    type V = AttachmentPlanModel;

    open spec fn view(&self) -> AttachmentPlanModel {
        AttachmentPlanModel {
            user_id: self.user_id,
            filename: self.filename@,
            mime_type: self.mime_type@,
            mode: self.mode,
            message_type: self.message_type@,
            message_type_number: self.message_type_number,
            needs_placeholder: self.needs_placeholder,
        }
    }
}

/// How a file with a type and a media type is sent. The frames of a video come from a hook; without
/// it a placeholder stands for the thumbnail.
pub open spec fn plan_for(
    user_id: u64,
    filename: Seq<char>,
    kind: (Seq<char>, Seq<char>),
    has_video_hook: bool,
) -> AttachmentPlanModel {
    let mode = mode_of(kind.0);
    AttachmentPlanModel {
        user_id,
        filename,
        mime_type: kind.1,
        mode: mode.0,
        message_type: mode.1,
        message_type_number: mode.2,
        needs_placeholder: mode.1 == "video"@ && !has_video_hook,
    }
}

/// How a file of a given type is sent.
pub fn attachment_plan(
    user_id: u64,
    filename: &str,
    kind: (&'static str, &'static str),
    has_video_hook: bool,
) -> (r: AttachmentPlan)
    ensures
        r@ == plan_for(user_id, filename@, (kind.0@, kind.1@), has_video_hook),
{
    let mode = send_mode(kind.0);
    AttachmentPlan {
        user_id,
        filename: filename.to_owned(),
        mime_type: kind.1.to_owned(),
        mode: mode.0,
        message_type: mode.1.to_owned(),
        message_type_number: mode.2,
        needs_placeholder: same_text(mode.1, "video") && !has_video_hook,
    }
}

/// The name of a file that has none.
pub open spec fn name_or_file(name: Option<Seq<char>>) -> Seq<char> {
    match name {
        Some(name) => name,
        None => "file"@,
    }
}

/// The extension of a file: that of its name, or else the one that is given, or none.
pub open spec fn known_extension(name: Option<Seq<char>>, given: Option<Seq<char>>) -> Seq<char> {
    match (name, given) {
        (Some(name), _) => extension_of(name),
        (None, Some(extension)) => extension,
        (None, None) => Seq::empty(),
    }
}

/// A task to send a file.
#[derive(Debug)]
pub struct FileSendTask {
    pub message_id: i64,
    pub uid: String,
    pub channel_id: u64,
    pub channel_type: i32,
    pub from_uid: u64,
    pub local_message_id: u64,
    pub message_type: String,
    pub timestamp_ms: i64,
    /// The uploaded placeholder, where one stands for the thumbnail.
    pub thumbnail_file_id: Option<String>,
}

/// The task that sends a file by a plan.
pub fn file_send_task(
    plan: &AttachmentPlan,
    message_id: i64,
    channel_id: u64,
    local_message_id: u64,
    timestamp_ms: i64,
    thumbnail_file_id: &Option<String>,
) -> (r: FileSendTask)
    ensures
        r.message_id == message_id,
        r.uid@ == text::decimal(plan.user_id as nat),
        r.channel_id == channel_id,
        r.channel_type == 1,
        r.from_uid == plan.user_id,
        r.local_message_id == local_message_id,
        r.message_type@ == plan.message_type@,
        r.timestamp_ms == timestamp_ms,
        json::opt_view(r.thumbnail_file_id) == json::opt_view(*thumbnail_file_id),
{
    FileSendTask {
        message_id,
        uid: u64_text(plan.user_id),
        channel_id,
        channel_type: 1,
        from_uid: plan.user_id,
        local_message_id,
        message_type: plan.message_type.clone(),
        timestamp_ms,
        thumbnail_file_id: clone_text(thumbnail_file_id),
    }
}

/// What is known of a file that is still to be uploaded.
pub fn pending_attachment(plan: &AttachmentPlan, file_size: u64) -> (r: AttachmentInfo)
    ensures
        r@ == (AttachmentInfoModel {
            url: Seq::empty(),
            mime_type: plan.mime_type@,
            size: file_size,
            thumbnail_url: None,
            filename: Some(plan.filename@),
            file_id: None,
            width: None,
            height: None,
            duration: None,
        }),
{
    AttachmentInfo {
        url: String::new(),
        mime_type: plan.mime_type.clone(),
        size: file_size,
        thumbnail_url: None,
        filename: Some(plan.filename.clone()),
        file_id: None,
        width: None,
        height: None,
        duration: None,
    }
}

/// A file that was uploaded, as the server describes it.
#[derive(Debug)]
pub struct UploadedFile {
    pub file_id: String,
    pub file_url: String,
    pub thumbnail_url: Option<String>,
    pub width: Option<u32>,
    pub height: Option<u32>,
}

/// What a message with a file says of it.
pub open spec fn attachment_tree(
    file: UploadedFile,
    mime_type: Seq<char>,
    size: u64,
    filename: Seq<char>,
) -> JsonTree {
    JsonTree::Object(
        map![
            "file_id"@ => JsonTree::Text(file.file_id@),
            "file_url"@ => JsonTree::Text(file.file_url@),
            "mime_type"@ => JsonTree::Text(mime_type),
            "size"@ => JsonTree::Int(size as int),
            "filename"@ => JsonTree::Text(filename),
        ],
    )
}

/// What a message with a file says of it.
pub fn attachment_json(file: &UploadedFile, mime_type: &str, size: u64, filename: &str) -> (r:
    JsonValue)
    ensures
        r@ == attachment_tree(*file, mime_type@, size, filename@),
        json::json_depth(r) <= 1,
{
    let mut r = JsonValue::object();
    r.set("file_id", JsonValue::text(file.file_id.as_str()));
    r.set("file_url", JsonValue::text(file.file_url.as_str()));
    r.set("mime_type", JsonValue::text(mime_type));
    r.set("size", JsonValue::unsigned(size));
    r.set("filename", JsonValue::text(filename));
    assert(r@->Object_0 =~= attachment_tree(*file, mime_type@, size, filename@)->Object_0);
    r
}

/// The content of a message with a file. Reading it shows what was written.
pub fn attachment_content(file: &UploadedFile, mime_type: &str, size: u64, filename: &str) -> (r:
    String)
    ensures
        r@ == json::json_text(attachment_tree(*file, mime_type@, size, filename@)),
        json::reads_back(
            attachment_tree(*file, mime_type@, size, filename@),
            json::json_parsed(r@),
        ),
{
    write_json(&attachment_json(file, mime_type, size, filename))
}

/// What is known of a file that was uploaded.
pub fn sent_attachment(file: &UploadedFile, mime_type: &str, size: u64, filename: &str) -> (r:
    AttachmentInfo)
    ensures
        r@ == (AttachmentInfoModel {
            url: file.file_url@,
            mime_type: mime_type@,
            size,
            thumbnail_url: json::opt_view(file.thumbnail_url),
            filename: Some(filename@),
            file_id: Some(file.file_id@),
            width: file.width,
            height: file.height,
            duration: None,
        }),
{
    AttachmentInfo {
        url: file.file_url.clone(),
        mime_type: mime_type.to_owned(),
        size,
        thumbnail_url: clone_text(&file.thumbnail_url),
        filename: Some(filename.to_owned()),
        file_id: Some(file.file_id.clone()),
        width: file.width,
        height: file.height,
        duration: None,
    }
}

impl PrivchatSDK {
    /// How a file is sent in the user's name; a file whose name is no text is called `file`, and is
    /// known by its extension alone, where that is a text.
    pub fn send_attachment_from_path(
        &self,
        file_name: &Option<String>,
        extension: &Option<String>,
        has_video_hook: bool,
    ) -> (r: Result<AttachmentPlan, PrivchatSDKError>)
        ensures
            match self.session() {
                Err(e) => r is Err && r->Err_0@ == e,
                Ok(me) => {
                    let name = json::opt_view(*file_name);
                    r is Ok && r->Ok_0@ == plan_for(
                        me,
                        name_or_file(name),
                        file_type_of(lower_case(known_extension(name, json::opt_view(*extension)))),
                        has_video_hook,
                    )
                },
            },
    {
        let me: u64 = match self.require_session() {
            Ok(me) => me,
            Err(e) => return Err(e),
        };
        match file_name {
            Some(name) => {
                let kind = detect_file_type_and_mime(name.as_str());
                Ok(attachment_plan(me, name.as_str(), kind, has_video_hook))
            },
            None => {
                let lower = match extension {
                    Some(e) => to_lower_case(e.as_str()),
                    None => {
                        proof {
                            reveal_strlit("");
                            assert(""@ =~= Seq::<char>::empty());
                        }
                        to_lower_case("")
                    },
                };
                Ok(attachment_plan(me, "file", file_type(lower.as_str()), has_video_hook))
            },
        }
    }

    /// Asks for leave to upload a file of so many bytes for a message.
    pub fn send_attachment_bytes(&self, filename: &str, mime_type: &str, size: u64) -> (r: Result<
        Request,
        PrivchatSDKError,
    >)
        requires
            size <= i64::MAX,
        ensures
            match r {
                Ok(q) => self.session() is Ok && q@ == (RequestModel::UploadToken {
                    user_id: self.session()->Ok_0,
                    filename: filename@,
                    file_size: size as i64,
                    mime_type: mime_type@,
                    file_type: type_of_mime(mime_type@),
                    business_type: "message"@,
                }),
                Err(e) => self.session() == Err::<u64, _>(e@),
            },
    {
        match self.require_session() {
            Ok(me) => Ok(
                upload_token(
                    me,
                    filename,
                    size as i64,
                    mime_type,
                    detect_file_type_from_mime(mime_type),
                ),
            ),
            Err(e) => Err(e),
        }
    }
}

/// The request for leave to upload a file for a message.
pub fn upload_token(
    user_id: u64,
    filename: &str,
    file_size: i64,
    mime_type: &str,
    file_type: &str,
) -> (r: Request)
    ensures
        r@ == (RequestModel::UploadToken {
            user_id,
            filename: filename@,
            file_size,
            mime_type: mime_type@,
            file_type: file_type@,
            business_type: "message"@,
        }),
{
    Request::UploadToken {
        user_id,
        filename: filename.to_owned(),
        file_size,
        mime_type: mime_type.to_owned(),
        file_type: file_type.to_owned(),
        business_type: "message".to_owned(),
    }
}

/// The request for leave to upload the placeholder of a thumbnail, an image of so many bytes.
pub fn placeholder_token(user_id: u64, size: i64) -> (r: Request)
    ensures
        r@ == (RequestModel::UploadToken {
            user_id,
            filename: "placeholder.png"@,
            file_size: size,
            mime_type: "image/png"@,
            file_type: "image"@,
            business_type: "message"@,
        }),
{
    upload_token(user_id, "placeholder.png", size, "image/png", "image")
}

/// The error of an upload or a download without a file server.
pub fn no_file_server() -> (r: PrivchatSDKError)
    ensures
        r@ == ErrorModel::Other("HTTP 客户端未初始化，请配置 file_api_base_url"@),
{
    PrivchatSDKError::Other("HTTP 客户端未初始化，请配置 file_api_base_url".to_owned())
}

// Files that messages point at.

/// A file id that is a number or the text of one.
pub open spec fn file_id_in(value: Option<JsonTree>) -> Option<u64> {
    match value {
        Some(v) => match v.as_u64() {
            Some(id) => Some(id),
            None => match v.as_str() {
                Some(s) => match text::unsigned_value(s, u64::MAX as nat) {
                    Some(id) => Some(id as u64),
                    None => None,
                },
                None => None,
            },
        },
        None => None,
    }
}

fn file_id(value: Option<&JsonValue>) -> (r: Option<u64>)
    ensures
        r == file_id_in(
            match value {
                Some(v) => Some(v@),
                None => None,
            },
        ),
{
    match value {
        Some(v) => match v.as_u64() {
            Some(id) => Some(id),
            None => match v.as_str() {
                Some(s) => parse_u64(s),
                None => None,
            },
        },
        None => None,
    }
}

/// The file that stands for a message's file in small: its thumbnail, or else the file itself.
pub open spec fn thumbnail_in(content: Option<JsonTree>) -> Option<u64> {
    match content {
        Some(tree) => match file_id_in(tree.get("thumbnail_file_id"@)) {
            Some(id) => Some(id),
            None => file_id_in(tree.get("file_id"@)),
        },
        None => None,
    }
}

/// The thumbnail in content that was read as JSON; other content has none.
pub fn thumbnail_of(content: &Option<JsonValue>) -> (r: Option<u64>)
    ensures
        r == thumbnail_in(
            match *content {
                Some(v) => Some(v@),
                None => None,
            },
        ),
{
    match content {
        Some(tree) => match file_id(tree.get("thumbnail_file_id")) {
            Some(id) => Some(id),
            None => file_id(tree.get("file_id")),
        },
        None => None,
    }
}

/// The thumbnail that the content of a message points at.
pub fn thumbnail_file_id(content: &str) -> (r: Option<u64>)
    ensures
        r == thumbnail_in(json::json_parsed(content@)),
{
    thumbnail_of(&parse_json(content))
}

/// The name under which a file is saved beside its message.
pub fn saved_name(filename: &Option<String>, file_id: &str) -> (r: String)
    ensures
        r@ == match json::opt_view(*filename) {
            Some(name) => name,
            None => "file_"@ + file_id@,
        },
{
    match filename {
        Some(name) => name.clone(),
        None => {
            let mut s = "file_".to_owned();
            s.append(file_id);
            s
        },
    }
}

/// The name of the file into which a download goes at first.
pub fn download_name(file_id: &str) -> (r: String)
    ensures
        r@ == "download_"@ + file_id@,
{
    let mut s = "download_".to_owned();
    s.append(file_id);
    s
}

/// How a file gets into the cache.
#[derive(Debug)]
pub enum CacheStep {
    /// It is there.
    UseCached,
    /// It is downloaded under a name at first, for a user.
    Download { user: String, temporary_name: String },
}

impl PrivchatSDK {
    /// How a file gets into the cache, or why it cannot; `has_index` says whether the index of the
    /// cache is there, and `is_cached` whether it knows a path that exists.
    pub fn download_attachment_to_cache(&self, has_index: bool, is_cached: bool, file_id: &str) -> (r:
        Result<CacheStep, PrivchatSDKError>)
        ensures
            match state::lifecycle_fault(*self) {
                Some(e) => r is Err && r->Err_0@ == e,
                None => if !has_index {
                    r is Err && r->Err_0@ == ErrorModel::Other("媒体索引管理器未初始化"@)
                } else if is_cached {
                    r is Ok && r->Ok_0 is UseCached
                } else {
                    match self.state.current_user_id {
                        None => r is Err && r->Err_0@ == ErrorModel::NotConnected,
                        Some(id) => {
                            &&& r is Ok
                            &&& r->Ok_0 matches CacheStep::Download { user, temporary_name }
                            &&& user@ == text::decimal(id as nat)
                            &&& temporary_name@ == "download_"@ + file_id@
                        },
                    }
                },
            },
    {
        match self.check_initialized() {
            Ok(_) => {},
            Err(e) => return Err(e),
        }
        if !has_index {
            return Err(PrivchatSDKError::Other("媒体索引管理器未初始化".to_owned()));
        }
        if is_cached {
            return Ok(CacheStep::UseCached);
        }
        match self.user_id() {
            Some(id) => Ok(
                CacheStep::Download { user: u64_text(id), temporary_name: download_name(file_id) },
            ),
            None => Err(PrivchatSDKError::NotConnected),
        }
    }

    /// For which user, under which name and from which time on a file is saved beside its message, or
    /// why it cannot be.
    pub fn download_attachment_to_message_dir(
        &self,
        message: Option<&Message>,
        filename: &Option<String>,
        file_id: &str,
    ) -> (r: Result<(String, String, i64), PrivchatSDKError>)
        ensures
            match (state::lifecycle_fault(*self), self.state.current_user_id, message) {
                (Some(e), _, _) => r is Err && r->Err_0@ == e,
                (None, None, _) => r is Err && r->Err_0@ == ErrorModel::NotConnected,
                (None, Some(_), None) => r is Err && r->Err_0@ == ErrorModel::Other("消息不存在"@),
                (None, Some(id), Some(m)) => {
                    &&& r is Ok
                    &&& r->Ok_0.0@ == text::decimal(id as nat)
                    &&& r->Ok_0.1@ == match json::opt_view(*filename) {
                        Some(name) => name,
                        None => "file_"@ + file_id@,
                    }
                    &&& r->Ok_0.2 == m.created_at
                },
            },
    {
        match self.check_initialized() {
            Ok(_) => {},
            Err(e) => return Err(e),
        }
        let id: u64 = match self.user_id() {
            Some(id) => id,
            None => return Err(PrivchatSDKError::NotConnected),
        };
        match message {
            Some(m) => Ok((u64_text(id), saved_name(filename, file_id), m.created_at)),
            None => Err(PrivchatSDKError::Other("消息不存在".to_owned())),
        }
    }
}

/// The error of a download after which the cache does not know its file.
pub fn not_in_cache() -> (r: PrivchatSDKError)
    ensures
        r@ == ErrorModel::Other("文件下载后无法获取缓存路径"@),
{
    PrivchatSDKError::Other("文件下载后无法获取缓存路径".to_owned())
}

/// Whether an entry of the directory for temporary files is to be removed: a directory of another
/// day than today.
pub fn is_stale_directory(name: &str, is_directory: bool, today: &str) -> (r: bool)
    ensures
        r == (name@ != today@ && is_directory),
{
    !same_text(name, today) && is_directory
}

/// The thumbnail of a message that was written with a file id is found again, where the id is a
/// number.
pub proof fn law_an_attachment_is_found_again(
    file: UploadedFile,
    mime_type: Seq<char>,
    size: u64,
    filename: Seq<char>,
    id: u64,
)
    requires
        file.file_id@ == text::decimal(id as nat),
    ensures
        thumbnail_in(Some(attachment_tree(file, mime_type, size, filename))) == Some(id),
{
    let tree = attachment_tree(file, mime_type, size, filename);
    reveal_strlit("thumbnail_file_id");
    reveal_strlit("file_id");
    reveal_strlit("file_url");
    reveal_strlit("mime_type");
    reveal_strlit("size");
    reveal_strlit("filename");
    assert("thumbnail_file_id"@.len() == 17 && "file_id"@.len() == 7 && "file_url"@.len() == 8
        && "mime_type"@.len() == 9 && "size"@.len() == 4 && "filename"@.len() == 8);
    assert(tree.get("thumbnail_file_id"@) is None);
    assert(tree.get("file_id"@) == Some(JsonTree::Text(file.file_id@)));
    text::law_decimal_round_trip(id as nat, u64::MAX as nat);
}

proof fn lemma_media_types(extension: Seq<char>)
    ensures
        ({
            let (kind, mime) = file_type_of(extension);
            &&& kind == "image"@ <==> text::begins_with(mime, "image/"@)
            &&& kind == "video"@ <==> text::begins_with(mime, "video/"@)
            &&& kind == "audio"@ <==> text::begins_with(mime, "audio/"@)
        }),
        "image"@ != "video"@ && "image"@ != "file"@ && "video"@ != "file"@,
{
    reveal_strlit("image");
    reveal_strlit("video");
    reveal_strlit("audio");
    reveal_strlit("file");
    reveal_strlit("other");
    reveal_strlit("image/");
    reveal_strlit("video/");
    reveal_strlit("audio/");
    reveal_strlit("image/jpeg");
    reveal_strlit("image/png");
    reveal_strlit("image/gif");
    reveal_strlit("image/webp");
    reveal_strlit("video/mp4");
    reveal_strlit("video/quicktime");
    reveal_strlit("video/x-msvideo");
    reveal_strlit("audio/mpeg");
    reveal_strlit("audio/wav");
    reveal_strlit("application/pdf");
    reveal_strlit("application/zip");
    reveal_strlit("text/plain");
    reveal_strlit("application/octet-stream");
    let (kind, mime) = file_type_of(extension);
    assert(kind[0] == 'i' || kind[0] == 'v' || kind[0] == 'a' || kind[0] == 'f' || kind[0] == 'o');
    assert("image"@[0] == 'i' && "video"@[0] == 'v' && "audio"@[0] == 'a' && "file"@[0] == 'f');
    let head = mime.take(6);
    assert(mime.len() >= 6);
    assert(head[0] == mime[0] && head[1] == mime[1] && head[5] == mime[5]);
    assert("image/"@[0] == 'i' && "video/"@[0] == 'v' && "audio/"@[0] == 'a');
    assert("audio/"@[1] == 'u');
    if mime[0] == 'i' {
        assert(head =~= "image/"@);
    } else if mime[0] == 'v' {
        assert(head =~= "video/"@);
    } else if mime[0] == 'a' && mime[1] == 'u' {
        assert(head =~= "audio/"@);
    }
}

/// A file is sent as what its media type says: one that begins with `image/` as an image, one that
/// begins with `video/` as a video, and every other one as a document. The message says the same by its
/// name and by its number, 2, 3 and 4.
pub proof fn law_a_file_is_sent_as_what_it_is(
    user_id: u64,
    name: Seq<char>,
    extension: Seq<char>,
    has_video_hook: bool,
)
    ensures
        ({
            let plan = plan_for(user_id, name, file_type_of(extension), has_video_hook);
            &&& text::begins_with(plan.mime_type, "image/"@) ==> plan.mode == SendMode::Image
                && plan.message_type == "image"@ && plan.message_type_number == 2
            &&& text::begins_with(plan.mime_type, "video/"@) ==> plan.mode == SendMode::Video
                && plan.message_type == "video"@ && plan.message_type_number == 3
            &&& !text::begins_with(plan.mime_type, "image/"@) && !text::begins_with(
                plan.mime_type,
                "video/"@,
            ) ==> plan.mode == SendMode::Document && plan.message_type == "file"@
                && plan.message_type_number == 4
            &&& plan.user_id == user_id && plan.filename == name
        }),
{
    lemma_media_types(extension);
}

/// A placeholder stands for the thumbnail just of a video whose frames no hook can give.
pub proof fn law_only_videos_need_a_placeholder(
    user_id: u64,
    name: Seq<char>,
    kind: (Seq<char>, Seq<char>),
    has_video_hook: bool,
)
    ensures
        ({
            let plan = plan_for(user_id, name, kind, has_video_hook);
            &&& plan.needs_placeholder <==> plan.mode == SendMode::Video && !has_video_hook
            &&& plan.mime_type == kind.1
            &&& (plan.mode == SendMode::Image <==> kind.0 == "image"@)
            &&& (plan.mode == SendMode::Video <==> kind.0 == "video"@)
        }),
{
    lemma_media_types(kind.0);
}

/// What a file is by its extension is what it is by the media type of that extension, for images,
/// videos, sounds, the two kinds of documents that have a media type of their own, and unknown files.
pub proof fn law_extension_and_media_type_agree(extension: Seq<char>)
    requires
        extension != "txt"@,
    ensures
        type_of_mime(file_type_of(extension).1) == file_type_of(extension).0,
{
    lemma_media_types(extension);
    reveal_strlit("application/pdf");
    reveal_strlit("application/zip");
    reveal_strlit("application/octet-stream");
}

/// A media type tells the file by what it begins with, whatever follows.
pub proof fn law_a_media_type_tells_the_file(rest: Seq<char>)
    ensures
        type_of_mime("image/"@ + rest) == "image"@,
        type_of_mime("video/"@ + rest) == "video"@,
        type_of_mime("audio/"@ + rest) == "audio"@,
        type_of_mime("text/"@ + rest) == "other"@,
{
    reveal_strlit("image/");
    reveal_strlit("video/");
    reveal_strlit("audio/");
    reveal_strlit("text/");
    reveal_strlit("application/pdf");
    reveal_strlit("application/zip");
    assert(("image/"@ + rest).take(6) =~= "image/"@);
    assert(("video/"@ + rest).take(6) =~= "video/"@);
    assert(("audio/"@ + rest).take(6) =~= "audio/"@);
    assert(("video/"@ + rest)[0] == 'v' && ("audio/"@ + rest)[0] == 'a' && ("text/"@ + rest)[0] == 't');
    assert(("text/"@ + rest).len() >= 6 ==> ("text/"@ + rest).take(6)[0] == 't');
    assert(("video/"@ + rest).take(6)[0] == 'v' && ("audio/"@ + rest).take(6)[0] == 'a');
    assert("image/"@[0] == 'i' && "video/"@[0] == 'v' && "audio/"@[0] == 'a' && "application/pdf"@[0] == 'a'
        && "application/zip"@[0] == 'a');
}

/// The media type of most known extensions ends with the extension itself; `jpg` is short for `jpeg`.
pub proof fn law_media_types_name_their_extensions(extension: Seq<char>)
    ensures
        (extension == "jpeg"@ || extension == "png"@ || extension == "gif"@ || extension == "webp"@)
            ==> file_type_of(extension).1 == "image/"@ + extension,
        extension == "mp4"@ ==> file_type_of(extension).1 == "video/"@ + extension,
        extension == "wav"@ ==> file_type_of(extension).1 == "audio/"@ + extension,
        (extension == "pdf"@ || extension == "zip"@) ==> file_type_of(extension).1 == "application/"@
            + extension,
        file_type_of("jpg"@) == file_type_of("jpeg"@),
        (extension == "mov"@ || extension == "avi"@) ==> text::begins_with(
            file_type_of(extension).1,
            "video/"@,
        ),
        extension == "mp3"@ ==> text::begins_with(file_type_of(extension).1, "audio/"@),
        (extension == "pdf"@ || extension == "zip"@ || extension == "txt"@) ==> file_type_of(extension).0
            == "file"@,
{
    lemma_media_types(extension);
    reveal_strlit("jpg");
    reveal_strlit("jpeg");
    reveal_strlit("png");
    reveal_strlit("gif");
    reveal_strlit("webp");
    reveal_strlit("mp4");
    reveal_strlit("mov");
    reveal_strlit("avi");
    reveal_strlit("mp3");
    reveal_strlit("wav");
    reveal_strlit("pdf");
    reveal_strlit("zip");
    reveal_strlit("txt");
    reveal_strlit("image/");
    reveal_strlit("video/");
    reveal_strlit("audio/");
    reveal_strlit("application/");
    reveal_strlit("image/jpeg");
    reveal_strlit("image/png");
    reveal_strlit("image/gif");
    reveal_strlit("image/webp");
    reveal_strlit("video/mp4");
    reveal_strlit("audio/wav");
    reveal_strlit("application/pdf");
    reveal_strlit("application/zip");
    assert(extension.len() == 3 ==> (extension == "jpg"@ ==> extension[0] == 'j') && (extension == "png"@
        ==> extension[0] == 'p' && extension[1] == 'n') && (extension == "gif"@ ==> extension[0] == 'g')
        && (extension == "mp4"@ ==> extension[0] == 'm' && extension[2] == '4') && (extension == "mov"@
        ==> extension[0] == 'm' && extension[2] == 'v') && (extension == "avi"@ ==> extension[0] == 'a')
        && (extension == "mp3"@ ==> extension[0] == 'm' && extension[2] == '3') && (extension == "wav"@
        ==> extension[0] == 'w') && (extension == "pdf"@ ==> extension[0] == 'p' && extension[1] == 'd')
        && (extension == "zip"@ ==> extension[0] == 'z') && (extension == "txt"@ ==> extension[0] == 't'));
    assert(extension == "jpeg"@ ==> extension[0] == 'j');
    assert(extension == "webp"@ ==> extension[0] == 'w');
}

/// The extension of a file is what follows its last dot: it holds no dot, and the name is what stands
/// before the dot, the dot, and the extension. A name that begins with its only dot has none.
pub proof fn law_the_extension_follows_the_last_dot(stem: Seq<char>, extension: Seq<char>)
    requires
        !extension.contains('.'),
    ensures
        stem.len() > 0 ==> extension_of(stem + seq!['.'] + extension) == extension,
        extension_of(seq!['.'] + extension).len() == 0,
        extension_of(extension).len() == 0,
{
    let name = stem + seq!['.'] + extension;
    let n = stem.len() as int;
    assert(name[n] == '.');
    assert forall|j: int| n < j < name.len() implies name[j] != '.' by {
        assert(name[j] == extension[j - n - 1]);
        assert(extension.contains(extension[j - n - 1]));
    }
    text::lemma_last_index_is(name, '.', n);
    assert(name.skip(n + 1) =~= extension);
    let hidden = seq!['.'] + extension;
    assert(hidden[0] == '.');
    assert forall|j: int| 0 < j < hidden.len() implies hidden[j] != '.' by {
        assert(hidden[j] == extension[j - 1]);
        assert(extension.contains(extension[j - 1]));
    }
    text::lemma_last_index_is(hidden, '.', 0);
    text::lemma_last_index_of(extension, '.');
}

/// The name of a file decides its kind where there is one, even where another extension is given; a
/// file without a name is called `file`.
pub proof fn law_the_name_of_a_file_comes_first(name: Seq<char>, given: Option<Seq<char>>)
    ensures
        known_extension(Some(name), given) == extension_of(name),
        known_extension(None, given) == (if given is Some {
            given->0
        } else {
            Seq::empty()
        }),
        name_or_file(Some(name)) == name,
        name_or_file(None) == "file"@,
{
}

/// The thumbnail of a message is the one it names, before the file itself, and an id counts alike as a
/// number and as the text of one.
pub proof fn law_a_thumbnail_comes_before_the_file(
    fields: Map<Seq<char>,
    JsonTree>,
    small: u64,
    file: u64,
)
    ensures
        file_id_in(Some(JsonTree::Int(file as int))) == Some(file),
        file_id_in(Some(JsonTree::Text(text::decimal(file as nat)))) == Some(file),
        file_id_in(None) is None,
        fields.dom().contains("thumbnail_file_id"@) && fields["thumbnail_file_id"@] == JsonTree::Int(
            small as int,
        ) ==> thumbnail_in(Some(JsonTree::Object(fields))) == Some(small),
        !fields.dom().contains("thumbnail_file_id"@) && fields.dom().contains("file_id"@)
            && fields["file_id"@] == JsonTree::Int(file as int) ==> thumbnail_in(
            Some(JsonTree::Object(fields)),
        ) == Some(file),
        thumbnail_in(None) is None,
{
    text::law_decimal_round_trip(file as nat, u64::MAX as nat);
}

/// What a message says of its file holds each part under its own name.
pub proof fn law_a_message_describes_its_file(
    file: UploadedFile,
    mime_type: Seq<char>,
    size: u64,
    filename: Seq<char>,
)
    ensures
        ({
            let tree = attachment_tree(file, mime_type, size, filename);
            &&& tree.str_at("file_id"@) == Some(file.file_id@)
            &&& tree.str_at("file_url"@) == Some(file.file_url@)
            &&& tree.str_at("mime_type"@) == Some(mime_type)
            &&& tree.str_at("filename"@) == Some(filename)
            &&& tree.u64_at("size"@) == Some(size)
        }),
{
    reveal_strlit("file_id");
    reveal_strlit("file_url");
    reveal_strlit("mime_type");
    reveal_strlit("size");
    reveal_strlit("filename");
    assert("file_id"@.len() == 7 && "file_url"@.len() == 8 && "mime_type"@.len() == 9 && "size"@.len()
        == 4 && "filename"@.len() == 8);
    assert("file_url"@[4] == '_' && "filename"@[4] == 'n');
}

} // verus!
