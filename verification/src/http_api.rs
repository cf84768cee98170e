//! The HTTP interface: what each request asks for, and what it is answered.
//!
//! A handler takes the bytes of the `Authorization` header and the body of a request, and
//! gives what is to be sent on, or the refusal. Every handler but the health check asks for
//! the token before it looks at anything else.
use crate::file_name::{
    is_image_file_name, law_file_name_names_no_directory, law_sanitized_name_is_final, names_image,
    sanitized, sanitized_file_name,
};
use crate::json::{
    entry, json_parse, law_members_are_found, member, object, text_of, Json, JsonView, Payload,
};
use crate::media::{MediaType, UploadedMedia, UploadedMediaView};
use crate::state::{
    authenticate, chunks_of, law_only_the_token_is_let_in, law_text_is_delivered_whole,
    optional_bytes, refusal, sha256_collides, supplied_credentials, unauthorized_refusal, ApiError,
    ApiErrorView, AppState, AppStateView, DeliveryView, MessageDelivery, BAD_REQUEST, INTERNAL_SERVER_ERROR,
    PAYLOAD_TOO_LARGE,
};
use crate::text::{
    as_text, blank, has_prefix, is_blank, is_whitespace, law_prefix_begins_the_text,
    law_trimming_takes_only_the_margins, optional_string, optional_text, same_text, starts_with,
    to_owned_text, trim, trimmed,
};
use vstd::prelude::*;
use vstd::utf8::encode_utf8;

verus! {

/// The most bytes that an uploaded file may have.
pub const MAX_MEDIA_SIZE: u64 = 200 * 1024 * 1024;

/// The most bytes that the body of an upload may have: a file and one mebibyte around it.
pub const MAX_MEDIA_REQUEST_SIZE: usize = 201 * 1024 * 1024;

/// The user that a request names. A null counts as no user; anything else but a text is
/// refused.
pub open spec fn requested_openid(document: JsonView) -> Result<Option<Seq<char>>, ApiErrorView> {
    match member(document, "openid"@) {
        None => Ok(None),
        Some(JsonView::Null) => Ok(None),
        Some(JsonView::Text(openid)) => Ok(Some(openid)),
        Some(_) => Err(refusal(BAD_REQUEST, "openid 必须是字符串。"@)),
    }
}

/// The text that a notification request carries: its `summary` where it has one, else its
/// `content`.
pub open spec fn notification_content(document: JsonView) -> Option<Seq<char>> {
    match member(document, "summary"@) {
        Some(summary) => text_of(Some(summary)),
        None => text_of(member(document, "content"@)),
    }
}

/// The content and the named user of a request, given where its content stands and how its
/// absence is answered.
pub open spec fn content_and_openid(
    document: JsonView,
    content: Option<Seq<char>>,
    message: Seq<char>,
) -> Result<(Seq<char>, Option<Seq<char>>), ApiErrorView> {
    match content {
        None => Err(refusal(BAD_REQUEST, message)),
        Some(content) => match requested_openid(document) {
            Err(error) => Err(error),
            Ok(openid) => Ok((content, openid)),
        },
    }
}

/// What a notification request asks for.
pub open spec fn notification_of(document: JsonView) -> Result<
    (Seq<char>, Option<Seq<char>>),
    ApiErrorView,
> {
    content_and_openid(
        document,
        notification_content(document),
        "summary 或 content 必须是字符串。"@,
    )
}

/// What a Markdown request asks for.
pub open spec fn markdown_of(document: JsonView) -> Result<
    (Seq<char>, Option<Seq<char>>),
    ApiErrorView,
> {
    content_and_openid(
        document,
        text_of(member(document, "content"@)),
        "content 必须是 Markdown 字符串。"@,
    )
}

/// The refusal of a body that is not JSON.
pub open spec fn not_json() -> ApiErrorView {
    refusal(BAD_REQUEST, "请求体必须是 JSON。"@)
}

/// What a notification comes to, given the document in its body.
pub open spec fn notify_outcome(state: AppStateView, document: JsonView) -> Result<
    DeliveryView,
    ApiErrorView,
> {
    match notification_of(document) {
        Err(error) => Err(error),
        Ok((content, openid)) => state.send_message(content, openid),
    }
}

/// What a notification request comes to, given its header and what its body holds as JSON.
pub open spec fn task_completed_outcome(
    state: AppStateView,
    authorization: Option<Seq<u8>>,
    document: Option<JsonView>,
) -> Result<DeliveryView, ApiErrorView> {
    if !state.authorizes(authorization) {
        Err(unauthorized_refusal())
    } else {
        match document {
            None => Err(not_json()),
            Some(document) => notify_outcome(state, document),
        }
    }
}

/// The model of a [`MarkdownMessage`].
pub struct MarkdownMessageView {
    pub recipient: Seq<char>,
    pub content: Seq<char>,
}

/// A Markdown text for a recipient.
#[derive(Debug)]
pub struct MarkdownMessage {
    pub recipient: String,
    pub content: String,
}

impl MarkdownMessage {
    /// The model of the message.
    pub open spec fn view(&self) -> MarkdownMessageView {
        MarkdownMessageView { recipient: self.recipient@, content: self.content@ }
    }
}

/// What a Markdown text comes to, given the document in the body of its request.
pub open spec fn markdown_outcome(state: AppStateView, document: JsonView) -> Result<
    MarkdownMessageView,
    ApiErrorView,
> {
    match markdown_of(document) {
        Err(error) => Err(error),
        Ok((content, openid)) => match state.send_markdown(content, openid) {
            Err(error) => Err(error),
            Ok(recipient) => Ok(MarkdownMessageView { recipient, content }),
        },
    }
}

/// What a Markdown request comes to, given its header and what its body holds as JSON.
pub open spec fn send_markdown_outcome(
    state: AppStateView,
    authorization: Option<Seq<u8>>,
    document: Option<JsonView>,
) -> Result<MarkdownMessageView, ApiErrorView> {
    if !state.authorizes(authorization) {
        Err(unauthorized_refusal())
    } else {
        match document {
            None => Err(not_json()),
            Some(document) => markdown_outcome(state, document),
        }
    }
}

/// What the status request is answered.
pub open spec fn status_document(state: AppStateView) -> JsonView {
    object(
        seq![
            ("connected"@, JsonView::Bool(state.connected)),
            ("bound"@, JsonView::Bool(state.recipient is Some)),
        ],
    )
}

/// What a status request comes to, given its header.
pub open spec fn status_outcome(
    state: AppStateView,
    authorization: Option<Seq<u8>>,
) -> Result<JsonView, ApiErrorView> {
    if state.authorizes(authorization) {
        Ok(status_document(state))
    } else {
        Err(unauthorized_refusal())
    }
}

/// What the beginning of an upload comes to, given its header: an empty form.
pub open spec fn begin_upload_outcome(
    state: AppStateView,
    authorization: Option<Seq<u8>>,
) -> Result<UploadFormView, ApiErrorView> {
    if state.authorizes(authorization) {
        Ok(empty_form())
    } else {
        Err(unauthorized_refusal())
    }
}

/// The document that tells that all is well, and nothing more.
pub open spec fn ok_document() -> JsonView {
    object(seq![("ok"@, JsonView::Bool(true))])
}

/// The answer to a health check.
pub fn healthz() -> (r: Payload)
    ensures
        r@ == ok_document(),
{
    let entries = vec![entry("ok", Payload::Bool(true))];
    assert(Payload::entry_views(entries@) =~= seq![("ok"@, JsonView::Bool(true))]);
    Payload::Object(entries)
}

/// The answer to a status request: whether the gateway is connected and whether there is a
/// default recipient.
pub fn status(state: &AppState, authorization: Option<&[u8]>) -> (r: Result<Payload, ApiError>)
    ensures
        status_outcome(state@, optional_bytes(authorization)) == match r {
            Ok(answer) => Ok(answer@),
            Err(error) => Err(error@),
        },
{
    if let Err(error) = authenticate(state, authorization) {
        return Err(error);
    }
    let entries = vec![
        entry("connected", Payload::Bool(state.connected())),
        entry("bound", Payload::Bool(state.recipient().is_some())),
    ];
    assert(Payload::entry_views(entries@) =~= seq![
        ("connected"@, JsonView::Bool(state@.connected)),
        ("bound"@, JsonView::Bool(state@.recipient is Some)),
    ]);
    Ok(Payload::Object(entries))
}

/// The user that a request names.
pub fn request_openid(document: &Json) -> (r: Result<Option<&str>, ApiError>)
    ensures
        requested_openid(document@) == match r {
            Ok(openid) => Ok(optional_text(openid)),
            Err(error) => Err(error@),
        },
{
    match document.get("openid") {
        None => Ok(None),
        Some(Json::Null) => Ok(None),
        Some(Json::Text(openid)) => Ok(Some(openid.as_str())),
        Some(_) => Err(ApiError::new(BAD_REQUEST, "openid 必须是字符串。")),
    }
}

/// The content and the named user of a notification request.
pub fn notification_request(document: &Json) -> (r: Result<(&str, Option<&str>), ApiError>)
    ensures
        notification_of(document@) == match r {
            Ok((content, openid)) => Ok((content@, optional_text(openid))),
            Err(error) => Err(error@),
        },
{
    let field = match document.get("summary") {
        Some(summary) => Some(summary),
        None => document.get("content"),
    };
    let content = match field {
        Some(value) => value.as_str(),
        None => None,
    };
    match content {
        None => Err(ApiError::new(BAD_REQUEST, "summary 或 content 必须是字符串。")),
        Some(content) => match request_openid(document) {
            Ok(openid) => Ok((content, openid)),
            Err(error) => Err(error),
        },
    }
}

/// The content and the named user of a Markdown request.
pub fn markdown_request(document: &Json) -> (r: Result<(&str, Option<&str>), ApiError>)
    ensures
        markdown_of(document@) == match r {
            Ok((content, openid)) => Ok((content@, optional_text(openid))),
            Err(error) => Err(error@),
        },
{
    let content = match document.get("content") {
        Some(value) => value.as_str(),
        None => None,
    };
    match content {
        None => Err(ApiError::new(BAD_REQUEST, "content 必须是 Markdown 字符串。")),
        Some(content) => match request_openid(document) {
            Ok(openid) => Ok((content, openid)),
            Err(error) => Err(error),
        },
    }
}

/// Prepares a notification, given the document in the body of its request.
pub fn notify(state: &AppState, document: &Json) -> (r: Result<MessageDelivery, ApiError>)
    ensures
        notify_outcome(state@, document@) == match r {
            Ok(delivery) => Ok(delivery@),
            Err(error) => Err(error@),
        },
        r matches Ok(delivery) ==> delivery.wf(),
{
    match notification_request(document) {
        Ok((content, openid)) => state.send_message(content, openid),
        Err(error) => Err(error),
    }
}

/// Handles a notification request: asks for the token, reads the body and prepares the text
/// for sending.
pub fn task_completed(state: &AppState, authorization: Option<&[u8]>, body: &[u8]) -> (r: Result<
    MessageDelivery,
    ApiError,
>)
    ensures
        task_completed_outcome(state@, optional_bytes(authorization), json_parse(body@))
            == match r {
            Ok(delivery) => Ok(delivery@),
            Err(error) => Err(error@),
        },
        r matches Ok(delivery) ==> delivery.wf(),
{
    if let Err(error) = authenticate(state, authorization) {
        return Err(error);
    }
    match Json::parse(body) {
        Some(document) => notify(state, &document),
        None => Err(ApiError::new(BAD_REQUEST, "请求体必须是 JSON。")),
    }
}

/// What a notification that was sent in so many pieces is answered.
pub open spec fn notification_document(chunks: nat) -> JsonView {
    object(seq![("ok"@, JsonView::Bool(true)), ("chunks"@, JsonView::Integer(chunks as int))])
}

/// The answer to a notification that was sent in so many pieces.
pub fn notification_response(chunks: usize) -> (r: Payload)
    ensures
        r@ == notification_document(chunks as nat),
{
    let entries = vec![
        entry("ok", Payload::Bool(true)),
        entry("chunks", Payload::UInt(chunks as u64)),
    ];
    assert(Payload::entry_views(entries@) =~= seq![
        ("ok"@, JsonView::Bool(true)),
        ("chunks"@, JsonView::Integer(chunks as int)),
    ]);
    Payload::Object(entries)
}

/// Prepares a Markdown text, given the document in the body of its request.
pub fn prepare_markdown(state: &AppState, document: &Json) -> (r: Result<
    MarkdownMessage,
    ApiError,
>)
    ensures
        markdown_outcome(state@, document@) == match r {
            Ok(message) => Ok(message@),
            Err(error) => Err(error@),
        },
{
    match markdown_request(document) {
        Ok((content, openid)) => match state.send_markdown(content, openid) {
            Ok(recipient) => Ok(MarkdownMessage { recipient, content: content.to_owned() }),
            Err(error) => Err(error),
        },
        Err(error) => Err(error),
    }
}

/// Handles a Markdown request: asks for the token, reads the body and finds the recipient.
pub fn send_markdown(state: &AppState, authorization: Option<&[u8]>, body: &[u8]) -> (r: Result<
    MarkdownMessage,
    ApiError,
>)
    ensures
        send_markdown_outcome(state@, optional_bytes(authorization), json_parse(body@)) == match r {
            Ok(message) => Ok(message@),
            Err(error) => Err(error@),
        },
{
    if let Err(error) = authenticate(state, authorization) {
        return Err(error);
    }
    match Json::parse(body) {
        Some(document) => prepare_markdown(state, &document),
        None => Err(ApiError::new(BAD_REQUEST, "请求体必须是 JSON。")),
    }
}

/// The answer to a Markdown text that was sent.
pub fn markdown_response() -> (r: Payload)
    ensures
        r@ == ok_document(),
{
    healthz()
}

/// The kind that a request asks for or, where it asks for none, that the content type or the
/// file name suggest.
pub open spec fn media_type_of(
    requested_type: Option<Seq<char>>,
    uploaded: UploadedMediaView,
) -> Result<MediaType, ApiErrorView> {
    match requested_type {
        Some(requested) if !is_blank(requested) => if trimmed(requested) == "image"@ || trimmed(
            requested,
        ) == "1"@ {
            Ok(MediaType::Image)
        } else if trimmed(requested) == "file"@ || trimmed(requested) == "4"@ {
            Ok(MediaType::File)
        } else {
            Err(refusal(BAD_REQUEST, "file_type 只能是 image 或 file。"@))
        },
        _ => if (uploaded.content_type matches Some(content_type) && has_prefix(
            content_type,
            "image/"@,
        )) || names_image(uploaded.file_name) {
            Ok(MediaType::Image)
        } else {
            Ok(MediaType::File)
        },
    }
}

/// The kind of an uploaded file.
pub fn parse_media_type(requested_type: Option<&str>, uploaded: &UploadedMedia) -> (r: Result<
    MediaType,
    ApiError,
>)
    ensures
        media_type_of(optional_text(requested_type), uploaded@) == match r {
            Ok(media_type) => Ok(media_type),
            Err(error) => Err(error@),
        },
{
    if let Some(requested) = requested_type {
        if !blank(requested) {
            let requested = trim(requested);
            return if same_text(requested, "image") || same_text(requested, "1") {
                Ok(MediaType::Image)
            } else if same_text(requested, "file") || same_text(requested, "4") {
                Ok(MediaType::File)
            } else {
                Err(ApiError::new(BAD_REQUEST, "file_type 只能是 image 或 file。"))
            };
        }
    }
    if let Some(content_type) = as_text(&uploaded.content_type) {
        if starts_with(content_type, "image/") {
            return Ok(MediaType::Image);
        }
    }
    if is_image_file_name(uploaded.file_name.as_str()) {
        Ok(MediaType::Image)
    } else {
        Ok(MediaType::File)
    }
}

/// The model of an [`IncomingFile`].
pub struct IncomingFileView {
    pub file_name: Seq<char>,
    pub content_type: Option<Seq<char>>,
    pub size: u64,
}

impl IncomingFileView {
    /// The file with one more piece of so many bytes, unless that makes it too large.
    pub open spec fn receive(self, length: nat) -> Result<IncomingFileView, ApiErrorView> {
        if self.size + length <= MAX_MEDIA_SIZE {
            Ok(IncomingFileView { size: (self.size + length) as u64, ..self })
        } else {
            Err(refusal(PAYLOAD_TOO_LARGE, "上传文件超过 200 MB 限制。"@))
        }
    }

    /// The file with a row of pieces, up to the first that makes it too large.
    pub open spec fn receive_all(self, pieces: Seq<nat>) -> Result<IncomingFileView, ApiErrorView>
        decreases pieces.len(),
    {
        if pieces.len() == 0 {
            Ok(self)
        } else {
            match self.receive(pieces.first()) {
                Err(error) => Err(error),
                Ok(file) => file.receive_all(pieces.drop_first()),
            }
        }
    }

    /// The file at its end, which must not be empty.
    pub open spec fn finish(self) -> Result<UploadedMediaView, ApiErrorView> {
        if self.size == 0 {
            Err(refusal(BAD_REQUEST, "上传文件不能为空。"@))
        } else {
            Ok(
                UploadedMediaView {
                    file_name: self.file_name,
                    content_type: self.content_type,
                    size: self.size,
                },
            )
        }
    }
}

/// A file that is being received.
#[derive(Debug)]
pub struct IncomingFile {
    file_name: String,
    content_type: Option<String>,
    size: u64,
}

/// Whether a file may be kept under a name: a name that is kept as it is.
pub open spec fn is_sanitized(file_name: Seq<char>) -> bool {
    sanitized(Some(file_name)) == Some(file_name)
}

/// Whether a file was received as an upload may be: neither empty nor too large, under a
/// sanitized name.
pub open spec fn is_valid_upload(uploaded: UploadedMediaView) -> bool {
    0 < uploaded.size <= MAX_MEDIA_SIZE && is_sanitized(uploaded.file_name)
}

impl IncomingFile {
    /// The model of the file.
    pub closed spec fn view(&self) -> IncomingFileView {
        IncomingFileView {
            file_name: self.file_name@,
            content_type: optional_string(self.content_type),
            size: self.size,
        }
    }

    /// The file is within the limit so far, and has a sanitized name.
    pub open spec fn wf(&self) -> bool {
        self@.size <= MAX_MEDIA_SIZE && is_sanitized(self@.file_name)
    }

    /// One more piece of the file, unless it makes the file too large.
    pub fn receive(&mut self, length: usize) -> (r: Result<(), ApiError>)
        requires
            old(self).wf(),
        ensures
            final(self).wf(),
            old(self)@.receive(length as nat) == match r {
                Ok(()) => Ok(final(self)@),
                Err(error) => Err(error@),
            },
            r is Err ==> final(self)@ == old(self)@,
    {
        if let Some(size) = self.size.checked_add(length as u64) {
            if size <= MAX_MEDIA_SIZE {
                self.size = size;
                return Ok(());
            }
        }
        Err(ApiError::new(PAYLOAD_TOO_LARGE, "上传文件超过 200 MB 限制。"))
    }

    /// The end of the file, which must not be empty.
    pub fn finish(self) -> (r: Result<UploadedMedia, ApiError>)
        requires
            self.wf(),
        ensures
            self@.finish() == match r {
                Ok(uploaded) => Ok(uploaded@),
                Err(error) => Err(error@),
            },
            r matches Ok(uploaded) ==> is_valid_upload(uploaded@),
    {
        if self.size == 0 {
            return Err(ApiError::new(BAD_REQUEST, "上传文件不能为空。"));
        }
        Ok(
            UploadedMedia {
                file_name: self.file_name,
                content_type: self.content_type,
                size: self.size,
            },
        )
    }
}

/// The model of a [`FormField`].
pub enum FormFieldView {
    OpenId,
    FileType,
    File(IncomingFileView),
}

/// A field of an upload form that is about to be read.
#[derive(Debug)]
pub enum FormField {
    /// A text that names a user.
    OpenId,
    /// A text that names a kind of medium.
    FileType,
    /// The file itself, of which nothing is received yet.
    File(IncomingFile),
}

impl FormField {
    /// The model of the field.
    pub open spec fn view(&self) -> FormFieldView {
        match self {
            FormField::OpenId => FormFieldView::OpenId,
            FormField::FileType => FormFieldView::FileType,
            FormField::File(file) => FormFieldView::File(file@),
        }
    }
}

/// The model of an [`UploadForm`].
pub struct UploadFormView {
    pub openid: Option<Seq<char>>,
    pub requested_type: Option<Seq<char>>,
    pub uploaded: Option<UploadedMediaView>,
}

/// A form of which nothing was received yet.
pub open spec fn empty_form() -> UploadFormView {
    UploadFormView { openid: None, requested_type: None, uploaded: None }
}

/// A field of an upload form as it arrives: its name, the file name and the content type that
/// may come with it, its text where it reads as one, and the lengths of the pieces that its
/// bytes come in.
pub struct FormEntry {
    pub name: Option<Seq<char>>,
    pub file_name: Option<Seq<char>>,
    pub content_type: Option<Seq<char>>,
    pub text: Option<Seq<char>>,
    pub pieces: Seq<nat>,
}

/// The model of a [`MediaRequest`].
pub struct MediaRequestView {
    pub uploaded: UploadedMediaView,
    pub media_type: MediaType,
    pub openid: Option<Seq<char>>,
}

impl UploadFormView {
    /// What the next field of a form is. Each field may come once, the file must have an
    /// acceptable name, and there are no other fields.
    pub open spec fn field(
        self,
        name: Option<Seq<char>>,
        file_name: Option<Seq<char>>,
        content_type: Option<Seq<char>>,
    ) -> Result<FormFieldView, ApiErrorView> {
        if name == Some("openid"@) {
            if self.openid is Some {
                Err(refusal(BAD_REQUEST, "openid 只能提供一次。"@))
            } else {
                Ok(FormFieldView::OpenId)
            }
        } else if name == Some("file_type"@) {
            if self.requested_type is Some {
                Err(refusal(BAD_REQUEST, "file_type 只能提供一次。"@))
            } else {
                Ok(FormFieldView::FileType)
            }
        } else if name == Some("file"@) {
            if self.uploaded is Some {
                Err(refusal(BAD_REQUEST, "只能上传一个文件。"@))
            } else {
                match sanitized(file_name) {
                    None => Err(refusal(BAD_REQUEST, "file 必须包含有效的文件名。"@)),
                    Some(file_name) => Ok(
                        FormFieldView::File(IncomingFileView { file_name, content_type, size: 0 }),
                    ),
                }
            }
        } else {
            Err(refusal(BAD_REQUEST, "仅支持 openid、file_type 和 file 字段。"@))
        }
    }

    /// The form with the text of the field that names a user, where it could be read.
    pub open spec fn receive_openid(self, text: Option<Seq<char>>) -> Result<
        UploadFormView,
        ApiErrorView,
    > {
        if text is Some {
            Ok(UploadFormView { openid: text, ..self })
        } else {
            Err(refusal(BAD_REQUEST, "openid 无效。"@))
        }
    }

    /// The form with the text of the field that names a kind, where it could be read.
    pub open spec fn receive_file_type(self, text: Option<Seq<char>>) -> Result<
        UploadFormView,
        ApiErrorView,
    > {
        if text is Some {
            Ok(UploadFormView { requested_type: text, ..self })
        } else {
            Err(refusal(BAD_REQUEST, "file_type 无效。"@))
        }
    }

    /// The form with a file.
    pub open spec fn receive_file(self, uploaded: UploadedMediaView) -> UploadFormView {
        UploadFormView { uploaded: Some(uploaded), ..self }
    }

    /// The form with one more field, or why the field is refused.
    pub open spec fn receive(self, entry: FormEntry) -> Result<UploadFormView, ApiErrorView> {
        match self.field(entry.name, entry.file_name, entry.content_type) {
            Err(error) => Err(error),
            Ok(FormFieldView::OpenId) => self.receive_openid(entry.text),
            Ok(FormFieldView::FileType) => self.receive_file_type(entry.text),
            Ok(FormFieldView::File(file)) => match file.receive_all(entry.pieces) {
                Err(error) => Err(error),
                Ok(file) => match file.finish() {
                    Err(error) => Err(error),
                    Ok(uploaded) => Ok(self.receive_file(uploaded)),
                },
            },
        }
    }

    /// The form with a row of fields, up to the first that is refused.
    pub open spec fn receive_all(self, entries: Seq<FormEntry>) -> Result<
        UploadFormView,
        ApiErrorView,
    >
        decreases entries.len(),
    {
        if entries.len() == 0 {
            Ok(self)
        } else {
            match self.receive(entries.first()) {
                Err(error) => Err(error),
                Ok(form) => form.receive_all(entries.drop_first()),
            }
        }
    }

    /// What a form that was read to its end asks for.
    pub open spec fn finish(self) -> Result<MediaRequestView, ApiErrorView> {
        match self.uploaded {
            None => Err(refusal(BAD_REQUEST, "请求缺少 file 文件字段。"@)),
            Some(uploaded) => match media_type_of(self.requested_type, uploaded) {
                Err(error) => Err(error),
                Ok(media_type) => Ok(
                    MediaRequestView { uploaded, media_type, openid: self.openid },
                ),
            },
        }
    }
}

/// An upload form that is being received, field by field.
#[derive(Debug)]
pub struct UploadForm {
    openid: Option<String>,
    requested_type: Option<String>,
    uploaded: Option<UploadedMedia>,
}

/// What an upload asks for.
#[derive(Debug)]
pub struct MediaRequest {
    pub uploaded: UploadedMedia,
    pub media_type: MediaType,
    pub openid: Option<String>,
}

impl MediaRequest {
    /// The model of the request.
    pub open spec fn view(&self) -> MediaRequestView {
        MediaRequestView {
            uploaded: self.uploaded@,
            media_type: self.media_type,
            openid: optional_string(self.openid),
        }
    }
}

impl UploadForm {
    /// The model of the form.
    pub closed spec fn view(&self) -> UploadFormView {
        UploadFormView {
            openid: optional_string(self.openid),
            requested_type: optional_string(self.requested_type),
            uploaded: match self.uploaded {
                Some(uploaded) => Some(uploaded@),
                None => None,
            },
        }
    }

    /// A file that the form holds was received as an upload may be.
    pub open spec fn wf(&self) -> bool {
        self@.uploaded matches Some(uploaded) ==> is_valid_upload(uploaded)
    }

    /// Begins to handle an upload: asks for the token.
    pub fn begin(state: &AppState, authorization: Option<&[u8]>) -> (r: Result<
        UploadForm,
        ApiError,
    >)
        ensures
            begin_upload_outcome(state@, optional_bytes(authorization)) == match r {
                Ok(form) => Ok(form@),
                Err(error) => Err(error@),
            },
            r matches Ok(form) ==> form.wf(),
    {
        match authenticate(state, authorization) {
            Ok(()) => Ok(UploadForm { openid: None, requested_type: None, uploaded: None }),
            Err(error) => Err(error),
        }
    }

    /// Decides what the next field is, by its name and, for the file, by the file name and the
    /// content type that come with it.
    pub fn field(
        &self,
        name: Option<&str>,
        file_name: Option<&str>,
        content_type: Option<&str>,
    ) -> (r: Result<FormField, ApiError>)
        ensures
            self@.field(
                optional_text(name),
                optional_text(file_name),
                optional_text(content_type),
            ) == match r {
                Ok(field) => Ok(field@),
                Err(error) => Err(error@),
            },
            r matches Ok(FormField::File(file)) ==> file.wf(),
    {
        if let Some(name) = name {
            if same_text(name, "openid") {
                return if self.openid.is_some() {
                    Err(ApiError::new(BAD_REQUEST, "openid 只能提供一次。"))
                } else {
                    Ok(FormField::OpenId)
                };
            }
            if same_text(name, "file_type") {
                return if self.requested_type.is_some() {
                    Err(ApiError::new(BAD_REQUEST, "file_type 只能提供一次。"))
                } else {
                    Ok(FormField::FileType)
                };
            }
            if same_text(name, "file") {
                if self.uploaded.is_some() {
                    return Err(ApiError::new(BAD_REQUEST, "只能上传一个文件。"));
                }
                return match sanitized_file_name(file_name) {
                    None => Err(ApiError::new(BAD_REQUEST, "file 必须包含有效的文件名。")),
                    Some(clean_name) => {
                        proof {
                            law_sanitized_name_is_final(optional_text(file_name));
                        }
                        Ok(
                            FormField::File(
                                IncomingFile {
                                    file_name: clean_name,
                                    content_type: to_owned_text(content_type),
                                    size: 0,
                                },
                            ),
                        )
                    },
                };
            }
        }
        Err(ApiError::new(BAD_REQUEST, "仅支持 openid、file_type 和 file 字段。"))
    }

    /// Takes the text of the field that names a user; no text where it could not be read.
    pub fn receive_openid(&mut self, text: Option<String>) -> (r: Result<(), ApiError>)
        requires
            old(self).wf(),
            old(self)@.openid is None,
        ensures
            final(self).wf(),
            old(self)@.receive_openid(optional_string(text)) == match r {
                Ok(()) => Ok(final(self)@),
                Err(error) => Err(error@),
            },
            r is Err ==> final(self)@ == old(self)@,
    {
        match text {
            Some(text) => {
                self.openid = Some(text);
                Ok(())
            },
            None => Err(ApiError::new(BAD_REQUEST, "openid 无效。")),
        }
    }

    /// Takes the text of the field that names a kind; no text where it could not be read.
    pub fn receive_file_type(&mut self, text: Option<String>) -> (r: Result<(), ApiError>)
        requires
            old(self).wf(),
            old(self)@.requested_type is None,
        ensures
            final(self).wf(),
            old(self)@.receive_file_type(optional_string(text)) == match r {
                Ok(()) => Ok(final(self)@),
                Err(error) => Err(error@),
            },
            r is Err ==> final(self)@ == old(self)@,
    {
        match text {
            Some(text) => {
                self.requested_type = Some(text);
                Ok(())
            },
            None => Err(ApiError::new(BAD_REQUEST, "file_type 无效。")),
        }
    }

    /// Takes the file, once it is received and stored.
    pub fn receive_file(&mut self, uploaded: UploadedMedia)
        requires
            old(self).wf(),
            old(self)@.uploaded is None,
            is_valid_upload(uploaded@),
        ensures
            final(self).wf(),
            final(self)@ == old(self)@.receive_file(uploaded@),
    {
        self.uploaded = Some(uploaded);
    }

    /// Decides what the form asks for, once it is read to its end.
    pub fn finish(self) -> (r: Result<MediaRequest, ApiError>)
        requires
            self.wf(),
        ensures
            self@.finish() == match r {
                Ok(request) => Ok(request@),
                Err(error) => Err(error@),
            },
            r matches Ok(request) ==> is_valid_upload(request@.uploaded),
    {
        match self.uploaded {
            None => Err(ApiError::new(BAD_REQUEST, "请求缺少 file 文件字段。")),
            Some(uploaded) => match parse_media_type(as_text(&self.requested_type), &uploaded) {
                Ok(media_type) => Ok(MediaRequest { uploaded, media_type, openid: self.openid }),
                Err(error) => Err(error),
            },
        }
    }
}

/// What can go wrong while an upload form is read and its file is stored.
#[derive(Clone, Copy, Debug, PartialEq, Eq, Structural)]
pub enum UploadFault {
    /// The form does not go on as a form does.
    Form,
    /// The next piece of the file did not come.
    Chunk,
    /// The file could not be stored.
    Storage,
}

/// How a fault during an upload is answered.
pub fn upload_fault(fault: UploadFault) -> (r: ApiError)
    ensures
        r@ == match fault {
            UploadFault::Form => refusal(BAD_REQUEST, "multipart 请求体无效。"@),
            UploadFault::Chunk => refusal(BAD_REQUEST, "读取上传文件失败。"@),
            UploadFault::Storage => refusal(INTERNAL_SERVER_ERROR, "无法暂存上传文件。"@),
        },
{
    match fault {
        UploadFault::Form => ApiError::new(BAD_REQUEST, "multipart 请求体无效。"),
        UploadFault::Chunk => ApiError::new(BAD_REQUEST, "读取上传文件失败。"),
        UploadFault::Storage => ApiError::new(INTERNAL_SERVER_ERROR, "无法暂存上传文件。"),
    }
}

/// What an upload that was sent is answered.
pub open spec fn media_document(request: MediaRequestView) -> JsonView {
    object(
        seq![
            ("ok"@, JsonView::Bool(true)),
            ("file_name"@, JsonView::Text(request.uploaded.file_name)),
            ("file_type"@, JsonView::Text(request.media_type.label_spec())),
        ],
    )
}

/// The answer to an upload that was sent.
pub fn media_response(request: &MediaRequest) -> (r: Payload)
    ensures
        r@ == media_document(request@),
{
    let entries = vec![
        entry("ok", Payload::Bool(true)),
        entry("file_name", Payload::Text(request.uploaded.file_name.clone())),
        entry("file_type", Payload::Text(request.media_type.label().to_owned())),
    ];
    assert(Payload::entry_views(entries@) =~= seq![
        ("ok"@, JsonView::Bool(true)),
        ("file_name"@, JsonView::Text(request@.uploaded.file_name)),
        ("file_type"@, JsonView::Text(request@.media_type.label_spec())),
    ]);
    Payload::Object(entries)
}

/// What an upload comes to, given the fields of its form.
pub open spec fn upload_outcome(entries: Seq<FormEntry>) -> Result<MediaRequestView, ApiErrorView> {
    match empty_form().receive_all(entries) {
        Err(error) => Err(error),
        Ok(form) => form.finish(),
    }
}

/// The sum of a row of lengths.
pub open spec fn total_length(pieces: Seq<nat>) -> nat
    decreases pieces.len(),
{
    if pieces.len() == 0 {
        0
    } else {
        pieces.first() + total_length(pieces.drop_first())
    }
}

proof fn lemma_pieces_count_by_their_sum(file: IncomingFileView, pieces: Seq<nat>)
    requires
        file.size <= MAX_MEDIA_SIZE,
    ensures
        file.receive_all(pieces) == file.receive(total_length(pieces)),
    decreases pieces.len(),
{
    if pieces.len() > 0 {
        if let Ok(next) = file.receive(pieces.first()) {
            lemma_pieces_count_by_their_sum(next, pieces.drop_first());
        }
    }
}

/// What becomes of a field does not depend on how its bytes are cut into pieces, only on how
/// many they are.
pub proof fn law_cut_of_a_file_does_not_matter(
    form: UploadFormView,
    entry: FormEntry,
    pieces: Seq<nat>,
)
    requires
        total_length(pieces) == total_length(entry.pieces),
    ensures
        form.receive(FormEntry { pieces, ..entry }) == form.receive(entry),
{
    if let Ok(FormFieldView::File(file)) = form.field(
        entry.name,
        entry.file_name,
        entry.content_type,
    ) {
        lemma_pieces_count_by_their_sum(file, pieces);
        lemma_pieces_count_by_their_sum(file, entry.pieces);
    }
}

proof fn lemma_recut_form(
    form: UploadFormView,
    entries: Seq<FormEntry>,
    index: int,
    pieces: Seq<nat>,
)
    requires
        0 <= index < entries.len(),
        total_length(pieces) == total_length(entries[index].pieces),
    ensures
        form.receive_all(entries.update(index, FormEntry { pieces, ..entries[index] }))
            == form.receive_all(entries),
    decreases entries.len(),
{
    let recut = entries.update(index, FormEntry { pieces, ..entries[index] });
    if index == 0 {
        law_cut_of_a_file_does_not_matter(form, entries[0], pieces);
        assert(recut.drop_first() == entries.drop_first());
    } else if let Ok(next) = form.receive(entries.first()) {
        lemma_recut_form(next, entries.drop_first(), index - 1, pieces);
        assert(recut.drop_first() == entries.drop_first().update(
            index - 1,
            FormEntry { pieces, ..entries[index] },
        ));
    }
}

/// What an upload comes to does not depend on how the bytes of a field are cut into pieces.
pub proof fn law_cut_of_an_upload_does_not_matter(
    entries: Seq<FormEntry>,
    index: int,
    pieces: Seq<nat>,
)
    requires
        0 <= index < entries.len(),
        total_length(pieces) == total_length(entries[index].pieces),
    ensures
        upload_outcome(entries.update(index, FormEntry { pieces, ..entries[index] }))
            == upload_outcome(entries),
{
    lemma_recut_form(empty_form(), entries, index, pieces);
}

proof fn lemma_fields_swap(form: UploadFormView, first: FormEntry, second: FormEntry)
    requires
        form.receive(first) is Ok,
        form.receive(first)->Ok_0.receive(second) is Ok,
    ensures
        form.receive(second) is Ok,
        form.receive(second)->Ok_0.receive(first) == form.receive(first)->Ok_0.receive(second),
{
}

proof fn lemma_field_moves_back(
    form: UploadFormView,
    entries: Seq<FormEntry>,
    index: int,
    entry: FormEntry,
)
    requires
        0 <= index <= entries.len(),
        form.receive(entry) is Ok,
        form.receive(entry)->Ok_0.receive_all(entries) is Ok,
    ensures
        form.receive_all(entries.insert(index, entry)) == form.receive(entry)->Ok_0.receive_all(
            entries,
        ),
    decreases index,
{
    let moved = entries.insert(index, entry);
    if index == 0 {
        assert(moved.drop_first() == entries);
    } else {
        lemma_fields_swap(form, entry, entries.first());
        let next = form.receive(entries.first())->Ok_0;
        assert(moved.first() == entries.first());
        assert(moved.drop_first() == entries.drop_first().insert(index - 1, entry));
        lemma_field_moves_back(next, entries.drop_first(), index - 1, entry);
    }
}

proof fn lemma_reordered_form(form: UploadFormView, a: Seq<FormEntry>, b: Seq<FormEntry>)
    requires
        a.to_multiset() == b.to_multiset(),
        form.receive_all(a) is Ok,
    ensures
        form.receive_all(b) == form.receive_all(a),
    decreases a.len(),
{
    a.to_multiset_ensures();
    b.to_multiset_ensures();
    if a.len() > 0 {
        let entry = a.first();
        assert(a.contains(entry));
        assert(b.to_multiset().count(entry) > 0);
        let index = choose|i: int| 0 <= i < b.len() && b[i] == entry;
        let rest = b.remove(index);
        assert(a.drop_first() == a.remove(0));
        assert(a.drop_first().to_multiset() == rest.to_multiset());
        let next = form.receive(entry)->Ok_0;
        lemma_reordered_form(next, a.drop_first(), rest);
        assert(rest.insert(index, entry) == b);
        lemma_field_moves_back(form, rest, index, entry);
    }
}

/// An upload does not depend on the order of its fields: in whatever order they come, they are
/// all taken or not, and where they are, the upload comes to the same.
pub proof fn law_order_of_fields_does_not_matter(a: Seq<FormEntry>, b: Seq<FormEntry>)
    requires
        a.to_multiset() == b.to_multiset(),
    ensures
        empty_form().receive_all(a) is Ok <==> empty_form().receive_all(b) is Ok,
        empty_form().receive_all(a) is Ok ==> upload_outcome(a) == upload_outcome(b),
{
    if empty_form().receive_all(a) is Ok {
        lemma_reordered_form(empty_form(), a, b);
    } else if empty_form().receive_all(b) is Ok {
        lemma_reordered_form(empty_form(), b, a);
    }
}

/// Without the token no request is looked at: whatever its body holds, it is answered with the
/// status 401 and the bearer challenge.
pub proof fn law_nothing_without_the_token(
    state: AppStateView,
    authorization: Option<Seq<u8>>,
    document: Option<JsonView>,
)
    requires
        !state.authorizes(authorization),
    ensures
        task_completed_outcome(state, authorization, document) == Err::<DeliveryView, _>(
            unauthorized_refusal(),
        ),
        send_markdown_outcome(state, authorization, document) == Err::<MarkdownMessageView, _>(
            unauthorized_refusal(),
        ),
        status_outcome(state, authorization) == Err::<JsonView, _>(unauthorized_refusal()),
        begin_upload_outcome(state, authorization) == Err::<UploadFormView, _>(
            unauthorized_refusal(),
        ),
        unauthorized_refusal().status == 401,
        unauthorized_refusal().bearer_challenge,
{
}

/// A request whose `Authorization` header is missing, or is anything but `Bearer ` and the
/// token, is refused by every handler but the health check, unless what it supplies happens to
/// have the SHA-256 checksum of that text.
pub proof fn law_wrong_header_is_refused(
    state: AppStateView,
    api_token: Seq<char>,
    authorization: Option<Seq<u8>>,
    document: Option<JsonView>,
)
    requires
        state.holds_token(api_token),
        authorization != Some(encode_utf8("Bearer "@ + api_token)),
        !sha256_collides(
            supplied_credentials(authorization),
            encode_utf8("Bearer "@ + api_token),
        ),
    ensures
        task_completed_outcome(state, authorization, document) == Err::<DeliveryView, _>(
            unauthorized_refusal(),
        ),
        send_markdown_outcome(state, authorization, document) == Err::<MarkdownMessageView, _>(
            unauthorized_refusal(),
        ),
        status_outcome(state, authorization) == Err::<JsonView, _>(unauthorized_refusal()),
        begin_upload_outcome(state, authorization) == Err::<UploadFormView, _>(
            unauthorized_refusal(),
        ),
{
    law_only_the_token_is_let_in(state, api_token, authorization);
}

/// A notification is refused with one of the documented statuses: 401 where the token is
/// missing, and only there with the bearer challenge; else 400 for the request, or 412 where
/// nobody is there to receive it.
pub proof fn law_notification_refusals(
    state: AppStateView,
    authorization: Option<Seq<u8>>,
    document: Option<JsonView>,
)
    ensures
        task_completed_outcome(state, authorization, document) matches Err(error) ==> {
            &&& error.status == 400 || error.status == 401 || error.status == 412
            &&& error.status == 401 <==> !state.authorizes(authorization)
            &&& error.bearer_challenge <==> error.status == 401
            &&& error.status == 412 ==> state.recipient is None
        },
        send_markdown_outcome(state, authorization, document) matches Err(error) ==> {
            &&& error.status == 400 || error.status == 401 || error.status == 412
            &&& error.status == 401 <==> !state.authorizes(authorization)
            &&& error.bearer_challenge <==> error.status == 401
            &&& error.status == 412 ==> state.recipient is None
        },
{
}

/// An upload form of a token holder is refused, while its fields are read and at its end, with
/// the status 400 and without a challenge.
pub proof fn law_upload_form_refusals(
    form: UploadFormView,
    name: Option<Seq<char>>,
    file_name: Option<Seq<char>>,
    content_type: Option<Seq<char>>,
)
    ensures
        form.field(name, file_name, content_type) matches Err(error) ==> error.status == 400
            && !error.bearer_challenge,
        form.finish() matches Err(error) ==> error.status == 400 && !error.bearer_challenge,
{
}

/// A token holder's notification goes out: to the user it names or else to the default
/// recipient, in the pieces that its text is cut in, with the `summary` before the `content`.
pub proof fn law_notification_goes_out(
    state: AppStateView,
    authorization: Option<Seq<u8>>,
    document: JsonView,
    content: Seq<char>,
    openid: Option<Seq<char>>,
    recipient: Seq<char>,
)
    requires
        state.authorizes(authorization),
        member(document, "summary"@) == Some(JsonView::Text(content)) || (member(
            document,
            "summary"@,
        ) is None && member(document, "content"@) == Some(JsonView::Text(content))),
        !is_blank(content),
        requested_openid(document) == Ok::<_, ApiErrorView>(openid),
        state.recipient_for(openid) == Ok::<_, ApiErrorView>(recipient),
    ensures
        task_completed_outcome(state, authorization, Some(document)) == Ok::<_, ApiErrorView>(
            DeliveryView { recipient, chunks: chunks_of(content), sent: 0 },
        ),
{
}

/// A token holder's Markdown text goes out whole.
pub proof fn law_markdown_goes_out(
    state: AppStateView,
    authorization: Option<Seq<u8>>,
    document: JsonView,
    content: Seq<char>,
    openid: Option<Seq<char>>,
    recipient: Seq<char>,
)
    requires
        state.authorizes(authorization),
        member(document, "content"@) == Some(JsonView::Text(content)),
        !is_blank(content),
        requested_openid(document) == Ok::<_, ApiErrorView>(openid),
        state.recipient_for(openid) == Ok::<_, ApiErrorView>(recipient),
    ensures
        send_markdown_outcome(state, authorization, Some(document)) == Ok::<_, ApiErrorView>(
            MarkdownMessageView { recipient, content },
        ),
{
}

/// A file that may be kept is named within its directory: its name holds no slash and is
/// neither `.` nor `..`.
pub proof fn law_upload_names_no_directory(uploaded: UploadedMediaView)
    requires
        is_valid_upload(uploaded),
    ensures
        uploaded.file_name.len() > 0,
        !uploaded.file_name.contains('/'),
        !uploaded.file_name.contains('\0'),
        uploaded.file_name != seq!['.'],
        uploaded.file_name != seq!['.', '.'],
{
    law_file_name_names_no_directory(uploaded.file_name);
}

/// A field that an upload form already has is not taken a second time.
pub proof fn law_each_field_comes_once(
    form: UploadFormView,
    file_name: Option<Seq<char>>,
    content_type: Option<Seq<char>>,
)
    ensures
        form.openid is Some ==> form.field(Some("openid"@), file_name, content_type) is Err,
        form.requested_type is Some ==> form.field(Some("file_type"@), file_name, content_type)
            is Err,
        form.uploaded is Some ==> form.field(Some("file"@), file_name, content_type) is Err,
{
    reveal_strlit("openid");
    reveal_strlit("file_type");
    reveal_strlit("file");
    assert("openid"@.len() == 6 && "file_type"@.len() == 9 && "file"@.len() == 4);
}

/// A health check is answered that all is well, whatever the state of the service, and with
/// nothing else.
pub proof fn law_health_check_tells_that_all_is_well(name: Seq<char>)
    ensures
        member(ok_document(), "ok"@) == Some(JsonView::Bool(true)),
        member(ok_document(), name) is Some ==> name == "ok"@,
{
    let entries = seq![("ok"@, JsonView::Bool(true))];
    law_members_are_found(entries);
    assert(entries[0].0 == "ok"@);
}

/// A token holder who asks for the status is told that the gateway is connected exactly where it
/// is, whoever is bound, and that there is a default recipient exactly where there is one,
/// connected or not; and nothing else.
pub proof fn law_status_tells_both_facts_apart(
    state: AppStateView,
    authorization: Option<Seq<u8>>,
)
    requires
        state.authorizes(authorization),
    ensures
        status_outcome(state, authorization) matches Ok(document) && {
            &&& member(document, "connected"@) == Some(JsonView::Bool(state.connected))
            &&& state.recipient is Some ==> member(document, "bound"@) == Some(
                JsonView::Bool(true),
            )
            &&& state.recipient is None ==> member(document, "bound"@) == Some(
                JsonView::Bool(false),
            )
            &&& forall|name: Seq<char>| #[trigger]
                member(document, name) is Some ==> name == "connected"@ || name == "bound"@
        },
{
    reveal_strlit("connected");
    reveal_strlit("bound");
    assert("connected"@.len() == 9 && "bound"@.len() == 5);
    let entries = seq![
        ("connected"@, JsonView::Bool(state.connected)),
        ("bound"@, JsonView::Bool(state.recipient is Some)),
    ];
    law_members_are_found(entries);
    assert(entries[0].0 == "connected"@ && entries[1].0 == "bound"@);
}

/// A notification that was sent is answered with the number of its pieces.
pub proof fn law_notification_is_answered_with_its_pieces(chunks: nat)
    ensures
        member(notification_document(chunks), "ok"@) == Some(JsonView::Bool(true)),
        member(notification_document(chunks), "chunks"@) == Some(JsonView::Integer(chunks as int)),
        forall|name: Seq<char>| #[trigger]
            member(notification_document(chunks), name) is Some ==> name == "ok"@ || name
                == "chunks"@,
{
    reveal_strlit("ok");
    reveal_strlit("chunks");
    assert("ok"@.len() == 2 && "chunks"@.len() == 6);
    let entries = seq![
        ("ok"@, JsonView::Bool(true)),
        ("chunks"@, JsonView::Integer(chunks as int)),
    ];
    law_members_are_found(entries);
    assert(entries[0].0 == "ok"@ && entries[1].0 == "chunks"@);
}

/// An upload that was sent is answered with the name that the file was kept under and the word
/// for its kind: image or file.
pub proof fn law_upload_is_answered_with_its_file(request: MediaRequestView)
    ensures
        member(media_document(request), "ok"@) == Some(JsonView::Bool(true)),
        member(media_document(request), "file_name"@) == Some(
            JsonView::Text(request.uploaded.file_name),
        ),
        request.media_type == MediaType::Image ==> member(media_document(request), "file_type"@)
            == Some(JsonView::Text("image"@)),
        request.media_type == MediaType::File ==> member(media_document(request), "file_type"@)
            == Some(JsonView::Text("file"@)),
        forall|name: Seq<char>| #[trigger]
            member(media_document(request), name) is Some ==> name == "ok"@ || name == "file_name"@
                || name == "file_type"@,
{
    reveal_strlit("ok");
    reveal_strlit("file_name");
    reveal_strlit("file_type");
    assert("ok"@.len() == 2 && "file_name"@.len() == 9 && "file_type"@.len() == 9);
    assert("file_name"@[5] == 'n' && "file_type"@[5] == 't');
    let entries = seq![
        ("ok"@, JsonView::Bool(true)),
        ("file_name"@, JsonView::Text(request.uploaded.file_name)),
        ("file_type"@, JsonView::Text(request.media_type.label_spec())),
    ];
    law_members_are_found(entries);
    assert(entries[0].0 == "ok"@ && entries[1].0 == "file_name"@ && entries[2].0 == "file_type"@);
}

/// The user that a request names is the text of its member `openid`, whatever other members it
/// has. Without that member, or with null in its place, it names nobody; anything else there is
/// refused with the status 400.
pub proof fn law_openid_names_the_user(document: JsonView, openid: Seq<char>)
    ensures
        member(document, "openid"@) == Some(JsonView::Text(openid)) ==> requested_openid(document)
            == Ok::<_, ApiErrorView>(Some(openid)),
        member(document, "openid"@) is None || member(document, "openid"@) == Some(JsonView::Null)
            ==> requested_openid(document) == Ok::<_, ApiErrorView>(None::<Seq<char>>),
        member(document, "openid"@) matches Some(value) && value !is Null && value !is Text ==> (
        requested_openid(document) matches Err(error) && error.status == 400 && error.message
            == "openid 必须是字符串。"@),
{
}

/// Whether the text of a notification is this: its `summary`, or its `content` where it has no
/// `summary`.
pub open spec fn notifies(document: JsonView, content: Seq<char>) -> bool {
    ||| member(document, "summary"@) == Some(JsonView::Text(content))
    ||| member(document, "summary"@) is None && member(document, "content"@) == Some(
        JsonView::Text(content),
    )
}

/// A token holder's notification that names a user is delivered to that user, whoever is bound
/// and whether its text is a `summary` or a `content`: the pieces joined are the whole text.
pub proof fn law_notification_reaches_the_named_user(
    state: AppStateView,
    authorization: Option<Seq<u8>>,
    document: JsonView,
    content: Seq<char>,
    openid: Seq<char>,
)
    requires
        state.authorizes(authorization),
        notifies(document, content),
        !is_blank(content),
        member(document, "openid"@) == Some(JsonView::Text(openid)),
        openid.len() > 0,
    ensures
        task_completed_outcome(state, authorization, Some(document)) matches Ok(delivery)
            && delivery.recipient == openid && delivery.chunks.flatten() == content
            && delivery.sent == 0,
{
    law_text_is_delivered_whole(state, content, Some(openid), 0);
}

/// A token holder's notification that names nobody is delivered whole to the default recipient,
/// and refused with the status 412 where there is none.
pub proof fn law_notification_reaches_the_default_recipient(
    state: AppStateView,
    authorization: Option<Seq<u8>>,
    document: JsonView,
    content: Seq<char>,
    recipient: Seq<char>,
)
    requires
        state.authorizes(authorization),
        notifies(document, content),
        !is_blank(content),
        member(document, "openid"@) is None || member(document, "openid"@) == Some(JsonView::Null)
            || member(document, "openid"@) == Some(JsonView::Text(Seq::empty())),
    ensures
        state.recipient == Some(recipient) ==> (task_completed_outcome(
            state,
            authorization,
            Some(document),
        ) matches Ok(delivery) && delivery.recipient == recipient && delivery.chunks.flatten()
            == content && delivery.sent == 0),
        state.recipient is None ==> (task_completed_outcome(
            state,
            authorization,
            Some(document),
        ) matches Err(error) && error.status == 412),
{
    if state.recipient is Some {
        law_text_is_delivered_whole(state, content, None, 0);
        law_text_is_delivered_whole(state, content, Some(Seq::empty()), 0);
    }
}

/// What a token holder sends instead of a notification is refused with the status 400: a body
/// that is not JSON, a `summary` that is no text, no text at all, and a user that is named by no
/// text.
pub proof fn law_other_requests_are_no_notifications(
    state: AppStateView,
    authorization: Option<Seq<u8>>,
    document: JsonView,
)
    requires
        state.authorizes(authorization),
    ensures
        task_completed_outcome(state, authorization, None) matches Err(error) && error.status == 400
            && error.message == "请求体必须是 JSON。"@,
        !(exists|content: Seq<char>| #[trigger] notifies(document, content)) ==> (
        task_completed_outcome(state, authorization, Some(document)) matches Err(error)
            && error.status == 400 && error.message == "summary 或 content 必须是字符串。"@),
        (exists|content: Seq<char>| #[trigger] notifies(document, content)) && (member(
            document,
            "openid"@,
        ) matches Some(value) && value !is Null && value !is Text) ==> (task_completed_outcome(
            state,
            authorization,
            Some(document),
        ) matches Err(error) && error.status == 400 && error.message == "openid 必须是字符串。"@),
{
    if let Some(content) = notification_content(document) {
        assert(notifies(document, content));
    }
}

/// A notification depends on nothing in its body but its `summary`, its `content` and its
/// `openid`: two bodies that agree there come to the same.
pub proof fn law_other_members_do_not_matter(
    state: AppStateView,
    authorization: Option<Seq<u8>>,
    a: JsonView,
    b: JsonView,
)
    requires
        member(a, "content"@) == member(b, "content"@),
        member(a, "openid"@) == member(b, "openid"@),
    ensures
        member(a, "summary"@) == member(b, "summary"@) ==> task_completed_outcome(
            state,
            authorization,
            Some(a),
        ) == task_completed_outcome(state, authorization, Some(b)),
        send_markdown_outcome(state, authorization, Some(a)) == send_markdown_outcome(
            state,
            authorization,
            Some(b),
        ),
{
}

/// A token holder's Markdown goes out as it is, to the user that the request names, whoever is
/// bound; where it names nobody, to the default recipient; and where there is none, it is
/// refused with the status 412.
pub proof fn law_markdown_reaches_its_user(
    state: AppStateView,
    authorization: Option<Seq<u8>>,
    document: JsonView,
    content: Seq<char>,
    openid: Seq<char>,
)
    requires
        state.authorizes(authorization),
        member(document, "content"@) == Some(JsonView::Text(content)),
        !is_blank(content),
    ensures
        ({
            let outcome = send_markdown_outcome(state, authorization, Some(document));
            let named = member(document, "openid"@);
            let nobody = named is None || named == Some(JsonView::Null) || named == Some(
                JsonView::Text(Seq::empty()),
            );
            &&& named == Some(JsonView::Text(openid)) && openid.len() > 0 ==> (outcome matches Ok(
                message,
            ) && message.recipient == openid && message.content == content)
            &&& nobody && state.recipient == Some(openid) ==> (outcome matches Ok(message)
                && message.recipient == openid && message.content == content)
            &&& nobody && state.recipient is None ==> (outcome matches Err(error) && error.status
                == 412)
        }),
{
}

/// What a token holder sends instead of Markdown is refused with the status 400: a body that is
/// not JSON, a `content` that is no text or is blank, and a user that is named by no text.
pub proof fn law_other_requests_are_no_markdown(
    state: AppStateView,
    authorization: Option<Seq<u8>>,
    document: JsonView,
    content: Seq<char>,
)
    requires
        state.authorizes(authorization),
    ensures
        send_markdown_outcome(state, authorization, None) matches Err(error) && error.status == 400
            && error.message == "请求体必须是 JSON。"@,
        !(member(document, "content"@) matches Some(JsonView::Text(_))) ==> (send_markdown_outcome(
            state,
            authorization,
            Some(document),
        ) matches Err(error) && error.status == 400 && error.message
            == "content 必须是 Markdown 字符串。"@),
        member(document, "content"@) == Some(JsonView::Text(content)) && is_blank(content) ==> (
        send_markdown_outcome(state, authorization, Some(document)) matches Err(error)
            && error.status == 400),
        (member(document, "openid"@) matches Some(value) && value !is Null && value !is Text) ==> (
        send_markdown_outcome(state, authorization, Some(document)) matches Err(error)
            && error.status == 400),
{
}

/// The kind that a request asks for counts, with whitespace around it or not, and whatever the
/// file is: `image` and `1` are an image, `file` and `4` are a file, and anything else is refused
/// with the status 400.
pub proof fn law_requested_kind_counts(
    before: Seq<char>,
    word: Seq<char>,
    after: Seq<char>,
    uploaded: UploadedMediaView,
)
    requires
        is_blank(before),
        is_blank(after),
        word.len() > 0,
        !is_whitespace(word.first()),
        !is_whitespace(word.last()),
    ensures
        ({
            let kind = media_type_of(Some(before + word + after), uploaded);
            &&& word == "image"@ || word == "1"@ ==> kind == Ok::<_, ApiErrorView>(MediaType::Image)
            &&& word == "file"@ || word == "4"@ ==> kind == Ok::<_, ApiErrorView>(MediaType::File)
            &&& word != "image"@ && word != "1"@ && word != "file"@ && word != "4"@ ==> (
            kind matches Err(error) && error.status == 400 && error.message
                == "file_type 只能是 image 或 file。"@)
        }),
{
    law_trimming_takes_only_the_margins(before, word, after);
    reveal_strlit("image");
    reveal_strlit("1");
    reveal_strlit("file");
    reveal_strlit("4");
    assert("image"@.len() == 5 && "1"@.len() == 1 && "file"@.len() == 4 && "4"@.len() == 1);
    assert("1"@[0] == '1' && "4"@[0] == '4');
}

/// Where no kind is asked for, a file with an image content type or with the name of an image is
/// an image, and any other is a file. It is never refused.
pub proof fn law_kind_is_found_by_content_type_and_name(
    requested_type: Option<Seq<char>>,
    uploaded: UploadedMediaView,
    subtype: Seq<char>,
)
    requires
        requested_type matches Some(text) ==> is_blank(text),
    ensures
        uploaded.content_type == Some("image/"@ + subtype) ==> media_type_of(
            requested_type,
            uploaded,
        ) == Ok::<_, ApiErrorView>(MediaType::Image),
        names_image(uploaded.file_name) ==> media_type_of(requested_type, uploaded) == Ok::<
            _,
            ApiErrorView,
        >(MediaType::Image),
        media_type_of(requested_type, uploaded) == Ok::<_, ApiErrorView>(MediaType::Image)
            && !names_image(uploaded.file_name) ==> exists|rest: Seq<char>|
            uploaded.content_type == Some(#[trigger] ("image/"@ + rest)),
        media_type_of(requested_type, uploaded) is Ok,
{
    law_prefix_begins_the_text("image/"@ + subtype, "image/"@, subtype);
    if let Some(content_type) = uploaded.content_type {
        law_prefix_begins_the_text(content_type, "image/"@, subtype);
        if has_prefix(content_type, "image/"@) {
            let rest = content_type.skip("image/"@.len() as int);
            assert(uploaded.content_type == Some("image/"@ + rest));
        }
    }
}

/// A field of a form is taken for what its name says. The text of `openid` and of `file_type`
/// is kept as it is; a file is kept under its last component, with its content type and with as
/// many bytes as came; each takes nothing away from the form. A field with another name, or
/// without one, is refused with the status 400.
pub proof fn law_fields_are_kept_as_they_came(form: UploadFormView, entry: FormEntry)
    ensures
        form.receive(entry) matches Ok(next) ==> {
            &&& entry.name == Some("openid"@) ==> {
                &&& entry.text is Some && next.openid == entry.text && form.openid is None
                &&& next.requested_type == form.requested_type && next.uploaded == form.uploaded
            }
            &&& entry.name == Some("file_type"@) ==> {
                &&& entry.text is Some && next.requested_type == entry.text
                    && form.requested_type is None
                &&& next.openid == form.openid && next.uploaded == form.uploaded
            }
            &&& entry.name == Some("file"@) ==> {
                &&& form.uploaded is None
                &&& next.uploaded matches Some(uploaded)
                &&& Some(uploaded.file_name) == sanitized(entry.file_name)
                &&& uploaded.content_type == entry.content_type
                &&& uploaded.size == total_length(entry.pieces)
                &&& next.openid == form.openid && next.requested_type == form.requested_type
            }
            &&& entry.name == Some("openid"@) || entry.name == Some("file_type"@) || entry.name
                == Some("file"@)
        },
        entry.name != Some("openid"@) && entry.name != Some("file_type"@) && entry.name != Some(
            "file"@,
        ) ==> (form.receive(entry) matches Err(error) && error.status == 400),
        entry.name == Some("openid"@) ==> (form.receive(entry) is Ok <==> form.openid is None
            && entry.text is Some),
        entry.name == Some("file_type"@) ==> (form.receive(entry) is Ok <==> form.requested_type
            is None && entry.text is Some),
        form.receive(entry) matches Err(error) ==> error.status == 400 || error.status == 413,
{
    reveal_strlit("openid");
    reveal_strlit("file_type");
    reveal_strlit("file");
    assert("openid"@.len() == 6 && "file_type"@.len() == 9 && "file"@.len() == 4);
    if let Ok(FormFieldView::File(file)) = form.field(
        entry.name,
        entry.file_name,
        entry.content_type,
    ) {
        lemma_pieces_count_by_their_sum(file, entry.pieces);
    }
}

/// The first file of a form is taken where its path ends in a name that may be kept and it has
/// from one byte to 200 mebibytes. One with more bytes is refused with the status 413, and an
/// empty one with 400.
pub proof fn law_file_size_has_its_limits(form: UploadFormView, entry: FormEntry)
    requires
        entry.name == Some("file"@),
        form.uploaded is None,
        sanitized(entry.file_name) is Some,
    ensures
        0 < total_length(entry.pieces) <= 209_715_200 ==> form.receive(entry) is Ok,
        total_length(entry.pieces) > 209_715_200 ==> (form.receive(entry) matches Err(error)
            && error.status == 413),
        total_length(entry.pieces) == 0 ==> (form.receive(entry) matches Err(error) && error.status
            == 400),
{
    reveal_strlit("openid");
    reveal_strlit("file_type");
    reveal_strlit("file");
    assert("openid"@.len() == 6 && "file_type"@.len() == 9 && "file"@.len() == 4);
    if let Ok(FormFieldView::File(file)) = form.field(
        entry.name,
        entry.file_name,
        entry.content_type,
    ) {
        lemma_pieces_count_by_their_sum(file, entry.pieces);
    }
}

proof fn lemma_form_keeps_what_it_has(form: UploadFormView, entries: Seq<FormEntry>)
    requires
        form.receive_all(entries) is Ok,
    ensures
        form.openid is Some ==> form.receive_all(entries)->Ok_0.openid == form.openid,
        form.requested_type is Some ==> form.receive_all(entries)->Ok_0.requested_type
            == form.requested_type,
        form.uploaded is Some ==> form.receive_all(entries)->Ok_0.uploaded == form.uploaded,
    decreases entries.len(),
{
    if entries.len() > 0 {
        law_fields_are_kept_as_they_came(form, entries.first());
        lemma_form_keeps_what_it_has(form.receive(entries.first())->Ok_0, entries.drop_first());
    }
}

proof fn lemma_form_holds_its_fields(form: UploadFormView, entries: Seq<FormEntry>, i: int)
    requires
        form.receive_all(entries) is Ok,
        0 <= i < entries.len(),
    ensures
        ({
            let held = form.receive_all(entries)->Ok_0;
            &&& entries[i].name == Some("openid"@) ==> held.openid == entries[i].text
                && entries[i].text is Some
            &&& entries[i].name == Some("file_type"@) ==> held.requested_type == entries[i].text
                && entries[i].text is Some
            &&& entries[i].name == Some("file"@) ==> {
                &&& held.uploaded matches Some(uploaded)
                &&& Some(uploaded.file_name) == sanitized(entries[i].file_name)
                &&& uploaded.content_type == entries[i].content_type
                &&& uploaded.size == total_length(entries[i].pieces)
            }
        }),
    decreases entries.len(),
{
    law_fields_are_kept_as_they_came(form, entries.first());
    let next = form.receive(entries.first())->Ok_0;
    if i == 0 {
        lemma_form_keeps_what_it_has(next, entries.drop_first());
    } else {
        lemma_form_holds_its_fields(next, entries.drop_first(), i - 1);
    }
}

proof fn lemma_form_holds_nothing_else(form: UploadFormView, entries: Seq<FormEntry>)
    requires
        form.receive_all(entries) is Ok,
    ensures
        (forall|i: int| 0 <= i < entries.len() ==> (#[trigger] entries[i]).name != Some("openid"@))
            ==> form.receive_all(entries)->Ok_0.openid == form.openid,
        (forall|i: int|
            0 <= i < entries.len() ==> (#[trigger] entries[i]).name != Some("file_type"@))
            ==> form.receive_all(entries)->Ok_0.requested_type == form.requested_type,
    decreases entries.len(),
{
    if entries.len() > 0 {
        let rest = entries.drop_first();
        law_fields_are_kept_as_they_came(form, entries.first());
        lemma_form_holds_nothing_else(form.receive(entries.first())->Ok_0, rest);
        assert(forall|i: int| 0 <= i < rest.len() ==> (#[trigger] rest[i]) == entries[i + 1]);
        assert(entries[0] == entries.first());
    }
}

/// What an upload asks for is what its form held: the user is the text of its field `openid`,
/// the kind is the one that its field `file_type` asks for, and the file is the one of its field
/// `file`, whole.
pub proof fn law_upload_asks_for_what_the_form_held(entries: Seq<FormEntry>, i: int)
    requires
        0 <= i < entries.len(),
    ensures
        upload_outcome(entries) matches Ok(request) ==> {
            &&& entries[i].name == Some("openid"@) ==> request.openid == entries[i].text
                && entries[i].text is Some
            &&& entries[i].name == Some("file_type"@) ==> media_type_of(
                entries[i].text,
                request.uploaded,
            ) == Ok::<_, ApiErrorView>(request.media_type)
            &&& entries[i].name == Some("file"@) ==> {
                &&& Some(request.uploaded.file_name) == sanitized(entries[i].file_name)
                &&& request.uploaded.content_type == entries[i].content_type
                &&& request.uploaded.size == total_length(entries[i].pieces)
                &&& 0 < request.uploaded.size <= 209_715_200
            }
        },
{
    if upload_outcome(entries) is Ok {
        lemma_form_holds_its_fields(empty_form(), entries, i);
        lemma_uploads_are_within_limits(empty_form(), entries);
    }
}

proof fn lemma_uploads_are_within_limits(form: UploadFormView, entries: Seq<FormEntry>)
    requires
        form.receive_all(entries) is Ok,
        form.uploaded matches Some(uploaded) ==> 0 < uploaded.size <= 209_715_200,
    ensures
        form.receive_all(entries)->Ok_0.uploaded matches Some(uploaded) ==> 0 < uploaded.size
            <= 209_715_200,
    decreases entries.len(),
{
    if entries.len() > 0 {
        let entry = entries.first();
        law_fields_are_kept_as_they_came(form, entry);
        if entry.name == Some("file"@) {
            law_file_size_has_its_limits(form, entry);
        }
        lemma_uploads_are_within_limits(form.receive(entry)->Ok_0, entries.drop_first());
    }
}

/// An upload whose form has no field `openid` names nobody, and one without a field `file_type`
/// asks for no kind. One without a field `file` is refused with the status 400.
pub proof fn law_upload_asks_for_nothing_else(entries: Seq<FormEntry>)
    ensures
        upload_outcome(entries) matches Ok(request) ==> {
            &&& (forall|i: int|
                0 <= i < entries.len() ==> (#[trigger] entries[i]).name != Some("openid"@))
                ==> request.openid is None
            &&& (forall|i: int|
                0 <= i < entries.len() ==> (#[trigger] entries[i]).name != Some("file_type"@))
                ==> media_type_of(None, request.uploaded) == Ok::<_, ApiErrorView>(
                request.media_type,
            )
        },
        entries.len() == 0 ==> (upload_outcome(entries) matches Err(error) && error.status == 400
            && error.message == "请求缺少 file 文件字段。"@),
{
    if empty_form().receive_all(entries) is Ok {
        lemma_form_holds_nothing_else(empty_form(), entries);
    }
}

/// A form with one field of each kind, a file within the limits and a kind that there is, is
/// taken: nothing that an upload may hold is refused.
pub proof fn law_proper_upload_is_taken(openid: FormEntry, file_type: FormEntry, file: FormEntry)
    requires
        openid.name == Some("openid"@) && openid.text is Some,
        file_type.name == Some("file_type"@) && file_type.text is Some,
        file.name == Some("file"@) && sanitized(file.file_name) is Some,
        0 < total_length(file.pieces) <= 209_715_200,
        file_type.text == Some("image"@) || file_type.text == Some("file"@),
    ensures
        upload_outcome(seq![openid, file_type, file]) matches Ok(request) && {
            &&& request.openid == openid.text
            &&& file_type.text == Some("image"@) <==> request.media_type == MediaType::Image
            &&& Some(request.uploaded.file_name) == sanitized(file.file_name)
            &&& request.uploaded.size == total_length(file.pieces)
        },
{
    reveal_strlit("openid");
    reveal_strlit("file_type");
    reveal_strlit("file");
    reveal_strlit("image");
    assert("openid"@.len() == 6 && "file_type"@.len() == 9 && "file"@.len() == 4 && "image"@.len()
        == 5);
    let entries = seq![openid, file_type, file];
    let first = empty_form().receive(openid)->Ok_0;
    let second = first.receive(file_type)->Ok_0;
    law_fields_are_kept_as_they_came(empty_form(), openid);
    law_fields_are_kept_as_they_came(first, file_type);
    law_fields_are_kept_as_they_came(second, file);
    law_file_size_has_its_limits(second, file);
    let third = second.receive(file)->Ok_0;
    assert(entries.drop_first() =~= seq![file_type, file]);
    assert(seq![file_type, file].drop_first() =~= seq![file]);
    assert(seq![file].drop_first() =~= Seq::<FormEntry>::empty());
    assert(third.receive_all(Seq::empty()) == Ok::<_, ApiErrorView>(third));
    assert(second.receive_all(seq![file]) == Ok::<_, ApiErrorView>(third));
    assert(first.receive_all(seq![file_type, file]) == Ok::<_, ApiErrorView>(third));
    assert(empty_form().receive_all(entries) == Ok::<_, ApiErrorView>(third));
    let none = Seq::<char>::empty();
    assert(none + "image"@ + none =~= "image"@);
    assert(none + "file"@ + none =~= "file"@);
    assert("image"@[0] == 'i' && "image"@[4] == 'e' && "file"@[0] == 'f' && "file"@[3] == 'e');
    law_requested_kind_counts(none, "image"@, none, third.uploaded->0);
    law_requested_kind_counts(none, "file"@, none, third.uploaded->0);
}

/// A form that was read to its end asks for the file, the user and the kind that it holds, and
/// is refused only where there is no file or no such kind.
pub proof fn law_finished_form_is_a_request(form: UploadFormView)
    ensures
        match (form.uploaded, form.finish()) {
            (None, outcome) => outcome matches Err(error) && error.status == 400 && error.message
                == "请求缺少 file 文件字段。"@,
            (Some(uploaded), Ok(request)) => {
                &&& request.uploaded == uploaded
                &&& request.openid == form.openid
                &&& media_type_of(form.requested_type, uploaded) == Ok::<_, ApiErrorView>(
                    request.media_type,
                )
            },
            (Some(uploaded), Err(error)) => media_type_of(form.requested_type, uploaded) == Err::<
                MediaType,
                _,
            >(error),
        },
{
}

/// What a Markdown request and an upload ask for is shown with all that it holds.
pub proof fn law_requests_show_what_they_hold(message: MarkdownMessage, request: MediaRequest)
    ensures
        message@.recipient == message.recipient@,
        message@.content == message.content@,
        request@.uploaded == request.uploaded@,
        request@.media_type == request.media_type,
        request@.openid is Some <==> request.openid is Some,
        request.openid is Some ==> request@.openid == Some(request.openid->0@),
{
}

} // verus!
