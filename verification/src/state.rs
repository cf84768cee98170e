//! What the service knows (its token, its default recipient, whether the gateway is
//! connected) and what follows from it for a request: who may send, to whom, in which pieces,
//! and how a refused request is answered.
use crate::digest::{constant_time_eq, sha256_digest, sha256_sum};
use crate::headers::{header_text, is_visible};
use crate::media::{MediaType, UploadedMedia, UploadedMediaView};
use crate::text::{
    blank, is_blank, is_whitespace, law_blank_text_trims_to_nothing,
    law_trailing_whitespace_is_trimmed, law_trimming_takes_only_the_margins, optional_string,
    optional_text, trim, trimmed,
};
use crate::transfer::{MediaJob, MediaJobView};
use vstd::prelude::*;
use vstd::utf8::encode_utf8;

verus! {

pub const BAD_REQUEST: u16 = 400;

pub const UNAUTHORIZED: u16 = 401;

pub const PRECONDITION_FAILED: u16 = 412;

pub const PAYLOAD_TOO_LARGE: u16 = 413;

pub const INTERNAL_SERVER_ERROR: u16 = 500;

pub const BAD_GATEWAY: u16 = 502;

/// The most characters that one message carries.
pub const MAX_CONTENT_LENGTH: usize = 4_000;

/// The permissions of the recipient file: its owner may read and write it, and nobody else.
pub const RECIPIENT_FILE_MODE: u32 = 0o600;

/// What a user is told whose private message made them the default recipient.
pub const BINDING_REPLY: &'static str = "已绑定通知接收人。之后任务完成时会发送最后汇报。";

/// The model of an [`ApiError`].
pub struct ApiErrorView {
    pub status: u16,
    pub message: Seq<char>,
    pub bearer_challenge: bool,
}

/// How a request is refused.
#[derive(Clone, Copy, Debug)]
pub struct ApiError {
    pub status: u16,
    pub message: &'static str,
    pub bearer_challenge: bool,
}

/// A refusal without a challenge.
pub open spec fn refusal(status: u16, message: Seq<char>) -> ApiErrorView {
    ApiErrorView { status, message, bearer_challenge: false }
}

/// The refusal of a request that does not carry the token.
pub open spec fn unauthorized_refusal() -> ApiErrorView {
    ApiErrorView {
        status: UNAUTHORIZED,
        message: "需要 Authorization: Bearer <QQBOT_API_TOKEN>"@,
        bearer_challenge: true,
    }
}

/// The model of an [`ErrorResponse`].
pub struct ErrorResponseView {
    pub status: u16,
    pub www_authenticate: Option<Seq<char>>,
    pub body: Seq<char>,
}

/// A refusal as it goes out. Only a challenge carries a `WWW-Authenticate` header.
pub open spec fn response_of(error: ApiErrorView) -> ErrorResponseView {
    ErrorResponseView {
        status: error.status,
        www_authenticate: if error.bearer_challenge {
            Some("Bearer"@)
        } else {
            None
        },
        body: error.message,
    }
}

/// A refusal as it goes out: the status, the `WWW-Authenticate` header if there is one, and
/// the body.
#[derive(Debug)]
pub struct ErrorResponse {
    pub status: u16,
    pub www_authenticate: Option<&'static str>,
    pub body: &'static str,
}

impl ErrorResponse {
    /// The model of the response.
    pub open spec fn view(&self) -> ErrorResponseView {
        ErrorResponseView {
            status: self.status,
            www_authenticate: optional_text(self.www_authenticate),
            body: self.body@,
        }
    }
}

impl ApiError {
    /// The model of the refusal.
    pub open spec fn view(&self) -> ApiErrorView {
        ApiErrorView {
            status: self.status,
            message: self.message@,
            bearer_challenge: self.bearer_challenge,
        }
    }

    /// A refusal without a challenge.
    pub fn new(status: u16, message: &'static str) -> (r: ApiError)
        ensures
            r@ == refusal(status, message@),
    {
        ApiError { status, message, bearer_challenge: false }
    }

    /// The refusal of a request that does not carry the token.
    pub fn unauthorized() -> (r: ApiError)
        ensures
            r@ == unauthorized_refusal(),
    {
        ApiError {
            status: UNAUTHORIZED,
            message: "需要 Authorization: Bearer <QQBOT_API_TOKEN>",
            bearer_challenge: true,
        }
    }

    /// The refusal as it goes out. Only a challenge carries a `WWW-Authenticate` header.
    pub fn into_response(self) -> (r: ErrorResponse)
        ensures
            r@ == response_of(self@),
            r.status == self@.status,
            r.body@ == self@.message,
            optional_text(r.www_authenticate) == if self@.bearer_challenge {
                Some("Bearer"@)
            } else {
                None
            },
    {
        ErrorResponse {
            status: self.status,
            www_authenticate: if self.bearer_challenge {
                Some("Bearer")
            } else {
                None
            },
            body: self.message,
        }
    }
}

/// The model of an [`AppState`].
pub struct AppStateView {
    pub api_token_hash: Seq<u8>,
    pub recipient: Option<Seq<char>>,
    pub connected: bool,
}

/// What the service knows.
pub struct AppState {
    api_token_hash: [u8; 32],
    recipient: Option<String>,
    connected: bool,
}

/// The value of the `Authorization` header that a token holder sends.
pub open spec fn bearer_value(api_token: Seq<char>) -> Seq<char> {
    "Bearer "@ + api_token
}

/// The recipient that the contents of the recipient file name; no file and a blank file name
/// none.
pub open spec fn stored_recipient(contents: Option<Seq<char>>) -> Option<Seq<char>> {
    match contents {
        Some(contents) => if is_blank(contents) {
            None
        } else {
            Some(trimmed(contents))
        },
        None => None,
    }
}

/// The contents of the recipient file for a recipient.
pub open spec fn recipient_file_contents(openid: Seq<char>) -> Seq<char> {
    openid + "\n"@
}

/// What counts as supplied by an `Authorization` header: its value where it shows as text, and
/// nothing where it does not or is missing.
pub open spec fn supplied_credentials(authorization: Option<Seq<u8>>) -> Seq<u8> {
    match authorization {
        Some(value) => if is_visible(value) {
            value
        } else {
            Seq::empty()
        },
        None => Seq::empty(),
    }
}

/// The bytes of a header that may be missing.
pub open spec fn optional_bytes(value: Option<&[u8]>) -> Option<Seq<u8>> {
    match value {
        Some(value) => Some(value@),
        None => None,
    }
}

/// The pieces that a content is sent in: one for each stretch of as many characters as one
/// message carries, the last one with what is left.
pub open spec fn chunks_of(content: Seq<char>) -> Seq<Seq<char>> {
    Seq::new(chunk_count(content.len()), |i: int| chunk(content, i))
}

/// How many pieces a content of so many characters is sent in.
pub open spec fn chunk_count(length: nat) -> nat {
    if length == 0 {
        1
    } else {
        (length - 1) as nat / MAX_CONTENT_LENGTH as nat + 1
    }
}

/// The piece at an index.
pub open spec fn chunk(content: Seq<char>, index: int) -> Seq<char> {
    let start = index * MAX_CONTENT_LENGTH;
    let end = start + MAX_CONTENT_LENGTH;
    content.subrange(
        start,
        if end < content.len() {
            end
        } else {
            content.len() as int
        },
    )
}

/// The model of a [`MessageDelivery`]: to whom, which pieces, and how many of them are sent.
pub struct DeliveryView {
    pub recipient: Seq<char>,
    pub chunks: Seq<Seq<char>>,
    pub sent: nat,
}

/// Whether two different texts have one SHA-256 checksum.
pub open spec fn sha256_collides(a: Seq<u8>, b: Seq<u8>) -> bool {
    a != b && sha256_sum(a) == sha256_sum(b)
}

/// The model of a [`DeliveryStep`].
pub enum DeliveryStepView {
    Send,
    Done(nat),
    Failed(ApiErrorView),
}

impl DeliveryView {
    /// The delivery after the current piece was sent or failed.
    pub open spec fn after(self, sent: bool) -> DeliveryView {
        if sent {
            DeliveryView { sent: self.sent + 1, ..self }
        } else {
            self
        }
    }

    /// What is to be done after the current piece was sent or failed.
    pub open spec fn step(self, sent: bool) -> DeliveryStepView {
        if !sent {
            DeliveryStepView::Failed(refusal(BAD_GATEWAY, "QQ 消息发送失败。"@))
        } else if self.sent + 1 < self.chunks.len() {
            DeliveryStepView::Send
        } else {
            DeliveryStepView::Done(self.sent + 1)
        }
    }
}

/// What comes of a request whose message was sent to QQ or failed.
pub open spec fn sending_result(sent: bool, message: Seq<char>) -> Result<(), ApiErrorView> {
    if sent {
        Ok(())
    } else {
        Err(refusal(BAD_GATEWAY, message))
    }
}

impl AppStateView {
    /// Whether this is the token of the service.
    pub open spec fn holds_token(self, api_token: Seq<char>) -> bool {
        self.api_token_hash == sha256_sum(encode_utf8(bearer_value(api_token)))
    }

    /// Whether an `Authorization` header carries the token.
    pub open spec fn authorizes(self, authorization: Option<Seq<u8>>) -> bool {
        sha256_sum(supplied_credentials(authorization)) == self.api_token_hash
    }

    /// To whom a request is sent: the user it names, else the default recipient.
    pub open spec fn recipient_for(self, openid: Option<Seq<char>>) -> Result<
        Seq<char>,
        ApiErrorView,
    > {
        match openid {
            Some(openid) if openid.len() > 0 => Ok(openid),
            _ => match self.recipient {
                Some(recipient) => Ok(recipient),
                None => Err(
                    refusal(
                        PRECONDITION_FAILED,
                        "尚未绑定 openid，请先向机器人发送一条消息。"@,
                    ),
                ),
            },
        }
    }

    /// What sending a text comes to: a delivery of which nothing is sent yet, or a refusal.
    pub open spec fn send_message(self, content: Seq<char>, openid: Option<Seq<char>>) -> Result<
        DeliveryView,
        ApiErrorView,
    > {
        match self.recipient_for(openid) {
            Err(error) => Err(error),
            Ok(recipient) => if is_blank(content) {
                Err(refusal(BAD_REQUEST, "content 不能为空。"@))
            } else {
                Ok(DeliveryView { recipient, chunks: chunks_of(content), sent: 0 })
            },
        }
    }

    /// To whom a Markdown text is sent, or why it is refused.
    pub open spec fn send_markdown(self, content: Seq<char>, openid: Option<Seq<char>>) -> Result<
        Seq<char>,
        ApiErrorView,
    > {
        if is_blank(content) {
            Err(refusal(BAD_REQUEST, "Markdown content 不能为空。"@))
        } else {
            self.recipient_for(openid)
        }
    }

    /// Which file goes to whom, or why it is refused.
    pub open spec fn send_uploaded_media(
        self,
        media: UploadedMediaView,
        media_type: MediaType,
        openid: Option<Seq<char>>,
    ) -> Result<MediaJobView, ApiErrorView> {
        match self.recipient_for(openid) {
            Err(error) => Err(error),
            Ok(recipient) => Ok(
                MediaJobView {
                    openid: recipient,
                    file_name: media.file_name,
                    media_type,
                    file_size: media.size,
                },
            ),
        }
    }
}

impl AppState {
    /// The model of the state.
    pub closed spec fn view(&self) -> AppStateView {
        AppStateView {
            api_token_hash: self.api_token_hash@,
            recipient: optional_string(self.recipient),
            connected: self.connected,
        }
    }

    /// The state at the start, from the token and from the contents of the recipient file, if
    /// there is one.
    pub fn new(api_token: &str, recipient_file: Option<&str>) -> (r: AppState)
        ensures
            r@.holds_token(api_token@),
            r@.recipient == stored_recipient(optional_text(recipient_file)),
            !r@.connected,
    {
        let mut expected = "Bearer ".to_owned();
        expected.append(api_token);
        AppState {
            api_token_hash: sha256_digest(expected.as_str().as_bytes()),
            recipient: load_recipient(recipient_file),
            connected: false,
        }
    }

    /// Makes a user the default recipient, in place of whoever was it before.
    pub fn save_recipient(&mut self, openid: String)
        ensures
            final(self)@ == (AppStateView { recipient: Some(openid@), ..old(self)@ }),
    {
        self.recipient = Some(openid);
    }

    /// Records whether the gateway is connected.
    pub fn set_connected(&mut self, connected: bool)
        ensures
            final(self)@ == (AppStateView { connected, ..old(self)@ }),
    {
        self.connected = connected;
    }

    /// Whether the gateway is connected.
    pub fn connected(&self) -> (r: bool)
        ensures
            r == self@.connected,
    {
        self.connected
    }

    /// The default recipient.
    pub fn recipient(&self) -> (r: Option<String>)
        ensures
            optional_string(r) == self@.recipient,
    {
        match &self.recipient {
            Some(openid) => Some(openid.clone()),
            None => None,
        }
    }

    /// To whom a request is sent: the user it names, else the default recipient.
    pub fn recipient_for(&self, openid: Option<&str>) -> (r: Result<String, ApiError>)
        ensures
            self@.recipient_for(optional_text(openid)) == match r {
                Ok(recipient) => Ok(recipient@),
                Err(error) => Err(error@),
            },
    {
        if let Some(openid) = openid {
            if !openid.is_empty() {
                return Ok(openid.to_owned());
            }
        }
        match self.recipient() {
            Some(recipient) => Ok(recipient),
            None => Err(
                ApiError::new(
                    PRECONDITION_FAILED,
                    "尚未绑定 openid，请先向机器人发送一条消息。",
                ),
            ),
        }
    }

    /// Prepares a text for sending: finds the recipient, refuses a blank text and cuts the
    /// rest into pieces.
    pub fn send_message(&self, content: &str, openid: Option<&str>) -> (r: Result<
        MessageDelivery,
        ApiError,
    >)
        ensures
            self@.send_message(content@, optional_text(openid)) == match r {
                Ok(delivery) => Ok(delivery@),
                Err(error) => Err(error@),
            },
            r matches Ok(delivery) ==> delivery.wf(),
    {
        let recipient = match self.recipient_for(openid) {
            Ok(recipient) => recipient,
            Err(error) => {
                return Err(error);
            },
        };
        if blank(content) {
            return Err(ApiError::new(BAD_REQUEST, "content 不能为空。"));
        }
        let chunks = split_message(content);
        Ok(MessageDelivery { recipient, chunks, sent: 0 })
    }

    /// Prepares a Markdown text for sending: refuses a blank one and finds the recipient.
    pub fn send_markdown(&self, content: &str, openid: Option<&str>) -> (r: Result<
        String,
        ApiError,
    >)
        ensures
            self@.send_markdown(content@, optional_text(openid)) == match r {
                Ok(recipient) => Ok(recipient@),
                Err(error) => Err(error@),
            },
    {
        if blank(content) {
            return Err(ApiError::new(BAD_REQUEST, "Markdown content 不能为空。"));
        }
        self.recipient_for(openid)
    }

    /// Prepares an uploaded file for sending: finds the recipient.
    pub fn send_uploaded_media(
        &self,
        media: &UploadedMedia,
        media_type: MediaType,
        openid: Option<&str>,
    ) -> (r: Result<MediaJob, ApiError>)
        ensures
            self@.send_uploaded_media(media@, media_type, optional_text(openid)) == match r {
                Ok(job) => Ok(job@),
                Err(error) => Err(error@),
            },
    {
        match self.recipient_for(openid) {
            Ok(recipient) => Ok(
                MediaJob {
                    openid: recipient,
                    file_name: media.file_name.clone(),
                    media_type,
                    file_size: media.size,
                },
            ),
            Err(error) => Err(error),
        }
    }
}

/// What comes of sending a Markdown text.
pub fn markdown_result(sent: bool) -> (r: Result<(), ApiError>)
    ensures
        sending_result(sent, "QQ Markdown 消息发送失败。"@) == match r {
            Ok(()) => Ok(()),
            Err(error) => Err(error@),
        },
        match r {
            Ok(()) => sent,
            Err(error) => !sent && error@ == refusal(BAD_GATEWAY, "QQ Markdown 消息发送失败。"@),
        },
{
    if sent {
        Ok(())
    } else {
        Err(ApiError::new(BAD_GATEWAY, "QQ Markdown 消息发送失败。"))
    }
}

/// What comes of uploading and sending a medium.
pub fn media_result(sent: bool) -> (r: Result<(), ApiError>)
    ensures
        sending_result(sent, "QQ 媒体上传或发送失败。"@) == match r {
            Ok(()) => Ok(()),
            Err(error) => Err(error@),
        },
        match r {
            Ok(()) => sent,
            Err(error) => !sent && error@ == refusal(BAD_GATEWAY, "QQ 媒体上传或发送失败。"@),
        },
{
    if sent {
        Ok(())
    } else {
        Err(ApiError::new(BAD_GATEWAY, "QQ 媒体上传或发送失败。"))
    }
}

/// The recipient that the contents of the recipient file name.
pub fn load_recipient(contents: Option<&str>) -> (r: Option<String>)
    ensures
        optional_string(r) == stored_recipient(optional_text(contents)),
{
    match contents {
        Some(contents) => if blank(contents) {
            None
        } else {
            Some(trim(contents).to_owned())
        },
        None => None,
    }
}

/// The contents of the recipient file for a recipient.
pub fn recipient_file_text(openid: &str) -> (r: String)
    ensures
        r@ == recipient_file_contents(openid@),
{
    let mut contents = openid.to_owned();
    contents.append("\n");
    contents
}

/// Lets a request pass that carries the token, by the checksum of its `Authorization` header.
pub fn authenticate(state: &AppState, authorization: Option<&[u8]>) -> (r: Result<(), ApiError>)
    ensures
        match r {
            Ok(()) => state@.authorizes(optional_bytes(authorization)),
            Err(error) => !state@.authorizes(optional_bytes(authorization)) && error@
                == unauthorized_refusal(),
        },
{
    let mut supplied = String::new();
    if let Some(value) = authorization {
        if let Some(text) = header_text(value) {
            supplied = text;
        }
    }
    assert(encode_utf8(Seq::<char>::empty()) == Seq::<u8>::empty());
    let supplied_hash = sha256_digest(supplied.as_str().as_bytes());
    if constant_time_eq(&supplied_hash, &state.api_token_hash) {
        Ok(())
    } else {
        Err(ApiError::unauthorized())
    }
}

/// Texts by their characters.
pub open spec fn string_views(texts: Seq<String>) -> Seq<Seq<char>> {
    Seq::new(texts.len(), |i: int| texts[i]@)
}

/// The pieces that a content is sent in.
pub fn split_message(content: &str) -> (chunks: Vec<String>)
    ensures
        string_views(chunks@) == chunks_of(content@),
{
    let mut chunks: Vec<String> = Vec::new();
    let mut current = String::new();
    let mut characters: usize = 0;
    for c in iter: content.chars()
        invariant
            iter.seq() == content@,
            characters == current@.len(),
            characters <= MAX_CONTENT_LENGTH,
            iter.index() > 0 ==> characters > 0,
            iter.index() == chunks@.len() * MAX_CONTENT_LENGTH + characters,
            current@ == content@.subrange(
                chunks@.len() * MAX_CONTENT_LENGTH,
                iter.index(),
            ),
            forall|i: int| 0 <= i < chunks@.len() ==> (#[trigger] chunks@[i])@ == chunk(content@, i),
    {
        if characters == MAX_CONTENT_LENGTH {
            assert(current@ == chunk(content@, chunks@.len() as int));
            chunks.push(current);
            current = String::new();
            characters = 0;
        }
        current.push(c);
        characters += 1;
    }
    assert(current@ == chunk(content@, chunks@.len() as int));
    chunks.push(current);
    assert(chunks@.len() == chunk_count(content@.len()));
    assert(string_views(chunks@) =~= chunks_of(content@));
    chunks
}

/// What is to be done after a piece was sent or failed.
#[derive(Debug)]
pub enum DeliveryStep {
    /// Send the next piece.
    Send,
    /// Every piece is sent; there were so many.
    Done(usize),
    /// A piece failed: the rest is not sent, and the request is answered so.
    Failed(ApiError),
}

impl DeliveryStep {
    /// The model of the step.
    pub open spec fn view(&self) -> DeliveryStepView {
        match self {
            DeliveryStep::Send => DeliveryStepView::Send,
            DeliveryStep::Done(count) => DeliveryStepView::Done(*count as nat),
            DeliveryStep::Failed(error) => DeliveryStepView::Failed(error@),
        }
    }
}

/// A text on its way to a recipient, piece by piece.
#[derive(Debug)]
pub struct MessageDelivery {
    recipient: String,
    chunks: Vec<String>,
    sent: usize,
}

impl MessageDelivery {
    /// The model of the delivery.
    pub closed spec fn view(&self) -> DeliveryView {
        DeliveryView {
            recipient: self.recipient@,
            chunks: string_views(self.chunks@),
            sent: self.sent as nat,
        }
    }

    /// A piece is left to be sent.
    pub open spec fn wf(&self) -> bool {
        self@.sent < self@.chunks.len()
    }

    /// To whom the text goes.
    pub fn recipient(&self) -> (r: &str)
        ensures
            r@ == self@.recipient,
    {
        self.recipient.as_str()
    }

    /// The piece to be sent now.
    pub fn current(&self) -> (r: &str)
        requires
            self.wf(),
        ensures
            r@ == self@.chunks[self@.sent as int],
    {
        self.chunks[self.sent].as_str()
    }

    /// Decides after the current piece was sent or failed.
    pub fn after_send(&mut self, sent: bool) -> (r: DeliveryStep)
        requires
            old(self).wf(),
        ensures
            final(self)@ == old(self)@.after(sent),
            r@ == old(self)@.step(sent),
            final(self)@ == (DeliveryView {
                sent: if sent {
                    old(self)@.sent + 1
                } else {
                    old(self)@.sent
                },
                ..old(self)@
            }),
            match r {
                DeliveryStep::Send => sent && final(self).wf(),
                DeliveryStep::Done(count) => sent && count == old(self)@.sent + 1 == old(
                    self,
                )@.chunks.len(),
                DeliveryStep::Failed(error) => !sent && error@ == refusal(
                    BAD_GATEWAY,
                    "QQ 消息发送失败。"@,
                ),
            },
    {
        if !sent {
            return DeliveryStep::Failed(ApiError::new(BAD_GATEWAY, "QQ 消息发送失败。"));
        }
        let total: usize = self.chunks.len();
        self.sent = self.sent + 1;
        if self.sent < total {
            DeliveryStep::Send
        } else {
            DeliveryStep::Done(self.sent)
        }
    }
}

/// A token holder is let in: the header that carries `Bearer ` and the service's token passes,
/// where it shows as text at all.
pub proof fn law_token_holder_is_authorized(state: AppStateView, api_token: Seq<char>)
    requires
        state.holds_token(api_token),
        is_visible(encode_utf8("Bearer "@ + api_token)),
    ensures
        state.authorizes(Some(encode_utf8("Bearer "@ + api_token))),
{
}

/// Nobody but a token holder is let in: a header that passes is `Bearer ` and the token, unless
/// what it supplies happens to have the SHA-256 checksum of that text.
pub proof fn law_only_the_token_is_let_in(
    state: AppStateView,
    api_token: Seq<char>,
    authorization: Option<Seq<u8>>,
)
    requires
        state.holds_token(api_token),
        !sha256_collides(
            supplied_credentials(authorization),
            encode_utf8("Bearer "@ + api_token),
        ),
    ensures
        state.authorizes(authorization) ==> authorization == Some(
            encode_utf8("Bearer "@ + api_token),
        ),
{
    reveal_strlit("Bearer ");
    let expected = encode_utf8("Bearer "@ + api_token);
    assert(("Bearer "@ + api_token)[0] == 'B');
    assert(expected.len() > 0);
}

/// A header that is missing or does not show as text passes for an empty one.
pub proof fn law_unreadable_header_counts_as_empty(
    state: AppStateView,
    authorization: Option<Seq<u8>>,
)
    requires
        authorization matches Some(value) ==> !is_visible(value),
    ensures
        state.authorizes(authorization) == state.authorizes(Some(Seq::empty())),
{
}

/// The user that a request names receives it, whoever the default recipient is.
pub proof fn law_named_user_receives(state: AppStateView, openid: Seq<char>)
    requires
        openid.len() > 0,
    ensures
        state.recipient_for(Some(openid)) == Ok::<_, ApiErrorView>(openid),
{
}

/// A request that names no user, or names one by an empty text, goes to the default recipient;
/// where there is none it is refused with the status that tells so.
pub proof fn law_default_recipient_receives(state: AppStateView, openid: Option<Seq<char>>)
    requires
        openid matches Some(openid) ==> openid.len() == 0,
    ensures
        match (state.recipient, state.recipient_for(openid)) {
            (Some(recipient), outcome) => outcome == Ok::<_, ApiErrorView>(recipient),
            (None, Ok(_)) => false,
            (None, Err(error)) => error.status == 412 && !error.bearer_challenge && error.message
                == "尚未绑定 openid，请先向机器人发送一条消息。"@,
        },
{
}

/// A recipient that is stored is the recipient that is loaded, up to whitespace around it.
pub proof fn law_stored_recipient_is_loaded(openid: Seq<char>)
    ensures
        stored_recipient(Some(recipient_file_contents(openid))) == if is_blank(openid) {
            None
        } else {
            Some(trimmed(openid))
        },
        trimmed(openid) == openid && openid.len() > 0 ==> stored_recipient(
            Some(recipient_file_contents(openid)),
        ) == Some(openid),
{
    reveal_strlit("\n");
    assert(recipient_file_contents(openid) == openid.push('\n'));
    law_trailing_whitespace_is_trimmed(openid, '\n');
    law_blank_text_trims_to_nothing(openid);
}

/// A content that one message carries is sent as it is, in one piece.
pub proof fn law_short_content_is_one_piece(content: Seq<char>)
    requires
        content.len() <= MAX_CONTENT_LENGTH,
    ensures
        chunks_of(content) == seq![content],
{
    assert(chunk_count(content.len()) == 1);
    assert(chunk(content, 0) == content);
    assert(chunks_of(content) =~= seq![content]);
}

/// No piece is longer than one message carries, and every piece but the last is as long as
/// that; of a content that is not empty no piece is empty.
pub proof fn law_pieces_fit_a_message(content: Seq<char>, index: int)
    requires
        0 <= index < chunks_of(content).len(),
    ensures
        chunks_of(content)[index].len() <= MAX_CONTENT_LENGTH,
        index < chunks_of(content).len() - 1 ==> chunks_of(content)[index].len()
            == MAX_CONTENT_LENGTH,
        content.len() > 0 ==> chunks_of(content)[index].len() > 0,
{
}

/// The first pieces joined are the beginning of the content, and all of them joined are the
/// content.
pub proof fn law_pieces_join_to_the_content(content: Seq<char>, count: nat)
    requires
        count <= chunks_of(content).len(),
    ensures
        chunks_of(content).take(count as int).flatten() == content.take(
            if count * MAX_CONTENT_LENGTH < content.len() {
                count * MAX_CONTENT_LENGTH
            } else {
                content.len() as int
            },
        ),
        chunks_of(content).flatten() == content,
{
    lemma_pieces_join(content, count);
    lemma_pieces_join(content, chunks_of(content).len());
    assert(chunks_of(content).take(chunks_of(content).len() as int) == chunks_of(content));
    assert(content.take(content.len() as int) == content);
}

proof fn lemma_pieces_join(content: Seq<char>, count: nat)
    requires
        count <= chunks_of(content).len(),
    ensures
        chunks_of(content).take(count as int).flatten() == content.take(
            if count * MAX_CONTENT_LENGTH < content.len() {
                count * MAX_CONTENT_LENGTH
            } else {
                content.len() as int
            },
        ),
    decreases count,
{
    let chunks = chunks_of(content);
    if count == 0 {
        assert(chunks.take(0) =~= Seq::<Seq<char>>::empty());
        assert(content.take(0) =~= Seq::<char>::empty());
    } else {
        let before = chunks.take(count - 1);
        lemma_pieces_join(content, (count - 1) as nat);
        assert(chunks.take(count as int) =~= before.push(chunks[count - 1]));
        before.lemma_flatten_push(chunks[count - 1]);
        assert(chunks[count - 1] == chunk(content, count - 1));
    }
}

/// What has been sent of a text at any time, joined, is the beginning of the text; when every
/// piece is sent it is the text.
pub proof fn law_sent_pieces_are_a_beginning(content: Seq<char>, delivery: DeliveryView)
    requires
        delivery.chunks == chunks_of(content),
        delivery.sent <= delivery.chunks.len(),
    ensures
        delivery.chunks.take(delivery.sent as int).flatten().is_prefix_of(content),
        delivery.sent == delivery.chunks.len() ==> delivery.chunks.take(
            delivery.sent as int,
        ).flatten() == content,
{
    law_pieces_join_to_the_content(content, delivery.sent);
    if delivery.sent == delivery.chunks.len() {
        assert(delivery.chunks.take(delivery.sent as int) == delivery.chunks);
    }
}

/// The refusal of a request without the token has the status 401 and challenges for a bearer
/// token; any other refusal has the status and the text that it was made with, and no challenge.
pub proof fn law_refusals_go_out_as_they_are(status: u16, message: Seq<char>)
    ensures
        response_of(unauthorized_refusal()).status == 401,
        response_of(unauthorized_refusal()).www_authenticate == Some("Bearer"@),
        response_of(unauthorized_refusal()).body
            == "需要 Authorization: Bearer <QQBOT_API_TOKEN>"@,
        response_of(refusal(status, message)).status == status,
        response_of(refusal(status, message)).www_authenticate is None,
        response_of(refusal(status, message)).body == message,
{
}

/// What could not be sent to QQ is answered with the status 502, and what was sent is not
/// refused.
pub proof fn law_failed_sending_is_a_bad_gateway(message: Seq<char>)
    ensures
        sending_result(true, message) is Ok,
        sending_result(false, message) matches Err(error) && error.status == 502 && error.message
            == message && !error.bearer_challenge,
{
}

/// A text that is not blank is delivered: to the user that the request names, or else to the
/// default recipient, and in pieces that joined are just that text. No piece has more than 4000
/// characters, and there are no more of them than that takes. Nothing is sent yet.
pub proof fn law_text_is_delivered_whole(
    state: AppStateView,
    content: Seq<char>,
    openid: Option<Seq<char>>,
    i: int,
)
    requires
        !is_blank(content),
        state.recipient is Some || (openid is Some && openid->0.len() > 0),
    ensures
        state.send_message(content, openid) matches Ok(delivery) && {
            &&& openid is Some && openid->0.len() > 0 ==> delivery.recipient == openid->0
            &&& openid is None || openid->0.len() == 0 ==> Some(delivery.recipient)
                == state.recipient
            &&& delivery.sent == 0
            &&& delivery.chunks.flatten() == content
            &&& 0 <= i < delivery.chunks.len() ==> delivery.chunks[i].len() <= 4000
            &&& (delivery.chunks.len() - 1) * 4000 < content.len() <= delivery.chunks.len() * 4000
        },
{
    if content.len() == 0 {
        assert(is_blank(content));
    }
    law_pieces_join_to_the_content(content, 0);
    if 0 <= i < chunks_of(content).len() {
        law_pieces_fit_a_message(content, i);
    }
}

/// A text that nobody is there to receive is refused with the status 412, blank or not; a blank
/// text that somebody would receive is refused with 400.
pub proof fn law_undeliverable_text_is_refused(
    state: AppStateView,
    content: Seq<char>,
    openid: Option<Seq<char>>,
)
    ensures
        ({
            let named = openid is Some && openid->0.len() > 0;
            &&& state.recipient is None && !named ==> (state.send_message(content, openid) matches Err(
                error,
            ) && error.status == 412)
            &&& (state.recipient is Some || named) && is_blank(content) ==> (state.send_message(
                content,
                openid,
            ) matches Err(error) && error.status == 400 && error.message == "content 不能为空。"@)
        }),
{
}

/// A Markdown text that is not blank goes to the user that the request names, or else to the
/// default recipient; where there is neither it is refused with the status 412. A blank one is
/// refused with 400, whoever would receive it.
pub proof fn law_markdown_finds_its_recipient(
    state: AppStateView,
    content: Seq<char>,
    openid: Option<Seq<char>>,
)
    ensures
        ({
            let named = openid is Some && openid->0.len() > 0;
            let outcome = state.send_markdown(content, openid);
            &&& is_blank(content) ==> (outcome matches Err(error) && error.status == 400
                && error.message == "Markdown content 不能为空。"@)
            &&& !is_blank(content) && named ==> outcome == Ok::<_, ApiErrorView>(openid->0)
            &&& !is_blank(content) && !named && state.recipient is Some ==> outcome == Ok::<
                _,
                ApiErrorView,
            >(state.recipient->0)
            &&& !is_blank(content) && !named && state.recipient is None ==> (outcome matches Err(
                error,
            ) && error.status == 412)
        }),
{
}

/// An uploaded file goes, under its own name, of its own size and as the kind that was decided,
/// to the user that the request names, or else to the default recipient; where there is neither
/// it is refused with the status 412.
pub proof fn law_uploaded_file_finds_its_recipient(
    state: AppStateView,
    media: UploadedMediaView,
    media_type: MediaType,
    openid: Option<Seq<char>>,
)
    ensures
        ({
            let named = openid is Some && openid->0.len() > 0;
            let outcome = state.send_uploaded_media(media, media_type, openid);
            &&& outcome matches Ok(job) ==> {
                &&& job.file_name == media.file_name
                &&& job.media_type == media_type
                &&& job.file_size == media.size
                &&& Some(job.openid) == if named {
                    openid
                } else {
                    state.recipient
                }
            }
            &&& outcome is Ok <==> named || state.recipient is Some
            &&& outcome matches Err(error) ==> error.status == 412
        }),
{
}

/// The recipient that a file names is what stands in it between whitespace; a file with nothing
/// but whitespace, and no file, name nobody.
pub proof fn law_recipient_file_names_the_user(
    before: Seq<char>,
    openid: Seq<char>,
    after: Seq<char>,
)
    requires
        is_blank(before),
        is_blank(after),
        openid.len() > 0,
        !is_whitespace(openid.first()),
        !is_whitespace(openid.last()),
    ensures
        stored_recipient(Some(before + openid + after)) == Some(openid),
        stored_recipient(Some(before)) is None,
        stored_recipient(None) is None,
{
    law_trimming_takes_only_the_margins(before, openid, after);
}

/// The pieces of a delivery are sent one after the other to one recipient: each success moves on
/// to the next piece, the last one ends the delivery and tells how many there were, and the first
/// failure ends it with the status 502, with that piece unsent.
pub proof fn law_pieces_are_sent_in_turn(delivery: DeliveryView)
    requires
        delivery.sent < delivery.chunks.len(),
    ensures
        delivery.after(true).sent == delivery.sent + 1,
        delivery.after(true).chunks == delivery.chunks,
        delivery.after(true).recipient == delivery.recipient,
        delivery.after(false) == delivery,
        delivery.step(true) is Send <==> delivery.sent + 1 < delivery.chunks.len(),
        delivery.sent + 1 == delivery.chunks.len() ==> delivery.step(true)
            == DeliveryStepView::Done(delivery.chunks.len()),
        delivery.step(false) matches DeliveryStepView::Failed(error) && error.status == 502
            && error.message == "QQ 消息发送失败。"@,
{
}

/// The pieces of a text and the bytes of a header are shown as they are, each in its place.
pub proof fn law_pieces_and_headers_show_what_they_hold(
    texts: Seq<String>,
    i: int,
    value: &[u8],
    error: ApiError,
)
    ensures
        string_views(texts).len() == texts.len(),
        0 <= i < texts.len() ==> string_views(texts)[i] == texts[i]@,
        optional_bytes(Some(value)) == Some(value@),
        optional_bytes(None) is None,
        error@.status == error.status && error@.message == error.message@
            && error@.bearer_challenge == error.bearer_challenge,
{
}

/// What a request supplies is its header, byte for byte, where every byte of it is visible ASCII,
/// a space or a tab; a header with any other byte, and a missing one, supply nothing.
pub proof fn law_supplied_is_the_visible_header(value: Seq<u8>, i: int)
    ensures
        (forall|j: int|
            0 <= j < value.len() ==> 32 <= #[trigger] value[j] <= 126 || value[j] == 9)
            ==> supplied_credentials(Some(value)) == value,
        0 <= i < value.len() && value[i] != 9 && (value[i] < 32 || value[i] > 126)
            ==> supplied_credentials(Some(value)) == Seq::<u8>::empty(),
        supplied_credentials(None) == Seq::<u8>::empty(),
{
}

} // verus!
