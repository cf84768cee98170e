//! The QQ interface: its addresses, the documents that it is sent, and the access token that
//! it asks for.
use crate::headers::{header_accepts, is_header_text};
use crate::json::{
    entry, law_members_are_found, member, object, text_of, unsigned_of, Json, JsonView, Payload,
};
use crate::media::MediaType;
use crate::text::{
    decimal, law_decimal_reads_back, optional_string, optional_text, parse_u64, u64_to_decimal,
    u64_value,
};
use vstd::prelude::*;

verus! {

/// The address that all requests but the one for a token begin with.
pub const QQ_API_BASE: &'static str = "https://api.sgroup.qq.com";

/// The address that gives access tokens.
pub const QQ_TOKEN_URL: &'static str = "https://bots.qq.com/app/getAppAccessToken";

/// Nanoseconds in a second.
pub const NANOS_PER_SECOND: u128 = 1_000_000_000;

/// The latest time: what a clock shows that counts seconds in 64 bits, in nanoseconds.
pub const MAX_TIME: u128 = 18_446_744_073_709_551_615_999_999_999;

/// How many seconds before its end a token is given up.
pub const TOKEN_MARGIN_SECONDS: u64 = 60;

/// Why a request to the QQ interface is not made or did not succeed.
#[derive(Clone, Copy, Debug, PartialEq, Eq, Structural)]
pub enum QqError {
    InvalidExpiry,
    TokenNotCached,
    InvalidAuthorization,
    InvalidAppId,
    NoParts,
    InvalidBlockSize,
    InvalidPart,
    PartTooLarge,
    PartsTooSmall,
    /// A transfer was told of something that it had not asked for.
    OutOfTurn,
}

impl QqError {
    /// The error in words.
    pub open spec fn message_spec(self) -> Seq<char> {
        match self {
            QqError::InvalidExpiry => "QQ AppAccessToken 响应缺少有效 expires_in"@,
            QqError::TokenNotCached => "QQ AppAccessToken 缓存失败"@,
            QqError::InvalidAuthorization => "QQ 授权头无效"@,
            QqError::InvalidAppId => "QQ App ID 无效"@,
            QqError::NoParts => "QQ 私聊媒体预上传未返回分片"@,
            QqError::InvalidBlockSize => "QQ 私聊媒体预上传返回的分片大小无效"@,
            QqError::InvalidPart => "QQ 私聊媒体预上传返回了无效分片"@,
            QqError::PartTooLarge => "QQ 分片大小超出本机限制"@,
            QqError::PartsTooSmall => "QQ 私聊媒体预上传返回的分片不足以容纳文件"@,
            QqError::OutOfTurn => "QQ 私聊媒体上传步骤顺序错误"@,
        }
    }

    /// The error in words.
    pub fn message(self) -> (r: &'static str)
        ensures
            r@ == self.message_spec(),
    {
        match self {
            QqError::InvalidExpiry => "QQ AppAccessToken 响应缺少有效 expires_in",
            QqError::TokenNotCached => "QQ AppAccessToken 缓存失败",
            QqError::InvalidAuthorization => "QQ 授权头无效",
            QqError::InvalidAppId => "QQ App ID 无效",
            QqError::NoParts => "QQ 私聊媒体预上传未返回分片",
            QqError::InvalidBlockSize => "QQ 私聊媒体预上传返回的分片大小无效",
            QqError::InvalidPart => "QQ 私聊媒体预上传返回了无效分片",
            QqError::PartTooLarge => "QQ 分片大小超出本机限制",
            QqError::PartsTooSmall => "QQ 私聊媒体预上传返回的分片不足以容纳文件",
            QqError::OutOfTurn => "QQ 私聊媒体上传步骤顺序错误",
        }
    }
}

/// The address of one of a user's resources.
pub open spec fn user_address(openid: Seq<char>, resource: Seq<char>) -> Seq<char> {
    QQ_API_BASE@ + "/v2/users/"@ + openid + "/"@ + resource
}

/// The address that gives the gateway's address.
pub fn gateway_address() -> (r: String)
    ensures
        r@ == QQ_API_BASE@ + "/gateway/bot"@,
{
    let mut address = QQ_API_BASE.to_owned();
    address.append("/gateway/bot");
    address
}

fn user_url(openid: &str, resource: &str) -> (r: String)
    ensures
        r@ == user_address(openid@, resource@),
{
    let mut address = QQ_API_BASE.to_owned();
    address.append("/v2/users/");
    address.append(openid);
    address.append("/");
    address.append(resource);
    address
}

/// Where messages for a user go.
pub fn messages_url(openid: &str) -> (r: String)
    ensures
        r@ == user_address(openid@, "messages"@),
{
    user_url(openid, "messages")
}

/// Where an upload for a user is prepared.
pub fn upload_prepare_url(openid: &str) -> (r: String)
    ensures
        r@ == user_address(openid@, "upload_prepare"@),
{
    user_url(openid, "upload_prepare")
}

/// Where a part of an upload for a user is confirmed.
pub fn upload_part_finish_url(openid: &str) -> (r: String)
    ensures
        r@ == user_address(openid@, "upload_part_finish"@),
{
    user_url(openid, "upload_part_finish")
}

/// Where an upload for a user is completed.
pub fn files_url(openid: &str) -> (r: String)
    ensures
        r@ == user_address(openid@, "files"@),
{
    user_url(openid, "files")
}

/// The document of a text message. One that answers a message names it.
pub open spec fn text_message(content: Seq<char>, msg_id: Option<Seq<char>>) -> JsonView {
    match msg_id {
        None => object(
            seq![("msg_type"@, JsonView::Integer(0)), ("content"@, JsonView::Text(content))],
        ),
        Some(msg_id) => object(
            seq![
                ("msg_type"@, JsonView::Integer(0)),
                ("content"@, JsonView::Text(content)),
                ("msg_id"@, JsonView::Text(msg_id)),
                ("msg_seq"@, JsonView::Integer(1)),
            ],
        ),
    }
}

/// The document of a text message.
pub fn text_payload(content: &str, msg_id: Option<&str>) -> (r: Payload)
    ensures
        r@ == text_message(content@, optional_text(msg_id)),
{
    let mut entries = vec![
        entry("msg_type", Payload::UInt(0)),
        entry("content", Payload::Text(content.to_owned())),
    ];
    if let Some(msg_id) = msg_id {
        entries.push(entry("msg_id", Payload::Text(msg_id.to_owned())));
        entries.push(entry("msg_seq", Payload::UInt(1)));
        assert(Payload::entry_views(entries@) =~= seq![
            ("msg_type"@, JsonView::Integer(0)),
            ("content"@, JsonView::Text(content@)),
            ("msg_id"@, JsonView::Text(msg_id@)),
            ("msg_seq"@, JsonView::Integer(1)),
        ]);
    } else {
        assert(Payload::entry_views(entries@) =~= seq![
            ("msg_type"@, JsonView::Integer(0)),
            ("content"@, JsonView::Text(content@)),
        ]);
    }
    Payload::Object(entries)
}

/// The document of a Markdown message.
pub open spec fn markdown_message(content: Seq<char>) -> JsonView {
    object(
        seq![
            ("msg_type"@, JsonView::Integer(2)),
            ("markdown"@, object(seq![("content"@, JsonView::Text(content))])),
        ],
    )
}

/// The document of a Markdown message.
pub fn markdown_payload(content: &str) -> (r: Payload)
    ensures
        r@ == markdown_message(content@),
{
    let inner = vec![entry("content", Payload::Text(content.to_owned()))];
    assert(Payload::entry_views(inner@) =~= seq![("content"@, JsonView::Text(content@))]);
    let entries = vec![
        entry("msg_type", Payload::UInt(2)),
        entry("markdown", Payload::Object(inner)),
    ];
    assert(Payload::entry_views(entries@) =~= seq![
        ("msg_type"@, JsonView::Integer(2)),
        ("markdown"@, object(seq![("content"@, JsonView::Text(content@))])),
    ]);
    Payload::Object(entries)
}

/// The document of a message that shows an uploaded medium.
pub open spec fn media_message(file_info: Seq<char>) -> JsonView {
    object(
        seq![
            ("msg_type"@, JsonView::Integer(7)),
            ("media"@, object(seq![("file_info"@, JsonView::Text(file_info))])),
        ],
    )
}

/// The document of a message that shows an uploaded medium.
pub fn media_payload(file_info: &str) -> (r: Payload)
    ensures
        r@ == media_message(file_info@),
{
    let inner = vec![entry("file_info", Payload::Text(file_info.to_owned()))];
    assert(Payload::entry_views(inner@) =~= seq![("file_info"@, JsonView::Text(file_info@))]);
    let entries = vec![
        entry("msg_type", Payload::UInt(7)),
        entry("media", Payload::Object(inner)),
    ];
    assert(Payload::entry_views(entries@) =~= seq![
        ("msg_type"@, JsonView::Integer(7)),
        ("media"@, object(seq![("file_info"@, JsonView::Text(file_info@))])),
    ]);
    Payload::Object(entries)
}

/// The model of a [`PostRequest`].
pub struct PostRequestView {
    pub url: Seq<char>,
    pub payload: JsonView,
}

/// A document that is posted to an address.
#[derive(Debug)]
pub struct PostRequest {
    pub url: String,
    pub payload: Payload,
}

impl PostRequest {
    /// The model of the request.
    pub open spec fn view(&self) -> PostRequestView {
        PostRequestView { url: self.url@, payload: self.payload@ }
    }
}

/// The request that sends a user a message.
pub open spec fn message_request(openid: Seq<char>, payload: JsonView) -> PostRequestView {
    PostRequestView { url: user_address(openid, "messages"@), payload }
}

/// The request that sends a user a text message.
pub fn send_c2c(openid: &str, content: &str, msg_id: Option<&str>) -> (r: PostRequest)
    ensures
        r@ == message_request(openid@, text_message(content@, optional_text(msg_id))),
{
    PostRequest { url: messages_url(openid), payload: text_payload(content, msg_id) }
}

/// The request that sends a user a Markdown message.
pub fn send_c2c_markdown(openid: &str, content: &str) -> (r: PostRequest)
    ensures
        r@ == message_request(openid@, markdown_message(content@)),
{
    PostRequest { url: messages_url(openid), payload: markdown_payload(content) }
}

/// The request that sends a user a message that shows an uploaded medium.
pub fn send_c2c_media(openid: &str, file_info: &str) -> (r: PostRequest)
    ensures
        r@ == message_request(openid@, media_message(file_info@)),
{
    PostRequest { url: messages_url(openid), payload: media_payload(file_info) }
}

/// Whether the status of an answer tells of success.
pub open spec fn is_success(status: u16) -> bool {
    200 <= status < 300
}

/// Whether a message was taken, by the status of the answer: one that tells of success.
pub fn message_accepted(status: u16) -> (r: bool)
    ensures
        r == is_success(status),
{
    200 <= status && status < 300
}

/// The model of an [`AccessToken`]: the token and when it is given up.
pub struct AccessTokenView {
    pub value: Seq<char>,
    pub expires_at: nat,
}

/// An access token and the time, in nanoseconds, from which it is not used any more.
pub struct AccessToken {
    value: String,
    expires_at: u128,
}

/// What the token endpoint answers.
pub struct TokenResponse {
    pub access_token: String,
    pub expires_in: Json,
}

/// For how many seconds a token is good, by what its endpoint says: a number or a text that
/// writes one.
pub open spec fn expiry_of(expires_in: JsonView) -> Option<u64> {
    match unsigned_of(Some(expires_in)) {
        Some(seconds) => Some(seconds),
        None => match text_of(Some(expires_in)) {
            Some(text) => u64_value(text),
            None => None,
        },
    }
}

/// For how many seconds a token is used: a minute less than it is good, and at least one.
pub open spec fn usable_seconds(expires_in: u64) -> u64 {
    if expires_in > TOKEN_MARGIN_SECONDS {
        (expires_in - TOKEN_MARGIN_SECONDS) as u64
    } else {
        1
    }
}

/// For how many seconds a token is good.
pub fn expires_in_seconds(expires_in: &Json) -> (r: Option<u64>)
    ensures
        r == expiry_of(expires_in@),
{
    match expires_in.as_u64() {
        Some(seconds) => Some(seconds),
        None => match expires_in.as_str() {
            Some(text) => parse_u64(text),
            None => None,
        },
    }
}

/// For how many seconds a token is used.
pub fn cache_seconds(expires_in: u64) -> (r: u64)
    ensures
        r == usable_seconds(expires_in),
        r >= 1,
{
    let seconds: u64 = expires_in.saturating_sub(TOKEN_MARGIN_SECONDS);
    if seconds < 1 {
        1
    } else {
        seconds
    }
}

/// The model of a [`QQApi`].
pub struct QQApiView {
    pub app_id: Seq<char>,
    pub app_secret: Seq<char>,
    pub token: Option<AccessTokenView>,
}

/// The document that asks for a token.
pub open spec fn token_document(account: QQApiView) -> JsonView {
    object(
        seq![
            ("appId"@, JsonView::Text(account.app_id)),
            ("clientSecret"@, JsonView::Text(account.app_secret)),
        ],
    )
}

/// How a request comes by its `Authorization` header.
pub enum AuthorizationStep {
    /// With this value.
    Use(String),
    /// After waiting until no other request is fetching a token: then look again.
    Lock,
    /// With a token that this request gives.
    Fetch(PostRequest),
}

/// The model of an [`AuthorizationStep`].
pub enum AuthorizationStepView {
    Use(Seq<char>),
    Lock,
    Fetch(PostRequestView),
}

impl AuthorizationStep {
    /// The model of the step.
    pub open spec fn view(&self) -> AuthorizationStepView {
        match self {
            AuthorizationStep::Use(value) => AuthorizationStepView::Use(value@),
            AuthorizationStep::Lock => AuthorizationStepView::Lock,
            AuthorizationStep::Fetch(request) => AuthorizationStepView::Fetch(request@),
        }
    }
}

/// What a token is sent as.
pub open spec fn authorization_value(token: Seq<char>) -> Seq<char> {
    "QQBot "@ + token
}

impl QQApiView {
    /// The token that may be used at a time.
    pub open spec fn valid_token(self, now: nat) -> Option<Seq<char>> {
        match self.token {
            Some(token) => if now < token.expires_at {
                Some(token.value)
            } else {
                None
            },
            None => None,
        }
    }

    /// What goes into the `Authorization` header at a time, where there is a token to use.
    pub open spec fn authorization(self, now: nat) -> Option<Seq<char>> {
        match self.valid_token(now) {
            Some(token) => Some(authorization_value(token)),
            None => None,
        }
    }

    /// How a request comes by its `Authorization` header at a time, given whether no other
    /// request is fetching a token.
    pub open spec fn authorization_step(self, now: nat, locked: bool) -> AuthorizationStepView {
        match self.authorization(now) {
            Some(value) => AuthorizationStepView::Use(value),
            None => if locked {
                AuthorizationStepView::Fetch(
                    PostRequestView { url: QQ_TOKEN_URL@, payload: token_document(self) },
                )
            } else {
                AuthorizationStepView::Lock
            },
        }
    }

    /// The account with a token that was given at a time, in place of the one before.
    pub open spec fn store_token(
        self,
        access_token: Seq<char>,
        expires_in: JsonView,
        now: nat,
    ) -> Result<QQApiView, QqError> {
        match expiry_of(expires_in) {
            Some(seconds) => Ok(
                QQApiView {
                    token: Some(
                        AccessTokenView {
                            value: access_token,
                            expires_at: now + usable_seconds(seconds) as nat
                                * NANOS_PER_SECOND as nat,
                        },
                    ),
                    ..self
                },
            ),
            None => Err(QqError::InvalidExpiry),
        }
    }
}

/// The headers of a request: who sends it, and for which bot.
pub open spec fn request_headers(
    authorization: Seq<char>,
    app_id: Seq<char>,
) -> Seq<(Seq<char>, Seq<char>)> {
    seq![("Authorization"@, authorization), ("X-Union-Appid"@, app_id)]
}

/// Names and values by their characters.
pub open spec fn header_views(headers: Seq<(String, String)>) -> Seq<(Seq<char>, Seq<char>)> {
    Seq::new(headers.len(), |i: int| (headers[i].0@, headers[i].1@))
}

/// The account of the bot at QQ and the access token that was given for it.
pub struct QQApi {
    app_id: String,
    app_secret: String,
    token: Option<AccessToken>,
}

impl QQApi {
    /// The model of the account.
    pub closed spec fn view(&self) -> QQApiView {
        QQApiView {
            app_id: self.app_id@,
            app_secret: self.app_secret@,
            token: match self.token {
                Some(token) => Some(
                    AccessTokenView { value: token.value@, expires_at: token.expires_at as nat },
                ),
                None => None,
            },
        }
    }

    /// The account, without a token yet.
    pub fn new(app_id: String, app_secret: String) -> (r: QQApi)
        ensures
            r@ == (QQApiView { app_id: app_id@, app_secret: app_secret@, token: None }),
    {
        QQApi { app_id, app_secret, token: None }
    }

    /// The token, as long as it may be used.
    pub fn valid_token(&self, now: u128) -> (r: Option<String>)
        ensures
            optional_string(r) == self@.valid_token(now as nat),
    {
        match &self.token {
            Some(token) => if now < token.expires_at {
                Some(token.value.clone())
            } else {
                None
            },
            None => None,
        }
    }

    /// What goes into the `Authorization` header; nothing where a token must be fetched first.
    pub fn authorization(&self, now: u128) -> (r: Option<String>)
        ensures
            optional_string(r) == self@.authorization(now as nat),
    {
        match self.valid_token(now) {
            Some(token) => {
                let mut value = "QQBot ".to_owned();
                value.append(token.as_str());
                Some(value)
            },
            None => None,
        }
    }

    /// Decides how a request comes by its `Authorization` header: with the token that there is;
    /// else, once no other request is fetching a token and there is still none to use, with one
    /// that is fetched.
    pub fn authorization_step(&self, now: u128, locked: bool) -> (r: AuthorizationStep)
        ensures
            r@ == self@.authorization_step(now as nat, locked),
            match r {
                AuthorizationStep::Use(value) => self@.authorization(now as nat) == Some(value@),
                AuthorizationStep::Lock => self@.authorization(now as nat) is None && !locked,
                AuthorizationStep::Fetch(request) => {
                    &&& self@.authorization(now as nat) is None
                    &&& locked
                    &&& request@ == PostRequestView {
                        url: QQ_TOKEN_URL@,
                        payload: token_document(self@),
                    }
                },
            },
    {
        match self.authorization(now) {
            Some(value) => AuthorizationStep::Use(value),
            None => if locked {
                AuthorizationStep::Fetch(
                    PostRequest { url: QQ_TOKEN_URL.to_owned(), payload: self.token_request() },
                )
            } else {
                AuthorizationStep::Lock
            },
        }
    }

    /// The document that asks for a token.
    pub fn token_request(&self) -> (r: Payload)
        ensures
            r@ == token_document(self@),
    {
        let entries = vec![
            entry("appId", Payload::Text(self.app_id.clone())),
            entry("clientSecret", Payload::Text(self.app_secret.clone())),
        ];
        assert(Payload::entry_views(entries@) =~= seq![
            ("appId"@, JsonView::Text(self@.app_id)),
            ("clientSecret"@, JsonView::Text(self@.app_secret)),
        ]);
        Payload::Object(entries)
    }

    /// Keeps a token that was given at a time, in place of the one before.
    pub fn store_token(&mut self, response: TokenResponse, now: u128) -> (r: Result<(), QqError>)
        requires
            now <= MAX_TIME,
        ensures
            old(self)@.store_token(response.access_token@, response.expires_in@, now as nat)
                == match r {
                Ok(()) => Ok(final(self)@),
                Err(error) => Err(error),
            },
            match expiry_of(response.expires_in@) {
                Some(seconds) => r is Ok && final(self)@ == (QQApiView {
                    token: Some(
                        AccessTokenView {
                            value: response.access_token@,
                            expires_at: (now + usable_seconds(seconds) * NANOS_PER_SECOND) as nat,
                        },
                    ),
                    ..old(self)@
                }),
                None => r == Err::<(), _>(QqError::InvalidExpiry) && final(self)@ == old(self)@,
            },
    {
        match expires_in_seconds(&response.expires_in) {
            Some(seconds) => {
                let usable: u64 = cache_seconds(seconds);
                let expires_at: u128 = now + usable as u128 * NANOS_PER_SECOND;
                self.token = Some(AccessToken { value: response.access_token, expires_at });
                Ok(())
            },
            None => Err(QqError::InvalidExpiry),
        }
    }

    /// What goes into the `Authorization` header after a token was kept.
    pub fn refreshed_authorization(&self, now: u128) -> (r: Result<String, QqError>)
        ensures
            match r {
                Ok(value) => self@.authorization(now as nat) == Some(value@),
                Err(error) => self@.authorization(now as nat) is None && error
                    == QqError::TokenNotCached,
            },
    {
        match self.authorization(now) {
            Some(value) => Ok(value),
            None => Err(QqError::TokenNotCached),
        }
    }

    /// The headers of a request: who sends it, and for which bot.
    pub fn headers(&self, authorization: &str) -> (r: Result<Vec<(String, String)>, QqError>)
        ensures
            match r {
                Ok(headers) => {
                    &&& header_views(headers@) == request_headers(authorization@, self@.app_id)
                    &&& is_header_text(authorization@)
                    &&& is_header_text(self@.app_id)
                    &&& headers@.len() == 2
                    &&& headers@[0].0@ == "Authorization"@
                    &&& headers@[0].1@ == authorization@
                    &&& headers@[1].0@ == "X-Union-Appid"@
                    &&& headers@[1].1@ == self@.app_id
                },
                Err(error) => if is_header_text(authorization@) {
                    !is_header_text(self@.app_id) && error == QqError::InvalidAppId
                } else {
                    error == QqError::InvalidAuthorization
                },
            },
    {
        if !header_accepts(authorization) {
            return Err(QqError::InvalidAuthorization);
        }
        if !header_accepts(self.app_id.as_str()) {
            return Err(QqError::InvalidAppId);
        }
        let headers = vec![
            ("Authorization".to_owned(), authorization.to_owned()),
            ("X-Union-Appid".to_owned(), self.app_id.clone()),
        ];
        assert(header_views(headers@) =~= request_headers(authorization@, self@.app_id));
        Ok(headers)
    }
}

/// The document that prepares an upload.
pub open spec fn prepare_document(
    media_type: MediaType,
    file_size: u64,
    file_name: Seq<char>,
    md5: Seq<char>,
    sha1: Seq<char>,
    md5_10m: Seq<char>,
) -> JsonView {
    object(
        seq![
            ("file_type"@, JsonView::Integer(media_type.code_spec() as int)),
            ("file_size"@, JsonView::Text(decimal(file_size as nat))),
            ("file_name"@, JsonView::Text(file_name)),
            ("md5"@, JsonView::Text(md5)),
            ("sha1"@, JsonView::Text(sha1)),
            ("md5_10m"@, JsonView::Text(md5_10m)),
        ],
    )
}

/// The document that prepares an upload, with the checksums of the file.
pub fn prepare_payload(
    media_type: MediaType,
    file_size: u64,
    file_name: &str,
    digests: (String, String, String),
) -> (r: Payload)
    ensures
        r@ == prepare_document(
            media_type,
            file_size,
            file_name@,
            digests.0@,
            digests.1@,
            digests.2@,
        ),
{
    let (md5, sha1, md5_10m) = digests;
    let entries = vec![
        entry("file_type", Payload::UInt(media_type.code() as u64)),
        entry("file_size", Payload::Text(u64_to_decimal(file_size))),
        entry("file_name", Payload::Text(file_name.to_owned())),
        entry("md5", Payload::Text(md5)),
        entry("sha1", Payload::Text(sha1)),
        entry("md5_10m", Payload::Text(md5_10m)),
    ];
    assert(Payload::entry_views(entries@) =~= seq![
        ("file_type"@, JsonView::Integer(media_type.code_spec() as int)),
        ("file_size"@, JsonView::Text(decimal(file_size as nat))),
        ("file_name"@, JsonView::Text(file_name@)),
        ("md5"@, JsonView::Text(md5@)),
        ("sha1"@, JsonView::Text(sha1@)),
        ("md5_10m"@, JsonView::Text(md5_10m@)),
    ]);
    Payload::Object(entries)
}

/// A token that was kept at a time is used from then on for at least one second, and not any
/// more from a minute before its end on, where it lasts longer than a minute.
pub proof fn law_token_is_given_up_in_time(
    account: QQApiView,
    value: Seq<char>,
    expires_in: u64,
    kept_at: nat,
    now: nat,
)
    requires
        account.token == Some(
            AccessTokenView {
                value,
                expires_at: (kept_at + usable_seconds(expires_in) * NANOS_PER_SECOND) as nat,
            },
        ),
        kept_at <= now,
    ensures
        now < kept_at + NANOS_PER_SECOND ==> account.valid_token(now) == Some(value),
        account.valid_token(now) is Some && expires_in > TOKEN_MARGIN_SECONDS ==> now
            + TOKEN_MARGIN_SECONDS * NANOS_PER_SECOND < kept_at + expires_in * NANOS_PER_SECOND,
        account.valid_token(now) is Some <==> now < kept_at + usable_seconds(expires_in)
            * NANOS_PER_SECOND,
{
}

/// A token that is not used any more is not used later either.
pub proof fn law_token_stays_given_up(account: QQApiView, now: nat, later: nat)
    requires
        now <= later,
        account.valid_token(now) is None,
    ensures
        account.valid_token(later) is None,
{
}

/// The requests for a user go to addresses of that user and of nobody else: below QQ's address,
/// with the user's name between `/v2/users/` and the resource.
pub proof fn law_addresses_name_the_user(openid: Seq<char>, resource: Seq<char>)
    ensures
        user_address(openid, resource) == "https://api.sgroup.qq.com/v2/users/"@ + openid + "/"@
            + resource,
{
    reveal_strlit("https://api.sgroup.qq.com");
    reveal_strlit("/v2/users/");
    reveal_strlit("https://api.sgroup.qq.com/v2/users/");
    assert("https://api.sgroup.qq.com"@ + "/v2/users/"@ =~= "https://api.sgroup.qq.com/v2/users/"@);
}

/// A message for a user goes to the address of the messages of that user, with just the document
/// that was made for it.
pub proof fn law_messages_go_to_their_user(openid: Seq<char>, payload: JsonView)
    ensures
        message_request(openid, payload).url == "https://api.sgroup.qq.com/v2/users/"@ + openid
            + "/messages"@,
        message_request(openid, payload).payload == payload,
{
    law_addresses_name_the_user(openid, "messages"@);
    reveal_strlit("/");
    reveal_strlit("messages");
    reveal_strlit("/messages");
    assert("/"@ + "messages"@ =~= "/messages"@);
    let base = "https://api.sgroup.qq.com/v2/users/"@ + openid;
    assert(base + "/"@ + "messages"@ =~= base + "/messages"@);
}

/// A text message is marked as one and carries the text as it is. One that answers a message
/// names that message and is the first answer to it; any other names none. There is nothing
/// else in it.
pub proof fn law_text_message_carries_its_text(content: Seq<char>, msg_id: Option<Seq<char>>)
    ensures
        member(text_message(content, msg_id), "msg_type"@) == Some(JsonView::Integer(0)),
        member(text_message(content, msg_id), "content"@) == Some(JsonView::Text(content)),
        member(text_message(content, msg_id), "msg_id"@) == match msg_id {
            Some(id) => Some(JsonView::Text(id)),
            None => None,
        },
        member(text_message(content, msg_id), "msg_seq"@) == match msg_id {
            Some(_) => Some(JsonView::Integer(1)),
            None => None,
        },
        forall|name: Seq<char>| #[trigger]
            member(text_message(content, msg_id), name) is Some ==> name == "msg_type"@ || name
                == "content"@ || name == "msg_id"@ || name == "msg_seq"@,
{
    reveal_strlit("msg_type");
    reveal_strlit("content");
    reveal_strlit("msg_id");
    reveal_strlit("msg_seq");
    assert("msg_type"@.len() == 8 && "content"@.len() == 7 && "msg_id"@.len() == 6
        && "msg_seq"@.len() == 7);
    assert("content"@[0] != "msg_seq"@[0]);
    let plain = seq![("msg_type"@, JsonView::Integer(0)), ("content"@, JsonView::Text(content))];
    law_members_are_found(plain);
    assert(plain[0].0 == "msg_type"@ && plain[1].0 == "content"@);
    if let Some(id) = msg_id {
        let answer = seq![
            ("msg_type"@, JsonView::Integer(0)),
            ("content"@, JsonView::Text(content)),
            ("msg_id"@, JsonView::Text(id)),
            ("msg_seq"@, JsonView::Integer(1)),
        ];
        law_members_are_found(answer);
        assert(answer[0].0 == "msg_type"@ && answer[1].0 == "content"@ && answer[2].0 == "msg_id"@
            && answer[3].0 == "msg_seq"@);
    }
}

/// A Markdown message is marked as one and carries the text as it is, and nothing else.
pub proof fn law_markdown_message_carries_its_text(content: Seq<char>)
    ensures
        member(markdown_message(content), "msg_type"@) == Some(JsonView::Integer(2)),
        member(markdown_message(content), "markdown"@) matches Some(markdown) && member(
            markdown,
            "content"@,
        ) == Some(JsonView::Text(content)) && forall|name: Seq<char>| #[trigger]
            member(markdown, name) is Some ==> name == "content"@,
        forall|name: Seq<char>| #[trigger]
            member(markdown_message(content), name) is Some ==> name == "msg_type"@ || name
                == "markdown"@,
{
    reveal_strlit("msg_type");
    reveal_strlit("markdown");
    assert("msg_type"@[1] != "markdown"@[1]);
    let inner = seq![("content"@, JsonView::Text(content))];
    law_members_are_found(inner);
    assert(inner[0].0 == "content"@);
    let entries = seq![("msg_type"@, JsonView::Integer(2)), ("markdown"@, object(inner))];
    law_members_are_found(entries);
    assert(entries[0].0 == "msg_type"@ && entries[1].0 == "markdown"@);
}

/// Two different Markdown texts make two different messages.
pub proof fn law_markdown_messages_differ(a: Seq<char>, b: Seq<char>)
    requires
        a != b,
    ensures
        markdown_message(a) != markdown_message(b),
{
    law_markdown_message_carries_its_text(a);
    law_markdown_message_carries_its_text(b);
}

/// A message that shows a medium is marked as one and names just the file that QQ described,
/// and nothing else.
pub proof fn law_media_message_shows_its_file(file_info: Seq<char>)
    ensures
        member(media_message(file_info), "msg_type"@) == Some(JsonView::Integer(7)),
        member(media_message(file_info), "media"@) matches Some(media) && member(
            media,
            "file_info"@,
        ) == Some(JsonView::Text(file_info)) && forall|name: Seq<char>| #[trigger]
            member(media, name) is Some ==> name == "file_info"@,
        forall|name: Seq<char>| #[trigger]
            member(media_message(file_info), name) is Some ==> name == "msg_type"@ || name
                == "media"@,
{
    reveal_strlit("msg_type");
    reveal_strlit("media");
    assert("msg_type"@[1] != "media"@[1]);
    let inner = seq![("file_info"@, JsonView::Text(file_info))];
    law_members_are_found(inner);
    assert(inner[0].0 == "file_info"@);
    let entries = seq![("msg_type"@, JsonView::Integer(7)), ("media"@, object(inner))];
    law_members_are_found(entries);
    assert(entries[0].0 == "msg_type"@ && entries[1].0 == "media"@);
}

/// An upload is prepared with the kind of the medium, by QQ's number for it, with the size of
/// the file in decimal, its name and its three checksums, each where it belongs.
pub proof fn law_preparation_describes_the_file(
    media_type: MediaType,
    file_size: u64,
    file_name: Seq<char>,
    md5: Seq<char>,
    sha1: Seq<char>,
    md5_10m: Seq<char>,
)
    ensures
        ({
            let document = prepare_document(media_type, file_size, file_name, md5, sha1, md5_10m);
            &&& media_type == MediaType::Image ==> member(document, "file_type"@) == Some(
                JsonView::Integer(1),
            )
            &&& media_type == MediaType::File ==> member(document, "file_type"@) == Some(
                JsonView::Integer(4),
            )
            &&& member(document, "file_size"@) matches Some(JsonView::Text(size)) && u64_value(size)
                == Some(file_size)
            &&& member(document, "file_name"@) == Some(JsonView::Text(file_name))
            &&& member(document, "md5"@) == Some(JsonView::Text(md5))
            &&& member(document, "sha1"@) == Some(JsonView::Text(sha1))
            &&& member(document, "md5_10m"@) == Some(JsonView::Text(md5_10m))
            &&& forall|name: Seq<char>| #[trigger]
                member(document, name) is Some ==> name == "file_type"@ || name == "file_size"@
                    || name == "file_name"@ || name == "md5"@ || name == "sha1"@ || name
                    == "md5_10m"@
        }),
{
    reveal_strlit("file_type");
    reveal_strlit("file_size");
    reveal_strlit("file_name");
    reveal_strlit("md5");
    reveal_strlit("sha1");
    reveal_strlit("md5_10m");
    assert("file_type"@[5] == 't' && "file_size"@[5] == 's' && "file_name"@[5] == 'n');
    assert("file_type"@.len() == 9 && "md5"@.len() == 3 && "sha1"@.len() == 4 && "md5_10m"@.len()
        == 7);
    law_decimal_reads_back(file_size);
    let kind = JsonView::Integer(media_type.code_spec() as int);
    let entries = seq![
        ("file_type"@, kind),
        ("file_size"@, JsonView::Text(decimal(file_size as nat))),
        ("file_name"@, JsonView::Text(file_name)),
        ("md5"@, JsonView::Text(md5)),
        ("sha1"@, JsonView::Text(sha1)),
        ("md5_10m"@, JsonView::Text(md5_10m)),
    ];
    law_members_are_found(entries);
    assert(entries[0].0 == "file_type"@ && entries[1].0 == "file_size"@ && entries[2].0
        == "file_name"@ && entries[3].0 == "md5"@ && entries[4].0 == "sha1"@ && entries[5].0
        == "md5_10m"@);
}

/// A token is asked for with the account's id and secret, each under its name, and with nothing
/// else.
pub proof fn law_token_request_names_the_account(account: QQApiView)
    ensures
        member(token_document(account), "appId"@) == Some(JsonView::Text(account.app_id)),
        member(token_document(account), "clientSecret"@) == Some(
            JsonView::Text(account.app_secret),
        ),
        forall|name: Seq<char>| #[trigger]
            member(token_document(account), name) is Some ==> name == "appId"@ || name
                == "clientSecret"@,
{
    reveal_strlit("appId");
    reveal_strlit("clientSecret");
    assert("appId"@.len() == 5 && "clientSecret"@.len() == 12);
    let entries = seq![
        ("appId"@, JsonView::Text(account.app_id)),
        ("clientSecret"@, JsonView::Text(account.app_secret)),
    ];
    law_members_are_found(entries);
    assert(entries[0].0 == "appId"@ && entries[1].0 == "clientSecret"@);
}

/// A status tells of success where its first digit is two.
pub proof fn law_success_is_the_two_hundreds(status: u16)
    ensures
        is_success(status) <==> status / 100 == 2,
{
}

/// How long a token lasts is told by a number, or by a text that writes it; the two say the
/// same, and anything else says nothing.
pub proof fn law_expiry_is_a_number_or_its_text(seconds: u64, expires_in: JsonView)
    ensures
        expiry_of(JsonView::Integer(seconds as int)) == Some(seconds),
        expiry_of(JsonView::Text(decimal(seconds as nat))) == Some(seconds),
        expiry_of(expires_in) is Some ==> expires_in is Integer || expires_in is Text,
        expires_in matches JsonView::Integer(number) ==> (expiry_of(expires_in) is Some <==> 0
            <= number <= u64::MAX),
        expires_in matches JsonView::Text(text) ==> expiry_of(expires_in) == u64_value(text),
{
    law_decimal_reads_back(seconds);
}

/// A token is used for sixty seconds less than it lasts, and for one second where that would be
/// less than one.
pub proof fn law_token_margin_is_a_minute(expires_in: u64)
    ensures
        usable_seconds(expires_in) >= 1,
        expires_in >= 61 ==> usable_seconds(expires_in) + 60 == expires_in,
        expires_in < 61 ==> usable_seconds(expires_in) == 1,
{
}

/// A token that is kept is the one that is used, from then on until a minute before its end,
/// whatever token there was before; the account stays the same.
pub proof fn law_kept_token_is_used(
    account: QQApiView,
    access_token: Seq<char>,
    seconds: u64,
    kept_at: nat,
    now: nat,
)
    ensures
        account.store_token(access_token, JsonView::Integer(seconds as int), kept_at) matches Ok(
            kept,
        ) && {
            &&& kept.app_id == account.app_id && kept.app_secret == account.app_secret
            &&& seconds > 60 ==> (kept.authorization(now) is Some <==> now < kept_at + (seconds
                - 60) * 1_000_000_000)
            &&& seconds <= 60 ==> (kept.authorization(now) is Some <==> now < kept_at
                + 1_000_000_000)
            &&& kept.authorization(now) matches Some(value) ==> value == "QQBot "@ + access_token
        },
{
}

/// A token whose end is not told is not kept.
pub proof fn law_token_without_an_end_is_not_kept(
    account: QQApiView,
    access_token: Seq<char>,
    expires_in: JsonView,
    now: nat,
)
    requires
        expires_in !is Integer,
        expires_in !is Text,
    ensures
        account.store_token(access_token, expires_in, now) == Err::<QQApiView, _>(
            QqError::InvalidExpiry,
        ),
{
}

/// A request uses the token as long as there is one to use, however many others wait. Else it
/// first waits until no other request is fetching, and then asks QQ for a token.
pub proof fn law_token_is_fetched_only_when_needed(account: QQApiView, now: nat, locked: bool)
    ensures
        account.valid_token(now) matches Some(token) ==> account.authorization_step(now, locked)
            == AuthorizationStepView::Use("QQBot "@ + token),
        account.valid_token(now) is None ==> account.authorization_step(now, false)
            == AuthorizationStepView::Lock,
        account.valid_token(now) is None ==> (account.authorization_step(now, true) matches
            AuthorizationStepView::Fetch(request) && request.url
            == "https://bots.qq.com/app/getAppAccessToken"@ && request.payload == token_document(
            account,
        )),
{
}

/// The headers of a request are the authorization and the bot's id, each under its own name.
pub proof fn law_headers_name_sender_and_bot(authorization: Seq<char>, app_id: Seq<char>)
    ensures
        request_headers(authorization, app_id).contains(("Authorization"@, authorization)),
        request_headers(authorization, app_id).contains(("X-Union-Appid"@, app_id)),
        request_headers(authorization, app_id).len() == 2,
{
    let headers = request_headers(authorization, app_id);
    assert(headers[0] == ("Authorization"@, authorization));
    assert(headers[1] == ("X-Union-Appid"@, app_id));
}

/// A request is shown with its address and its document.
pub proof fn law_request_shows_what_it_holds(request: PostRequest)
    ensures
        request@.url == request.url@,
        request@.payload == request.payload@,
{
}

} // verus!
