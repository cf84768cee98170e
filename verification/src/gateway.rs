//! The session with the QQ gateway: which of its messages ask for what, and how the service
//! takes up a session again after the connection broke.
use crate::binding::{
    law_reply_answers_the_user, new_binding, RecipientBinding, RecipientBindingView, SaveStage,
};
use crate::json::{
    entry, law_members_are_found, member, object, text_of, unsigned_of, Json, JsonView, Payload,
};
use crate::state::{AppState, AppStateView};
use crate::text::{as_text, optional_string, same_text, to_owned_text};
use vstd::prelude::*;

verus! {

/// The intent that subscribes to group and private messages: bit 25.
pub const QQ_GROUP_AND_C2C_EVENT_INTENT: u32 = 33_554_432;

/// How many seconds pass before a broken connection is made again.
pub const RECONNECT_DELAY_SECONDS: u64 = 5;

/// The model of a [`GatewaySession`].
pub struct GatewaySessionView {
    pub id: Option<Seq<char>>,
    pub sequence: Option<i64>,
}

/// What is kept of a session while connections come and go: its name and the number of the last
/// event that was seen.
#[derive(Debug)]
pub struct GatewaySession {
    pub id: Option<String>,
    pub sequence: Option<i64>,
}

impl GatewaySession {
    /// The model of the session.
    pub open spec fn view(&self) -> GatewaySessionView {
        GatewaySessionView { id: optional_string(self.id), sequence: self.sequence }
    }

    /// No session yet.
    pub fn new() -> (r: GatewaySession)
        ensures
            r@ == (GatewaySessionView { id: None, sequence: None }),
    {
        GatewaySession { id: None, sequence: None }
    }
}

/// The model of a [`GatewayConnection`].
pub struct GatewayConnectionView {
    pub heartbeat: bool,
    pub identifying: bool,
}

/// A connection on which nothing has come yet.
pub open spec fn new_connection() -> GatewayConnectionView {
    GatewayConnectionView { heartbeat: false, identifying: false }
}

/// What is kept of one connection: whether the gateway has greeted, so that heartbeats are sent,
/// and whether the service is about to identify itself.
#[derive(Debug)]
pub struct GatewayConnection {
    heartbeat: bool,
    identifying: bool,
}

impl GatewayConnection {
    /// The model of the connection.
    pub closed spec fn view(&self) -> GatewayConnectionView {
        GatewayConnectionView { heartbeat: self.heartbeat, identifying: self.identifying }
    }

    /// Whether heartbeats are sent on the connection.
    pub fn heartbeat(&self) -> (r: bool)
        ensures
            r == self@.heartbeat,
    {
        self.heartbeat
    }
}

/// The model of a [`GatewayEnvelope`].
pub struct GatewayEnvelopeView {
    pub op: u8,
    pub d: JsonView,
    pub s: Option<i64>,
    pub t: Option<Seq<char>>,
}

/// A message of the gateway: its operation, its data, the number of the event and its kind.
#[derive(Debug)]
pub struct GatewayEnvelope {
    pub op: u8,
    pub d: Json,
    pub s: Option<i64>,
    pub t: Option<String>,
}

impl GatewayEnvelope {
    /// The model of the message.
    pub open spec fn view(&self) -> GatewayEnvelopeView {
        GatewayEnvelopeView { op: self.op, d: self.d@, s: self.s, t: optional_string(self.t) }
    }
}

/// A sequence number in a document; null where there is none.
pub open spec fn sequence_document(sequence: Option<i64>) -> JsonView {
    match sequence {
        Some(sequence) => JsonView::Integer(sequence as int),
        None => JsonView::Null,
    }
}

/// The document of a heartbeat.
pub open spec fn heartbeat_document(session: GatewaySessionView) -> JsonView {
    object(seq![("op"@, JsonView::Integer(1)), ("d"@, sequence_document(session.sequence))])
}

/// The document that opens a session, or that takes up the one that there was.
pub open spec fn identify_document(
    authorization: Seq<char>,
    session: GatewaySessionView,
) -> JsonView {
    match session.id {
        Some(id) => object(
            seq![
                ("op"@, JsonView::Integer(6)),
                (
                    "d"@,
                    object(
                        seq![
                            ("token"@, JsonView::Text(authorization)),
                            ("session_id"@, JsonView::Text(id)),
                            ("seq"@, sequence_document(session.sequence)),
                        ],
                    ),
                ),
            ],
        ),
        None => object(
            seq![
                ("op"@, JsonView::Integer(2)),
                (
                    "d"@,
                    object(
                        seq![
                            ("token"@, JsonView::Text(authorization)),
                            (
                                "intents"@,
                                JsonView::Integer(QQ_GROUP_AND_C2C_EVENT_INTENT as int),
                            ),
                            (
                                "shard"@,
                                JsonView::Array(seq![JsonView::Integer(0), JsonView::Integer(1)]),
                            ),
                        ],
                    ),
                ),
            ],
        ),
    }
}

fn sequence_payload(sequence: Option<i64>) -> (r: Payload)
    ensures
        r@ == sequence_document(sequence),
{
    match sequence {
        Some(sequence) => Payload::Int(sequence),
        None => Payload::Null,
    }
}

/// The document of a heartbeat.
pub fn heartbeat_payload(session: &GatewaySession) -> (r: Payload)
    ensures
        r@ == heartbeat_document(session@),
{
    let entries = vec![
        entry("op", Payload::UInt(1)),
        entry("d", sequence_payload(session.sequence)),
    ];
    assert(Payload::entry_views(entries@) =~= seq![
        ("op"@, JsonView::Integer(1)),
        ("d"@, sequence_document(session@.sequence)),
    ]);
    Payload::Object(entries)
}

/// The document that opens a session, or that takes up the one that there was.
pub fn gateway_identify_payload(authorization: &str, session: &GatewaySession) -> (r: Payload)
    ensures
        r@ == identify_document(authorization@, session@),
{
    match &session.id {
        Some(id) => {
            let data = vec![
                entry("token", Payload::Text(authorization.to_owned())),
                entry("session_id", Payload::Text(id.clone())),
                entry("seq", sequence_payload(session.sequence)),
            ];
            let ghost data_views = seq![
                ("token"@, JsonView::Text(authorization@)),
                ("session_id"@, JsonView::Text(id@)),
                ("seq"@, sequence_document(session@.sequence)),
            ];
            assert(Payload::entry_views(data@) =~= data_views);
            let entries = vec![entry("op", Payload::UInt(6)), entry("d", Payload::Object(data))];
            assert(Payload::entry_views(entries@) =~= seq![
                ("op"@, JsonView::Integer(6)),
                ("d"@, object(data_views)),
            ]);
            Payload::Object(entries)
        },
        None => {
            let shard = vec![Payload::UInt(0), Payload::UInt(1)];
            assert(Payload::item_views(shard@) =~= seq![
                JsonView::Integer(0),
                JsonView::Integer(1),
            ]);
            let data = vec![
                entry("token", Payload::Text(authorization.to_owned())),
                entry("intents", Payload::UInt(QQ_GROUP_AND_C2C_EVENT_INTENT as u64)),
                entry("shard", Payload::Array(shard)),
            ];
            let ghost data_views = seq![
                ("token"@, JsonView::Text(authorization@)),
                ("intents"@, JsonView::Integer(QQ_GROUP_AND_C2C_EVENT_INTENT as int)),
                ("shard"@, JsonView::Array(seq![JsonView::Integer(0), JsonView::Integer(1)])),
            ];
            assert(Payload::entry_views(data@) =~= data_views);
            let entries = vec![entry("op", Payload::UInt(2)), entry("d", Payload::Object(data))];
            assert(Payload::entry_views(entries@) =~= seq![
                ("op"@, JsonView::Integer(2)),
                ("d"@, object(data_views)),
            ]);
            Payload::Object(entries)
        },
    }
}

/// Why a connection ends.
#[derive(Clone, Copy, Debug, PartialEq, Eq, Structural)]
pub enum GatewayEnd {
    InvalidText,
    ReconnectRequested,
    SessionInvalid,
    HelloWithoutInterval,
    Closed,
    ReadFailed,
    Ended,
    /// The recipient could not be stored; this stage of it failed.
    RecipientNotSaved(SaveStage),
}

impl GatewayEnd {
    /// The reason in words.
    pub open spec fn message_spec(self) -> Seq<char> {
        match self {
            GatewayEnd::InvalidText => "QQ Gateway 消息格式无效"@,
            GatewayEnd::ReconnectRequested => "QQ Gateway 要求重新连接"@,
            GatewayEnd::SessionInvalid => "QQ Gateway 会话无效"@,
            GatewayEnd::HelloWithoutInterval => "QQ Gateway Hello 缺少 heartbeat_interval"@,
            GatewayEnd::Closed => "QQ Gateway 关闭连接"@,
            GatewayEnd::ReadFailed => "读取 QQ Gateway 消息失败"@,
            GatewayEnd::Ended => "QQ Gateway 连接已结束"@,
            GatewayEnd::RecipientNotSaved(SaveStage::Directory) => "无法创建 OpenID 目录"@,
            GatewayEnd::RecipientNotSaved(SaveStage::Contents) => "无法保存 OpenID 文件"@,
            GatewayEnd::RecipientNotSaved(SaveStage::Permissions) => "无法设置 OpenID 文件权限"@,
        }
    }

    /// The reason in words.
    pub fn message(self) -> (r: &'static str)
        ensures
            r@ == self.message_spec(),
    {
        match self {
            GatewayEnd::InvalidText => "QQ Gateway 消息格式无效",
            GatewayEnd::ReconnectRequested => "QQ Gateway 要求重新连接",
            GatewayEnd::SessionInvalid => "QQ Gateway 会话无效",
            GatewayEnd::HelloWithoutInterval => "QQ Gateway Hello 缺少 heartbeat_interval",
            GatewayEnd::Closed => "QQ Gateway 关闭连接",
            GatewayEnd::ReadFailed => "读取 QQ Gateway 消息失败",
            GatewayEnd::Ended => "QQ Gateway 连接已结束",
            GatewayEnd::RecipientNotSaved(SaveStage::Directory) => "无法创建 OpenID 目录",
            GatewayEnd::RecipientNotSaved(SaveStage::Contents) => "无法保存 OpenID 文件",
            GatewayEnd::RecipientNotSaved(SaveStage::Permissions) => "无法设置 OpenID 文件权限",
        }
    }

    /// The reason in words, with the path of the file or directory that it is about.
    pub fn message_at(self, path: &str) -> (r: String)
        ensures
            r@ == self.message_spec() + " "@ + path@,
    {
        let mut message = self.message().to_owned();
        message.append(" ");
        message.append(path);
        message
    }
}

/// The model of a [`GatewayEvent`].
pub enum GatewayEventView {
    HeartbeatDue,
    Authorized(Seq<char>),
    Envelope(GatewayEnvelopeView),
    InvalidText,
    Ping(Seq<u8>),
    OtherFrame,
    Closed,
    ReadFailed,
    Ended,
}

/// What happens on a connection.
#[derive(Debug)]
pub enum GatewayEvent {
    /// The time of a heartbeat has come.
    HeartbeatDue,
    /// The service has the authorization to identify itself with.
    Authorized(String),
    /// A text came that is a message of the gateway.
    Envelope(GatewayEnvelope),
    /// A text came that is not.
    InvalidText,
    /// A ping came.
    Ping(Vec<u8>),
    /// A frame came that carries nothing for the service.
    OtherFrame,
    /// The gateway closed the connection.
    Closed,
    /// Nothing more can be read.
    ReadFailed,
    /// The connection ended.
    Ended,
}

impl GatewayEvent {
    /// The model of the event.
    pub open spec fn view(&self) -> GatewayEventView {
        match self {
            GatewayEvent::HeartbeatDue => GatewayEventView::HeartbeatDue,
            GatewayEvent::Authorized(authorization) => GatewayEventView::Authorized(authorization@),
            GatewayEvent::Envelope(envelope) => GatewayEventView::Envelope(envelope@),
            GatewayEvent::InvalidText => GatewayEventView::InvalidText,
            GatewayEvent::Ping(bytes) => GatewayEventView::Ping(bytes@),
            GatewayEvent::OtherFrame => GatewayEventView::OtherFrame,
            GatewayEvent::Closed => GatewayEventView::Closed,
            GatewayEvent::ReadFailed => GatewayEventView::ReadFailed,
            GatewayEvent::Ended => GatewayEventView::Ended,
        }
    }
}

/// The model of a [`GatewayStep`].
pub enum GatewayStepView {
    Wait,
    Send(JsonView),
    Pong(Seq<u8>),
    Identify { heartbeat_ms: u64 },
    Bind(RecipientBindingView),
    Disconnect(GatewayEnd),
}

/// What is to be done about an event.
#[derive(Debug)]
pub enum GatewayStep {
    /// Nothing.
    Wait,
    /// Send the document.
    Send(Payload),
    /// Answer the ping.
    Pong(Vec<u8>),
    /// From now on tell at this interval that a heartbeat is due; then get an authorization and
    /// hand it in.
    Identify { heartbeat_ms: u64 },
    /// Store a recipient, stage by stage.
    Bind(RecipientBinding),
    /// Give up the connection.
    Disconnect(GatewayEnd),
}

impl GatewayStep {
    /// The model of the step.
    pub open spec fn view(&self) -> GatewayStepView {
        match self {
            GatewayStep::Wait => GatewayStepView::Wait,
            GatewayStep::Send(payload) => GatewayStepView::Send(payload@),
            GatewayStep::Pong(bytes) => GatewayStepView::Pong(bytes@),
            GatewayStep::Identify { heartbeat_ms } => GatewayStepView::Identify {
                heartbeat_ms: *heartbeat_ms,
            },
            GatewayStep::Bind(binding) => GatewayStepView::Bind(binding@),
            GatewayStep::Disconnect(end) => GatewayStepView::Disconnect(*end),
        }
    }
}

/// The user that a private message comes from.
pub open spec fn message_author(data: JsonView) -> Option<Seq<char>> {
    match member(data, "author"@) {
        Some(author) => text_of(member(author, "user_openid"@)),
        None => None,
    }
}

/// The service without a connection.
pub open spec fn unconnected(state: AppStateView) -> AppStateView {
    AppStateView { connected: false, ..state }
}

/// The service and its session after an event that the gateway dispatched, and what is to be
/// done.
pub struct DispatchOutcome {
    pub state: AppStateView,
    pub session: GatewaySessionView,
    pub step: GatewayStepView,
}

/// What comes of an event that the gateway dispatches. `READY` names the session, `READY` and
/// `RESUMED` make the service connected, and a private message asks to bind its author; other
/// events, and a private message without an author, come to nothing.
pub open spec fn dispatch_outcome(
    state: AppStateView,
    session: GatewaySessionView,
    envelope: GatewayEnvelopeView,
) -> DispatchOutcome {
    if envelope.t == Some("READY"@) {
        DispatchOutcome {
            state: AppStateView { connected: true, ..state },
            session: GatewaySessionView {
                id: text_of(member(envelope.d, "session_id"@)),
                ..session
            },
            step: GatewayStepView::Wait,
        }
    } else if envelope.t == Some("RESUMED"@) {
        DispatchOutcome {
            state: AppStateView { connected: true, ..state },
            session,
            step: GatewayStepView::Wait,
        }
    } else if envelope.t == Some("C2C_MESSAGE_CREATE"@) {
        DispatchOutcome {
            state,
            session,
            step: match message_author(envelope.d) {
                Some(openid) => GatewayStepView::Bind(
                    new_binding(openid, text_of(member(envelope.d, "id"@))),
                ),
                None => GatewayStepView::Wait,
            },
        }
    } else {
        DispatchOutcome { state, session, step: GatewayStepView::Wait }
    }
}

/// The session after the number of an event was seen.
pub open spec fn with_sequence(session: GatewaySessionView, s: Option<i64>) -> GatewaySessionView {
    match s {
        Some(sequence) => GatewaySessionView { sequence: Some(sequence), ..session },
        None => session,
    }
}

/// The service, its session and its connection after an event, and what is to be done.
pub struct GatewayOutcome {
    pub state: AppStateView,
    pub session: GatewaySessionView,
    pub connection: GatewayConnectionView,
    pub step: GatewayStepView,
}

/// What comes of an event after which the connection goes on.
pub open spec fn answered(
    state: AppStateView,
    session: GatewaySessionView,
    connection: GatewayConnectionView,
    step: GatewayStepView,
) -> GatewayOutcome {
    GatewayOutcome { state, session, connection, step }
}

/// What comes of an event that ends the connection: the service is not connected.
pub open spec fn disconnected(
    state: AppStateView,
    session: GatewaySessionView,
    connection: GatewayConnectionView,
    end: GatewayEnd,
) -> GatewayOutcome {
    GatewayOutcome {
        state: unconnected(state),
        session,
        connection,
        step: GatewayStepView::Disconnect(end),
    }
}

/// What comes of a message of the gateway, by its operation: 0 dispatches an event, 1 asks for
/// a heartbeat, 7 asks for a new connection, 9 tells that the session is not valid, 10 greets
/// and tells the heartbeat interval. The rest comes to nothing.
pub open spec fn envelope_outcome(
    state: AppStateView,
    session: GatewaySessionView,
    connection: GatewayConnectionView,
    envelope: GatewayEnvelopeView,
) -> GatewayOutcome {
    let session = with_sequence(session, envelope.s);
    if envelope.op == 0 {
        let outcome = dispatch_outcome(state, session, envelope);
        answered(outcome.state, outcome.session, connection, outcome.step)
    } else if envelope.op == 1 {
        answered(state, session, connection, GatewayStepView::Send(heartbeat_document(session)))
    } else if envelope.op == 7 {
        disconnected(state, session, connection, GatewayEnd::ReconnectRequested)
    } else if envelope.op == 9 {
        disconnected(
            state,
            GatewaySessionView { id: None, sequence: None },
            connection,
            GatewayEnd::SessionInvalid,
        )
    } else if envelope.op == 10 {
        match unsigned_of(member(envelope.d, "heartbeat_interval"@)) {
            Some(heartbeat_ms) => GatewayOutcome {
                state,
                session,
                connection: GatewayConnectionView { heartbeat: true, identifying: true },
                step: GatewayStepView::Identify { heartbeat_ms },
            },
            None => disconnected(state, session, connection, GatewayEnd::HelloWithoutInterval),
        }
    } else {
        answered(state, session, connection, GatewayStepView::Wait)
    }
}

/// What comes of an event on a connection. A heartbeat is sent only once the gateway has greeted,
/// and the service identifies itself once after each greeting.
pub open spec fn event_outcome(
    state: AppStateView,
    session: GatewaySessionView,
    connection: GatewayConnectionView,
    event: GatewayEventView,
) -> GatewayOutcome {
    match event {
        GatewayEventView::Envelope(envelope) => envelope_outcome(
            state,
            session,
            connection,
            envelope,
        ),
        GatewayEventView::HeartbeatDue => answered(
            state,
            session,
            connection,
            if connection.heartbeat {
                GatewayStepView::Send(heartbeat_document(session))
            } else {
                GatewayStepView::Wait
            },
        ),
        GatewayEventView::Authorized(authorization) => if connection.identifying {
            GatewayOutcome {
                state,
                session,
                connection: GatewayConnectionView { identifying: false, ..connection },
                step: GatewayStepView::Send(identify_document(authorization, session)),
            }
        } else {
            answered(state, session, connection, GatewayStepView::Wait)
        },
        GatewayEventView::Ping(bytes) => answered(
            state,
            session,
            connection,
            GatewayStepView::Pong(bytes),
        ),
        GatewayEventView::OtherFrame => answered(
            state,
            session,
            connection,
            GatewayStepView::Wait,
        ),
        GatewayEventView::InvalidText => disconnected(
            state,
            session,
            connection,
            GatewayEnd::InvalidText,
        ),
        GatewayEventView::Closed => disconnected(state, session, connection, GatewayEnd::Closed),
        GatewayEventView::ReadFailed => disconnected(
            state,
            session,
            connection,
            GatewayEnd::ReadFailed,
        ),
        GatewayEventView::Ended => disconnected(state, session, connection, GatewayEnd::Ended),
    }
}

/// Begins to make a connection: until the gateway says so, the service is not connected.
pub fn begin_connection(state: &mut AppState) -> (r: GatewayConnection)
    ensures
        final(state)@ == unconnected(old(state)@),
        r@ == new_connection(),
{
    state.set_connected(false);
    GatewayConnection { heartbeat: false, identifying: false }
}

/// Ends a connection, whatever the reason: without one the service is not connected.
pub fn end_connection(state: &mut AppState)
    ensures
        final(state)@ == unconnected(old(state)@),
{
    state.set_connected(false);
}

fn disconnect(state: &mut AppState, end: GatewayEnd) -> (r: GatewayStep)
    ensures
        final(state)@ == unconnected(old(state)@),
        r@ == GatewayStepView::Disconnect(end),
{
    end_connection(state);
    GatewayStep::Disconnect(end)
}

fn member_text(document: &Json, name: &str) -> (r: Option<String>)
    ensures
        optional_string(r) == text_of(member(document@, name@)),
{
    match document.get(name) {
        Some(value) => to_owned_text(value.as_str()),
        None => None,
    }
}

/// Handles an event that the gateway dispatches.
pub fn handle_dispatch(
    state: &mut AppState,
    session: &mut GatewaySession,
    envelope: &GatewayEnvelope,
) -> (r: GatewayStep)
    ensures
        dispatch_outcome(old(state)@, old(session)@, envelope@) == (DispatchOutcome {
            state: final(state)@,
            session: final(session)@,
            step: r@,
        }),
{
    let kind = match as_text(&envelope.t) {
        Some(kind) => kind,
        None => {
            return GatewayStep::Wait;
        },
    };
    if same_text(kind, "READY") {
        session.id = member_text(&envelope.d, "session_id");
        state.set_connected(true);
        return GatewayStep::Wait;
    }
    if same_text(kind, "RESUMED") {
        state.set_connected(true);
        return GatewayStep::Wait;
    }
    if same_text(kind, "C2C_MESSAGE_CREATE") {
        let author = match envelope.d.get("author") {
            Some(author) => member_text(author, "user_openid"),
            None => None,
        };
        return match author {
            Some(openid) => {
                let message_id = member_text(&envelope.d, "id");
                GatewayStep::Bind(RecipientBinding::new(openid, as_text(&message_id)))
            },
            None => GatewayStep::Wait,
        };
    }
    GatewayStep::Wait
}

/// Handles a message of the gateway.
pub fn handle_envelope(
    state: &mut AppState,
    session: &mut GatewaySession,
    connection: &mut GatewayConnection,
    envelope: &GatewayEnvelope,
) -> (r: GatewayStep)
    ensures
        envelope_outcome(old(state)@, old(session)@, old(connection)@, envelope@) == (
        GatewayOutcome {
            state: final(state)@,
            session: final(session)@,
            connection: final(connection)@,
            step: r@,
        }),
        r is Disconnect ==> !final(state)@.connected,
{
    if let Some(sequence) = envelope.s {
        session.sequence = Some(sequence);
    }
    match envelope.op {
        0 => handle_dispatch(state, session, envelope),
        1 => GatewayStep::Send(heartbeat_payload(session)),
        7 => disconnect(state, GatewayEnd::ReconnectRequested),
        9 => {
            session.id = None;
            session.sequence = None;
            disconnect(state, GatewayEnd::SessionInvalid)
        },
        10 => {
            let interval: Option<u64> = match envelope.d.get("heartbeat_interval") {
                Some(value) => value.as_u64(),
                None => None,
            };
            match interval {
                Some(heartbeat_ms) => {
                    connection.heartbeat = true;
                    connection.identifying = true;
                    GatewayStep::Identify { heartbeat_ms }
                },
                None => disconnect(state, GatewayEnd::HelloWithoutInterval),
            }
        },
        _ => GatewayStep::Wait,
    }
}

/// Handles what happens on a connection.
pub fn gateway_event(
    state: &mut AppState,
    session: &mut GatewaySession,
    connection: &mut GatewayConnection,
    event: GatewayEvent,
) -> (r: GatewayStep)
    ensures
        event_outcome(old(state)@, old(session)@, old(connection)@, event@) == (GatewayOutcome {
            state: final(state)@,
            session: final(session)@,
            connection: final(connection)@,
            step: r@,
        }),
        r is Disconnect ==> !final(state)@.connected,
{
    match event {
        GatewayEvent::Envelope(envelope) => handle_envelope(state, session, connection, &envelope),
        GatewayEvent::HeartbeatDue => if connection.heartbeat {
            GatewayStep::Send(heartbeat_payload(session))
        } else {
            GatewayStep::Wait
        },
        GatewayEvent::Authorized(authorization) => if connection.identifying {
            connection.identifying = false;
            GatewayStep::Send(gateway_identify_payload(authorization.as_str(), session))
        } else {
            GatewayStep::Wait
        },
        GatewayEvent::Ping(bytes) => GatewayStep::Pong(bytes),
        GatewayEvent::OtherFrame => GatewayStep::Wait,
        GatewayEvent::InvalidText => disconnect(state, GatewayEnd::InvalidText),
        GatewayEvent::Closed => disconnect(state, GatewayEnd::Closed),
        GatewayEvent::ReadFailed => disconnect(state, GatewayEnd::ReadFailed),
        GatewayEvent::Ended => disconnect(state, GatewayEnd::Ended),
    }
}

/// Before the gateway has greeted, no heartbeat is sent: when one is due nothing happens. On a
/// new connection it has not greeted yet, and nobody waits for an authorization.
pub proof fn law_no_heartbeat_before_the_greeting(
    state: AppStateView,
    session: GatewaySessionView,
    connection: GatewayConnectionView,
)
    requires
        !connection.heartbeat,
    ensures
        event_outcome(state, session, connection, GatewayEventView::HeartbeatDue) == answered(
            state,
            session,
            connection,
            GatewayStepView::Wait,
        ),
        !new_connection().heartbeat,
        !new_connection().identifying,
{
}

/// Only a greeting with an interval makes a connection one with heartbeats, and it stays one.
pub proof fn law_heartbeats_begin_with_the_greeting(
    state: AppStateView,
    session: GatewaySessionView,
    connection: GatewayConnectionView,
    event: GatewayEventView,
)
    ensures
        event_outcome(state, session, connection, event).connection.heartbeat == (
        connection.heartbeat || event_outcome(state, session, connection, event).step is Identify),
        event_outcome(state, session, connection, event).step is Identify ==> (
        event matches GatewayEventView::Envelope(envelope) && envelope.op == 10),
{
}

/// A greeting with an interval is answered, once the authorization is there, by opening the
/// session or taking up the one that there was, and then heartbeats are sent; a second
/// authorization is not sent.
pub proof fn law_greeting_is_answered_with_the_identity(
    state: AppStateView,
    session: GatewaySessionView,
    connection: GatewayConnectionView,
    envelope: GatewayEnvelopeView,
    authorization: Seq<char>,
)
    requires
        envelope.op == 10,
        unsigned_of(member(envelope.d, "heartbeat_interval"@)) is Some,
    ensures
        ({
            let greeted = envelope_outcome(state, session, connection, envelope);
            let event = GatewayEventView::Authorized(authorization);
            let identified = event_outcome(
                greeted.state,
                greeted.session,
                greeted.connection,
                event,
            );
            let again = event_outcome(
                identified.state,
                identified.session,
                identified.connection,
                event,
            );
            let due = event_outcome(
                identified.state,
                identified.session,
                identified.connection,
                GatewayEventView::HeartbeatDue,
            );
            let seen = with_sequence(session, envelope.s);
            &&& greeted.step == GatewayStepView::Identify {
                heartbeat_ms: unsigned_of(member(envelope.d, "heartbeat_interval"@))->0,
            }
            &&& identified.step == GatewayStepView::Send(identify_document(authorization, seen))
            &&& again.step == GatewayStepView::Wait
            &&& due.step == GatewayStepView::Send(heartbeat_document(seen))
        }),
{
}

/// A session that the gateway declared invalid is not taken up again: the service opens a new
/// one, with nothing of the old.
pub proof fn law_invalid_session_starts_over(
    state: AppStateView,
    session: GatewaySessionView,
    connection: GatewayConnectionView,
    envelope: GatewayEnvelopeView,
    authorization: Seq<char>,
)
    requires
        envelope.op == 9,
    ensures
        identify_document(
            authorization,
            envelope_outcome(state, session, connection, envelope).session,
        ) == identify_document(authorization, (GatewaySessionView { id: None, sequence: None })),
        envelope_outcome(state, session, connection, envelope).step is Disconnect,
{
}

/// A session with a name outlives its connection: whatever ends the connection but the
/// gateway's own word that the session is invalid, the session keeps its name.
pub proof fn law_session_outlives_its_connection(
    state: AppStateView,
    session: GatewaySessionView,
    connection: GatewayConnectionView,
    event: GatewayEventView,
)
    requires
        event_outcome(state, session, connection, event).step matches GatewayStepView::Disconnect(
            end,
        ) && end != GatewayEnd::SessionInvalid,
    ensures
        event_outcome(state, session, connection, event).session.id == session.id,
{
}

/// What a session that is taken up again is asked to go on from is the number of the last event
/// that carried one.
pub proof fn law_last_sequence_is_kept(
    state: AppStateView,
    session: GatewaySessionView,
    connection: GatewayConnectionView,
    event: GatewayEventView,
)
    ensures
        event_outcome(state, session, connection, event).session.sequence == match event {
            GatewayEventView::Envelope(envelope) => if envelope.op == 9 {
                None
            } else if envelope.s is Some {
                envelope.s
            } else {
                session.sequence
            },
            _ => session.sequence,
        },
{
}

/// The service is connected after an event exactly where the event does not end the connection
/// and it was connected before, or the gateway says that the session is ready or resumed.
pub proof fn law_connected_while_the_connection_lasts(
    state: AppStateView,
    session: GatewaySessionView,
    connection: GatewayConnectionView,
    event: GatewayEventView,
)
    ensures
        ({
            let outcome = event_outcome(state, session, connection, event);
            &&& outcome.state.connected == ((state.connected && outcome.step !is Disconnect) || (
            event matches GatewayEventView::Envelope(envelope) && envelope.op == 0 && (envelope.t
                == Some("READY"@) || envelope.t == Some("RESUMED"@))))
            &&& outcome.step is Disconnect ==> !outcome.state.connected
        }),
{
}

/// No event by itself changes who the default recipient is, nor the token: a recipient is bound
/// only once it is stored.
pub proof fn law_events_do_not_rebind(
    state: AppStateView,
    session: GatewaySessionView,
    connection: GatewayConnectionView,
    event: GatewayEventView,
)
    ensures
        event_outcome(state, session, connection, event).state.recipient == state.recipient,
        event_outcome(state, session, connection, event).state.api_token_hash
            == state.api_token_hash,
{
}

/// A private message asks to bind its author, whoever was bound before, with a reply to that
/// message.
pub proof fn law_private_message_binds_its_author(
    state: AppStateView,
    session: GatewaySessionView,
    connection: GatewayConnectionView,
    envelope: GatewayEnvelopeView,
    openid: Seq<char>,
)
    requires
        envelope.op == 0,
        envelope.t == Some("C2C_MESSAGE_CREATE"@),
        message_author(envelope.d) == Some(openid),
    ensures
        envelope_outcome(state, session, connection, envelope).step == GatewayStepView::Bind(
            new_binding(openid, text_of(member(envelope.d, "id"@))),
        ),
{
    reveal_strlit("C2C_MESSAGE_CREATE");
    reveal_strlit("READY");
    reveal_strlit("RESUMED");
    assert("C2C_MESSAGE_CREATE"@.len() == 18 && "READY"@.len() == 5 && "RESUMED"@.len() == 7);
}

/// A heartbeat is operation 1 and tells the number of the last event that was seen, or null
/// where there was none, and nothing else.
pub proof fn law_heartbeat_tells_the_last_number(session: GatewaySessionView)
    ensures
        member(heartbeat_document(session), "op"@) == Some(JsonView::Integer(1)),
        session.sequence matches Some(number) ==> member(heartbeat_document(session), "d"@) == Some(
            JsonView::Integer(number as int),
        ),
        session.sequence is None ==> member(heartbeat_document(session), "d"@) == Some(
            JsonView::Null,
        ),
        forall|name: Seq<char>| #[trigger]
            member(heartbeat_document(session), name) is Some ==> name == "op"@ || name == "d"@,
{
    reveal_strlit("op");
    reveal_strlit("d");
    assert("op"@.len() == 2 && "d"@.len() == 1);
    let entries = seq![
        ("op"@, JsonView::Integer(1)),
        ("d"@, sequence_document(session.sequence)),
    ];
    law_members_are_found(entries);
    assert(entries[0].0 == "op"@ && entries[1].0 == "d"@);
}

/// A session with a name is taken up again: operation 6 with the authorization, that name and
/// the number of the last event that was seen, or null where there was none.
pub proof fn law_named_session_is_taken_up(
    authorization: Seq<char>,
    session: GatewaySessionView,
    id: Seq<char>,
)
    requires
        session.id == Some(id),
    ensures
        member(identify_document(authorization, session), "op"@) == Some(JsonView::Integer(6)),
        member(identify_document(authorization, session), "d"@) matches Some(data) && {
            &&& member(data, "token"@) == Some(JsonView::Text(authorization))
            &&& member(data, "session_id"@) == Some(JsonView::Text(id))
            &&& session.sequence matches Some(number) ==> member(data, "seq"@) == Some(
                JsonView::Integer(number as int),
            )
            &&& session.sequence is None ==> member(data, "seq"@) == Some(JsonView::Null)
            &&& forall|name: Seq<char>| #[trigger]
                member(data, name) is Some ==> name == "token"@ || name == "session_id"@ || name
                    == "seq"@
        },
{
    reveal_strlit("op");
    reveal_strlit("d");
    reveal_strlit("token");
    reveal_strlit("session_id");
    reveal_strlit("seq");
    assert("op"@.len() == 2 && "d"@.len() == 1 && "token"@.len() == 5 && "session_id"@.len() == 10
        && "seq"@.len() == 3);
    let data = seq![
        ("token"@, JsonView::Text(authorization)),
        ("session_id"@, JsonView::Text(id)),
        ("seq"@, sequence_document(session.sequence)),
    ];
    law_members_are_found(data);
    assert(data[0].0 == "token"@ && data[1].0 == "session_id"@ && data[2].0 == "seq"@);
    let entries = seq![("op"@, JsonView::Integer(6)), ("d"@, object(data))];
    law_members_are_found(entries);
    assert(entries[0].0 == "op"@ && entries[1].0 == "d"@);
}

/// Without a name a new session is opened: operation 2 with the authorization, for the events of
/// groups and private chats, as the only shard.
pub proof fn law_new_session_subscribes(authorization: Seq<char>, session: GatewaySessionView)
    requires
        session.id is None,
    ensures
        member(identify_document(authorization, session), "op"@) == Some(JsonView::Integer(2)),
        member(identify_document(authorization, session), "d"@) matches Some(data) && {
            &&& member(data, "token"@) == Some(JsonView::Text(authorization))
            &&& member(data, "intents"@) == Some(JsonView::Integer(0x200_0000))
            &&& member(data, "shard"@) matches Some(JsonView::Array(shard)) && shard.len() == 2
                && shard[0] == JsonView::Integer(0) && shard[1] == JsonView::Integer(1)
            &&& forall|name: Seq<char>| #[trigger]
                member(data, name) is Some ==> name == "token"@ || name == "intents"@ || name
                    == "shard"@
        },
{
    reveal_strlit("op");
    reveal_strlit("d");
    reveal_strlit("token");
    reveal_strlit("intents");
    reveal_strlit("shard");
    assert("op"@.len() == 2 && "d"@.len() == 1 && "token"@.len() == 5 && "intents"@.len() == 7
        && "shard"@.len() == 5);
    assert("token"@[0] == 't' && "shard"@[0] == 's');
    let data = seq![
        ("token"@, JsonView::Text(authorization)),
        ("intents"@, JsonView::Integer(QQ_GROUP_AND_C2C_EVENT_INTENT as int)),
        ("shard"@, JsonView::Array(seq![JsonView::Integer(0), JsonView::Integer(1)])),
    ];
    law_members_are_found(data);
    assert(data[0].0 == "token"@ && data[1].0 == "intents"@ && data[2].0 == "shard"@);
    let entries = seq![("op"@, JsonView::Integer(2)), ("d"@, object(data))];
    law_members_are_found(entries);
    assert(entries[0].0 == "op"@ && entries[1].0 == "d"@);
}

/// Whether an event is the gateway's word that the session is ready.
pub open spec fn is_ready(event: GatewayEventView) -> bool {
    event matches GatewayEventView::Envelope(envelope) && envelope.op == 0 && envelope.t == Some(
        "READY"@,
    )
}

/// Whether an event is the gateway's word that the session is not valid.
pub open spec fn is_invalid_session(event: GatewayEventView) -> bool {
    event matches GatewayEventView::Envelope(envelope) && envelope.op == 9
}

/// A session keeps its name through every event but two: the gateway's word that it is invalid
/// takes the name away, and its word that the session is ready gives the name that it tells, if
/// that is a text.
pub proof fn law_only_the_gateway_renames_the_session(
    state: AppStateView,
    session: GatewaySessionView,
    connection: GatewayConnectionView,
    event: GatewayEventView,
    id: Seq<char>,
)
    ensures
        ({
            let after = event_outcome(state, session, connection, event).session.id;
            &&& is_invalid_session(event) ==> after is None
            &&& !is_invalid_session(event) && !is_ready(event) ==> after == session.id
            &&& is_ready(event) ==> {
                let told = member(event->Envelope_0.d, "session_id"@);
                &&& told == Some(JsonView::Text(id)) ==> after == Some(id)
                &&& !(told matches Some(JsonView::Text(_))) ==> after is None
            }
        }),
{
}

/// The service, its session and its connection after a row of events.
pub open spec fn after_events(
    state: AppStateView,
    session: GatewaySessionView,
    connection: GatewayConnectionView,
    events: Seq<GatewayEventView>,
) -> (AppStateView, GatewaySessionView, GatewayConnectionView)
    decreases events.len(),
{
    if events.len() == 0 {
        (state, session, connection)
    } else {
        let outcome = event_outcome(state, session, connection, events.first());
        after_events(outcome.state, outcome.session, outcome.connection, events.drop_first())
    }
}

proof fn lemma_name_is_kept(
    state: AppStateView,
    session: GatewaySessionView,
    connection: GatewayConnectionView,
    events: Seq<GatewayEventView>,
)
    requires
        forall|i: int|
            0 <= i < events.len() ==> !is_invalid_session(#[trigger] events[i]) && !is_ready(
                events[i],
            ),
    ensures
        after_events(state, session, connection, events).1.id == session.id,
    decreases events.len(),
{
    if events.len() > 0 {
        let outcome = event_outcome(state, session, connection, events.first());
        let rest = events.drop_first();
        assert(!is_invalid_session(events[0]) && !is_ready(events[0]));
        assert forall|i: int| 0 <= i < rest.len() implies !is_invalid_session(#[trigger] rest[i])
            && !is_ready(rest[i]) by {
            assert(rest[i] == events[i + 1]);
        }
        lemma_name_is_kept(outcome.state, outcome.session, outcome.connection, rest);
    }
}

/// A session that was named is resumed: whatever events come after, over however many
/// connections, as long as the gateway neither declares it invalid nor names another, the
/// service identifies itself on the next greeting by that name.
pub proof fn law_named_session_is_resumed(
    state: AppStateView,
    session: GatewaySessionView,
    connection: GatewayConnectionView,
    events: Seq<GatewayEventView>,
    id: Seq<char>,
    authorization: Seq<char>,
)
    requires
        session.id == Some(id),
        forall|i: int|
            0 <= i < events.len() ==> !is_invalid_session(#[trigger] events[i]) && !is_ready(
                events[i],
            ),
    ensures
        ({
            let (later, kept, _) = after_events(state, session, connection, events);
            let greeted = GatewayConnectionView { heartbeat: true, identifying: true };
            let event = GatewayEventView::Authorized(authorization);
            &&& event_outcome(later, kept, greeted, event).step matches GatewayStepView::Send(
                document,
            )
            &&& member(document, "op"@) == Some(JsonView::Integer(6))
            &&& member(document, "d"@) matches Some(data)
            &&& member(data, "session_id"@) == Some(JsonView::Text(id))
            &&& member(data, "token"@) == Some(JsonView::Text(authorization))
        }),
{
    lemma_name_is_kept(state, session, connection, events);
    let kept = after_events(state, session, connection, events).1;
    law_named_session_is_taken_up(authorization, kept, id);
}

/// What a message of the gateway asks for, by its operation. Operation 1 is answered with a
/// heartbeat; 7 and 9 end the connection, and so does 10 without an interval; 10 with an
/// interval asks the service to identify itself at just that interval. An event that is
/// dispatched never ends the connection, and any other operation asks for nothing and changes
/// nothing but the number that was seen.
pub proof fn law_operations_ask_for_what_they_mean(
    state: AppStateView,
    session: GatewaySessionView,
    connection: GatewayConnectionView,
    envelope: GatewayEnvelopeView,
    interval: u64,
)
    ensures
        ({
            let outcome = envelope_outcome(state, session, connection, envelope);
            let told = member(envelope.d, "heartbeat_interval"@);
            &&& envelope.op == 0 ==> outcome.connection == connection && (outcome.step is Wait
                || outcome.step is Bind)
            &&& envelope.op == 1 ==> outcome.step == GatewayStepView::Send(
                heartbeat_document(outcome.session),
            ) && outcome.state == state && outcome.connection == connection
            &&& envelope.op == 7 ==> outcome.step == GatewayStepView::Disconnect(
                GatewayEnd::ReconnectRequested,
            )
            &&& envelope.op == 9 ==> outcome.step == GatewayStepView::Disconnect(
                GatewayEnd::SessionInvalid,
            )
            &&& envelope.op == 10 && told == Some(JsonView::Integer(interval as int)) ==> {
                &&& outcome.step == GatewayStepView::Identify { heartbeat_ms: interval }
                &&& outcome.connection.heartbeat && outcome.connection.identifying
                &&& outcome.state == state
            }
            &&& envelope.op == 10 && !(told matches Some(JsonView::Integer(number)) && 0 <= number
                <= u64::MAX) ==> outcome.step == GatewayStepView::Disconnect(
                GatewayEnd::HelloWithoutInterval,
            )
            &&& !(seq![0u8, 1, 7, 9, 10].contains(envelope.op)) ==> {
                &&& outcome.step is Wait
                &&& outcome.state == state
                &&& outcome.connection == connection
                &&& outcome.session.id == session.id
            }
        }),
{
    let known = seq![0u8, 1, 7, 9, 10];
    assert(known[0] == 0 && known[1] == 1 && known[2] == 7 && known[3] == 9 && known[4] == 10);
}

/// A ping is answered with the bytes that it carried; frames that carry nothing ask for nothing;
/// and every way that a connection can end is told by its own reason. None of them touches the
/// session or who is bound.
pub proof fn law_frames_are_answered(
    state: AppStateView,
    session: GatewaySessionView,
    connection: GatewayConnectionView,
    bytes: Seq<u8>,
    event: GatewayEventView,
)
    ensures
        event_outcome(state, session, connection, GatewayEventView::Ping(bytes)).step
            == GatewayStepView::Pong(bytes),
        event_outcome(state, session, connection, GatewayEventView::OtherFrame).step is Wait,
        event_outcome(state, session, connection, GatewayEventView::InvalidText).step
            == GatewayStepView::Disconnect(GatewayEnd::InvalidText),
        event_outcome(state, session, connection, GatewayEventView::Closed).step
            == GatewayStepView::Disconnect(GatewayEnd::Closed),
        event_outcome(state, session, connection, GatewayEventView::ReadFailed).step
            == GatewayStepView::Disconnect(GatewayEnd::ReadFailed),
        event_outcome(state, session, connection, GatewayEventView::Ended).step
            == GatewayStepView::Disconnect(GatewayEnd::Ended),
        connection.heartbeat ==> event_outcome(
            state,
            session,
            connection,
            GatewayEventView::HeartbeatDue,
        ).step == GatewayStepView::Send(heartbeat_document(session)),
        event !is Envelope ==> event_outcome(state, session, connection, event).session == session,
        event !is Envelope && event !is Authorized ==> event_outcome(
            state,
            session,
            connection,
            event,
        ).connection == connection,
        event is Authorized && !connection.identifying ==> event_outcome(
            state,
            session,
            connection,
            event,
        ).step is Wait,
{
}

/// A private message binds its author and nobody else: the user that stands in its data as the
/// author, with a reply to that user that names the message. Without a text that names the
/// author nobody is bound, and no other event binds anybody.
pub proof fn law_author_of_a_private_message_is_bound(
    state: AppStateView,
    session: GatewaySessionView,
    connection: GatewayConnectionView,
    envelope: GatewayEnvelopeView,
    author: JsonView,
    openid: Seq<char>,
    id: Seq<char>,
)
    ensures
        ({
            let outcome = envelope_outcome(state, session, connection, envelope);
            let private = envelope.op == 0 && envelope.t == Some("C2C_MESSAGE_CREATE"@);
            &&& private && member(envelope.d, "author"@) == Some(author) && member(
                author,
                "user_openid"@,
            ) == Some(JsonView::Text(openid)) ==> {
                &&& outcome.step matches GatewayStepView::Bind(binding)
                &&& binding.openid == openid
                &&& binding.stage == SaveStage::Directory
                &&& binding.reply.url == "https://api.sgroup.qq.com/v2/users/"@ + openid
                    + "/messages"@
                &&& member(envelope.d, "id"@) == Some(JsonView::Text(id)) ==> member(
                    binding.reply.payload,
                    "msg_id"@,
                ) == Some(JsonView::Text(id))
                &&& !(member(envelope.d, "id"@) matches Some(JsonView::Text(_))) ==> member(
                    binding.reply.payload,
                    "msg_id"@,
                ) is None
            }
            &&& private && member(envelope.d, "author"@) == Some(author) && !(member(
                author,
                "user_openid"@,
            ) matches Some(JsonView::Text(_))) ==> outcome.step is Wait
            &&& private && member(envelope.d, "author"@) is None ==> outcome.step is Wait
            &&& !private ==> outcome.step !is Bind
        }),
{
    reveal_strlit("C2C_MESSAGE_CREATE");
    reveal_strlit("READY");
    reveal_strlit("RESUMED");
    assert("C2C_MESSAGE_CREATE"@.len() == 18 && "READY"@.len() == 5 && "RESUMED"@.len() == 7);
    law_reply_answers_the_user(openid, text_of(member(envelope.d, "id"@)));
}

/// A message of the gateway and a session are shown with all that they hold.
pub proof fn law_messages_and_sessions_show_what_they_hold(
    envelope: GatewayEnvelope,
    session: GatewaySession,
)
    ensures
        envelope@.op == envelope.op,
        envelope@.d == envelope.d@,
        envelope@.s == envelope.s,
        envelope@.t is Some <==> envelope.t is Some,
        envelope.t is Some ==> envelope@.t == Some(envelope.t->0@),
        session@.sequence == session.sequence,
        session@.id is Some <==> session.id is Some,
        session.id is Some ==> session@.id == Some(session.id->0@),
{
}

/// What happens on a connection is shown as what it is.
pub proof fn law_connection_events_show_what_they_hold(
    envelope: GatewayEnvelope,
    bytes: Vec<u8>,
    authorization: String,
)
    ensures
        GatewayEvent::Envelope(envelope)@ == GatewayEventView::Envelope(envelope@),
        GatewayEvent::Ping(bytes)@ == GatewayEventView::Ping(bytes@),
        GatewayEvent::Authorized(authorization)@ == GatewayEventView::Authorized(authorization@),
        GatewayEvent::HeartbeatDue@ is HeartbeatDue,
        GatewayEvent::InvalidText@ is InvalidText,
        GatewayEvent::OtherFrame@ is OtherFrame,
        GatewayEvent::Closed@ is Closed,
        GatewayEvent::ReadFailed@ is ReadFailed,
        GatewayEvent::Ended@ is Ended,
{
}

/// What is to be done about an event is shown as what it is.
pub proof fn law_steps_show_what_they_hold(
    payload: Payload,
    bytes: Vec<u8>,
    heartbeat_ms: u64,
    binding: RecipientBinding,
    end: GatewayEnd,
)
    ensures
        GatewayStep::Wait@ is Wait,
        GatewayStep::Send(payload)@ == GatewayStepView::Send(payload@),
        GatewayStep::Pong(bytes)@ == GatewayStepView::Pong(bytes@),
        (GatewayStep::Identify { heartbeat_ms })@ == (GatewayStepView::Identify { heartbeat_ms }),
        GatewayStep::Bind(binding)@ == GatewayStepView::Bind(binding@),
        GatewayStep::Disconnect(end)@ == GatewayStepView::Disconnect(end),
{
}

/// A broken connection is made again after five seconds.
pub proof fn law_connection_is_made_again_after_five_seconds()
    ensures
        RECONNECT_DELAY_SECONDS == 5,
{
}

/// Each reason that a connection ends for is told in its own words; those that a recipient was
/// not stored for tell the directory, the file and its permissions apart.
pub proof fn law_reasons_are_told_apart(end: GatewayEnd, other: GatewayEnd)
    requires
        end != other,
    ensures
        end.message_spec() != other.message_spec(),
{
    reveal_strlit("QQ Gateway 消息格式无效");
    reveal_strlit("QQ Gateway 要求重新连接");
    reveal_strlit("QQ Gateway 会话无效");
    reveal_strlit("QQ Gateway Hello 缺少 heartbeat_interval");
    reveal_strlit("QQ Gateway 关闭连接");
    reveal_strlit("读取 QQ Gateway 消息失败");
    reveal_strlit("QQ Gateway 连接已结束");
    reveal_strlit("无法创建 OpenID 目录");
    reveal_strlit("无法保存 OpenID 文件");
    reveal_strlit("无法设置 OpenID 文件权限");
    assert("QQ Gateway 消息格式无效"@[11] == '消');
    assert("QQ Gateway 要求重新连接"@[11] == '要');
    assert("QQ Gateway 会话无效"@[11] == '会');
    assert("QQ Gateway Hello 缺少 heartbeat_interval"@[11] == 'H');
    assert("QQ Gateway 关闭连接"@[11] == '关');
    assert("QQ Gateway 连接已结束"@[11] == '连');
    assert("读取 QQ Gateway 消息失败"@[0] == '读');
    assert("无法创建 OpenID 目录"@[0] == '无' && "无法创建 OpenID 目录"@[2] == '创');
    assert("无法保存 OpenID 文件"@[0] == '无' && "无法保存 OpenID 文件"@[2] == '保');
    assert("无法设置 OpenID 文件权限"@[0] == '无' && "无法设置 OpenID 文件权限"@[2] == '设');
    assert(end.message_spec()[0] == 'Q' || end.message_spec()[0] == '读' || end.message_spec()[0]
        == '无');
}

} // verus!
