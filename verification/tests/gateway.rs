use qnserver::binding::{BindingStep, RecipientBinding, SaveAction, SaveStage};
use qnserver::gateway::{
    begin_connection, end_connection, gateway_event, gateway_identify_payload, handle_envelope,
    heartbeat_payload, GatewayConnection, GatewayEnd, GatewayEnvelope, GatewayEvent,
    GatewaySession, GatewayStep,
};
use qnserver::http_api::status;
use qnserver::json::{Json, Payload};
use qnserver::state::AppState;

fn entry(name: &str, value: Payload) -> (String, Payload) {
    (name.to_owned(), value)
}

fn envelope(op: u8, d: &str, s: Option<i64>, t: Option<&str>) -> GatewayEnvelope {
    GatewayEnvelope {
        op,
        d: Json::parse(d.as_bytes()).unwrap(),
        s,
        t: t.map(str::to_owned),
    }
}

fn service() -> (AppState, GatewaySession, GatewayConnection) {
    let mut state = AppState::new("secret", Some("old\n"));
    let connection = begin_connection(&mut state);
    (state, GatewaySession::new(), connection)
}

fn greet(state: &mut AppState, session: &mut GatewaySession, connection: &mut GatewayConnection) {
    let hello = envelope(10, r#"{"heartbeat_interval":1}"#, None, None);
    let step = handle_envelope(state, session, connection, &hello);
    assert!(matches!(step, GatewayStep::Identify { heartbeat_ms: 1 }));
    assert!(connection.heartbeat());
}

fn bind(step: GatewayStep) -> RecipientBinding {
    match step {
        GatewayStep::Bind(binding) => binding,
        other => panic!("{other:?}"),
    }
}

fn saved(step: BindingStep) -> RecipientBinding {
    match step {
        BindingStep::Save(binding) => binding,
        other => panic!("{other:?}"),
    }
}

#[test]
fn subscribes_to_group_and_c2c_events() {
    let session = GatewaySession {
        id: None,
        sequence: None,
    };

    assert_eq!(
        gateway_identify_payload("access-token", &session),
        Payload::Object(vec![
            entry("op", Payload::UInt(2)),
            entry(
                "d",
                Payload::Object(vec![
                    entry("token", Payload::Text("access-token".to_owned())),
                    entry("intents", Payload::UInt(33_554_432)),
                    entry("shard", Payload::Array(vec![Payload::UInt(0), Payload::UInt(1)])),
                ])
            ),
        ])
    );
    assert_eq!(
        gateway_identify_payload("access-token", &session).to_text(),
        r#"{"d":{"intents":33554432,"shard":[0,1],"token":"access-token"},"op":2}"#
    );
}

#[test]
fn takes_up_a_session_again() {
    let (mut state, mut session, mut connection) = service();
    let hello = envelope(10, r#"{"heartbeat_interval":41250}"#, None, None);
    assert!(matches!(
        handle_envelope(&mut state, &mut session, &mut connection, &hello),
        GatewayStep::Identify { heartbeat_ms: 41_250 }
    ));
    assert!(!state.connected());
    let ready = envelope(0, r#"{"session_id":"s-1"}"#, Some(1), Some("READY"));
    assert!(matches!(handle_envelope(&mut state, &mut session, &mut connection, &ready), GatewayStep::Wait));
    assert!(state.connected());
    let other = envelope(0, "{}", Some(-7), Some("GUILD_CREATE"));
    assert!(matches!(handle_envelope(&mut state, &mut session, &mut connection, &other), GatewayStep::Wait));
    let reconnect = envelope(7, "null", None, None);
    assert!(matches!(
        handle_envelope(&mut state, &mut session, &mut connection, &reconnect),
        GatewayStep::Disconnect(GatewayEnd::ReconnectRequested)
    ));
    assert!(!state.connected());
    connection = begin_connection(&mut state);
    assert!(!state.connected());
    assert!(!connection.heartbeat());
    assert_eq!(
        gateway_identify_payload("t", &session).to_text(),
        r#"{"d":{"seq":-7,"session_id":"s-1","token":"t"},"op":6}"#
    );
    let resumed = envelope(0, "null", None, Some("RESUMED"));
    handle_envelope(&mut state, &mut session, &mut connection, &resumed);
    assert!(state.connected());
    let invalid = envelope(9, "false", Some(9), None);
    assert!(matches!(
        handle_envelope(&mut state, &mut session, &mut connection, &invalid),
        GatewayStep::Disconnect(GatewayEnd::SessionInvalid)
    ));
    assert!(!state.connected());
    assert!(session.id.is_none());
    assert!(session.sequence.is_none());
}

#[test]
fn a_session_without_a_number_is_resumed_with_null() {
    let session = GatewaySession { id: Some("s".to_owned()), sequence: None };
    assert_eq!(
        gateway_identify_payload("t", &session).to_text(),
        r#"{"d":{"seq":null,"session_id":"s","token":"t"},"op":6}"#
    );
    assert_eq!(heartbeat_payload(&session).to_text(), r#"{"d":null,"op":1}"#);
}

#[test]
fn ready_without_a_session_id_forgets_the_session() {
    let (mut state, mut session, mut connection) = service();
    session.id = Some("s".to_owned());
    let ready = envelope(0, r#"{"session_id":4}"#, None, Some("READY"));
    handle_envelope(&mut state, &mut session, &mut connection, &ready);
    assert!(session.id.is_none());
    assert!(state.connected());
}

#[test]
fn heartbeats_carry_the_last_number() {
    let (mut state, mut session, mut connection) = service();
    let asked = envelope(1, "null", Some(5), None);
    match handle_envelope(&mut state, &mut session, &mut connection, &asked) {
        GatewayStep::Send(payload) => assert_eq!(payload.to_text(), r#"{"d":5,"op":1}"#),
        other => panic!("{other:?}"),
    }
    greet(&mut state, &mut session, &mut connection);
    match gateway_event(&mut state, &mut session, &mut connection, GatewayEvent::HeartbeatDue) {
        GatewayStep::Send(payload) => assert_eq!(payload.to_text(), r#"{"d":5,"op":1}"#),
        other => panic!("{other:?}"),
    }
}

#[test]
fn hello_needs_an_interval() {
    for d in ["{}", "null", r#"{"heartbeat_interval":-1}"#, r#"{"heartbeat_interval":"5"}"#,
        r#"{"heartbeat_interval":1.0}"#]
    {
        let (mut state, mut session, mut connection) = service();
        let hello = envelope(10, d, Some(3), None);
        assert!(matches!(
            handle_envelope(&mut state, &mut session, &mut connection, &hello),
            GatewayStep::Disconnect(GatewayEnd::HelloWithoutInterval)
        ));
        assert_eq!(session.sequence, Some(3));
    }
}

#[test]
fn an_acknowledgement_comes_to_nothing() {
    let (mut state, mut session, mut connection) = service();
    for op in [11, 2, 255] {
        let message = GatewayEnvelope { op, d: Json::Null, s: None, t: None };
        assert!(matches!(handle_envelope(&mut state, &mut session, &mut connection, &message), GatewayStep::Wait));
    }
    let message = GatewayEnvelope { op: 0, d: Json::Null, s: None, t: None };
    assert!(matches!(handle_envelope(&mut state, &mut session, &mut connection, &message), GatewayStep::Wait));
}

#[test]
fn binds_the_author_of_a_private_message() {
    let (mut state, mut session, mut connection) = service();
    let message = envelope(
        0,
        r#"{"id":"m-1","author":{"user_openid":"new"},"content":"hi"}"#,
        Some(2),
        Some("C2C_MESSAGE_CREATE"),
    );
    let binding = bind(handle_envelope(&mut state, &mut session, &mut connection, &message));
    assert!(matches!(binding.action(), SaveAction::CreateDirectory));
    let binding = saved(binding.after_action(&mut state, true));
    match binding.action() {
        SaveAction::Write(text) => assert_eq!(text, "new\n"),
        other => panic!("{other:?}"),
    }
    let binding = saved(binding.after_action(&mut state, true));
    assert!(matches!(binding.action(), SaveAction::SetMode(0o600)));
    assert_eq!(state.recipient().as_deref(), Some("old"));
    match binding.after_action(&mut state, true) {
        BindingStep::Reply(reply) => {
            assert_eq!(reply.url, "https://api.sgroup.qq.com/v2/users/new/messages");
            assert_eq!(
                reply.payload.to_text(),
                "{\"content\":\"已绑定通知接收人。之后任务完成时会发送最后汇报。\",\
                 \"msg_id\":\"m-1\",\"msg_seq\":1,\"msg_type\":0}"
            );
        }
        other => panic!("{other:?}"),
    }
    assert_eq!(state.recipient().as_deref(), Some("new"));
    assert_eq!(state.recipient_for(None).unwrap(), "new");
}

#[test]
fn ignores_a_private_message_without_an_author() {
    for d in ["null", "{}", r#"{"author":{}}"#, r#"{"author":["x"]}"#,
        r#"{"author":{"user_openid":1}}"#]
    {
        let (mut state, mut session, mut connection) = service();
        let message = envelope(0, d, None, Some("C2C_MESSAGE_CREATE"));
        assert!(matches!(handle_envelope(&mut state, &mut session, &mut connection, &message), GatewayStep::Wait));
    }
}

#[test]
fn a_message_without_an_id_is_answered_without_one() {
    let (mut state, mut session, mut connection) = service();
    let message = envelope(
        0,
        r#"{"author":{"user_openid":"u"},"id":5}"#,
        None,
        Some("C2C_MESSAGE_CREATE"),
    );
    let binding = bind(handle_envelope(&mut state, &mut session, &mut connection, &message));
    let binding = saved(binding.after_action(&mut state, true));
    let binding = saved(binding.after_action(&mut state, true));
    match binding.after_action(&mut state, true) {
        BindingStep::Reply(reply) => {
            let text = reply.payload.to_text();
            assert!(!text.contains("msg_id"));
            assert!(!text.contains("msg_seq"));
        }
        other => panic!("{other:?}"),
    }
}

#[test]
fn handles_what_happens_on_the_connection() {
    let (mut state, mut session, mut connection) = service();
    let mut end = |event: GatewayEvent| match gateway_event(&mut state, &mut session, &mut connection, event) {
        GatewayStep::Disconnect(end) => end.message(),
        other => panic!("{other:?}"),
    };
    assert_eq!(end(GatewayEvent::InvalidText), "QQ Gateway 消息格式无效");
    assert_eq!(end(GatewayEvent::Closed), "QQ Gateway 关闭连接");
    assert_eq!(end(GatewayEvent::ReadFailed), "读取 QQ Gateway 消息失败");
    assert_eq!(end(GatewayEvent::Ended), "QQ Gateway 连接已结束");
    assert!(matches!(
        gateway_event(&mut state, &mut session, &mut connection, GatewayEvent::OtherFrame),
        GatewayStep::Wait
    ));
    match gateway_event(&mut state, &mut session, &mut connection, GatewayEvent::Ping(vec![1, 2])) {
        GatewayStep::Pong(bytes) => assert_eq!(bytes, [1, 2]),
        other => panic!("{other:?}"),
    }
    let message = envelope(7, "null", None, None);
    assert!(matches!(
        gateway_event(&mut state, &mut session, &mut connection, GatewayEvent::Envelope(message)),
        GatewayStep::Disconnect(GatewayEnd::ReconnectRequested)
    ));
}

fn connected_service() -> (AppState, GatewaySession, GatewayConnection) {
    let (mut state, mut session, mut connection) = service();
    let ready = envelope(0, r#"{"session_id":"s-1"}"#, Some(1), Some("READY"));
    handle_envelope(&mut state, &mut session, &mut connection, &ready);
    assert!(state.connected());
    (state, session, connection)
}

#[test]
fn the_status_tells_that_a_connection_ended() {
    let ends = [
        GatewayEvent::InvalidText,
        GatewayEvent::Closed,
        GatewayEvent::ReadFailed,
        GatewayEvent::Ended,
        GatewayEvent::Envelope(envelope(7, "null", None, None)),
        GatewayEvent::Envelope(envelope(9, "false", None, None)),
        GatewayEvent::Envelope(envelope(10, "{}", None, None)),
    ];
    for event in ends {
        let (mut state, mut session, mut connection) = connected_service();
        let step = gateway_event(&mut state, &mut session, &mut connection, event);
        assert!(matches!(step, GatewayStep::Disconnect(_)));
        assert!(!state.connected());
        assert_eq!(
            status(&state, Some(b"Bearer secret")).unwrap().to_text(),
            r#"{"bound":true,"connected":false}"#
        );
    }
}

#[test]
fn a_connection_that_goes_on_stays_connected() {
    let events = [
        GatewayEvent::HeartbeatDue,
        GatewayEvent::Ping(vec![]),
        GatewayEvent::OtherFrame,
        GatewayEvent::Envelope(envelope(1, "null", None, None)),
        GatewayEvent::Envelope(envelope(10, r#"{"heartbeat_interval":1}"#, None, None)),
        GatewayEvent::Envelope(envelope(11, "null", None, None)),
        GatewayEvent::Envelope(envelope(0, "{}", None, Some("C2C_MESSAGE_CREATE"))),
    ];
    for event in events {
        let (mut state, mut session, mut connection) = connected_service();
        gateway_event(&mut state, &mut session, &mut connection, event);
        assert!(state.connected());
    }
}

#[test]
fn a_recipient_that_is_not_saved_ends_the_connection() {
    let failures = [
        (0, SaveStage::Directory, "无法创建 OpenID 目录 data/x"),
        (1, SaveStage::Contents, "无法保存 OpenID 文件 data/x"),
        (2, SaveStage::Permissions, "无法设置 OpenID 文件权限 data/x"),
    ];
    for (done, stage, message) in failures {
        let (mut state, _, _) = connected_service();
        let mut binding = RecipientBinding::new("new".to_owned(), None);
        for _ in 0..done {
            binding = saved(binding.after_action(&mut state, true));
            assert!(state.connected());
        }
        match binding.after_action(&mut state, false) {
            BindingStep::Disconnect(end) => {
                assert_eq!(end, GatewayEnd::RecipientNotSaved(stage));
                assert_eq!(end.message_at("data/x"), message);
            }
            other => panic!("{other:?}"),
        }
        assert!(!state.connected());
        assert_eq!(state.recipient().as_deref(), Some("old"));
    }
}

#[test]
fn no_heartbeat_is_sent_before_the_greeting() {
    let (mut state, mut session, mut connection) = service();
    assert!(!connection.heartbeat());
    assert!(matches!(
        gateway_event(&mut state, &mut session, &mut connection, GatewayEvent::HeartbeatDue),
        GatewayStep::Wait
    ));
    let broken = envelope(10, "{}", None, None);
    handle_envelope(&mut state, &mut session, &mut connection, &broken);
    assert!(!connection.heartbeat());
}

#[test]
fn the_greeting_is_answered_with_the_identity() {
    let (mut state, mut session, mut connection) = service();
    let authorized = || GatewayEvent::Authorized("QQBot abc".to_owned());
    assert!(matches!(
        gateway_event(&mut state, &mut session, &mut connection, authorized()),
        GatewayStep::Wait
    ));
    greet(&mut state, &mut session, &mut connection);
    match gateway_event(&mut state, &mut session, &mut connection, authorized()) {
        GatewayStep::Send(payload) => assert_eq!(
            payload.to_text(),
            r#"{"d":{"intents":33554432,"shard":[0,1],"token":"QQBot abc"},"op":2}"#
        ),
        other => panic!("{other:?}"),
    }
    assert!(matches!(
        gateway_event(&mut state, &mut session, &mut connection, authorized()),
        GatewayStep::Wait
    ));
    session.id = Some("s-1".to_owned());
    greet(&mut state, &mut session, &mut connection);
    match gateway_event(&mut state, &mut session, &mut connection, authorized()) {
        GatewayStep::Send(payload) => assert_eq!(
            payload.to_text(),
            r#"{"d":{"seq":null,"session_id":"s-1","token":"QQBot abc"},"op":6}"#
        ),
        other => panic!("{other:?}"),
    }
}

#[test]
fn whatever_ends_a_connection_leaves_the_service_unconnected() {
    let (mut state, session, _) = connected_service();
    end_connection(&mut state);
    assert!(!state.connected());
    assert_eq!(state.recipient().as_deref(), Some("old"));
    assert_eq!(session.id.as_deref(), Some("s-1"));
}
