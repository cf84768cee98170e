use qnserver::state::{
    authenticate, load_recipient, markdown_result, media_result, recipient_file_text,
    split_message, ApiError, AppState, DeliveryStep, MAX_CONTENT_LENGTH,
};

fn bound() -> AppState {
    AppState::new("secret", Some("default-user\n"))
}

fn unbound() -> AppState {
    AppState::new("secret", None)
}

#[test]
fn lets_the_token_holder_in() {
    let state = unbound();
    assert!(authenticate(&state, Some(b"Bearer secret")).is_ok());
    for supplied in [
        None,
        Some(&b""[..]),
        Some(b"secret"),
        Some(b"Bearer secret "),
        Some(b"bearer secret"),
        Some(b"Bearer \xffsecret"),
    ] {
        let error = authenticate(&state, supplied).unwrap_err();
        assert_eq!(error.status, 401);
        assert!(error.bearer_challenge);
        assert_eq!(error.message, "需要 Authorization: Bearer <QQBOT_API_TOKEN>");
    }
}

#[test]
fn a_token_that_no_header_shows_lets_nobody_in() {
    let state = AppState::new("密钥", None);
    assert!(authenticate(&state, Some("Bearer 密钥".as_bytes())).is_err());
}

#[test]
fn a_token_may_hold_a_tab() {
    let state = AppState::new("a\tb", None);
    assert!(authenticate(&state, Some(b"Bearer a\tb")).is_ok());
}

#[test]
fn only_a_challenge_carries_the_header() {
    let response = ApiError::unauthorized().into_response();
    assert_eq!(response.status, 401);
    assert_eq!(response.www_authenticate, Some("Bearer"));
    let response = ApiError::new(412, "x").into_response();
    assert_eq!(response.status, 412);
    assert_eq!(response.www_authenticate, None);
    assert_eq!(response.body, "x");
}

#[test]
fn loads_what_was_stored() {
    assert_eq!(load_recipient(Some(&recipient_file_text("user"))).as_deref(), Some("user"));
    assert_eq!(recipient_file_text("user"), "user\n");
    assert_eq!(load_recipient(Some(" user\r\n")).as_deref(), Some("user"));
    assert_eq!(load_recipient(Some(" \n")), None);
    assert_eq!(load_recipient(None), None);
}

#[test]
fn finds_the_recipient() {
    assert_eq!(bound().recipient_for(Some("named")).unwrap(), "named");
    assert_eq!(bound().recipient_for(Some("")).unwrap(), "default-user");
    assert_eq!(bound().recipient_for(None).unwrap(), "default-user");
    assert_eq!(unbound().recipient_for(Some("named")).unwrap(), "named");
    assert_eq!(unbound().recipient_for(None).unwrap_err().status, 412);
    assert_eq!(
        unbound().recipient_for(Some("")).unwrap_err().message,
        "尚未绑定 openid，请先向机器人发送一条消息。"
    );
}

#[test]
fn a_new_recipient_takes_the_place_of_the_old() {
    let mut state = bound();
    assert!(!state.connected());
    state.save_recipient("other".to_owned());
    state.set_connected(true);
    assert!(state.connected());
    assert_eq!(state.recipient().as_deref(), Some("other"));
    assert_eq!(state.recipient_for(None).unwrap(), "other");
}

#[test]
fn cuts_long_messages() {
    for length in [1, 2, 3_999, 4_000, 4_001, 7_999, 8_000, 8_001, 12_345] {
        let content: String = "汉a😀".chars().cycle().take(length).collect();
        let pieces = split_message(&content);
        assert_eq!(pieces.concat(), content);
        assert_eq!(pieces.len(), (length + MAX_CONTENT_LENGTH - 1) / MAX_CONTENT_LENGTH);
        for piece in &pieces[..pieces.len() - 1] {
            assert_eq!(piece.chars().count(), MAX_CONTENT_LENGTH);
        }
        assert!(!pieces[pieces.len() - 1].is_empty());
    }
    assert_eq!(split_message("短"), ["短"]);
}

#[test]
fn delivers_piece_by_piece() {
    let content = "x".repeat(4_000) + "y";
    let mut delivery = bound().send_message(&content, None).unwrap();
    assert_eq!(delivery.recipient(), "default-user");
    assert_eq!(delivery.current(), "x".repeat(4_000));
    assert!(matches!(delivery.after_send(true), DeliveryStep::Send));
    assert_eq!(delivery.current(), "y");
    assert!(matches!(delivery.after_send(true), DeliveryStep::Done(2)));
}

#[test]
fn a_failed_piece_ends_the_delivery() {
    let mut delivery = bound().send_message("x", Some("named")).unwrap();
    assert_eq!(delivery.recipient(), "named");
    match delivery.after_send(false) {
        DeliveryStep::Failed(error) => {
            assert_eq!(error.status, 502);
            assert_eq!(error.message, "QQ 消息发送失败。");
            assert!(!error.bearer_challenge);
        }
        other => panic!("{other:?}"),
    }
    assert_eq!(delivery.current(), "x");
}

#[test]
fn refuses_blank_contents() {
    let error = bound().send_message(" \n\u{3000}", None).unwrap_err();
    assert_eq!((error.status, error.message), (400, "content 不能为空。"));
    assert_eq!(unbound().send_message(" ", None).unwrap_err().status, 412);
    let error = unbound().send_markdown("", None).unwrap_err();
    assert_eq!((error.status, error.message), (400, "Markdown content 不能为空。"));
    assert_eq!(unbound().send_markdown("#", None).unwrap_err().status, 412);
    assert_eq!(bound().send_markdown("#", None).unwrap(), "default-user");
}

#[test]
fn failures_at_qq_are_a_bad_gateway() {
    assert!(markdown_result(true).is_ok());
    let error = markdown_result(false).unwrap_err();
    assert_eq!((error.status, error.message), (502, "QQ Markdown 消息发送失败。"));
    assert!(media_result(true).is_ok());
    let error = media_result(false).unwrap_err();
    assert_eq!((error.status, error.message), (502, "QQ 媒体上传或发送失败。"));
}
