use qnserver::json::{Json, Payload};
use qnserver::media::MediaType;
use qnserver::qq_api::{
    cache_seconds, expires_in_seconds, gateway_address, markdown_payload, message_accepted,
    send_c2c, send_c2c_markdown, send_c2c_media, text_payload, AuthorizationStep, QQApi, QqError,
    TokenResponse,
};
use qnserver::transfer::{
    MediaJob, MediaTransfer, TransferAction, TransferEvent, UploadPart, UploadPrepareResponse,
};

const SECOND: u128 = 1_000_000_000;

fn entry(name: &str, value: Payload) -> (String, Payload) {
    (name.to_owned(), value)
}

fn account() -> QQApi {
    QQApi::new("app".to_owned(), "hidden".to_owned())
}

fn token(expires_in: &str) -> TokenResponse {
    TokenResponse {
        access_token: "abc".to_owned(),
        expires_in: Json::parse(expires_in.as_bytes()).unwrap(),
    }
}

#[test]
fn builds_c2c_custom_markdown_payload() {
    assert_eq!(
        markdown_payload("# 标题"),
        Payload::Object(vec![
            entry("msg_type", Payload::UInt(2)),
            entry(
                "markdown",
                Payload::Object(vec![entry("content", Payload::Text("# 标题".to_owned()))])
            ),
        ])
    );
    assert_eq!(
        markdown_payload("# 标题").to_text(),
        r##"{"markdown":{"content":"# 标题"},"msg_type":2}"##
    );
}

#[test]
fn builds_text_messages() {
    assert_eq!(text_payload("a\"b\n", None).to_text(), r#"{"content":"a\"b\n","msg_type":0}"#);
    assert_eq!(
        text_payload("a", Some("m")).to_text(),
        r#"{"content":"a","msg_id":"m","msg_seq":1,"msg_type":0}"#
    );
}

#[test]
fn addresses_the_user() {
    let url = "https://api.sgroup.qq.com/v2/users/u1/messages";
    let request = send_c2c("u1", "a", None);
    assert_eq!(request.url, url);
    assert_eq!(request.payload, text_payload("a", None));
    let request = send_c2c_markdown("u1", "a");
    assert_eq!(request.url, url);
    assert_eq!(request.payload, markdown_payload("a"));
    let request = send_c2c_media("u1", "info");
    assert_eq!(request.url, url);
    assert_eq!(request.payload.to_text(), r#"{"media":{"file_info":"info"},"msg_type":7}"#);
    assert_eq!(gateway_address(), "https://api.sgroup.qq.com/gateway/bot");
}

#[test]
fn a_message_is_taken_by_a_status_of_success() {
    assert!(message_accepted(200));
    assert!(message_accepted(299));
    assert!(!message_accepted(199));
    assert!(!message_accepted(300));
    assert!(!message_accepted(401));
}

#[test]
fn reads_how_long_a_token_lasts() {
    let read = |text: &str| expires_in_seconds(&Json::parse(text.as_bytes()).unwrap());
    assert_eq!(read("7200"), Some(7200));
    assert_eq!(read("\"7200\""), Some(7200));
    assert_eq!(read("\"+7200\""), Some(7200));
    assert_eq!(read("18446744073709551615"), Some(u64::MAX));
    for text in ["-1", "1.5", "null", "\"\"", "\" 1\"", "\"x\"", "[]", "{}", "true"] {
        assert_eq!(read(text), None, "{text}");
    }
    assert_eq!(cache_seconds(7200), 7140);
    assert_eq!(cache_seconds(62), 2);
    assert_eq!(cache_seconds(61), 1);
    assert_eq!(cache_seconds(60), 1);
    assert_eq!(cache_seconds(0), 1);
}

#[test]
fn uses_a_token_until_a_minute_before_its_end() {
    let mut api = account();
    assert_eq!(api.valid_token(0), None);
    api.store_token(token("7200"), 5 * SECOND).unwrap();
    assert_eq!(api.authorization(5 * SECOND).as_deref(), Some("QQBot abc"));
    assert_eq!(api.valid_token(7145 * SECOND - 1).as_deref(), Some("abc"));
    assert_eq!(api.valid_token(7145 * SECOND), None);
    assert_eq!(api.valid_token(8000 * SECOND), None);
    assert_eq!(api.refreshed_authorization(6 * SECOND).unwrap(), "QQBot abc");
    assert_eq!(api.refreshed_authorization(7145 * SECOND), Err(QqError::TokenNotCached));
}

#[test]
fn a_token_without_an_end_is_not_kept() {
    let mut api = account();
    assert_eq!(api.store_token(token("null"), 0), Err(QqError::InvalidExpiry));
    assert_eq!(api.valid_token(0), None);
    api.store_token(token("\"90\""), 0).unwrap();
    assert_eq!(api.store_token(token("{}"), 0), Err(QqError::InvalidExpiry));
    assert_eq!(api.valid_token(0).as_deref(), Some("abc"));
}

#[test]
fn fetches_a_token_only_behind_the_lock() {
    let mut api = account();
    assert!(matches!(api.authorization_step(0, false), AuthorizationStep::Lock));
    match api.authorization_step(0, true) {
        AuthorizationStep::Fetch(request) => {
            assert_eq!(request.url, "https://bots.qq.com/app/getAppAccessToken");
            assert_eq!(
                request.payload.to_text(),
                r#"{"appId":"app","clientSecret":"hidden"}"#
            );
        }
        _ => panic!("neither used nor fetched"),
    }
    api.store_token(token("100"), 0).unwrap();
    for locked in [false, true] {
        match api.authorization_step(0, locked) {
            AuthorizationStep::Use(value) => assert_eq!(value, "QQBot abc"),
            _ => panic!("neither used nor fetched"),
        }
    }
}

#[test]
fn names_the_bot_in_the_headers() {
    let headers = account().headers("QQBot abc").unwrap();
    assert_eq!(headers[0], ("Authorization".to_owned(), "QQBot abc".to_owned()));
    assert_eq!(headers[1], ("X-Union-Appid".to_owned(), "app".to_owned()));
    assert_eq!(headers.len(), 2);
    assert!(account().headers("QQBot\t中文").is_ok());
    assert_eq!(account().headers("a\nb"), Err(QqError::InvalidAuthorization));
    assert_eq!(account().headers("a\u{7f}"), Err(QqError::InvalidAuthorization));
    let broken = QQApi::new("a\rb".to_owned(), String::new());
    assert_eq!(broken.headers("ok"), Err(QqError::InvalidAppId));
    assert_eq!(broken.headers("\0"), Err(QqError::InvalidAuthorization));
}

fn digests() -> (String, String, String) {
    ("m".to_owned(), "s".to_owned(), "t".to_owned())
}

fn job(file_size: u64) -> MediaJob {
    MediaJob {
        openid: "u1".to_owned(),
        file_name: "a.bin".to_owned(),
        media_type: MediaType::File,
        file_size,
    }
}

fn prepared(block_sizes: &[&str]) -> TransferEvent {
    let mut parts = Vec::new();
    for (i, block_size) in block_sizes.iter().enumerate() {
        parts.push(UploadPart {
            index: i as u32 + 1,
            presigned_url: format!("https://cos/{}", i + 1),
            block_size: block_size.to_string(),
        });
    }
    TransferEvent::Prepared(UploadPrepareResponse { upload_id: "up".to_owned(), parts })
}

fn refused(file_size: u64, block_sizes: &[&str]) -> QqError {
    let (transfer, _) = MediaTransfer::start(job(file_size), digests());
    match transfer.on_event(prepared(block_sizes)) {
        Err(error) => error,
        Ok((_, action)) => panic!("{action:?}"),
    }
}

#[test]
fn transfers_a_file_in_parts() {
    let file = b"abcdefg";
    let (mut transfer, action) = MediaTransfer::start(job(7), digests());
    match action {
        TransferAction::Prepare { url, payload } => {
            assert_eq!(url, "https://api.sgroup.qq.com/v2/users/u1/upload_prepare");
            assert_eq!(
                payload.to_text(),
                "{\"file_name\":\"a.bin\",\"file_size\":\"7\",\"file_type\":4,\
                 \"md5\":\"m\",\"md5_10m\":\"t\",\"sha1\":\"s\"}"
            );
        }
        other => panic!("{other:?}"),
    }
    let mut event = prepared(&["3", "+3", "100"]);
    let mut sent = Vec::new();
    let mut confirmed = Vec::new();
    loop {
        let (next, action) = match transfer.on_event(event) {
            Ok(step) => step,
            Err(error) => panic!("{error:?}"),
        };
        transfer = next;
        event = match action {
            TransferAction::Read { size } => {
                TransferEvent::Read(file[sent.len()..sent.len() + size].to_vec())
            }
            TransferAction::Put { url, bytes } => {
                assert_eq!(url, format!("https://cos/{}", confirmed.len() + 1));
                sent.extend(bytes);
                TransferEvent::PutDone
            }
            TransferAction::ConfirmPart { url, payload } => {
                assert_eq!(url, "https://api.sgroup.qq.com/v2/users/u1/upload_part_finish");
                confirmed.push(payload.to_text());
                TransferEvent::PartConfirmed
            }
            TransferAction::Complete { url, payload } => {
                assert_eq!(url, "https://api.sgroup.qq.com/v2/users/u1/files");
                assert_eq!(
                    payload.to_text(),
                    r#"{"file_name":"a.bin","file_type":4,"upload_id":"up"}"#
                );
                TransferEvent::Completed("info".to_owned())
            }
            TransferAction::SendMessage { url, payload } => {
                assert_eq!(url, "https://api.sgroup.qq.com/v2/users/u1/messages");
                assert_eq!(
                    payload.to_text(),
                    r#"{"media":{"file_info":"info"},"msg_type":7}"#
                );
                TransferEvent::MessageSent
            }
            TransferAction::Finish => break,
            TransferAction::Prepare { .. } => unreachable!(),
        };
    }
    assert_eq!(sent, file);
    assert_eq!(
        confirmed,
        [
            "{\"block_size\":\"3\",\"md5\":\"900150983cd24fb0d6963f7d28e17f72\",\
             \"part_index\":1,\"upload_id\":\"up\"}",
            "{\"block_size\":\"3\",\"md5\":\"4ed9407630eb1000c0f6b63842defa7d\",\
             \"part_index\":2,\"upload_id\":\"up\"}",
            "{\"block_size\":\"1\",\"md5\":\"b2f5ff47436671b6e533d8dc3614845d\",\
             \"part_index\":3,\"upload_id\":\"up\"}",
        ]
    );
}

#[test]
fn refuses_parts_that_cannot_hold_the_file() {
    assert_eq!(refused(7, &[]), QqError::NoParts);
    assert_eq!(refused(7, &["x"]), QqError::InvalidBlockSize);
    assert_eq!(refused(7, &["18446744073709551616"]), QqError::InvalidBlockSize);
    assert_eq!(refused(7, &["0"]), QqError::InvalidPart);
    assert_eq!(refused(0, &["1"]), QqError::InvalidPart);
}

fn after_first_part(file_size: u64, block_sizes: &[&str]) -> Result<TransferAction, QqError> {
    let (transfer, _) = MediaTransfer::start(job(file_size), digests());
    let (transfer, action) = transfer.on_event(prepared(block_sizes)).ok().unwrap();
    let size = match action {
        TransferAction::Read { size } => size,
        other => panic!("{other:?}"),
    };
    let (transfer, _) = transfer.on_event(TransferEvent::Read(vec![0; size])).ok().unwrap();
    let (transfer, _) = transfer.on_event(TransferEvent::PutDone).ok().unwrap();
    transfer.on_event(TransferEvent::PartConfirmed).map(|(_, action)| action)
}

#[test]
fn a_part_is_judged_when_its_turn_comes() {
    assert_eq!(after_first_part(7, &["5"]).unwrap_err(), QqError::PartsTooSmall);
    assert_eq!(after_first_part(7, &["5", "y"]).unwrap_err(), QqError::InvalidBlockSize);
    assert_eq!(after_first_part(7, &["7", "1"]).unwrap_err(), QqError::InvalidPart);
    assert!(matches!(
        after_first_part(7, &["5", "9"]),
        Ok(TransferAction::Read { size: 2 })
    ));
    assert!(matches!(after_first_part(7, &["7"]), Ok(TransferAction::Complete { .. })));
}

#[test]
fn what_was_not_asked_for_is_an_error() {
    let out_of_turn = |transfer: MediaTransfer, event: TransferEvent| {
        assert_eq!(transfer.on_event(event).map(|_| ()).unwrap_err(), QqError::OutOfTurn);
    };
    let reading = || {
        let (transfer, _) = MediaTransfer::start(job(7), digests());
        transfer.on_event(prepared(&["7"])).ok().unwrap().0
    };
    out_of_turn(MediaTransfer::start(job(7), digests()).0, TransferEvent::MessageSent);
    out_of_turn(MediaTransfer::start(job(7), digests()).0, TransferEvent::PutDone);
    out_of_turn(reading(), TransferEvent::MessageSent);
    out_of_turn(reading(), prepared(&["7"]));
    out_of_turn(reading(), TransferEvent::Read(vec![0; 6]));
    out_of_turn(reading(), TransferEvent::Read(vec![0; 8]));
    assert!(reading().on_event(TransferEvent::Read(vec![0; 7])).is_ok());
}

#[test]
fn errors_are_told_in_words() {
    assert_eq!(QqError::NoParts.message(), "QQ 私聊媒体预上传未返回分片");
    assert_eq!(QqError::InvalidBlockSize.message(), "QQ 私聊媒体预上传返回的分片大小无效");
    assert_eq!(QqError::InvalidPart.message(), "QQ 私聊媒体预上传返回了无效分片");
    assert_eq!(QqError::PartTooLarge.message(), "QQ 分片大小超出本机限制");
    assert_eq!(QqError::PartsTooSmall.message(), "QQ 私聊媒体预上传返回的分片不足以容纳文件");
    assert_eq!(QqError::OutOfTurn.message(), "QQ 私聊媒体上传步骤顺序错误");
    assert_eq!(QqError::InvalidExpiry.message(), "QQ AppAccessToken 响应缺少有效 expires_in");
    assert_eq!(QqError::TokenNotCached.message(), "QQ AppAccessToken 缓存失败");
    assert_eq!(QqError::InvalidAuthorization.message(), "QQ 授权头无效");
    assert_eq!(QqError::InvalidAppId.message(), "QQ App ID 无效");
}
