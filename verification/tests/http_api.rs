use qnserver::http_api::{
    healthz, markdown_response, media_response, notification_response, parse_media_type, send_markdown, status,
    task_completed, upload_fault, FormField, IncomingFile, UploadFault, UploadForm,
    MAX_MEDIA_REQUEST_SIZE, MAX_MEDIA_SIZE,
};
use qnserver::media::{MediaType, UploadedMedia};
use qnserver::state::{ApiError, AppState};

const TOKEN: Option<&[u8]> = Some(b"Bearer secret");

fn bound() -> AppState {
    AppState::new("secret", Some("default-user\n"))
}

fn unbound() -> AppState {
    AppState::new("secret", None)
}

fn uploaded(file_name: &str, content_type: Option<&str>) -> UploadedMedia {
    UploadedMedia {
        file_name: file_name.to_owned(),
        content_type: content_type.map(str::to_owned),
        size: 1,
    }
}

fn answer(error: ApiError) -> (u16, &'static str) {
    (error.status, error.message)
}

#[test]
fn detects_images_and_keeps_other_uploads_as_files() {
    assert!(matches!(
        parse_media_type(None, &uploaded("report.png", None)),
        Ok(MediaType::Image)
    ));
    assert!(matches!(
        parse_media_type(None, &uploaded("archive.zip", Some("application/zip"))),
        Ok(MediaType::File)
    ));
    assert!(matches!(
        parse_media_type(Some("image"), &uploaded("archive.zip", None)),
        Ok(MediaType::Image)
    ));
}

#[test]
fn rejects_unsupported_media_type() {
    assert!(parse_media_type(Some("video"), &uploaded("clip.mp4", None)).is_err());
}

#[test]
fn a_requested_kind_counts_before_a_detected_one() {
    let image = uploaded("a.png", Some("image/png"));
    assert!(matches!(parse_media_type(Some(" file\n"), &image), Ok(MediaType::File)));
    assert!(matches!(parse_media_type(Some("4"), &image), Ok(MediaType::File)));
    assert!(matches!(parse_media_type(Some(" "), &image), Ok(MediaType::Image)));
    let plain = uploaded("a.bin", None);
    assert!(matches!(parse_media_type(Some("1"), &plain), Ok(MediaType::Image)));
    assert!(matches!(parse_media_type(Some(""), &plain), Ok(MediaType::File)));
    let typed = uploaded("a.bin", Some("image/x-unknown"));
    assert!(matches!(parse_media_type(None, &typed), Ok(MediaType::Image)));
    assert_eq!(
        answer(parse_media_type(Some("Image"), &plain).unwrap_err()),
        (400, "file_type 只能是 image 或 file。")
    );
}

#[test]
fn answers_health_and_status() {
    assert_eq!(healthz().to_text(), r#"{"ok":true}"#);
    let mut state = unbound();
    assert_eq!(
        status(&state, TOKEN).unwrap().to_text(),
        r#"{"bound":false,"connected":false}"#
    );
    state.set_connected(true);
    state.save_recipient("user".to_owned());
    assert_eq!(
        status(&state, TOKEN).unwrap().to_text(),
        r#"{"bound":true,"connected":true}"#
    );
    assert_eq!(status(&state, None).unwrap_err().status, 401);
}

#[test]
fn nothing_is_read_without_the_token() {
    for authorization in [None, Some(&b"Bearer wrong"[..])] {
        for body in [&b""[..], b"{}", br#"{"summary":"done"}"#] {
            let error = task_completed(&bound(), authorization, body).unwrap_err();
            assert_eq!(error.status, 401);
            assert!(error.bearer_challenge);
            let error = send_markdown(&bound(), authorization, body).unwrap_err();
            assert_eq!(error.status, 401);
            assert!(error.bearer_challenge);
        }
        assert_eq!(UploadForm::begin(&bound(), authorization).unwrap_err().status, 401);
    }
}

#[test]
fn sends_the_summary_before_the_content() {
    let delivery =
        task_completed(&bound(), TOKEN, br#"{"content":"b","summary":"a"}"#).unwrap();
    assert_eq!(delivery.current(), "a");
    assert_eq!(delivery.recipient(), "default-user");
    let delivery =
        task_completed(&bound(), TOKEN, br#"{"content":"b","openid":"named"}"#).unwrap();
    assert_eq!(delivery.current(), "b");
    assert_eq!(delivery.recipient(), "named");
    let delivery = task_completed(&bound(), TOKEN, br#"{"content":"b","openid":null}"#).unwrap();
    assert_eq!(delivery.recipient(), "default-user");
    let body = r#"{"summary":"任务完成：部署成功 ✓"}"#;
    let delivery = task_completed(&bound(), TOKEN, body.as_bytes()).unwrap();
    assert_eq!(delivery.current(), "任务完成：部署成功 ✓");
}

#[test]
fn refuses_notifications_that_are_none() {
    let refused = |body: &[u8]| answer(task_completed(&bound(), TOKEN, body).unwrap_err());
    assert_eq!(refused(b"done"), (400, "请求体必须是 JSON。"));
    assert_eq!(refused(b""), (400, "请求体必须是 JSON。"));
    let missing = (400, "summary 或 content 必须是字符串。");
    assert_eq!(refused(b"{}"), missing);
    assert_eq!(refused(b"[]"), missing);
    assert_eq!(refused(br#""done""#), missing);
    assert_eq!(refused(br#"{"summary":null,"content":"b"}"#), missing);
    assert_eq!(refused(br#"{"summary":1}"#), missing);
    assert_eq!(refused(br#"{"content":1.5}"#), missing);
    assert_eq!(refused(br#"{"content":"b","openid":7}"#), (400, "openid 必须是字符串。"));
    assert_eq!(refused(br#"{"content":"b","openid":{}}"#), (400, "openid 必须是字符串。"));
    assert_eq!(refused(br#"{"content":" "}"#), (400, "content 不能为空。"));
    let error = task_completed(&unbound(), TOKEN, br#"{"content":"b"}"#).unwrap_err();
    assert_eq!(error.status, 412);
    assert!(!error.bearer_challenge);
}

#[test]
fn sends_markdown_whole() {
    let body = r##"{"content":"# 标题","openid":"named"}"##;
    let message = send_markdown(&unbound(), TOKEN, body.as_bytes()).unwrap();
    assert_eq!(message.recipient, "named");
    assert_eq!(message.content, "# 标题");
    let refused = |body: &[u8]| answer(send_markdown(&bound(), TOKEN, body).unwrap_err());
    assert_eq!(refused(b"x"), (400, "请求体必须是 JSON。"));
    assert_eq!(refused(br#"{"summary":"a"}"#), (400, "content 必须是 Markdown 字符串。"));
    assert_eq!(refused(br#"{"content":"a","openid":false}"#), (400, "openid 必须是字符串。"));
    assert_eq!(refused(br#"{"content":""}"#), (400, "Markdown content 不能为空。"));
    let error = send_markdown(&unbound(), TOKEN, br#"{"content":"a"}"#).unwrap_err();
    assert_eq!(error.status, 412);
}

#[test]
fn of_two_members_with_one_name_the_later_counts() {
    let delivery =
        task_completed(&bound(), TOKEN, br#"{"summary":1,"summary":"a"}"#).unwrap();
    assert_eq!(delivery.current(), "a");
}

#[test]
fn answers_notifications() {
    assert_eq!(notification_response(3).to_text(), r#"{"chunks":3,"ok":true}"#);
    assert_eq!(markdown_response().to_text(), r#"{"ok":true}"#);
}

fn incoming(form: &UploadForm, file_name: Option<&str>) -> IncomingFile {
    match form.field(Some("file"), file_name, Some("image/png")) {
        Ok(FormField::File(file)) => file,
        other => panic!("{other:?}"),
    }
}

#[test]
fn receives_an_upload() {
    let mut form = UploadForm::begin(&bound(), TOKEN).unwrap();
    assert!(matches!(form.field(Some("openid"), None, None), Ok(FormField::OpenId)));
    form.receive_openid(Some("named".to_owned())).unwrap();
    assert!(matches!(form.field(Some("file_type"), None, None), Ok(FormField::FileType)));
    form.receive_file_type(Some("file".to_owned())).unwrap();
    let mut file = incoming(&form, Some("../pictures/a.png"));
    file.receive(3).unwrap();
    file.receive(4).unwrap();
    form.receive_file(file.finish().unwrap());
    let request = form.finish().unwrap();
    assert_eq!(request.uploaded.file_name, "a.png");
    assert_eq!(request.uploaded.content_type.as_deref(), Some("image/png"));
    assert_eq!(request.uploaded.size, 7);
    assert_eq!(request.media_type, MediaType::File);
    assert_eq!(request.openid.as_deref(), Some("named"));
    assert_eq!(
        media_response(&request).to_text(),
        r#"{"file_name":"a.png","file_type":"file","ok":true}"#
    );
    let job = bound()
        .send_uploaded_media(&request.uploaded, request.media_type, request.openid.as_deref())
        .unwrap();
    assert_eq!((job.openid.as_str(), job.file_name.as_str(), job.file_size), ("named", "a.png", 7));
    let error = unbound()
        .send_uploaded_media(&request.uploaded, request.media_type, None)
        .unwrap_err();
    assert_eq!(error.status, 412);
}

#[test]
fn each_field_comes_once() {
    let mut form = UploadForm::begin(&bound(), TOKEN).unwrap();
    form.receive_openid(Some(String::new())).unwrap();
    form.receive_file_type(Some(String::new())).unwrap();
    let mut file = incoming(&form, Some("a"));
    file.receive(1).unwrap();
    form.receive_file(file.finish().unwrap());
    let refused = |name: Option<&str>| answer(form.field(name, Some("b"), None).unwrap_err());
    assert_eq!(refused(Some("openid")), (400, "openid 只能提供一次。"));
    assert_eq!(refused(Some("file_type")), (400, "file_type 只能提供一次。"));
    assert_eq!(refused(Some("file")), (400, "只能上传一个文件。"));
    assert_eq!(refused(Some("other")), (400, "仅支持 openid、file_type 和 file 字段。"));
    assert_eq!(refused(None), (400, "仅支持 openid、file_type 和 file 字段。"));
}

#[test]
fn refuses_uploads_that_are_none() {
    let mut form = UploadForm::begin(&bound(), TOKEN).unwrap();
    let named = |name: Option<&str>| answer(form.field(Some("file"), name, None).unwrap_err());
    assert_eq!(named(None), (400, "file 必须包含有效的文件名。"));
    assert_eq!(named(Some("..")), (400, "file 必须包含有效的文件名。"));
    assert_eq!(answer(form.receive_openid(None).unwrap_err()), (400, "openid 无效。"));
    assert_eq!(answer(form.receive_file_type(None).unwrap_err()), (400, "file_type 无效。"));
    let empty = incoming(&form, Some("a"));
    assert_eq!(answer(empty.finish().unwrap_err()), (400, "上传文件不能为空。"));
    assert_eq!(answer(form.finish().unwrap_err()), (400, "请求缺少 file 文件字段。"));
}

#[test]
fn limits_the_size_of_a_file() {
    let form = UploadForm::begin(&bound(), TOKEN).unwrap();
    let mut file = incoming(&form, Some("a"));
    file.receive(MAX_MEDIA_SIZE as usize).unwrap();
    let error = file.receive(1).unwrap_err();
    assert_eq!(answer(error), (413, "上传文件超过 200 MB 限制。"));
    assert_eq!(file.receive(usize::MAX).unwrap_err().status, 413);
    assert_eq!(file.finish().unwrap().size, 209_715_200);
    assert_eq!(MAX_MEDIA_REQUEST_SIZE, 210_763_776);
}

#[test]
fn answers_faults_during_an_upload() {
    assert_eq!(answer(upload_fault(UploadFault::Form)), (400, "multipart 请求体无效。"));
    assert_eq!(answer(upload_fault(UploadFault::Chunk)), (400, "读取上传文件失败。"));
    assert_eq!(answer(upload_fault(UploadFault::Storage)), (500, "无法暂存上传文件。"));
}

fn upload_in_order(order: &[&str], pieces: &[usize]) -> (String, u64, MediaType, Option<String>) {
    let mut form = UploadForm::begin(&bound(), TOKEN).unwrap();
    for name in order {
        match form.field(Some(name), Some("x/a.png"), Some("image/png")).unwrap() {
            FormField::OpenId => form.receive_openid(Some("named".to_owned())).unwrap(),
            FormField::FileType => form.receive_file_type(Some("file".to_owned())).unwrap(),
            FormField::File(mut file) => {
                for length in pieces {
                    file.receive(*length).unwrap();
                }
                form.receive_file(file.finish().unwrap());
            }
        }
    }
    let request = form.finish().unwrap();
    (request.uploaded.file_name, request.uploaded.size, request.media_type, request.openid)
}

#[test]
fn neither_the_order_of_fields_nor_the_cut_of_the_file_matters() {
    let expected = ("a.png".to_owned(), 6, MediaType::File, Some("named".to_owned()));
    for order in [
        ["openid", "file_type", "file"],
        ["openid", "file", "file_type"],
        ["file_type", "openid", "file"],
        ["file_type", "file", "openid"],
        ["file", "openid", "file_type"],
        ["file", "file_type", "openid"],
    ] {
        for pieces in [&[6][..], &[1, 2, 3], &[3, 3], &[0, 6, 0]] {
            assert_eq!(upload_in_order(&order, pieces), expected);
        }
    }
}
