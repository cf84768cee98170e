use qnserver::settings::Settings;

fn complaint(
    app_id: Option<&str>,
    app_secret: Option<&str>,
    api_token: Option<&str>,
    port: Option<&str>,
) -> String {
    Settings::from_environment(app_id, app_secret, api_token, None, port).err().unwrap().message()
}

#[test]
fn reads_settings() {
    let settings =
        Settings::from_environment(Some(" id\n"), Some("s"), Some("t"), None, None).ok().unwrap();
    assert_eq!(settings.app_id, "id");
    assert_eq!(settings.app_secret, "s");
    assert_eq!(settings.api_token, "t");
    assert_eq!(settings.address, "0.0.0.0:8765");
    let settings =
        Settings::from_environment(Some("i"), Some("s"), Some("t"), Some("::1"), Some("+080"))
            .ok()
            .unwrap();
    assert_eq!(settings.address, "::1:80");
}

#[test]
fn the_first_complaint_counts() {
    assert_eq!(complaint(None, None, None, None), "缺少环境变量: QQBOT_APP_ID");
    assert_eq!(complaint(Some(" "), Some("s"), None, None), "缺少环境变量: QQBOT_APP_ID");
    assert_eq!(complaint(Some("i"), None, None, Some("x")), "缺少环境变量: QQBOT_APP_SECRET");
    assert_eq!(complaint(Some("i"), Some("s"), Some(""), None), "缺少环境变量: QQBOT_API_TOKEN");
    for port in ["", "x", "-1", "65536", "8765 ", "99999999999999999999"] {
        assert_eq!(
            complaint(Some("i"), Some("s"), Some("t"), Some(port)),
            "QQBOT_HTTP_PORT 必须是有效端口"
        );
    }
}
