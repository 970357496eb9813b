use talon_pilot_studio::platform::Platform;
use talon_pilot_studio::shell::{
    finish_install, on_menu_event, on_page_load, on_tray_click, open_external, tray_menu,
    TrayAction, TITLEBAR_DRAG_SCRIPT,
};
use talon_pilot_studio::update::{
    check_for_update, choose_endpoint, choose_parsed, endpoint_message, refuse_endpoint, CheckAction,
    CheckOutcome,
};

#[test]
fn only_the_web_is_opened() {
    assert_eq!(open_external("https://example.com"), Ok(()));
    assert_eq!(open_external("http://x"), Ok(()));
    assert_eq!(
        open_external("file:///etc/passwd"),
        Err("拒绝打开非 http(s) 链接: file:///etc/passwd".to_string())
    );
    assert!(open_external("HTTPS://x").is_err());
    assert!(open_external("https:/x").is_err());
}

#[test]
fn tray_menu_and_its_actions() {
    let menu: Vec<(&str, &str)> = tray_menu().iter().map(|i| (i.id, i.label)).collect();
    assert_eq!(
        menu,
        [
            ("show", "显示主窗口"),
            ("check-update", "检查更新"),
            ("quit", "退出")
        ]
    );
    assert_eq!(on_menu_event("show"), TrayAction::ShowMainWindow);
    assert_eq!(on_menu_event("check-update"), TrayAction::CheckForUpdate);
    assert_eq!(on_menu_event("quit"), TrayAction::Quit);
    assert_eq!(on_menu_event("other"), TrayAction::Nothing);
    assert_eq!(on_tray_click(true, true), TrayAction::ShowMainWindow);
    assert_eq!(on_tray_click(true, false), TrayAction::Nothing);
    assert_eq!(on_tray_click(false, true), TrayAction::Nothing);
}

#[test]
fn installation_ends_with_its_path_or_a_message() {
    assert_eq!(finish_install(Ok(Ok("/p".to_string()))), Ok("/p".to_string()));
    assert_eq!(finish_install(Ok(Err("e".to_string()))), Err("e".to_string()));
    assert_eq!(
        finish_install(Err("panicked".to_string())),
        Err("install task join: panicked".to_string())
    );
}

#[test]
fn pages_learn_the_address_and_the_shell() {
    let scripts = on_page_load(Platform::Linux, "https://a\"</script>\u{1}\n", "0.1.6", "linux");
    assert_eq!(
        scripts,
        [
            "window.__TP_API_BASE__ = \"https://a\\\"</script>\\u0001\\n\";",
            "window.__TP_CLIENT_INFO__ = {\"os\":\"linux\",\"version\":\"0.1.6\"};"
        ]
    );
    let mac = on_page_load(Platform::MacOs, "a", "v", "macos");
    assert_eq!(mac.len(), 3);
    assert_eq!(mac[2], TITLEBAR_DRAG_SCRIPT);
    assert!(mac[2].contains("startDragging"));
}

#[test]
fn literals_of_every_control_character_are_those_of_serde_json() {
    let all: String = (0u32..0x100).filter_map(char::from_u32).chain(['\\', '中', '\u{2028}', '😀']).collect();
    let scripts = on_page_load(Platform::Linux, &all, "v", "o");
    assert_eq!(
        scripts[0],
        format!(
            "window.__TP_API_BASE__ = {};",
            serde_json::to_string(&all).unwrap()
        )
    );
}

#[test]
fn own_endpoint_is_used_where_it_is_an_address() {
    let choice = choose_endpoint(Some("https://M.example/latest.json"));
    assert_eq!(choice.endpoint.as_deref(), Some("https://m.example/latest.json"));
    assert_eq!(choice.log, None);
    let choice = choose_endpoint(None);
    assert!(choice.endpoint.is_none() && choice.log.is_none());
}

#[test]
fn wrong_endpoint_falls_back_to_the_built_in_one() {
    let choice = choose_endpoint(Some("latest.json"));
    assert_eq!(choice.endpoint, None);
    assert_eq!(
        choice.log.as_deref(),
        Some("[updater] 自定义 update_endpoint 无效,改用内置默认: latest.json: relative URL without a base")
    );
    let choice = choose_parsed("e", Err("r".to_string()));
    assert_eq!(choice.log, Some(endpoint_message("e", "r")));
    let choice = refuse_endpoint("ftp://e", "insecure");
    assert_eq!(choice.endpoint, None);
    assert_eq!(choice.log, Some(endpoint_message("ftp://e", "insecure")));
}

#[test]
fn only_a_newer_version_shows_the_dialog() {
    assert!(matches!(check_for_update(CheckOutcome::Found), CheckAction::ShowDialog));
    assert!(matches!(check_for_update(CheckOutcome::UpToDate), CheckAction::Stay));
    let logged = |outcome| match check_for_update(outcome) {
        CheckAction::Log(message) => message,
        other => panic!("unexpected {other:?}"),
    };
    assert_eq!(
        logged(CheckOutcome::InitFailed("x".to_string())),
        "[updater] 初始化失败: x"
    );
    assert_eq!(
        logged(CheckOutcome::CheckFailed("x".to_string())),
        "[updater] 检查更新失败(忽略): x"
    );
    assert_eq!(
        logged(CheckOutcome::DialogFailed("x".to_string())),
        "[updater] 打开更新弹窗失败(忽略): x"
    );
}
