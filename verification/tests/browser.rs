use talon_pilot_studio::browser::{
    enabled_marker, extension_connected, extension_target_dir, extensions_page_error,
    health_query, native_host_manifest, native_messaging_hosts_dir, open_chrome_extensions_page,
    read_flag, relay_live, relay_query, set_enabled, status, ConnectorAction, ConnectorEvent,
};
use talon_pilot_studio::platform::{HostEnv, Platform};
use talon_pilot_studio::process::{ProcessOutput, RunOutcome};

fn env() -> HostEnv {
    HostEnv {
        home: Some("/home/u".to_string()),
        user_profile: None,
        local_app_data: None,
        app_data: None,
    }
}

fn finished(success: bool, stdout: &str) -> RunOutcome {
    RunOutcome::Finished(ProcessOutput {
        success,
        status: String::new(),
        stdout: stdout.as_bytes().to_vec(),
        stderr: Vec::new(),
    })
}

fn step(action: ConnectorAction, event: ConnectorEvent) -> ConnectorAction {
    action.step(Platform::Linux, &env(), event)
}

fn failure(action: ConnectorAction) -> String {
    match action {
        ConnectorAction::Fail(reason) => reason,
        other => panic!("expected a failure, got {other:?}"),
    }
}

fn failed(reason: &str) -> ConnectorEvent {
    ConnectorEvent::Failed(reason.to_string())
}

#[test]
fn relay_is_live_where_it_says_so() {
    assert_eq!(relay_query(), ["browser", "status", "--json"]);
    assert!(relay_live(finished(true, " {\"port\": 1, \"live\": true} ")));
    assert!(!relay_live(finished(true, "{\"live\": false}")));
    assert!(!relay_live(finished(true, "{\"live\": \"true\"}")));
    assert!(!relay_live(finished(true, "{}")));
    assert!(!relay_live(finished(true, "[true]")));
    assert!(!relay_live(finished(true, "not json")));
    assert!(!relay_live(finished(false, "{\"live\": true}")));
    assert!(!relay_live(RunOutcome::NotInstalled));
    assert!(!relay_live(RunOutcome::SpawnFailed("x".to_string())));
}

#[test]
fn extension_is_connected_where_the_result_says_so() {
    assert_eq!(health_query(), ["browser", "call", "browser.relay.health"]);
    assert!(extension_connected(finished(
        true,
        "{\"ok\": true, \"result\": {\"connected\": true}}"
    )));
    assert!(!extension_connected(finished(
        true,
        "{\"connected\": true, \"result\": {\"connected\": false}}"
    )));
    assert!(!extension_connected(finished(true, "{\"connected\": true}")));
    assert!(!extension_connected(finished(true, "{\"result\": true}")));
    assert!(!extension_connected(finished(
        false,
        "{\"result\": {\"connected\": true}}"
    )));
}

#[test]
fn flags_are_false_without_a_document() {
    assert!(read_flag(Some(b"{\"a\": true}"), "a"));
    assert!(!read_flag(Some(b"{\"a\": true}"), "b"));
    assert!(!read_flag(None, "a"));
}

#[test]
fn status_is_put_together() {
    let s = status(
        true,
        finished(true, "{\"live\": true}"),
        RunOutcome::NotInstalled,
        Some("/x".to_string()),
        true,
    );
    assert!(s.enabled && s.relay_live && !s.extension_connected);
    assert_eq!(s.extension_dir.as_deref(), Some("/x"));
    let s = status(
        false,
        RunOutcome::NotInstalled,
        RunOutcome::NotInstalled,
        Some("/x".to_string()),
        false,
    );
    assert!(!s.enabled && !s.relay_live);
    assert_eq!(s.extension_dir, None);
}

#[test]
fn paths_of_the_connector() {
    assert_eq!(
        enabled_marker(Platform::Linux, &env()).as_deref(),
        Some("/home/u/.local/share/tp-agent/browser-relay.enabled")
    );
    let literal = HostEnv {
        home: Some(r"\\?\C:\x".to_string()),
        ..env()
    };
    assert_eq!(
        enabled_marker(Platform::Windows, &literal).as_deref(),
        Some(r"\\?\C:\x\.local\share\tp-agent\browser-relay.enabled")
    );
    assert_eq!(
        native_messaging_hosts_dir(Platform::Linux, &env()).as_deref(),
        Some("/home/u/.config/google-chrome/NativeMessagingHosts")
    );
    assert_eq!(
        native_messaging_hosts_dir(Platform::MacOs, &env()).as_deref(),
        Some("/home/u/Library/Application Support/Google/Chrome/NativeMessagingHosts")
    );
    assert_eq!(native_messaging_hosts_dir(Platform::Windows, &env()), None);
    assert_eq!(
        extension_target_dir(Platform::Linux, Some("/data")).as_deref(),
        Some("/data/chrome-extension")
    );
    assert_eq!(extension_target_dir(Platform::Linux, None), None);
}

#[test]
fn manifest_is_indented_and_sorted() {
    let expected = "{\n  \"allowed_origins\": [\n    \"chrome-extension://REPLACE_WITH_PINNED_EXTENSION_ID/\"\n  ],\n  \"description\": \"Talon Pilot Browser Connector\",\n  \"name\": \"com.talonpilot.browser_connector\",\n  \"path\": \"C:\\\\a \\\"b\\\"\",\n  \"type\": \"stdio\"\n}";
    assert_eq!(
        String::from_utf8(native_host_manifest("C:\\a \"b\"")).unwrap(),
        expected
    );
}

#[test]
fn turning_on_goes_through_every_step() {
    let action = set_enabled(true, Some("/data/x"), Some("/res/x"), true);
    match &action {
        ConnectorAction::CopyExtension { from, to } => {
            assert_eq!(from, "/res/x");
            assert_eq!(to, "/data/x");
        }
        other => panic!("unexpected {other:?}"),
    }
    let action = step(action, ConnectorEvent::Succeeded);
    assert!(matches!(action, ConnectorAction::Locate));
    let action = step(
        action,
        ConnectorEvent::Located(Some("/opt/bin/tp-agent".to_string())),
    );
    match &action {
        ConnectorAction::CreateHostsDir { dir, native_host } => {
            assert_eq!(dir, "/home/u/.config/google-chrome/NativeMessagingHosts");
            assert_eq!(native_host, "/opt/bin/tp-agent-browser-native-host");
        }
        other => panic!("unexpected {other:?}"),
    }
    let action = step(action, ConnectorEvent::Succeeded);
    match &action {
        ConnectorAction::WriteManifest { dest, manifest } => {
            assert_eq!(
                dest,
                "/home/u/.config/google-chrome/NativeMessagingHosts/com.talonpilot.browser_connector.json"
            );
            assert_eq!(
                *manifest,
                native_host_manifest("/opt/bin/tp-agent-browser-native-host")
            );
        }
        other => panic!("unexpected {other:?}"),
    }
    let action = step(action, ConnectorEvent::Succeeded);
    assert!(matches!(&action, ConnectorAction::TurnOn(args) if *args == ["browser", "enable"]));
    // The exit status does not matter here.
    let action = step(action, ConnectorEvent::Ran(finished(false, "")));
    assert!(matches!(&action, ConnectorAction::StartDaemon(args) if *args == ["start"]));
    let action = step(action, ConnectorEvent::Ran(RunOutcome::NotInstalled));
    assert!(matches!(action, ConnectorAction::ReadStatus));
}

#[test]
fn turning_off_is_one_run() {
    let action = set_enabled(false, Some("/data/x"), None, false);
    assert!(matches!(&action, ConnectorAction::TurnOff(args) if *args == ["browser", "disable"]));
    let action = step(action, ConnectorEvent::Ran(finished(true, "")));
    assert!(matches!(action, ConnectorAction::ReadStatus));
    let action = set_enabled(false, None, None, false);
    assert_eq!(
        failure(step(action, ConnectorEvent::Ran(RunOutcome::NotInstalled))),
        "tp-agent 未安装"
    );
    let action = set_enabled(false, None, None, false);
    assert_eq!(
        failure(step(
            action,
            ConnectorEvent::Ran(RunOutcome::SpawnFailed("x".to_string()))
        )),
        "spawn tp-agent browser disable: x"
    );
}

#[test]
fn failures_of_turning_on_are_named() {
    let missing = "随 app 打包的浏览器扩展资源缺失(发布管线需打包 browser-extension 产物);见 docs/browser-connector-desktop.md";
    assert_eq!(
        failure(set_enabled(true, Some("/d"), Some("/s"), false)),
        missing
    );
    assert_eq!(failure(set_enabled(true, Some("/d"), None, true)), missing);
    let copy = || set_enabled(true, Some("/d"), Some("/s"), true);
    assert_eq!(failure(step(copy(), failed("copy /s: x"))), "copy /s: x");
    let locate = || set_enabled(true, None, None, false);
    assert_eq!(
        failure(step(locate(), ConnectorEvent::Located(None))),
        "tp-agent 未安装"
    );
    assert_eq!(
        failure(step(locate(), ConnectorEvent::Located(Some("/".to_string())))),
        "无法定位 native host 二进制目录"
    );
    assert_eq!(
        failure(locate().step(
            Platform::Windows,
            &env(),
            ConnectorEvent::Located(Some("C:\\tp-agent.exe".to_string()))
        )),
        "无法定位 Chrome NativeMessagingHosts 目录"
    );
    let create = || step(locate(), ConnectorEvent::Located(Some("tp-agent".to_string())));
    assert!(
        matches!(create(), ConnectorAction::CreateHostsDir { native_host, .. } if native_host == "tp-agent-browser-native-host")
    );
    assert_eq!(
        failure(step(create(), failed("x"))),
        "create /home/u/.config/google-chrome/NativeMessagingHosts: x"
    );
    let write = step(create(), ConnectorEvent::Succeeded);
    assert_eq!(
        failure(step(write, failed("x"))),
        "write native host manifest /home/u/.config/google-chrome/NativeMessagingHosts/com.talonpilot.browser_connector.json: x"
    );
}

#[test]
fn page_of_extensions_opens_in_chrome() {
    let mac = open_chrome_extensions_page(Platform::MacOs).unwrap();
    assert_eq!(mac.program, "open");
    assert_eq!(mac.args, ["-a", "Google Chrome", "chrome://extensions"]);
    let linux = open_chrome_extensions_page(Platform::Linux).unwrap();
    assert_eq!(linux.program, "google-chrome");
    assert_eq!(linux.args, ["chrome://extensions"]);
    let windows = open_chrome_extensions_page(Platform::Windows).unwrap();
    assert_eq!(windows.program, "cmd");
    assert_eq!(windows.args, ["/C", "start", "chrome", "chrome://extensions"]);
    assert!(open_chrome_extensions_page(Platform::Other).is_none());
    assert_eq!(extensions_page_error("x"), "打开 Chrome 扩展页失败: x");
}
