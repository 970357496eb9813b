use talon_pilot_studio::agent::AgentStatus;
use talon_pilot_studio::login::{
    auth_window_error, auth_window_target, finish_browser_login, kill_pid, login_with_browser,
    flow_after_url, target_of, BrowserLogin, FlowAction, FlowEvent, LoginAction, LoginEvent,
    LoginFlow, LoginRegistry,
};
use talon_pilot_studio::platform::Platform;

fn status() -> AgentStatus {
    AgentStatus {
        running: true,
        pid: None,
        lifecycle: "running".to_string(),
        enrolled: true,
        active_tenant_id: None,
        accounts_bound: 1,
        accounts_enabled: 1,
        last_error: None,
    }
}

fn spawned() -> BrowserLogin {
    let mut login = login_with_browser(None, None);
    assert_eq!(login.step(LoginEvent::Spawned { captured: true }), None);
    login
}

fn line(text: &str) -> LoginEvent {
    LoginEvent::Line(text.to_string())
}

fn exited(success: bool) -> LoginEvent {
    LoginEvent::Exited {
        success,
        status: "exit status: 1".to_string(),
        stderr: "  denied\n".to_string(),
    }
}

fn failure(login: &BrowserLogin) -> String {
    match &login.action {
        LoginAction::Fail(reason) => reason.clone(),
        other => panic!("expected a failure, got {other:?}"),
    }
}

#[test]
fn login_forces_and_prints_the_address() {
    match login_with_browser(None, None).action {
        LoginAction::Spawn(args) => assert_eq!(
            args,
            ["login", "--force", "--suppress-browser", "--print-auth-url"]
        ),
        other => panic!("unexpected {other:?}"),
    }
    match login_with_browser(Some("https://api"), Some("https://web")).action {
        LoginAction::Spawn(args) => assert_eq!(
            args,
            [
                "login",
                "--force",
                "--suppress-browser",
                "--print-auth-url",
                "--api-base-url",
                "https://api",
                "--web-base-url",
                "https://web"
            ]
        ),
        other => panic!("unexpected {other:?}"),
    }
}

#[test]
fn address_is_handed_out_once() {
    let mut login = spawned();
    assert_eq!(login.step(line("starting")), None);
    assert_eq!(
        login.step(line("TP_AUTH_URL=https://a")).as_deref(),
        Some("https://a")
    );
    assert_eq!(login.step(line("TP_AUTH_URL=https://b")), None);
    assert_eq!(login.step(LoginEvent::EndOfOutput), None);
    assert!(matches!(login.action, LoginAction::Wait));
    assert_eq!(login.step(exited(true)), None);
    assert!(matches!(login.action, LoginAction::FetchStatus));
}

#[test]
fn login_without_an_address_fails_even_with_success() {
    let mut login = spawned();
    login.step(LoginEvent::EndOfOutput);
    login.step(exited(true));
    assert_eq!(
        failure(&login),
        "tp-agent login 未输出授权 URL(exit exit status: 1): denied"
    );
}

#[test]
fn login_that_exits_without_success_fails() {
    let mut login = spawned();
    login.step(line("TP_AUTH_URL=https://a"));
    login.step(LoginEvent::EndOfOutput);
    login.step(exited(false));
    assert_eq!(
        failure(&login),
        "tp-agent login failed (exit exit status: 1): denied"
    );
}

#[test]
fn other_failures_of_a_login_are_named() {
    let after = |mut login: BrowserLogin, event| {
        login.step(event);
        failure(&login)
    };
    let new = || login_with_browser(None, None);
    assert_eq!(after(new(), LoginEvent::NotInstalled), "tp-agent not installed");
    assert_eq!(
        after(new(), LoginEvent::SpawnFailed("x".to_string())),
        "spawn tp-agent login: x"
    );
    assert_eq!(
        after(new(), LoginEvent::Spawned { captured: false }),
        "failed to capture tp-agent stdout"
    );
    assert_eq!(
        after(spawned(), LoginEvent::ReadFailed("x".to_string())),
        "read tp-agent stdout: x"
    );
    let mut waiting = spawned();
    waiting.step(LoginEvent::EndOfOutput);
    assert_eq!(
        after(waiting, LoginEvent::WaitFailed("x".to_string())),
        "wait tp-agent login: x"
    );
}

#[test]
fn sign_in_page_must_be_an_address() {
    assert_eq!(
        auth_window_target("HTTPS://Example.com/a b").as_deref(),
        Ok("https://example.com/a%20b")
    );
    assert_eq!(
        auth_window_target("/login"),
        Err("invalid auth url from tp-agent: relative URL without a base".to_string())
    );
    assert_eq!(
        target_of(Err("bad".to_string())),
        Err("invalid auth url from tp-agent: bad".to_string())
    );
    assert_eq!(auth_window_error("no display"), "open auth window: no display");
}

#[test]
fn window_errors_come_before_the_result() {
    assert!(finish_browser_login(Ok(Ok(status())), None).unwrap().enrolled);
    assert_eq!(
        finish_browser_login(Ok(Ok(status())), Some("w".to_string())).unwrap_err(),
        "w"
    );
    assert_eq!(
        finish_browser_login(Ok(Err("e".to_string())), None).unwrap_err(),
        "e"
    );
    assert_eq!(
        finish_browser_login(Err("panicked".to_string()), Some("w".to_string())).unwrap_err(),
        "login task join: panicked"
    );
}

#[test]
fn cancelling_ends_the_registered_process() {
    let mut registry = LoginRegistry::new();
    assert!(registry.cancel(Platform::Linux).is_none());
    registry.register(4321);
    let command = registry.cancel(Platform::Linux).unwrap();
    assert_eq!(command.program, "kill");
    assert_eq!(command.args, ["4321"]);
    registry.clear();
    assert!(registry.cancel(Platform::Linux).is_none());
    let command = kill_pid(Platform::Windows, 10);
    assert_eq!(command.program, "taskkill");
    assert_eq!(command.args, ["/PID", "10", "/T", "/F"]);
}

#[test]
fn flow_opens_the_window_and_waits_for_the_task() {
    let flow = LoginFlow::new();
    assert!(matches!(flow.action, FlowAction::AwaitUrl));
    let flow = flow.step(FlowEvent::Url("https://Sign.in".to_string()));
    assert!(matches!(&flow.action, FlowAction::OpenWindow(url) if url == "https://sign.in/"));
    let flow = flow.step(FlowEvent::WindowOpened);
    assert!(matches!(flow.action, FlowAction::AwaitTask));
    let flow = flow.step(FlowEvent::Joined(Ok(status())));
    assert!(matches!(flow.action, FlowAction::Finish(Ok(_))));
}

#[test]
fn flow_waits_for_the_task_even_without_a_window() {
    let ended = |flow: LoginFlow, event| match flow.step(event).action {
        FlowAction::Finish(result) => result.unwrap_err(),
        other => panic!("unexpected {other:?}"),
    };
    let no_address = || LoginFlow::new().step(FlowEvent::Url("nowhere".to_string()));
    assert!(matches!(no_address().action, FlowAction::AwaitTask));
    assert_eq!(
        ended(no_address(), FlowEvent::Joined(Ok(status()))),
        "invalid auth url from tp-agent: relative URL without a base"
    );
    let no_window = flow_after_url(LoginFlow::new(), Ok("https://a/".to_string()))
        .step(FlowEvent::WindowFailed("x".to_string()));
    assert_eq!(
        ended(no_window, FlowEvent::Joined(Err("e".to_string()))),
        "open auth window: x"
    );
    let no_url = LoginFlow::new().step(FlowEvent::NoUrl);
    assert_eq!(
        ended(no_url, FlowEvent::Joined(Err("e".to_string()))),
        "e"
    );
    assert_eq!(
        ended(no_address(), FlowEvent::JoinFailed("p".to_string())),
        "login task join: p"
    );
}
