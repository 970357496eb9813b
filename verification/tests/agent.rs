use talon_pilot_studio::agent::{
    extract_auth_url, fetch_status, login_with_key, release_asset_name, release_download_url,
    restart_daemon, start_daemon, stop_daemon, AgentStatus, AgentTask,
};
use talon_pilot_studio::process::{ProcessOutput, RunOutcome};

fn finished(success: bool, stdout: &str, stderr: &[u8]) -> RunOutcome {
    RunOutcome::Finished(ProcessOutput {
        success,
        status: if success { "exit status: 0" } else { "exit status: 3" }.to_string(),
        stdout: stdout.as_bytes().to_vec(),
        stderr: stderr.to_vec(),
    })
}

fn next_args(task: &AgentTask) -> Vec<String> {
    match task {
        AgentTask::Run { next, .. } => next.args.clone(),
        other => panic!("expected a run, got {other:?}"),
    }
}

fn error_of(task: AgentTask) -> String {
    match task {
        AgentTask::Done(Err(error)) => error,
        other => panic!("expected an error, got {other:?}"),
    }
}

fn status(running: bool) -> AgentStatus {
    AgentStatus {
        running,
        pid: Some(7),
        lifecycle: "running".to_string(),
        enrolled: true,
        active_tenant_id: None,
        accounts_bound: 1,
        accounts_enabled: 1,
        last_error: None,
    }
}

#[test]
fn status_is_queried_and_parsed_without_the_white_space_around_it() {
    let task = fetch_status();
    assert_eq!(next_args(&task), ["status", "--json"]);
    let task = task.ran(finished(true, " \n{\"running\":true}\n", b""));
    match &task {
        AgentTask::Parse(json) => assert_eq!(json, "{\"running\":true}"),
        other => panic!("unexpected {other:?}"),
    }
    match task.parsed(Ok(status(true))) {
        AgentTask::Done(Ok(status)) => assert!(status.running),
        other => panic!("unexpected {other:?}"),
    }
}

#[test]
fn status_that_cannot_be_parsed_is_an_error() {
    let task = fetch_status().ran(finished(true, "x", b""));
    assert_eq!(
        error_of(task.parsed(Err("expected value".to_string()))),
        "parse status json: expected value"
    );
}

#[test]
fn failures_of_a_run_become_messages() {
    assert_eq!(
        error_of(fetch_status().ran(RunOutcome::NotInstalled)),
        "tp-agent not installed"
    );
    assert_eq!(
        error_of(fetch_status().ran(RunOutcome::SpawnFailed("denied".to_string()))),
        "spawn tp-agent status --json: denied"
    );
    assert_eq!(
        error_of(fetch_status().ran(finished(false, "", b" no \xff daemon \n"))),
        "tp-agent status --json exited exit status: 3: no \u{fffd} daemon"
    );
}

#[test]
fn start_and_stop_read_the_status_afterwards() {
    let task = start_daemon();
    assert_eq!(next_args(&task), ["start"]);
    let task = task.ran(finished(true, "ignored", b""));
    assert_eq!(next_args(&task), ["status", "--json"]);
    let task = stop_daemon();
    assert_eq!(next_args(&task), ["stop"]);
    assert_eq!(
        error_of(task.ran(finished(false, "", b"not running"))),
        "tp-agent stop exited exit status: 3: not running"
    );
}

#[test]
fn restart_goes_on_where_stopping_failed() {
    let task = restart_daemon();
    assert_eq!(next_args(&task), ["stop"]);
    let task = task.ran(finished(false, "", b"not running"));
    assert_eq!(next_args(&task), ["start"]);
    assert_eq!(
        error_of(task.ran(finished(false, "", b"boom"))),
        "tp-agent start exited exit status: 3: boom"
    );
}

#[test]
fn key_login_hands_the_key_over() {
    let task = login_with_key("k-1");
    assert_eq!(next_args(&task), ["login", "--key", "k-1"]);
    let task = task.ran(finished(true, "", b""));
    assert_eq!(next_args(&task), ["status", "--json"]);
}

#[test]
fn a_task_ignores_what_it_did_not_ask_for() {
    let task = fetch_status().parsed(Ok(status(true)));
    assert_eq!(next_args(&task), ["status", "--json"]);
    let task = task.ran(finished(true, "{}", b"")).ran(RunOutcome::NotInstalled);
    assert!(matches!(task, AgentTask::Parse(_)));
}

#[test]
fn assets_exist_for_four_systems() {
    assert_eq!(
        release_asset_name("macos", "aarch64"),
        Ok("tp-agent-macos-arm64.tar.gz")
    );
    assert_eq!(
        release_asset_name("macos", "x86_64"),
        Ok("tp-agent-macos-x64.tar.gz")
    );
    assert_eq!(
        release_asset_name("linux", "x86_64"),
        Ok("tp-agent-linux-x64.tar.gz")
    );
    assert_eq!(
        release_asset_name("windows", "x86_64"),
        Ok("tp-agent-windows-x64.zip")
    );
    assert_eq!(
        release_asset_name("linux", "aarch64"),
        Err("no prebuilt tp-agent asset for linux-aarch64".to_string())
    );
}

#[test]
fn release_addresses_name_the_version_once() {
    assert_eq!(
        release_download_url("o/r", None, "a.zip"),
        "https://github.com/o/r/releases/latest/download/a.zip"
    );
    assert_eq!(
        release_download_url("o/r", Some(" v1.2.3 "), "a.zip"),
        "https://github.com/o/r/releases/download/v1.2.3/a.zip"
    );
    assert_eq!(
        release_download_url("o/r", Some("1.2.3"), "a.zip"),
        "https://github.com/o/r/releases/download/v1.2.3/a.zip"
    );
}

#[test]
fn auth_url_is_found_behind_its_prefix() {
    assert_eq!(
        extract_auth_url("TP_AUTH_URL= https://x/y \r").as_deref(),
        Some("https://x/y")
    );
    assert_eq!(extract_auth_url("TP_AUTH_URL=  "), None);
    assert_eq!(extract_auth_url(" TP_AUTH_URL=https://x"), None);
    assert_eq!(extract_auth_url("TP_AUTH"), None);
}
