use std::io::Write;

use talon_pilot_studio::archive::Extraction;
use talon_pilot_studio::install::{
    install_tp_agent, preallocated, Download, DownloadFailure, DownloadReport, InstallAction,
    InstallEvent, InstallTask, ReportThrottle,
};
use talon_pilot_studio::platform::HostEnv;

fn env(home: bool) -> HostEnv {
    HostEnv {
        home: if home { Some("/home/u".to_string()) } else { None },
        user_profile: Some("C:\\Users\\u".to_string()),
        local_app_data: Some("C:\\Local".to_string()),
        app_data: Some("C:\\Roaming".to_string()),
    }
}

fn tar_gz() -> Vec<u8> {
    let gz = flate2::write::GzEncoder::new(Vec::new(), flate2::Compression::default());
    let mut tar = tar::Builder::new(gz);
    let mut header = tar::Header::new_gnu();
    header.set_size(3);
    tar.append_data(&mut header, "tp-agent", &b"elf"[..]).unwrap();
    tar.into_inner().unwrap().finish().unwrap()
}

fn zip_archive() -> Vec<u8> {
    let mut zip = zip::ZipWriter::new(std::io::Cursor::new(Vec::new()));
    zip.start_file("tp-agent.exe", zip::write::SimpleFileOptions::default())
        .unwrap();
    zip.write_all(b"MZ").unwrap();
    zip.finish().unwrap().into_inner()
}

fn begin(os: &str, home: bool, mirror: Option<&str>) -> InstallTask {
    install_tp_agent(os, "x86_64", &env(home), mirror, "/tmp").unwrap()
}

fn failed(reason: &str) -> InstallEvent {
    InstallEvent::Failed(reason.to_string())
}

fn error_of(task: &InstallTask) -> String {
    match task.action() {
        InstallAction::Done(Err(error)) => error.clone(),
        other => panic!("expected an error, got {other:?}"),
    }
}

fn unpacked(os: &str, home: bool) -> InstallTask {
    let archive = if os == "windows" { zip_archive() } else { tar_gz() };
    begin(os, home, None)
        .step(InstallEvent::Succeeded)
        .step(InstallEvent::Downloaded(archive))
        .step(InstallEvent::Succeeded)
}

#[test]
fn systems_without_a_release_are_refused() {
    assert_eq!(
        install_tp_agent("linux", "arm", &env(true), None, "/tmp").unwrap_err(),
        "暂无 linux-arm 的 tp-agent 预编译包,请手动安装 tp-agent。"
    );
}

#[test]
fn mirror_comes_before_the_release_page() {
    let task = begin("linux", true, Some("https://m/tp"));
    match task.action() {
        InstallAction::CreateScratch(dir) => assert_eq!(dir, "/tmp/tp-agent-install"),
        other => panic!("unexpected {other:?}"),
    }
    match task.step(InstallEvent::Succeeded).action() {
        InstallAction::Download(url) => assert_eq!(url, "https://m/tp/tp-agent-linux-x64.tar.gz"),
        other => panic!("unexpected {other:?}"),
    }
    match begin("linux", true, None).step(InstallEvent::Succeeded).action() {
        InstallAction::Download(url) => assert_eq!(
            url,
            "https://github.com/darkmice/talon-pilot-client/releases/latest/download/tp-agent-linux-x64.tar.gz"
        ),
        other => panic!("unexpected {other:?}"),
    }
}

#[test]
fn linux_installation_runs_to_its_end() {
    let task = begin("linux", true, None)
        .step(InstallEvent::Succeeded)
        .step(InstallEvent::Downloaded(tar_gz()));
    match task.action() {
        InstallAction::Unpack { found, to } => {
            assert!(matches!(found, Extraction::TarEntry(0)));
            assert_eq!(to, "/tmp/tp-agent-install/tp-agent");
        }
        other => panic!("unexpected {other:?}"),
    }
    let task = task.step(InstallEvent::Succeeded);
    assert!(matches!(task.action(), InstallAction::MakeExecutable(p) if p == "/tmp/tp-agent-install/tp-agent"));
    let task = task.step(InstallEvent::Succeeded);
    assert!(matches!(task.action(), InstallAction::CreateDir(d) if d == "/usr/local/bin"));
    let task = task.step(InstallEvent::Succeeded);
    match task.action() {
        InstallAction::Copy { from, to } => {
            assert_eq!(from, "/tmp/tp-agent-install/tp-agent");
            assert_eq!(to, "/usr/local/bin/tp-agent");
        }
        other => panic!("unexpected {other:?}"),
    }
    let task = task.step(InstallEvent::Succeeded);
    match task.action() {
        InstallAction::Record { file, path } => {
            assert_eq!(file, "/home/u/.config/talon-pilot-studio/agent-path");
            assert_eq!(path, "/usr/local/bin/tp-agent");
        }
        other => panic!("unexpected {other:?}"),
    }
    let task = task.step(failed("read-only"));
    assert!(matches!(task.action(), InstallAction::Done(Ok(p)) if p == "/usr/local/bin/tp-agent"));
}

#[test]
fn first_dir_that_receives_the_executable_wins() {
    let task = unpacked("linux", true)
        .step(InstallEvent::Succeeded)
        .step(InstallEvent::Succeeded)
        .step(failed("denied"));
    assert!(matches!(task.action(), InstallAction::CreateDir(d) if d == "/home/u/.local/bin"));
    let task = task.step(InstallEvent::Succeeded).step(InstallEvent::Succeeded);
    assert!(
        matches!(task.action(), InstallAction::Record { path, .. } if path == "/home/u/.local/bin/tp-agent")
    );
}

#[test]
fn failure_of_every_dir_names_them_all() {
    let task = unpacked("linux", true)
        .step(InstallEvent::Succeeded)
        .step(failed("no dir"))
        .step(InstallEvent::Succeeded)
        .step(failed("no space"));
    assert_eq!(
        error_of(&task),
        "无法安装 tp-agent(已尝试 2 个目录均失败):\n/usr/local/bin: 创建目录失败 no dir\n/home/u/.local/bin/tp-agent: 写入失败 no space\n可手动下载并放到 PATH 目录。"
    );
}

#[test]
fn without_a_home_nothing_is_recorded() {
    let task = unpacked("linux", false)
        .step(InstallEvent::Succeeded)
        .step(InstallEvent::Succeeded)
        .step(InstallEvent::Succeeded);
    assert!(matches!(task.action(), InstallAction::Done(Ok(p)) if p == "/usr/local/bin/tp-agent"));
}

#[test]
fn macos_signs_before_it_installs() {
    let task = unpacked("macos", true).step(InstallEvent::Succeeded);
    match task.action() {
        InstallAction::ClearQuarantine(command) => {
            assert_eq!(command.program, "xattr");
            assert_eq!(command.args, ["-c", "/tmp/tp-agent-install/tp-agent"]);
        }
        other => panic!("unexpected {other:?}"),
    }
    let task = task.step(failed("no xattr"));
    match task.action() {
        InstallAction::Sign(command) => {
            assert_eq!(command.program, "codesign");
            assert_eq!(
                command.args,
                ["-s", "-", "--force", "/tmp/tp-agent-install/tp-agent"]
            );
        }
        other => panic!("unexpected {other:?}"),
    }
    let task = task.step(InstallEvent::Exited(true));
    assert!(matches!(task.action(), InstallAction::CreateDir(_)));
}

#[test]
fn signing_failures_are_named() {
    let signing = || {
        unpacked("macos", true)
            .step(InstallEvent::Succeeded)
            .step(InstallEvent::Succeeded)
    };
    assert_eq!(
        error_of(&signing().step(InstallEvent::Exited(false))),
        "codesign ad-hoc 签名失败"
    );
    assert_eq!(error_of(&signing().step(failed("gone"))), "codesign: gone");
}

#[test]
fn windows_installs_what_it_has_unpacked() {
    let task = begin("windows", true, None)
        .step(InstallEvent::Succeeded)
        .step(InstallEvent::Downloaded(zip_archive()));
    assert!(
        matches!(task.action(), InstallAction::Unpack { found: Extraction::Content(b), .. } if b == b"MZ")
    );
    let task = task.step(InstallEvent::Succeeded);
    assert!(matches!(task.action(), InstallAction::CreateDir(d) if d == "C:\\Local\\Programs\\tp-agent"));
}

#[test]
fn failures_before_the_dirs_end_the_installation() {
    assert_eq!(error_of(&begin("linux", true, None).step(failed("full"))), "full");
    let downloading = || begin("linux", true, Some("u")).step(InstallEvent::Succeeded);
    let ended = |failure| error_of(&downloading().step(InstallEvent::DownloadFailed(failure)));
    assert_eq!(
        ended(DownloadFailure::Init("tls".to_string())),
        "init http client: tls"
    );
    assert_eq!(
        ended(DownloadFailure::Request("404".to_string())),
        "下载 u/tp-agent-linux-x64.tar.gz 失败: 404"
    );
    assert_eq!(
        ended(DownloadFailure::Interrupted("reset".to_string())),
        "下载 u/tp-agent-linux-x64.tar.gz 中断: reset"
    );
    let unpacking = downloading().step(InstallEvent::Downloaded(tar_gz()));
    assert_eq!(error_of(&unpacking.step(failed("disk"))), "disk");
    assert_eq!(error_of(&unpacked("linux", true).step(failed("mode"))), "mode");
    let empty = downloading().step(InstallEvent::Downloaded(zip_archive()));
    assert!(matches!(empty.action(), InstallAction::Done(Err(_))));
}

#[test]
fn events_of_another_action_change_nothing() {
    let task = begin("linux", true, None).step(InstallEvent::Exited(true));
    assert!(matches!(task.action(), InstallAction::CreateScratch(_)));
}

#[test]
fn download_counts_what_arrives() {
    let mut download = Download::new(Some(5));
    assert_eq!(
        download.chunk(b"abc"),
        DownloadReport {
            downloaded: 3,
            total: Some(5)
        }
    );
    assert_eq!(download.chunk(b"de").downloaded, 5);
    assert_eq!(download.bytes, b"abcde");
    assert!(Download::new(Some(4096)).bytes.capacity() >= 4096);
}

#[test]
fn preallocation_is_bounded() {
    assert_eq!(preallocated(None), 0);
    assert_eq!(preallocated(Some(10)), 10);
    assert_eq!(preallocated(Some(u64::MAX)), 64 * 1024 * 1024);
}

#[test]
fn reports_come_at_intervals_and_at_the_end() {
    let mut throttle = ReportThrottle::new();
    let mut passes = |downloaded, total| throttle.passes(DownloadReport { downloaded, total });
    let total = Some(600 * 1024);
    assert!(!passes(256 * 1024 - 1, total));
    assert!(passes(256 * 1024, total));
    assert!(!passes(300 * 1024, total));
    assert!(passes(513 * 1024, total));
    assert!(passes(600 * 1024, total));
    let mut unknown = ReportThrottle::new();
    assert!(!unknown.passes(DownloadReport {
        downloaded: 100,
        total: None
    }));
}
