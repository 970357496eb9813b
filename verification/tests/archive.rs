use std::io::Write;

use talon_pilot_studio::archive::{
    extract_tp_agent, find_in_tar, find_in_zip, leads_to_agent, select_agent_entry, Extraction,
};
use talon_pilot_studio::platform::Platform;

fn tar_gz(entries: &[(&str, &[u8])]) -> Vec<u8> {
    let gz = flate2::write::GzEncoder::new(Vec::new(), flate2::Compression::default());
    let mut tar = tar::Builder::new(gz);
    for (path, content) in entries {
        let mut header = tar::Header::new_gnu();
        header.set_size(content.len() as u64);
        header.set_mode(0o755);
        tar.append_data(&mut header, path, *content).unwrap();
    }
    tar.into_inner().unwrap().finish().unwrap()
}

fn zip_archive(entries: &[(&str, &[u8])]) -> Vec<u8> {
    let mut zip = zip::ZipWriter::new(std::io::Cursor::new(Vec::new()));
    for (path, content) in entries {
        let options = zip::write::SimpleFileOptions::default();
        zip.start_file(*path, options).unwrap();
        zip.write_all(content).unwrap();
    }
    zip.finish().unwrap().into_inner()
}

fn path(s: &str) -> Result<Vec<char>, String> {
    Ok(s.chars().collect())
}

#[test]
fn tar_archive_gives_the_first_entry_with_the_name() {
    let archive = tar_gz(&[
        ("README.md", b"read"),
        ("dist/tp-agent-helper", b"no"),
        ("dist/tp-agent", b"yes"),
        ("tp-agent", b"later"),
    ]);
    match extract_tp_agent(Platform::Linux, &archive) {
        Ok(Extraction::TarEntry(i)) => assert_eq!(i, 2),
        other => panic!("unexpected {other:?}"),
    }
}

#[test]
fn tar_archive_without_the_executable_is_an_error() {
    let archive = tar_gz(&[("README.md", b"read"), ("tp-agent.exe", b"no")]);
    assert_eq!(
        extract_tp_agent(Platform::MacOs, &archive).unwrap_err(),
        "tp-agent binary not found in release asset"
    );
}

#[test]
fn tar_archive_that_is_none_is_an_error() {
    assert!(extract_tp_agent(Platform::Linux, b"not an archive").is_err());
    let mut cut = tar_gz(&[("README.md", &[7u8; 4000])]);
    cut.truncate(20);
    assert!(extract_tp_agent(Platform::Linux, &cut).is_err());
}

#[test]
fn zip_archive_gives_the_content() {
    let archive = zip_archive(&[("x/README.md", b"read"), ("x/tp-agent.exe", b"MZ yes")]);
    match extract_tp_agent(Platform::Windows, &archive) {
        Ok(Extraction::Content(bytes)) => assert_eq!(bytes, b"MZ yes"),
        other => panic!("unexpected {other:?}"),
    }
    let archive = zip_archive(&[("tp-agent", b"plain"), ("tp-agent.exe", b"MZ")]);
    match extract_tp_agent(Platform::Windows, &archive) {
        Ok(Extraction::Content(bytes)) => assert_eq!(bytes, b"plain"),
        other => panic!("unexpected {other:?}"),
    }
}

#[test]
fn zip_archive_failures_are_named() {
    let archive = zip_archive(&[("README.md", b"read")]);
    assert_eq!(
        extract_tp_agent(Platform::Windows, &archive).unwrap_err(),
        "tp-agent binary not found in release asset"
    );
    assert!(extract_tp_agent(Platform::Windows, b"nothing")
        .unwrap_err()
        .starts_with("open zip: "));
}

#[test]
fn entry_that_cannot_be_read_counts_only_before_the_executable() {
    let broken = || Err("broken entry".to_string());
    assert_eq!(
        select_agent_entry(Platform::Linux, &vec![path("a"), broken(), path("tp-agent")]),
        Err("broken entry".to_string())
    );
    assert_eq!(
        select_agent_entry(Platform::Linux, &vec![path("a"), path("tp-agent"), broken()]),
        Ok(1)
    );
}

#[test]
fn listings_that_failed_keep_their_message() {
    assert_eq!(
        find_in_tar(Platform::Linux, Err("bad gzip".to_string())).unwrap_err(),
        "bad gzip"
    );
    assert_eq!(
        find_in_zip(Platform::Windows, Err("bad zip".to_string())),
        Err("open zip: bad zip".to_string())
    );
}

#[test]
fn only_the_last_component_counts() {
    let leads = |platform, s: &str| leads_to_agent(platform, &s.chars().collect());
    assert!(leads(Platform::Linux, "./bin/tp-agent"));
    assert!(leads(Platform::Linux, "tp-agent/"));
    assert!(!leads(Platform::Linux, "tp-agent/readme"));
    assert!(!leads(Platform::Linux, "tp-agent/.."));
    assert!(!leads(Platform::Linux, "bin\\tp-agent"));
    assert!(leads(Platform::Windows, "bin\\tp-agent.exe"));
    assert!(!leads(Platform::Windows, "tp-agent.EXE"));
}
