use talon_pilot_studio::dir_copy::{copy_dir_all, CopyAction, CopyEvent, DirCopy, DirEntry};
use talon_pilot_studio::platform::Platform;

fn shown(copy: &DirCopy) -> String {
    match copy.action() {
        CopyAction::CreateDir { from, to } => format!("create {from} {to}"),
        CopyAction::ReadDir { from, to } => format!("read {from} {to}"),
        CopyAction::CopyFile { from, to } => format!("copy {from} {to}"),
        CopyAction::Done => "done".to_string(),
        CopyAction::Fail(reason) => format!("fail {reason}"),
    }
}

fn dir(name: &str) -> DirEntry {
    DirEntry::Directory(name.to_string())
}

fn file(name: &str) -> DirEntry {
    DirEntry::File(name.to_string())
}

#[test]
fn everything_is_copied_directory_by_directory() {
    let mut copy = copy_dir_all(Platform::Linux, "/s", "/d");
    let mut log = Vec::new();
    loop {
        let action = shown(&copy);
        log.push(action.clone());
        let event = match action.as_str() {
            "done" => break,
            "read /s /d" => CopyEvent::Entries(vec![file("a"), dir("b"), file("c")]),
            "read /s/b /d/b" => CopyEvent::Entries(vec![file("x")]),
            _ => CopyEvent::Succeeded,
        };
        copy = copy.step(event);
    }
    assert_eq!(
        log,
        [
            "create /s /d",
            "read /s /d",
            "copy /s/a /d/a",
            "create /s/b /d/b",
            "read /s/b /d/b",
            "copy /s/b/x /d/b/x",
            "copy /s/c /d/c",
            "done"
        ]
    );
}

#[test]
fn first_failure_ends_the_copy() {
    let failed = || CopyEvent::Failed("x".to_string());
    let new = || copy_dir_all(Platform::Linux, "/s", "/d");
    assert_eq!(shown(&new().step(failed())), "fail create /d: x");
    let reading = || new().step(CopyEvent::Succeeded);
    assert_eq!(shown(&reading().step(failed())), "fail read /s: x");
    let copying = reading().step(CopyEvent::Entries(vec![file("a"), file("b")]));
    let ended = copying.step(failed());
    assert_eq!(shown(&ended), "fail copy /s/a: x");
    assert_eq!(shown(&ended.step(CopyEvent::Succeeded)), "fail copy /s/a: x");
    let entries = vec![DirEntry::Unreadable("x".to_string()), file("b")];
    assert_eq!(
        shown(&reading().step(CopyEvent::Entries(entries))),
        "fail read entry: x"
    );
}

#[test]
fn empty_directory_is_only_created() {
    let copy = copy_dir_all(Platform::Windows, "C:\\s", "C:\\d")
        .step(CopyEvent::Succeeded)
        .step(CopyEvent::Entries(Vec::new()));
    assert_eq!(shown(&copy), "done");
}
