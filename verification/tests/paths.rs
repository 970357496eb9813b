use std::path::Path;

use talon_pilot_studio::paths::{file_name_of, parent_dir};
use talon_pilot_studio::platform::{join_path, platform_of, Platform};

fn name(platform: Platform, path: &str) -> Option<String> {
    file_name_of(platform, &path.chars().collect()).map(|n| n.into_iter().collect())
}

const UNIX_PATHS: [&str; 22] = [
    "", "/", "//", ".", "..", "./", "a", "a/", "a/.", "a/./", "/a", "/a/b", "a//b", "a/./b",
    "a/../b", "a/..", "./a", "../a", "/.", "/./a", "a\\b", "C:/x",
];

#[test]
fn file_names_are_those_of_the_standard_library() {
    for path in UNIX_PATHS {
        let expected = Path::new(path).file_name().map(|n| n.to_str().unwrap().to_string());
        assert_eq!(name(Platform::Linux, path), expected, "{path:?}");
    }
}

#[test]
fn parents_are_those_of_the_standard_library() {
    for path in UNIX_PATHS {
        let expected = Path::new(path).parent().map(|n| n.to_str().unwrap().to_string());
        assert_eq!(parent_dir(Platform::Linux, path), expected, "{path:?}");
    }
}

#[test]
fn windows_paths_have_volumes_and_two_separators() {
    let windows = Platform::Windows;
    assert_eq!(name(windows, "a\\b/c.exe").as_deref(), Some("c.exe"));
    assert_eq!(name(windows, "C:").as_deref(), None);
    assert_eq!(name(windows, "C:x").as_deref(), Some("x"));
    assert_eq!(name(windows, "\\\\server\\share").as_deref(), None);
    // Without a share there is no volume.
    assert_eq!(name(windows, "\\\\tp-agent.exe").as_deref(), Some("tp-agent.exe"));
    assert_eq!(name(windows, "//server").as_deref(), Some("server"));
    assert_eq!(name(windows, "\\\\server\\").as_deref(), Some("server"));
    assert_eq!(name(windows, "\\\\\\x").as_deref(), Some("x"));
    assert_eq!(name(windows, "//server/share").as_deref(), None);
    assert_eq!(name(windows, "\\\\.\\COM42").as_deref(), None);
    assert_eq!(name(windows, "\\\\.\\dev\\x").as_deref(), Some("x"));
    assert_eq!(name(windows, "\\\\server\\share\\x").as_deref(), Some("x"));
    assert_eq!(parent_dir(windows, "C:\\a\\b").as_deref(), Some("C:\\a"));
    assert_eq!(parent_dir(windows, "C:\\a").as_deref(), Some("C:\\"));
    assert_eq!(parent_dir(windows, "C:a").as_deref(), Some("C:"));
    assert_eq!(parent_dir(windows, "C:\\"), None);
}

#[test]
fn literal_windows_paths_have_volumes_of_their_own() {
    let windows = Platform::Windows;
    assert_eq!(name(windows, r"\\?\UNC\server\share").as_deref(), None);
    assert_eq!(name(windows, r"\\?\UNC\server\share\x").as_deref(), Some("x"));
    assert_eq!(name(windows, r"\\?\UNC\server").as_deref(), None);
    assert_eq!(name(windows, r"\\?\C:\a\x").as_deref(), Some("x"));
    assert_eq!(name(windows, r"\\?\C:").as_deref(), None);
    assert_eq!(name(windows, r"\\?\pictures").as_deref(), None);
    assert_eq!(name(windows, r"\\?\pictures\cat").as_deref(), Some("cat"));
    // Only a backslash separates, and a dot is a component.
    assert_eq!(name(windows, r"\\?\C:\a/x").as_deref(), Some("a/x"));
    assert_eq!(name(windows, r"\\?\C:/x").as_deref(), Some("x"));
    assert_eq!(name(windows, r"\\?\C:\a\.").as_deref(), None);
    assert_eq!(parent_dir(windows, r"\\?\C:\a\.").as_deref(), Some(r"\\?\C:\a"));
    assert_eq!(parent_dir(windows, r"\\?\C:\a\x").as_deref(), Some(r"\\?\C:\a"));
    assert_eq!(parent_dir(windows, r"\\?\C:\"), None);
    assert_eq!(
        parent_dir(windows, r"\\server\share\x").as_deref(),
        Some(r"\\server\share\")
    );
    assert_eq!(parent_dir(windows, r"\\server\share\"), None);
    assert_eq!(parent_dir(windows, r"\\server").as_deref(), Some(r"\"));
}

#[test]
fn joining_adds_a_separator_where_one_is_missing() {
    for (base, below) in [("", "a"), ("/", "a"), ("b", "a"), ("b/", "a"), ("/x y", "a/b")] {
        assert_eq!(
            join_path(Platform::Linux, base, below),
            Path::new(base).join(below).to_str().unwrap()
        );
    }
    assert_eq!(join_path(Platform::Windows, "C:", "a"), "C:a");
    assert_eq!(join_path(Platform::Windows, "C:\\", "a"), "C:\\a");
    assert_eq!(join_path(Platform::Windows, "C:\\b", "a"), "C:\\b\\a");
    assert_eq!(join_path(Platform::Windows, "b/", "a"), "b/a");
}

#[test]
fn literal_windows_paths_are_rebuilt() {
    let join = |base: &str, name: &str| join_path(Platform::Windows, base, name);
    assert_eq!(join(r"\\?\C:\x", ".local/share/a"), r"\\?\C:\x\.local\share\a");
    assert_eq!(join(r"\\?\C:\x\\y\", "a"), r"\\?\C:\x\y\a");
    assert_eq!(join(r"\\?\C:\x/y", "a"), r"\\?\C:\x/y\a");
    assert_eq!(join(r"\\?\C:", "a"), r"\\?\C:\a");
    assert_eq!(join(r"\\?\C:/", "a"), r"\\?\C:\a");
    assert_eq!(join(r"\\?\UNC\server\share", "a/b"), r"\\?\UNC\server\share\a\b");
    assert_eq!(join(r"\\?\C:\x", "./a//b/"), r"\\?\C:\x\a\b");
    assert_eq!(join(r"\\?\C:\x\y", r"..\z"), r"\\?\C:\x\z");
    assert_eq!(join(r"\\?\C:\x", ".."), r"\\?\C:\");
    assert_eq!(join(r"\\?\C:\", "../a"), r"\\?\C:\a");
    assert_eq!(join(r"\\?\C:\x\.", ".."), r"\\?\C:\x\.");
    assert_eq!(join(r"\\?\C:\x", ""), r"\\?\C:\x\");
    // Only the mark with backslashes makes a path literal.
    assert_eq!(join("//?/C:/x", "a/b"), r"//?/C:/x\a/b");
}

#[test]
fn files_below_directories_have_their_names() {
    for (platform, dir) in [
        (Platform::Linux, "/usr//"),
        (Platform::Linux, ""),
        (Platform::Windows, "C:"),
        (Platform::Windows, r"C:\a/b"),
        (Platform::Windows, r"\\server\share"),
        (Platform::Windows, r"\\?\C:\a\\b\"),
        (Platform::Windows, r"\\?\"),
    ] {
        let path = join_path(platform, dir, "f.x");
        assert_eq!(name(platform, &path).as_deref(), Some("f.x"), "{path}");
    }
    // Here the name is part of a volume.
    let path = join_path(Platform::Windows, r"\\server", "share");
    assert_eq!(name(Platform::Windows, &path), None);
}

#[test]
fn platforms_are_known_by_name() {
    assert_eq!(platform_of("windows"), Platform::Windows);
    assert_eq!(platform_of("macos"), Platform::MacOs);
    assert_eq!(platform_of("linux"), Platform::Linux);
    assert_eq!(platform_of("freebsd"), Platform::Other);
}
