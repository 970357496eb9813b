use talon_pilot_studio::locate::{
    install_dir_candidates, installed_path_file, locate_candidates, locate_tp_agent,
    recorded_path, tp_agent_bin_name, Probe,
};
use talon_pilot_studio::paths::file_name_of;
use talon_pilot_studio::platform::{join_path, HostEnv, Platform};

fn env() -> HostEnv {
    HostEnv {
        home: Some("/home/u".to_string()),
        user_profile: Some("C:\\Users\\u".to_string()),
        local_app_data: Some("C:\\Users\\u\\AppData\\Local".to_string()),
        app_data: None,
    }
}

fn nothing() -> HostEnv {
    HostEnv {
        home: None,
        user_profile: None,
        local_app_data: None,
        app_data: None,
    }
}

fn probe(path: &str, is_file: bool) -> Probe {
    Probe {
        path: path.to_string(),
        is_file,
    }
}

#[test]
fn install_dirs_go_from_the_system_to_the_user() {
    assert_eq!(
        install_dir_candidates(Platform::Linux, &env()),
        ["/usr/local/bin", "/home/u/.local/bin"]
    );
    assert_eq!(
        install_dir_candidates(Platform::Windows, &env()),
        [
            "C:\\Users\\u\\AppData\\Local\\Programs\\tp-agent",
            "C:\\Users\\u\\.tp-agent\\bin"
        ]
    );
    assert_eq!(
        install_dir_candidates(Platform::MacOs, &nothing()),
        ["/usr/local/bin"]
    );
    assert!(install_dir_candidates(Platform::Windows, &nothing()).is_empty());
    let local_only = HostEnv {
        local_app_data: Some("C:\\Local".to_string()),
        ..nothing()
    };
    assert_eq!(
        install_dir_candidates(Platform::Windows, &local_only),
        ["C:\\Local\\Programs\\tp-agent"]
    );
}

#[test]
fn locate_covers_every_install_dir() {
    for platform in [
        Platform::Windows,
        Platform::MacOs,
        Platform::Linux,
        Platform::Other,
    ] {
        let paths = locate_candidates(platform, &env());
        for dir in install_dir_candidates(platform, &env()) {
            let path = join_path(platform, &dir, tp_agent_bin_name(platform));
            assert!(paths.contains(&path), "{path}");
        }
    }
}

#[test]
fn candidates_end_with_the_users_own_installations() {
    assert_eq!(
        locate_candidates(Platform::MacOs, &env()),
        [
            "/usr/local/bin/tp-agent",
            "/home/u/.local/bin/tp-agent",
            "/opt/homebrew/bin/tp-agent",
            "/home/u/.cargo/bin/tp-agent"
        ]
    );
    assert_eq!(
        locate_candidates(Platform::Windows, &env()),
        [
            "C:\\Users\\u\\AppData\\Local\\Programs\\tp-agent\\tp-agent.exe",
            "C:\\Users\\u\\.tp-agent\\bin\\tp-agent.exe",
            "C:\\Users\\u\\.cargo\\bin\\tp-agent.exe"
        ]
    );
}

#[test]
fn candidates_end_in_the_name_of_the_executable() {
    let env = HostEnv {
        user_profile: Some(r"\\?\UNC".to_string()),
        local_app_data: Some(r"\\".to_string()),
        ..env()
    };
    for platform in [Platform::Windows, Platform::MacOs] {
        for path in locate_candidates(platform, &env) {
            let name = file_name_of(platform, &path.chars().collect()).unwrap();
            let name: String = name.into_iter().collect();
            assert_eq!(name, tp_agent_bin_name(platform), "{path}");
        }
    }
}

#[test]
fn record_comes_before_search_path_before_candidates() {
    let candidates = vec![probe("/a", false), probe("/b", true), probe("/c", true)];
    let path = || Some("/on/path".to_string());
    assert_eq!(
        locate_tp_agent(Some(probe("/rec", true)), path(), &candidates).as_deref(),
        Some("/rec")
    );
    assert_eq!(
        locate_tp_agent(Some(probe("/rec", false)), path(), &candidates).as_deref(),
        Some("/on/path")
    );
    assert_eq!(
        locate_tp_agent(Some(probe("/rec", false)), None, &candidates).as_deref(),
        Some("/b")
    );
    assert_eq!(locate_tp_agent(None, None, &vec![probe("/a", false)]), None);
}

#[test]
fn record_is_read_without_the_white_space_around_it() {
    assert_eq!(
        recorded_path(Some("/usr/local/bin/tp-agent\n")).as_deref(),
        Some("/usr/local/bin/tp-agent")
    );
    assert_eq!(recorded_path(None), None);
    assert_eq!(
        installed_path_file(Platform::Linux, &env()).as_deref(),
        Some("/home/u/.config/talon-pilot-studio/agent-path")
    );
    assert_eq!(installed_path_file(Platform::Windows, &env()), None);
}
