use talon_pilot_studio::config::{
    app_config_dir, config_path, parse_config_value, read_configured, resolve,
    resolve_agent_download_base, resolve_api_base, resolve_update_endpoint,
};
use talon_pilot_studio::platform::{HostEnv, Platform};

#[test]
fn parses_api_base_from_toml() {
    let toml = "# comment\napi_base = \"https://corp.internal:3100\"\nother = 1\n";
    assert_eq!(
        parse_config_value(toml, "api_base").as_deref(),
        Some("https://corp.internal:3100")
    );
}

#[test]
fn ignores_commented_key() {
    let toml = "# api_base = \"https://nope\"\n";
    assert_eq!(parse_config_value(toml, "api_base"), None);
}

#[test]
fn parses_single_quotes_and_trims() {
    let toml = "api_base = 'https://x.example/'  \n";
    assert_eq!(
        parse_config_value(toml, "api_base").as_deref(),
        Some("https://x.example/")
    );
}

#[test]
fn missing_key_returns_none() {
    assert_eq!(parse_config_value("foo = 1\nbar = 2\n", "api_base"), None);
}

#[test]
fn longer_key_is_not_prefix_matched() {
    let toml = "api_base_backup = \"https://backup\"\napi_base = \"https://main\"\n";
    assert_eq!(
        parse_config_value(toml, "api_base").as_deref(),
        Some("https://main")
    );
    assert_eq!(
        parse_config_value(toml, "api_base_backup").as_deref(),
        Some("https://backup")
    );
}

#[test]
fn reads_each_supported_key_independently() {
    let toml = "api_base = \"https://a\"\nagent_download_base = \"https://mirror.example/tp-agent\"\nupdate_endpoint = \"https://mirror.example/studio/latest.json\"\n";
    assert_eq!(
        parse_config_value(toml, "api_base").as_deref(),
        Some("https://a")
    );
    assert_eq!(
        parse_config_value(toml, "agent_download_base").as_deref(),
        Some("https://mirror.example/tp-agent")
    );
    assert_eq!(
        parse_config_value(toml, "update_endpoint").as_deref(),
        Some("https://mirror.example/studio/latest.json")
    );
}

#[test]
fn comment_behind_a_quoted_value_is_left_out() {
    let toml = "update_endpoint     = \"https://mirror.example.com/studio/latest.json\"   # 自更新 latest.json 镜像\nagent_download_base = \"https://mirror.example.com/tp-agent\"             # tp-agent 安装包镜像(目录内平铺四平台资产)\n";
    assert_eq!(
        parse_config_value(toml, "update_endpoint").as_deref(),
        Some("https://mirror.example.com/studio/latest.json")
    );
    assert_eq!(
        parse_config_value(toml, "agent_download_base").as_deref(),
        Some("https://mirror.example.com/tp-agent")
    );
    assert_eq!(
        parse_config_value("api_base = 'https://a'# x", "api_base").as_deref(),
        Some("https://a")
    );
}

#[test]
fn hash_in_an_unquoted_or_unclosed_value_is_kept() {
    assert_eq!(
        parse_config_value("api_base = https://a/#b", "api_base").as_deref(),
        Some("https://a/#b")
    );
    assert_eq!(
        parse_config_value("api_base = \"https://a/#b\"", "api_base").as_deref(),
        Some("https://a/#b")
    );
    assert_eq!(
        parse_config_value("api_base = \"https://a # b", "api_base").as_deref(),
        Some("https://a # b")
    );
}

#[test]
fn blank_values_give_way_to_a_later_line() {
    let toml = "api_base = \"\"\n\tapi_base=' https://b '\r\napi_base = https://c\n";
    assert_eq!(
        parse_config_value(toml, "api_base").as_deref(),
        Some("https://b")
    );
    assert_eq!(parse_config_value("api_base = \"\"", "api_base"), None);
    assert_eq!(parse_config_value("api_base", "api_base"), None);
    assert_eq!(parse_config_value("", "api_base"), None);
}

#[test]
fn environment_then_file_then_default() {
    let file = Some("api_base = \"https://file/\"\n");
    assert_eq!(resolve_api_base(Some(" https://env// "), file), "https://env");
    assert_eq!(resolve_api_base(Some("  "), file), "https://file");
    assert_eq!(resolve_api_base(None, file), "https://file");
    assert_eq!(resolve_api_base(None, Some("")), "https://agents.deeplan.ai");
    assert_eq!(resolve_api_base(None, None), "https://agents.deeplan.ai");
}

#[test]
fn mirrors_resolve_from_their_own_keys() {
    let file = Some("agent_download_base = \"https://m/tp/\"\nupdate_endpoint = \"https://m/l.json\"\n");
    assert_eq!(
        resolve_agent_download_base(None, file).as_deref(),
        Some("https://m/tp")
    );
    assert_eq!(
        resolve_update_endpoint(None, file).as_deref(),
        Some("https://m/l.json")
    );
    assert_eq!(resolve_agent_download_base(None, None), None);
    assert_eq!(
        resolve_update_endpoint(Some("https://e/l.json"), file).as_deref(),
        Some("https://e/l.json")
    );
    assert_eq!(resolve(None, file, "api_base"), None);
    assert_eq!(read_configured(None, "api_base"), None);
}

fn env() -> HostEnv {
    HostEnv {
        home: Some("/home/u".to_string()),
        user_profile: Some("C:\\Users\\u".to_string()),
        local_app_data: Some("C:\\Users\\u\\AppData\\Local".to_string()),
        app_data: Some("C:\\Users\\u\\AppData\\Roaming".to_string()),
    }
}

#[test]
fn settings_file_lies_in_the_users_configuration() {
    assert_eq!(
        config_path(Platform::Linux, &env()).as_deref(),
        Some("/home/u/.config/talon-pilot-studio/config.toml")
    );
    assert_eq!(
        config_path(Platform::Windows, &env()).as_deref(),
        Some("C:\\Users\\u\\AppData\\Roaming\\talon-pilot-studio\\config.toml")
    );
    let nothing = HostEnv {
        home: None,
        user_profile: None,
        local_app_data: None,
        app_data: None,
    };
    assert_eq!(app_config_dir(Platform::MacOs, &nothing), None);
    assert_eq!(app_config_dir(Platform::Windows, &nothing), None);
}

#[test]
fn any_white_space_may_stand_around_the_sign_and_before_a_comment() {
    for line in [
        "api_base=\"https://a\"",
        "api_base \t =\u{a0}\"https://a\"\t \t# c \t",
        "api_base =  \"https://a\"   # \"https://b\"",
        "api_base = \"https://a\"#",
        "api_base = \"https://a\"   ",
    ] {
        assert_eq!(
            parse_config_value(line, "api_base").as_deref(),
            Some("https://a"),
            "{line:?}"
        );
    }
}
