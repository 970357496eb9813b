//! The browser connector: the extension that is laid out for Chrome, the native messaging host
//! through which it finds the local relay, and the switch that turns the relay on and off.
//!
//! Turning it on or off, and copying the extension, are tasks. The caller performs the action
//! that a task stands at and reports what came of it to `step`, until the task is over.

use vstd::prelude::*;
use vstd::string::*;
use vstd::utf8::*;

use crate::json;
use crate::json::{Field, FieldView};
use crate::paths;
use crate::platform;
use crate::platform::{join_path, HostEnv, Platform};
use crate::process;
use crate::process::{CommandLine, CommandLineView, ProcessOutput, RunOutcome};
use crate::text;

verus! {

/// The extension that may talk to the native messaging host. It is to be replaced once the key of
/// the extension is fixed.
pub const EXTENSION_ID: &'static str = "REPLACE_WITH_PINNED_EXTENSION_ID";

/// The name under which Chrome finds the native messaging host.
pub const NATIVE_HOST_NAME: &'static str = "com.talonpilot.browser_connector";

/// The name of the extension's directory, among the shell's resources and among its data.
pub const EXTENSION_DIR_NAME: &'static str = "chrome-extension";

/// How far the connector is set up.
#[derive(Debug)]
pub struct BrowserConnectorStatus {
    /// Whether the user has turned it on.
    pub enabled: bool,
    /// Whether the local relay runs.
    pub relay_live: bool,
    /// Whether the extension has connected to the relay.
    pub extension_connected: bool,
    /// The directory of the extension, where it has been laid out.
    pub extension_dir: Option<String>,
}

/// The model of the connector's status.
#[verifier::ext_equal]
pub struct ConnectorStatusView {
    pub enabled: bool,
    pub relay_live: bool,
    pub extension_connected: bool,
    pub extension_dir: Option<Seq<char>>,
}

impl View for BrowserConnectorStatus {
    type V = ConnectorStatusView;

    open spec fn view(&self) -> ConnectorStatusView {
        ConnectorStatusView {
            enabled: self.enabled,
            relay_live: self.relay_live,
            extension_connected: self.extension_connected,
            extension_dir: text::opt_text(self.extension_dir),
        }
    }
}

/// The path `<home>/<name>` where the user's directory is known.
pub open spec fn below_home(platform: Platform, env: HostEnv, name: Seq<char>) -> Option<
    Seq<char>,
> {
    match env.home {
        Some(home) => Some(platform::path_below(platform, home@, name)),
        None => None,
    }
}

fn join_home(platform: Platform, env: &HostEnv, name: &str) -> (path: Option<String>)
    ensures
        text::opt_text(path) == below_home(platform, *env, name@),
{
    match &env.home {
        Some(home) => Some(join_path(platform, home.as_str(), name)),
        None => None,
    }
}

/// The file whose presence tells that the user has turned the connector on.
pub fn enabled_marker(platform: Platform, env: &HostEnv) -> (path: Option<String>)
    ensures
        text::opt_text(path) == below_home(
            platform,
            *env,
            ".local/share/tp-agent/browser-relay.enabled"@,
        ),
{
    join_home(platform, env, ".local/share/tp-agent/browser-relay.enabled")
}

/// The directory in which Chrome looks for native messaging hosts. On Windows it is not one of
/// the file system.
pub open spec fn hosts_dir(platform: Platform, env: HostEnv) -> Option<Seq<char>> {
    match platform {
        Platform::MacOs => below_home(
            platform,
            env,
            "Library/Application Support/Google/Chrome/NativeMessagingHosts"@,
        ),
        Platform::Linux => below_home(platform, env, ".config/google-chrome/NativeMessagingHosts"@),
        _ => None,
    }
}

/// Finds the directory in which Chrome looks for native messaging hosts.
pub fn native_messaging_hosts_dir(platform: Platform, env: &HostEnv) -> (dir: Option<String>)
    ensures
        text::opt_text(dir) == hosts_dir(platform, *env),
{
    match platform {
        Platform::MacOs => join_home(
            platform,
            env,
            "Library/Application Support/Google/Chrome/NativeMessagingHosts",
        ),
        Platform::Linux => join_home(platform, env, ".config/google-chrome/NativeMessagingHosts"),
        _ => None,
    }
}

/// The file name of the native messaging host.
pub open spec fn host_bin_name(platform: Platform) -> Seq<char> {
    if platform == Platform::Windows {
        "tp-agent-browser-native-host.exe"@
    } else {
        "tp-agent-browser-native-host"@
    }
}

/// The file name of the native messaging host, which has an ending on Windows.
pub fn native_host_bin_name(platform: Platform) -> (name: &'static str)
    ensures
        name@ == host_bin_name(platform),
{
    if matches!(platform, Platform::Windows) {
        "tp-agent-browser-native-host.exe"
    } else {
        "tp-agent-browser-native-host"
    }
}

/// The directory of the extension below the directory of the shell's data or resources.
pub fn extension_target_dir(platform: Platform, base: Option<&str>) -> (dir: Option<String>)
    ensures
        text::opt_text(dir) == match base {
            Some(base) => Some(platform::path_below(platform, base@, EXTENSION_DIR_NAME@)),
            None => None,
        },
{
    match base {
        Some(base) => Some(join_path(platform, base, EXTENSION_DIR_NAME)),
        None => None,
    }
}

/// What a run of `tp-agent` with `args` yields: its output, whether it succeeded or not, or a
/// message where it did not run.
pub open spec fn run_output(args: Seq<Seq<char>>, outcome: RunOutcome) -> Result<
    ProcessOutput,
    Seq<char>,
> {
    match outcome {
        RunOutcome::NotInstalled => Err("tp-agent 未安装"@),
        RunOutcome::SpawnFailed(reason) => Err(process::spawn_error(args, reason@)),
        RunOutcome::Finished(output) => Ok(output),
    }
}

/// Judges a run of `tp-agent` with `args` that may end without success.
pub fn run_tp(args: &Vec<String>, outcome: RunOutcome) -> (result: Result<ProcessOutput, String>)
    ensures
        text::error_text(result) == run_output(text::texts(args@), outcome),
{
    match outcome {
        RunOutcome::NotInstalled => Err("tp-agent 未安装".to_owned()),
        RunOutcome::SpawnFailed(reason) => Err(process::spawn_message(args, reason.as_str())),
        RunOutcome::Finished(output) => Ok(output),
    }
}

/// The arguments of `tp-agent` that ask for the state of the relay.
pub fn relay_query() -> (args: Vec<String>)
    ensures
        text::texts(args@) == seq!["browser"@, "status"@, "--json"@],
{
    let args = text::words(&["browser", "status", "--json"]);
    assert(text::texts(args@) == seq!["browser"@, "status"@, "--json"@]);
    args
}

/// The arguments of `tp-agent` that ask for the state of the extension.
pub fn health_query() -> (args: Vec<String>)
    ensures
        text::texts(args@) == seq!["browser"@, "call"@, "browser.relay.health"@],
{
    let args = text::words(&["browser", "call", "browser.relay.health"]);
    assert(text::texts(args@) == seq!["browser"@, "call"@, "browser.relay.health"@]);
    args
}

/// What a run printed, where it succeeded.
pub open spec fn answer(outcome: RunOutcome) -> Option<Seq<u8>> {
    match outcome {
        RunOutcome::Finished(output) => if output.success {
            Some(output.stdout@)
        } else {
            None
        },
        _ => None,
    }
}

/// Takes what a run printed, where it succeeded.
pub fn answer_of(outcome: RunOutcome) -> (bytes: Option<Vec<u8>>)
    ensures
        json::opt_bytes(bytes) == answer(outcome),
{
    match outcome {
        RunOutcome::Finished(output) => if output.success {
            Some(output.stdout)
        } else {
            None
        },
        _ => None,
    }
}

/// The truth value of the member `key` of a document, which is false where there is none.
pub open spec fn flag(json: Option<Seq<u8>>, key: Seq<char>) -> bool {
    match json {
        Some(json) => match json::json_member(json, key) {
            Some(value) => json::json_bool(value) == Some(true),
            None => false,
        },
        None => false,
    }
}

/// Reads the truth value of the member `key` of a document.
pub fn read_flag(json: Option<&[u8]>, key: &str) -> (r: bool)
    ensures
        r == flag(
            match json {
                Some(bytes) => Some(bytes@),
                None => None,
            },
            key@,
        ),
{
    match json {
        Some(json) => match json::member(json, key) {
            Some(value) => match json::as_bool(value.as_slice()) {
                Some(value) => value,
                None => false,
            },
            None => false,
        },
        None => false,
    }
}

/// Whether the relay runs, as it answers itself.
pub open spec fn is_relay_live(outcome: RunOutcome) -> bool {
    flag(answer(outcome), "live"@)
}

/// Tells whether the relay runs from what came of `relay_query`.
pub fn relay_live(outcome: RunOutcome) -> (live: bool)
    ensures
        live == is_relay_live(outcome),
{
    match answer_of(outcome) {
        Some(json) => read_flag(Some(json.as_slice()), "live"),
        None => false,
    }
}

/// Whether the extension has connected, as the relay answers.
pub open spec fn is_extension_connected(outcome: RunOutcome) -> bool {
    match answer(outcome) {
        Some(json) => flag(json::json_member(json, "result"@), "connected"@),
        None => false,
    }
}

/// Tells whether the extension has connected from what came of `health_query`.
pub fn extension_connected(outcome: RunOutcome) -> (connected: bool)
    ensures
        connected == is_extension_connected(outcome),
{
    match answer_of(outcome) {
        Some(json) => match json::member(json.as_slice(), "result") {
            Some(result) => read_flag(Some(result.as_slice()), "connected"),
            None => false,
        },
        None => false,
    }
}

/// Puts the status together. `marker_exists` tells whether the file of `enabled_marker` is there,
/// `relay` and `health` are what came of the two queries, and `dir_exists` tells whether the
/// extension's directory is there.
pub fn status(
    marker_exists: bool,
    relay: RunOutcome,
    health: RunOutcome,
    extension_dir: Option<String>,
    dir_exists: bool,
) -> (status: BrowserConnectorStatus)
    ensures
        status@ == (ConnectorStatusView {
            enabled: marker_exists,
            relay_live: is_relay_live(relay),
            extension_connected: is_extension_connected(health),
            extension_dir: if dir_exists {
                text::opt_text(extension_dir)
            } else {
                None
            },
        }),
{
    BrowserConnectorStatus {
        enabled: marker_exists,
        relay_live: relay_live(relay),
        extension_connected: extension_connected(health),
        extension_dir: if dir_exists {
            extension_dir
        } else {
            None
        },
    }
}

/// A relay that did not answer with success is not live, and no extension has connected to it.
pub proof fn law_no_answer_means_not_live(outcome: RunOutcome)
    requires
        !(outcome is Finished) || !outcome->Finished_0.success,
    ensures
        !is_relay_live(outcome),
        !is_extension_connected(outcome),
{
}

/// The members of the native messaging host's manifest.
pub open spec fn manifest_members(native_host: Seq<char>) -> Seq<(Seq<char>, FieldView)> {
    seq![
        (
            "allowed_origins"@,
            FieldView::List(seq!["chrome-extension://"@ + EXTENSION_ID@ + "/"@]),
        ),
        ("description"@, FieldView::Text("Talon Pilot Browser Connector"@)),
        ("name"@, FieldView::Text(NATIVE_HOST_NAME@)),
        ("path"@, FieldView::Text(native_host)),
        ("type"@, FieldView::Text("stdio"@)),
    ]
}

proof fn lemma_manifest_names_ascend(native_host: Seq<char>)
    ensures
        json::names_ascend(manifest_members(native_host)),
{
    reveal_strlit("allowed_origins");
    reveal_strlit("description");
    reveal_strlit("name");
    reveal_strlit("path");
    reveal_strlit("type");
}

/// Writes the manifest that leads Chrome to the native messaging host at `native_host` and lets
/// the extension talk to it.
pub fn native_host_manifest(native_host: &str) -> (manifest: Vec<u8>)
    ensures
        manifest@ == encode_utf8(json::pretty_object(manifest_members(native_host@))),
{
    let mut origin = "chrome-extension://".to_owned();
    origin.append(EXTENSION_ID);
    origin.append("/");
    let mut origins: Vec<String> = Vec::new();
    origins.push(origin);
    assert(text::texts(origins@) == seq!["chrome-extension://"@ + EXTENSION_ID@ + "/"@]);
    let mut fields: Vec<(String, Field)> = Vec::new();
    fields.push(("allowed_origins".to_owned(), Field::List(origins)));
    fields.push(
        ("description".to_owned(), Field::Text("Talon Pilot Browser Connector".to_owned())),
    );
    fields.push(("name".to_owned(), Field::Text(NATIVE_HOST_NAME.to_owned())));
    fields.push(("path".to_owned(), Field::Text(native_host.to_owned())));
    fields.push(("type".to_owned(), Field::Text("stdio".to_owned())));
    proof {
        assert(json::members(fields@) == manifest_members(native_host@));
        lemma_manifest_names_ascend(native_host@);
    }
    match json::write_pretty_object(fields) {
        Some(manifest) => manifest,
        None => Vec::new(),
    }
}

/// The command that shows Chrome's page of extensions.
pub open spec fn extensions_page_command(platform: Platform) -> Option<CommandLineView> {
    match platform {
        Platform::MacOs => Some(
            CommandLineView {
                program: "open"@,
                args: seq!["-a"@, "Google Chrome"@, "chrome://extensions"@],
            },
        ),
        Platform::Linux => Some(
            CommandLineView { program: "google-chrome"@, args: seq!["chrome://extensions"@] },
        ),
        Platform::Windows => Some(
            CommandLineView {
                program: "cmd"@,
                args: seq!["/C"@, "start"@, "chrome"@, "chrome://extensions"@],
            },
        ),
        Platform::Other => None,
    }
}

/// Forms the command that shows Chrome's page of extensions, on the platforms where Chrome is
/// known to be found.
pub fn open_chrome_extensions_page(platform: Platform) -> (command: Option<CommandLine>)
    ensures
        match command {
            Some(command) => extensions_page_command(platform) == Some(command@),
            None => extensions_page_command(platform) is None,
        },
{
    let url = "chrome://extensions";
    let command = match platform {
        Platform::MacOs => process::command_line("open", &["-a", "Google Chrome", url]),
        Platform::Linux => process::command_line("google-chrome", &[url]),
        Platform::Windows => process::command_line("cmd", &["/C", "start", "chrome", url]),
        Platform::Other => {
            return None;
        },
    };
    assert(command@.args == extensions_page_command(platform)->0.args);
    Some(command)
}

/// Words the message for a page of extensions that could not be shown.
pub fn extensions_page_error(reason: &str) -> (message: String)
    ensures
        message@ == "打开 Chrome 扩展页失败: "@ + reason@,
{
    let mut message = "打开 Chrome 扩展页失败: ".to_owned();
    message.append(reason);
    message
}

/// What the caller of a switch of the connector does next.
#[derive(Debug)]
pub enum ConnectorAction {
    /// Copy the directory `from` with everything below it to `to`.
    CopyExtension { from: String, to: String },
    /// Find the executable of `tp-agent`.
    Locate,
    /// Create the directory `dir` and those above it, for the manifest of `native_host`.
    CreateHostsDir { dir: String, native_host: String },
    /// Write `manifest` to the file `dest`.
    WriteManifest { dest: String, manifest: Vec<u8> },
    /// Run `tp-agent` with these arguments, which turns the relay on.
    TurnOn(Vec<String>),
    /// Run `tp-agent` with these arguments, which starts its daemon.
    StartDaemon(Vec<String>),
    /// Run `tp-agent` with these arguments, which turns the relay off.
    TurnOff(Vec<String>),
    /// Read the status of the connector, which is what the switch ends with.
    ReadStatus,
    /// The switch has failed.
    Fail(String),
}

/// The model of an action.
#[verifier::ext_equal]
pub enum ConnectorActionView {
    CopyExtension(Seq<char>, Seq<char>),
    Locate,
    CreateHostsDir(Seq<char>, Seq<char>),
    WriteManifest(Seq<char>, Seq<u8>),
    TurnOn(Seq<Seq<char>>),
    StartDaemon(Seq<Seq<char>>),
    TurnOff(Seq<Seq<char>>),
    ReadStatus,
    Fail(Seq<char>),
}

impl View for ConnectorAction {
    type V = ConnectorActionView;

    open spec fn view(&self) -> ConnectorActionView {
        match self {
            ConnectorAction::CopyExtension { from, to } => ConnectorActionView::CopyExtension(
                from@,
                to@,
            ),
            ConnectorAction::Locate => ConnectorActionView::Locate,
            ConnectorAction::CreateHostsDir {
                dir,
                native_host,
            } => ConnectorActionView::CreateHostsDir(dir@, native_host@),
            ConnectorAction::WriteManifest { dest, manifest } => ConnectorActionView::WriteManifest(
                dest@,
                manifest@,
            ),
            ConnectorAction::TurnOn(args) => ConnectorActionView::TurnOn(text::texts(args@)),
            ConnectorAction::StartDaemon(args) => ConnectorActionView::StartDaemon(
                text::texts(args@),
            ),
            ConnectorAction::TurnOff(args) => ConnectorActionView::TurnOff(text::texts(args@)),
            ConnectorAction::ReadStatus => ConnectorActionView::ReadStatus,
            ConnectorAction::Fail(reason) => ConnectorActionView::Fail(reason@),
        }
    }
}

/// What came of an action.
#[derive(Debug)]
pub enum ConnectorEvent {
    Succeeded,
    Failed(String),
    /// The executable of `tp-agent` is at this path, or nowhere.
    Located(Option<String>),
    /// `tp-agent` was run, and this came of it.
    Ran(RunOutcome),
}

/// The message for a shell that was built without the extension.
pub open spec fn missing_extension() -> Seq<char> {
    "随 app 打包的浏览器扩展资源缺失(发布管线需打包 browser-extension 产物);见 docs/browser-connector-desktop.md"@
}

/// The first action of a switch of the connector. The extension is copied from `source`, where
/// that is a directory, to `target`, where there is one.
pub open spec fn first_action(
    enabled: bool,
    target: Option<&str>,
    source: Option<&str>,
    source_is_dir: bool,
) -> ConnectorActionView {
    if !enabled {
        ConnectorActionView::TurnOff(seq!["browser"@, "disable"@])
    } else if target is None {
        ConnectorActionView::Locate
    } else if source is Some && source_is_dir {
        ConnectorActionView::CopyExtension(source->0@, target->0@)
    } else {
        ConnectorActionView::Fail(missing_extension())
    }
}

/// Begins to turn the connector on or off.
pub fn set_enabled(
    enabled: bool,
    target: Option<&str>,
    source: Option<&str>,
    source_is_dir: bool,
) -> (action: ConnectorAction)
    ensures
        action@ == first_action(enabled, target, source, source_is_dir),
{
    if !enabled {
        let args = text::words(&["browser", "disable"]);
        assert(text::texts(args@) == seq!["browser"@, "disable"@]);
        return ConnectorAction::TurnOff(args);
    }
    match (target, source) {
        (None, _) => ConnectorAction::Locate,
        (Some(target), Some(source)) if source_is_dir => ConnectorAction::CopyExtension {
            from: source.to_owned(),
            to: target.to_owned(),
        },
        _ => ConnectorAction::Fail(
            "随 app 打包的浏览器扩展资源缺失(发布管线需打包 browser-extension 产物);见 docs/browser-connector-desktop.md".to_owned(),
        ),
    }
}

/// The action that follows the search for the executable of `tp-agent`. The native messaging host
/// is the one beside it.
pub open spec fn after_locate(
    platform: Platform,
    env: HostEnv,
    bin: Option<String>,
) -> ConnectorActionView {
    match bin {
        None => ConnectorActionView::Fail("tp-agent 未安装"@),
        Some(bin) => match paths::parent(platform, bin@) {
            None => ConnectorActionView::Fail("无法定位 native host 二进制目录"@),
            Some(beside) => match hosts_dir(platform, env) {
                None => ConnectorActionView::Fail("无法定位 Chrome NativeMessagingHosts 目录"@),
                Some(dir) => ConnectorActionView::CreateHostsDir(
                    dir,
                    platform::path_below(platform, beside, host_bin_name(platform)),
                ),
            },
        },
    }
}

/// Finds the native messaging host beside the executable of `tp-agent`, and the directory of its
/// manifest.
fn install_native_host(platform: Platform, env: &HostEnv, bin: Option<String>) -> (action:
    ConnectorAction)
    ensures
        action@ == after_locate(platform, *env, bin),
{
    let bin = match bin {
        Some(bin) => bin,
        None => {
            return ConnectorAction::Fail("tp-agent 未安装".to_owned());
        },
    };
    let beside = match paths::parent_dir(platform, bin.as_str()) {
        Some(beside) => beside,
        None => {
            return ConnectorAction::Fail("无法定位 native host 二进制目录".to_owned());
        },
    };
    match native_messaging_hosts_dir(platform, env) {
        Some(dir) => ConnectorAction::CreateHostsDir {
            dir,
            native_host: join_path(platform, beside.as_str(), native_host_bin_name(platform)),
        },
        None => ConnectorAction::Fail("无法定位 Chrome NativeMessagingHosts 目录".to_owned()),
    }
}

/// The path of the native messaging host's manifest.
pub open spec fn manifest_path(platform: Platform, dir: Seq<char>) -> Seq<char> {
    platform::path_below(platform, dir, NATIVE_HOST_NAME@ + ".json"@)
}

/// The action that follows `action` after it came to `event`. It stays the same where the event is
/// none of the action.
pub open spec fn next_action(
    platform: Platform,
    env: HostEnv,
    action: ConnectorActionView,
    event: ConnectorEvent,
) -> ConnectorActionView {
    match (action, event) {
        (
            ConnectorActionView::CopyExtension(_, _),
            ConnectorEvent::Succeeded,
        ) => ConnectorActionView::Locate,
        (
            ConnectorActionView::CopyExtension(_, _),
            ConnectorEvent::Failed(reason),
        ) => ConnectorActionView::Fail(reason@),
        (ConnectorActionView::Locate, ConnectorEvent::Located(bin)) => after_locate(
            platform,
            env,
            bin,
        ),
        (
            ConnectorActionView::CreateHostsDir(dir, native_host),
            ConnectorEvent::Succeeded,
        ) => ConnectorActionView::WriteManifest(
            manifest_path(platform, dir),
            encode_utf8(json::pretty_object(manifest_members(native_host))),
        ),
        (
            ConnectorActionView::CreateHostsDir(dir, _),
            ConnectorEvent::Failed(reason),
        ) => ConnectorActionView::Fail("create "@ + dir + ": "@ + reason@),
        (
            ConnectorActionView::WriteManifest(_, _),
            ConnectorEvent::Succeeded,
        ) => ConnectorActionView::TurnOn(seq!["browser"@, "enable"@]),
        (
            ConnectorActionView::WriteManifest(dest, _),
            ConnectorEvent::Failed(reason),
        ) => ConnectorActionView::Fail(
            "write native host manifest "@ + dest + ": "@ + reason@,
        ),
        (ConnectorActionView::TurnOn(args), ConnectorEvent::Ran(outcome)) => match run_output(
            args,
            outcome,
        ) {
            Ok(_) => ConnectorActionView::StartDaemon(seq!["start"@]),
            Err(reason) => ConnectorActionView::Fail(reason),
        },
        (
            ConnectorActionView::StartDaemon(_),
            ConnectorEvent::Ran(_),
        ) => ConnectorActionView::ReadStatus,
        (ConnectorActionView::TurnOff(args), ConnectorEvent::Ran(outcome)) => match run_output(
            args,
            outcome,
        ) {
            Ok(_) => ConnectorActionView::ReadStatus,
            Err(reason) => ConnectorActionView::Fail(reason),
        },
        (action, _) => action,
    }
}

impl ConnectorAction {
    /// Finds the action that follows after this one came to `event`.
    pub fn step(self, platform: Platform, env: &HostEnv, event: ConnectorEvent) -> (next:
        ConnectorAction)
        ensures
            next@ == next_action(platform, *env, self@, event),
    {
        match (self, event) {
            (
                ConnectorAction::CopyExtension { .. },
                ConnectorEvent::Succeeded,
            ) => ConnectorAction::Locate,
            (
                ConnectorAction::CopyExtension { .. },
                ConnectorEvent::Failed(reason),
            ) => ConnectorAction::Fail(reason),
            (ConnectorAction::Locate, ConnectorEvent::Located(bin)) => install_native_host(
                platform,
                env,
                bin,
            ),
            (
                ConnectorAction::CreateHostsDir { dir, native_host },
                ConnectorEvent::Succeeded,
            ) => {
                let mut name = NATIVE_HOST_NAME.to_owned();
                name.append(".json");
                ConnectorAction::WriteManifest {
                    dest: join_path(platform, dir.as_str(), name.as_str()),
                    manifest: native_host_manifest(native_host.as_str()),
                }
            },
            (ConnectorAction::CreateHostsDir { dir, .. }, ConnectorEvent::Failed(reason)) => {
                let mut message = "create ".to_owned();
                message.append(dir.as_str());
                message.append(": ");
                message.append(reason.as_str());
                ConnectorAction::Fail(message)
            },
            (ConnectorAction::WriteManifest { .. }, ConnectorEvent::Succeeded) => {
                let args = text::words(&["browser", "enable"]);
                assert(text::texts(args@) == seq!["browser"@, "enable"@]);
                ConnectorAction::TurnOn(args)
            },
            (ConnectorAction::WriteManifest { dest, .. }, ConnectorEvent::Failed(reason)) => {
                let mut message = "write native host manifest ".to_owned();
                message.append(dest.as_str());
                message.append(": ");
                message.append(reason.as_str());
                ConnectorAction::Fail(message)
            },
            (ConnectorAction::TurnOn(args), ConnectorEvent::Ran(outcome)) => match run_tp(
                &args,
                outcome,
            ) {
                Ok(_) => {
                    let start = text::words(&["start"]);
                    assert(text::texts(start@) == seq!["start"@]);
                    ConnectorAction::StartDaemon(start)
                },
                Err(reason) => ConnectorAction::Fail(reason),
            },
            (
                ConnectorAction::StartDaemon(_),
                ConnectorEvent::Ran(_),
            ) => ConnectorAction::ReadStatus,
            (ConnectorAction::TurnOff(args), ConnectorEvent::Ran(outcome)) => match run_tp(
                &args,
                outcome,
            ) {
                Ok(_) => ConnectorAction::ReadStatus,
                Err(reason) => ConnectorAction::Fail(reason),
            },
            (action, _) => action,
        }
    }
}

/// The relay is turned on only after the manifest of the native messaging host has been written,
/// so that the extension can find it.
pub proof fn law_relay_is_turned_on_after_the_manifest(
    platform: Platform,
    env: HostEnv,
    action: ConnectorActionView,
    event: ConnectorEvent,
)
    requires
        !(action is TurnOn),
        next_action(platform, env, action, event) is TurnOn,
    ensures
        action is WriteManifest,
        event is Succeeded,
{
}

/// A switch that turns the connector off never turns it on, whatever happens.
pub proof fn law_turning_off_never_turns_on(
    platform: Platform,
    env: HostEnv,
    action: ConnectorActionView,
    event: ConnectorEvent,
)
    requires
        action is TurnOff || action is ReadStatus || action is Fail,
    ensures
        ({
            let next = next_action(platform, env, action, event);
            next is TurnOff || next is ReadStatus || next is Fail
        }),
{
}

/// After the run that turns the relay on has come to its end, with any exit status, the daemon is
/// started.
pub proof fn law_daemon_is_started_after_the_relay(
    platform: Platform,
    env: HostEnv,
    args: Seq<Seq<char>>,
    output: ProcessOutput,
)
    ensures
        next_action(
            platform,
            env,
            ConnectorActionView::TurnOn(args),
            ConnectorEvent::Ran(RunOutcome::Finished(output)),
        ) == ConnectorActionView::StartDaemon(seq!["start"@]),
{
}

/// The status is read only after the daemon has been started or the relay been turned off: a
/// switch that turned the relay on reads it only behind the start of the daemon.
pub proof fn law_status_is_read_last(
    platform: Platform,
    env: HostEnv,
    action: ConnectorActionView,
    event: ConnectorEvent,
)
    requires
        !(action is ReadStatus),
        next_action(platform, env, action, event) is ReadStatus,
    ensures
        event is Ran,
        action is StartDaemon || (action is TurnOff && event->Ran_0 is Finished),
{
}

/// However the start of the daemon ends, the status is read after it.
pub proof fn law_status_follows_the_daemon(
    platform: Platform,
    env: HostEnv,
    args: Seq<Seq<char>>,
    outcome: RunOutcome,
)
    ensures
        next_action(
            platform,
            env,
            ConnectorActionView::StartDaemon(args),
            ConnectorEvent::Ran(outcome),
        ) == ConnectorActionView::ReadStatus,
{
}

/// After the run that turns the relay off has come to its end, with any exit status, the status is
/// read.
pub proof fn law_status_follows_turning_off(
    platform: Platform,
    env: HostEnv,
    args: Seq<Seq<char>>,
    output: ProcessOutput,
)
    ensures
        next_action(
            platform,
            env,
            ConnectorActionView::TurnOff(args),
            ConnectorEvent::Ran(RunOutcome::Finished(output)),
        ) == ConnectorActionView::ReadStatus,
{
}

/// A switch of the relay that did not run fails, and the message says why it did not.
pub proof fn law_switch_that_did_not_run_fails(
    platform: Platform,
    env: HostEnv,
    action: ConnectorActionView,
    args: Seq<Seq<char>>,
    reason: String,
)
    requires
        action == ConnectorActionView::TurnOn(args) || action == ConnectorActionView::TurnOff(
            args,
        ),
    ensures
        next_action(platform, env, action, ConnectorEvent::Ran(RunOutcome::NotInstalled))
            == ConnectorActionView::Fail("tp-agent 未安装"@),
        next_action(platform, env, action, ConnectorEvent::Ran(RunOutcome::SpawnFailed(reason)))
            == ConnectorActionView::Fail(
            "spawn tp-agent "@ + text::joined(args, " "@) + ": "@ + reason@,
        ),
{
}

/// The switch goes from the extension to the executable, and from the directory of the manifest
/// over the manifest to the relay, where each of them succeeds.
pub proof fn law_switch_goes_in_order(
    platform: Platform,
    env: HostEnv,
    from: Seq<char>,
    to: Seq<char>,
    dir: Seq<char>,
    native_host: Seq<char>,
    manifest: Seq<u8>,
)
    ensures
        next_action(
            platform,
            env,
            ConnectorActionView::CopyExtension(from, to),
            ConnectorEvent::Succeeded,
        ) == ConnectorActionView::Locate,
        next_action(
            platform,
            env,
            ConnectorActionView::CreateHostsDir(dir, native_host),
            ConnectorEvent::Succeeded,
        ) == ConnectorActionView::WriteManifest(
            platform::path_below(platform, dir, NATIVE_HOST_NAME@ + ".json"@),
            encode_utf8(json::pretty_object(manifest_members(native_host))),
        ),
        next_action(
            platform,
            env,
            ConnectorActionView::WriteManifest(to, manifest),
            ConnectorEvent::Succeeded,
        ) == ConnectorActionView::TurnOn(seq!["browser"@, "enable"@]),
{
}

/// A step that fails ends the switch, and the message holds the reason and what it was about.
pub proof fn law_failed_step_ends_the_switch(
    platform: Platform,
    env: HostEnv,
    from: Seq<char>,
    to: Seq<char>,
    rest: Seq<char>,
    manifest: Seq<u8>,
    reason: String,
)
    ensures
        next_action(
            platform,
            env,
            ConnectorActionView::CopyExtension(from, to),
            ConnectorEvent::Failed(reason),
        ) == ConnectorActionView::Fail(reason@),
        next_action(
            platform,
            env,
            ConnectorActionView::CreateHostsDir(to, rest),
            ConnectorEvent::Failed(reason),
        ) == ConnectorActionView::Fail("create "@ + to + ": "@ + reason@),
        next_action(
            platform,
            env,
            ConnectorActionView::WriteManifest(to, manifest),
            ConnectorEvent::Failed(reason),
        ) == ConnectorActionView::Fail("write native host manifest "@ + to + ": "@ + reason@),
{
}

/// A switch that has failed, or that reads the status, is over.
pub proof fn law_switch_ends_for_good(
    platform: Platform,
    env: HostEnv,
    action: ConnectorActionView,
    event: ConnectorEvent,
)
    requires
        action is ReadStatus || action is Fail,
    ensures
        next_action(platform, env, action, event) == action,
{
}

/// The native messaging host that the manifest leads to stands beside the executable, whatever
/// its directory is, and the manifest goes to the directory in which Chrome looks on macOS and
/// Linux.
pub proof fn law_native_host_is_beside_the_executable(
    platform: Platform,
    env: HostEnv,
    bin: String,
    beside: Seq<char>,
    home: String,
)
    requires
        platform == Platform::MacOs || platform == Platform::Linux,
        paths::parent(platform, bin@) == Some(beside),
        env.home == Some(home),
    ensures
        next_action(
            platform,
            env,
            ConnectorActionView::Locate,
            ConnectorEvent::Located(Some(bin)),
        ) == ConnectorActionView::CreateHostsDir(
            platform::path_below(
                platform,
                home@,
                if platform == Platform::MacOs {
                    "Library/Application Support/Google/Chrome/NativeMessagingHosts"@
                } else {
                    ".config/google-chrome/NativeMessagingHosts"@
                },
            ),
            platform::path_below(platform, beside, "tp-agent-browser-native-host"@),
        ),
{
}

/// The switch fails where there is no executable, where nothing is above it, and where Chrome
/// looks in no directory: on other platforms than macOS and Linux, or without a home.
pub proof fn law_switch_needs_executable_and_hosts_dir(
    platform: Platform,
    env: HostEnv,
    bin: String,
)
    ensures
        next_action(platform, env, ConnectorActionView::Locate, ConnectorEvent::Located(None))
            == ConnectorActionView::Fail("tp-agent 未安装"@),
        paths::parent(platform, bin@) is None ==> next_action(
            platform,
            env,
            ConnectorActionView::Locate,
            ConnectorEvent::Located(Some(bin)),
        ) == ConnectorActionView::Fail("无法定位 native host 二进制目录"@),
        paths::parent(platform, bin@) is Some && (env.home is None || platform == Platform::Windows
            || platform == Platform::Other) ==> next_action(
            platform,
            env,
            ConnectorActionView::Locate,
            ConnectorEvent::Located(Some(bin)),
        ) == ConnectorActionView::Fail("无法定位 Chrome NativeMessagingHosts 目录"@),
{
}

/// The switch begins with the relay where it turns off, with the copy of the extension from its
/// source to its target where it turns on, with the executable where there is no target, and fails
/// where there is a target and no source.
pub proof fn law_beginning_of_a_switch(
    target: &str,
    source: &str,
    some_target: Option<&str>,
    some_source: Option<&str>,
    is_dir: bool,
)
    ensures
        first_action(false, some_target, some_source, is_dir) == ConnectorActionView::TurnOff(
            seq!["browser"@, "disable"@],
        ),
        first_action(true, None, some_source, is_dir) == ConnectorActionView::Locate,
        first_action(true, Some(target), Some(source), true)
            == ConnectorActionView::CopyExtension(source@, target@),
        some_source is None || !is_dir ==> first_action(true, Some(target), some_source, is_dir)
            == ConnectorActionView::Fail(
            "随 app 打包的浏览器扩展资源缺失(发布管线需打包 browser-extension 产物);见 docs/browser-connector-desktop.md"@,
        ),
{
}

/// The model of an action holds what the action holds.
pub proof fn law_model_of_a_switch_is_complete(action: ConnectorAction)
    ensures
        match action {
            ConnectorAction::CopyExtension { from, to } => action@
                == ConnectorActionView::CopyExtension(from@, to@),
            ConnectorAction::Locate => action@ == ConnectorActionView::Locate,
            ConnectorAction::CreateHostsDir { dir, native_host } => action@
                == ConnectorActionView::CreateHostsDir(dir@, native_host@),
            ConnectorAction::WriteManifest { dest, manifest } => action@
                == ConnectorActionView::WriteManifest(dest@, manifest@),
            ConnectorAction::TurnOn(args) => action@ == ConnectorActionView::TurnOn(
                text::texts(args@),
            ),
            ConnectorAction::StartDaemon(args) => action@ == ConnectorActionView::StartDaemon(
                text::texts(args@),
            ),
            ConnectorAction::TurnOff(args) => action@ == ConnectorActionView::TurnOff(
                text::texts(args@),
            ),
            ConnectorAction::ReadStatus => action@ == ConnectorActionView::ReadStatus,
            ConnectorAction::Fail(reason) => action@ == ConnectorActionView::Fail(reason@),
        },
{
}

/// A run that came to its end yields its output, whatever its status is.
pub proof fn law_finished_run_yields_its_output(args: Seq<Seq<char>>, output: ProcessOutput)
    ensures
        run_output(args, RunOutcome::Finished(output)) == Ok::<_, Seq<char>>(output),
{
}

/// The relay is live exactly where the run succeeded and the member `live` of the document that it
/// printed is true.
pub proof fn law_live_relay_says_so(output: ProcessOutput)
    ensures
        is_relay_live(RunOutcome::Finished(output)) <==> {
            &&& output.success
            &&& json::json_member(output.stdout@, "live"@) is Some
            &&& json::json_bool(json::json_member(output.stdout@, "live"@)->0) == Some(true)
        },
{
}

/// The extension is connected exactly where the run succeeded and the member `connected` of the
/// member `result` of the document that it printed is true.
pub proof fn law_connected_extension_is_reported(output: ProcessOutput)
    ensures
        is_extension_connected(RunOutcome::Finished(output)) <==> {
            let result = json::json_member(output.stdout@, "result"@);
            &&& output.success
            &&& result is Some
            &&& json::json_member(result->0, "connected"@) is Some
            &&& json::json_bool(json::json_member(result->0, "connected"@)->0) == Some(true)
        },
{
}

/// The model of the status holds what the status holds.
pub proof fn law_model_of_the_status_is_complete(status: BrowserConnectorStatus)
    ensures
        status@.enabled == status.enabled,
        status@.relay_live == status.relay_live,
        status@.extension_connected == status.extension_connected,
        match status.extension_dir {
            Some(dir) => status@.extension_dir == Some(dir@),
            None => status@.extension_dir is None,
        },
{
}

/// Two manifests differ in nothing but the path of the native messaging host, which each of them
/// holds as it is.
pub proof fn law_manifest_leads_to_the_host(host: Seq<char>, other: Seq<char>, i: int)
    requires
        0 <= i < 5,
    ensures
        manifest_members(host).len() == 5,
        manifest_members(host)[3] == ("path"@, FieldView::Text(host)),
        i != 3 ==> manifest_members(host)[i] == manifest_members(other)[i],
        manifest_members(host)[0] == (
            "allowed_origins"@,
            FieldView::List(seq!["chrome-extension://"@ + EXTENSION_ID@ + "/"@]),
        ),
        manifest_members(host)[1] == (
            "description"@,
            FieldView::Text("Talon Pilot Browser Connector"@),
        ),
        manifest_members(host)[2] == ("name"@, FieldView::Text(NATIVE_HOST_NAME@)),
        manifest_members(host)[4] == ("type"@, FieldView::Text("stdio"@)),
{
}

/// The page of extensions is shown on every platform where Chrome is known to be found, by the
/// command of that platform, whose last argument is its address.
pub proof fn law_extensions_page_is_shown(platform: Platform)
    ensures
        extensions_page_command(platform) is None <==> platform == Platform::Other,
        extensions_page_command(platform) matches Some(command) ==> match platform {
            Platform::MacOs => command.program == "open"@ && command.args == seq![
                "-a"@,
                "Google Chrome"@,
                "chrome://extensions"@,
            ],
            Platform::Linux => command.program == "google-chrome"@ && command.args == seq![
                "chrome://extensions"@,
            ],
            _ => command.program == "cmd"@ && command.args == seq![
                "/C"@,
                "start"@,
                "chrome"@,
                "chrome://extensions"@,
            ],
        },
{
}

/// A path below the user's directory is there exactly where that directory is known.
pub proof fn law_paths_below_home(platform: Platform, env: HostEnv, name: Seq<char>)
    ensures
        below_home(platform, env, name) == match env.home {
            Some(home) => Some(platform::path_below(platform, home@, name)),
            None => None,
        },
        hosts_dir(platform, env) is Some <==> env.home is Some && (platform == Platform::MacOs
            || platform == Platform::Linux),
        host_bin_name(Platform::Windows) == "tp-agent-browser-native-host.exe"@,
        platform != Platform::Windows ==> host_bin_name(platform)
            == "tp-agent-browser-native-host"@,
{
}

/// An event that is none of an action leaves the switch where it is.
pub proof fn law_foreign_event_changes_no_switch(
    platform: Platform,
    env: HostEnv,
    action: ConnectorActionView,
    event: ConnectorEvent,
)
    requires
        action is CopyExtension || action is CreateHostsDir || action is WriteManifest
            ==> event is Located || event is Ran,
        action is Locate ==> !(event is Located),
        action is TurnOn || action is StartDaemon || action is TurnOff ==> !(event is Ran),
    ensures
        next_action(platform, env, action, event) == action,
{
}

} // verus!
