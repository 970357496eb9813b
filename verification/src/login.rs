//! Signing in through a browser window: the run of `tp-agent login` that prints the address of
//! the sign-in page, the window that shows it, and how the two end together.

use vstd::prelude::*;
use vstd::string::*;

use crate::agent;
use crate::agent::AgentStatus;
use crate::platform::Platform;
use crate::process;
use crate::process::{CommandLine, CommandLineView};
use crate::text;
use crate::urls;

verus! {

/// A flag and its value where there is one, as a list.
pub open spec fn optional_flag(flag: Seq<char>, value: Option<&str>) -> Seq<Seq<char>> {
    match value {
        Some(value) => seq![flag, value@],
        None => seq![],
    }
}

/// The arguments of `tp-agent` for a sign-in that prints the address of its page. `--force` keeps
/// an account that is already bound from ending the sign-in before it begins.
pub open spec fn login_args(api_base_url: Option<&str>, web_base_url: Option<&str>) -> Seq<
    Seq<char>,
> {
    seq!["login"@, "--force"@, "--suppress-browser"@, "--print-auth-url"@] + optional_flag(
        "--api-base-url"@,
        api_base_url,
    ) + optional_flag("--web-base-url"@, web_base_url)
}

/// What the caller of a sign-in does next.
#[derive(Debug)]
pub enum LoginAction {
    /// Start `tp-agent` with these arguments.
    Spawn(Vec<String>),
    /// Read the next line of its standard output.
    ReadLine,
    /// Wait for its end.
    Wait,
    /// Read the status of `tp-agent`, which is what the sign-in ends with.
    FetchStatus,
    /// The sign-in has failed.
    Fail(String),
}

/// The model of an action.
#[verifier::ext_equal]
pub enum LoginActionView {
    Spawn(Seq<Seq<char>>),
    ReadLine,
    Wait,
    FetchStatus,
    Fail(Seq<char>),
}

impl View for LoginAction {
    type V = LoginActionView;

    open spec fn view(&self) -> LoginActionView {
        match self {
            LoginAction::Spawn(args) => LoginActionView::Spawn(text::texts(args@)),
            LoginAction::ReadLine => LoginActionView::ReadLine,
            LoginAction::Wait => LoginActionView::Wait,
            LoginAction::FetchStatus => LoginActionView::FetchStatus,
            LoginAction::Fail(reason) => LoginActionView::Fail(reason@),
        }
    }
}

/// What came of an action.
#[derive(Debug)]
pub enum LoginEvent {
    /// No executable was found.
    NotInstalled,
    /// The process could not be started, for this reason.
    SpawnFailed(String),
    /// The process runs. `captured` tells whether its standard output can be read.
    Spawned { captured: bool },
    /// It printed this line.
    Line(String),
    /// Its output could not be read, for this reason.
    ReadFailed(String),
    /// It closed its output.
    EndOfOutput,
    /// Waiting for it failed, for this reason.
    WaitFailed(String),
    /// It exited, with success or not, with this status as the system words it, and with this
    /// text on its standard error.
    Exited { success: bool, status: String, stderr: String },
}

/// A sign-in at the point that it has reached.
#[derive(Debug)]
pub struct BrowserLogin {
    /// Whether the address of the sign-in page has been handed out.
    pub url_sent: bool,
    pub action: LoginAction,
}

/// The model of a sign-in.
#[verifier::ext_equal]
pub struct LoginView {
    pub url_sent: bool,
    pub action: LoginActionView,
}

impl View for BrowserLogin {
    type V = LoginView;

    open spec fn view(&self) -> LoginView {
        LoginView { url_sent: self.url_sent, action: self.action@ }
    }
}

/// The message for a process that ended before it printed the address.
pub open spec fn no_url_error(status: Seq<char>, stderr: Seq<char>) -> Seq<char> {
    "tp-agent login 未输出授权 URL(exit "@ + status + "): "@ + text::trimmed(stderr)
}

/// The message for a process that ended without success.
pub open spec fn exit_error(status: Seq<char>, stderr: Seq<char>) -> Seq<char> {
    "tp-agent login failed (exit "@ + status + "): "@ + text::trimmed(stderr)
}

/// The action that follows the end of the process.
pub open spec fn after_exit(
    url_sent: bool,
    success: bool,
    status: Seq<char>,
    stderr: Seq<char>,
) -> LoginActionView {
    if !url_sent {
        LoginActionView::Fail(no_url_error(status, stderr))
    } else if !success {
        LoginActionView::Fail(exit_error(status, stderr))
    } else {
        LoginActionView::FetchStatus
    }
}

impl LoginView {
    /// The address that is handed out at `event`: that of the first line that holds one.
    pub open spec fn handed_out(self, event: LoginEvent) -> Option<Seq<char>> {
        match (self.action, event) {
            (LoginActionView::ReadLine, LoginEvent::Line(line)) => if self.url_sent {
                None
            } else {
                agent::auth_url(line@)
            },
            _ => None,
        }
    }

    /// Where the sign-in stands after its action came to `event`. It stays where it is where the
    /// event is none of the action.
    pub open spec fn after(self, event: LoginEvent) -> LoginView {
        let action = match (self.action, event) {
            (LoginActionView::Spawn(_), LoginEvent::NotInstalled) => LoginActionView::Fail(
                "tp-agent not installed"@,
            ),
            (LoginActionView::Spawn(_), LoginEvent::SpawnFailed(reason)) => LoginActionView::Fail(
                "spawn tp-agent login: "@ + reason@,
            ),
            (LoginActionView::Spawn(_), LoginEvent::Spawned { captured }) => if captured {
                LoginActionView::ReadLine
            } else {
                LoginActionView::Fail("failed to capture tp-agent stdout"@)
            },
            (LoginActionView::ReadLine, LoginEvent::ReadFailed(reason)) => LoginActionView::Fail(
                "read tp-agent stdout: "@ + reason@,
            ),
            (LoginActionView::ReadLine, LoginEvent::EndOfOutput) => LoginActionView::Wait,
            (LoginActionView::Wait, LoginEvent::WaitFailed(reason)) => LoginActionView::Fail(
                "wait tp-agent login: "@ + reason@,
            ),
            (LoginActionView::Wait, LoginEvent::Exited { success, status, stderr }) => after_exit(
                self.url_sent,
                success,
                status@,
                stderr@,
            ),
            (action, _) => action,
        };
        LoginView { url_sent: self.url_sent || self.handed_out(event) is Some, action }
    }
}

fn message_with(prefix: &str, reason: &str) -> (message: String)
    ensures
        message@ == prefix@ + reason@,
{
    let mut message = prefix.to_owned();
    message.append(reason);
    message
}

fn finish_login(url_sent: bool, success: bool, status: &str, stderr: &str) -> (action: LoginAction)
    ensures
        action@ == after_exit(url_sent, success, status@, stderr@),
{
    if url_sent && success {
        return LoginAction::FetchStatus;
    }
    let mut message = if url_sent {
        "tp-agent login failed (exit ".to_owned()
    } else {
        "tp-agent login 未输出授权 URL(exit ".to_owned()
    };
    message.append(status);
    message.append("): ");
    message.append(text::trim(stderr));
    LoginAction::Fail(message)
}

/// Begins a sign-in. The addresses of the cloud are those that `tp-agent` has built in where none
/// are given.
pub fn login_with_browser(api_base_url: Option<&str>, web_base_url: Option<&str>) -> (login:
    BrowserLogin)
    ensures
        login@ == (LoginView {
            url_sent: false,
            action: LoginActionView::Spawn(login_args(api_base_url, web_base_url)),
        }),
{
    let mut args = text::words(
        &["login", "--force", "--suppress-browser", "--print-auth-url"],
    );
    let ghost fixed = seq!["login"@, "--force"@, "--suppress-browser"@, "--print-auth-url"@];
    assert(text::texts(args@) == fixed);
    assert(forall|i: int| 0 <= i < args@.len() ==> (#[trigger] args@[i])@ == text::texts(args@)[i]);
    if let Some(api) = api_base_url {
        args.push("--api-base-url".to_owned());
        args.push(api.to_owned());
    }
    let ghost with_api = fixed + optional_flag("--api-base-url"@, api_base_url);
    assert(text::texts(args@) == with_api);
    assert(forall|i: int| 0 <= i < args@.len() ==> (#[trigger] args@[i])@ == text::texts(args@)[i]);
    if let Some(web) = web_base_url {
        args.push("--web-base-url".to_owned());
        args.push(web.to_owned());
    }
    assert(text::texts(args@) == login_args(api_base_url, web_base_url));
    BrowserLogin { url_sent: false, action: LoginAction::Spawn(args) }
}

impl BrowserLogin {
    /// Takes the sign-in on after its action came to `event`. Returns the address of the sign-in
    /// page where the event is the first line that holds it.
    pub fn step(&mut self, event: LoginEvent) -> (url: Option<String>)
        ensures
            final(self)@ == old(self)@.after(event),
            text::opt_text(url) == old(self)@.handed_out(event),
    {
        match (&self.action, event) {
            (LoginAction::Spawn(_), LoginEvent::NotInstalled) => {
                self.action = LoginAction::Fail("tp-agent not installed".to_owned());
                None
            },
            (LoginAction::Spawn(_), LoginEvent::SpawnFailed(reason)) => {
                self.action = LoginAction::Fail(
                    message_with("spawn tp-agent login: ", reason.as_str()),
                );
                None
            },
            (LoginAction::Spawn(_), LoginEvent::Spawned { captured }) => {
                self.action = if captured {
                    LoginAction::ReadLine
                } else {
                    LoginAction::Fail("failed to capture tp-agent stdout".to_owned())
                };
                None
            },
            (LoginAction::ReadLine, LoginEvent::Line(line)) => {
                if self.url_sent {
                    None
                } else {
                    let url = agent::extract_auth_url(line.as_str());
                    self.url_sent = url.is_some();
                    url
                }
            },
            (LoginAction::ReadLine, LoginEvent::ReadFailed(reason)) => {
                self.action = LoginAction::Fail(
                    message_with("read tp-agent stdout: ", reason.as_str()),
                );
                None
            },
            (LoginAction::ReadLine, LoginEvent::EndOfOutput) => {
                self.action = LoginAction::Wait;
                None
            },
            (LoginAction::Wait, LoginEvent::WaitFailed(reason)) => {
                self.action = LoginAction::Fail(
                    message_with("wait tp-agent login: ", reason.as_str()),
                );
                None
            },
            (LoginAction::Wait, LoginEvent::Exited { success, status, stderr }) => {
                self.action = finish_login(
                    self.url_sent,
                    success,
                    status.as_str(),
                    stderr.as_str(),
                );
                None
            },
            _ => None,
        }
    }
}

/// The addresses that a sign-in hands out at these events in turn.
pub open spec fn all_handed_out(login: LoginView, events: Seq<LoginEvent>) -> Seq<Seq<char>>
    decreases events.len(),
{
    if events.len() == 0 {
        seq![]
    } else {
        let later = all_handed_out(login.after(events[0]), events.drop_first());
        match login.handed_out(events[0]) {
            Some(url) => seq![url] + later,
            None => later,
        }
    }
}

/// Where a sign-in stands after these events in turn.
pub open spec fn after_all(login: LoginView, events: Seq<LoginEvent>) -> LoginView
    decreases events.len(),
{
    if events.len() == 0 {
        login
    } else {
        after_all(login.after(events[0]), events.drop_first())
    }
}

/// The address of the sign-in page is handed out at most once, whatever `tp-agent` prints.
pub proof fn law_url_is_handed_out_once(login: LoginView, events: Seq<LoginEvent>)
    ensures
        all_handed_out(login, events).len() <= (if login.url_sent {
            0int
        } else {
            1
        }),
        after_all(login, events).url_sent == (login.url_sent || all_handed_out(login, events).len()
            > 0),
    decreases events.len(),
{
    if events.len() > 0 {
        law_url_is_handed_out_once(login.after(events[0]), events.drop_first());
    }
}

/// A sign-in reads the status only after it has handed out the address of its page and the
/// process has ended with success.
pub proof fn law_status_follows_a_completed_login(login: LoginView, event: LoginEvent)
    requires
        login.after(event).action is FetchStatus,
    ensures
        login.action is FetchStatus || (login.action is Wait && login.url_sent && event is Exited
            && event->success),
{
}

/// The label of the window that shows the sign-in page.
pub const AUTH_WINDOW_LABEL: &'static str = "agent-auth";

/// The title of the window that shows the sign-in page.
pub const AUTH_WINDOW_TITLE: &'static str = "Talon Pilot — 登录授权";

/// The width of the window that shows the sign-in page.
pub const AUTH_WINDOW_WIDTH: u32 = 480;

/// The height of the window that shows the sign-in page.
pub const AUTH_WINDOW_HEIGHT: u32 = 720;

/// The address that the sign-in window is opened with, or why it cannot be opened, given what
/// the text was parsed to.
pub open spec fn window_target(parsed: Result<urls::UrlView, Seq<char>>) -> Result<
    Seq<char>,
    Seq<char>,
> {
    match parsed {
        Ok(url) => Ok(url.whole),
        Err(reason) => Err("invalid auth url from tp-agent: "@ + reason),
    }
}

/// Judges an address of a sign-in page that was parsed.
pub fn target_of(parsed: Result<urls::UrlParts, String>) -> (target: Result<String, String>)
    ensures
        text::result_text(target) == window_target(urls::url_view(parsed)),
{
    match parsed {
        Ok(url) => Ok(url.whole),
        Err(reason) => Err(message_with("invalid auth url from tp-agent: ", reason.as_str())),
    }
}

/// Finds the address that the sign-in window is opened with.
pub fn auth_window_target(url: &str) -> (target: Result<String, String>)
    ensures
        text::result_text(target) == window_target(urls::parsed_url(url@)),
{
    target_of(urls::parse_url(url))
}

/// Words the message for a sign-in window that could not be opened.
pub fn auth_window_error(reason: &str) -> (message: String)
    ensures
        message@ == "open auth window: "@ + reason@,
{
    message_with("open auth window: ", reason)
}

/// How a sign-in ends: with the failure of the task that ran it, else with that of its window,
/// else as the task did.
pub open spec fn login_result(
    joined: Result<Result<AgentStatus, String>, String>,
    window_error: Option<Seq<char>>,
) -> Result<AgentStatus, Seq<char>> {
    match (joined, window_error) {
        (Err(reason), _) => Err("login task join: "@ + reason@),
        (Ok(_), Some(error)) => Err(error),
        (Ok(result), None) => text::error_text(result),
    }
}

/// Ends a sign-in. `joined` is what became of the task that ran it, which is waited for even where
/// the window could not be opened: its process would go on otherwise.
pub fn finish_browser_login(
    joined: Result<Result<AgentStatus, String>, String>,
    window_error: Option<String>,
) -> (result: Result<AgentStatus, String>)
    ensures
        text::error_text(result) == login_result(joined, text::opt_text(window_error)),
{
    match joined {
        Err(reason) => Err(message_with("login task join: ", reason.as_str())),
        Ok(result) => match window_error {
            Some(error) => Err(error),
            None => result,
        },
    }
}

/// What the caller of a sign-in with its window does next.
#[derive(Debug)]
pub enum FlowAction {
    /// Wait for the address of the sign-in page.
    AwaitUrl,
    /// Open the sign-in window with this address.
    OpenWindow(String),
    /// Wait for the end of the task that runs the sign-in.
    AwaitTask,
    /// Forget the process of the sign-in and close its window: it is over, with this result.
    Finish(Result<AgentStatus, String>),
}

/// The model of an action.
#[verifier::ext_equal]
pub enum FlowActionView {
    AwaitUrl,
    OpenWindow(Seq<char>),
    AwaitTask,
    Finish(Result<AgentStatus, Seq<char>>),
}

impl View for FlowAction {
    type V = FlowActionView;

    open spec fn view(&self) -> FlowActionView {
        match self {
            FlowAction::AwaitUrl => FlowActionView::AwaitUrl,
            FlowAction::OpenWindow(url) => FlowActionView::OpenWindow(url@),
            FlowAction::AwaitTask => FlowActionView::AwaitTask,
            FlowAction::Finish(result) => FlowActionView::Finish(text::error_text(*result)),
        }
    }
}

/// What came of an action.
#[derive(Debug)]
pub enum FlowEvent {
    /// The address of the sign-in page is this.
    Url(String),
    /// The task ended without one.
    NoUrl,
    WindowOpened,
    /// The window could not be opened, for this reason.
    WindowFailed(String),
    /// The task ended, with this result.
    Joined(Result<AgentStatus, String>),
    /// The task broke down, for this reason.
    JoinFailed(String),
}

/// A sign-in with its window at the point that it has reached.
#[derive(Debug)]
pub struct LoginFlow {
    /// Why the window could not be opened.
    pub window_error: Option<String>,
    pub action: FlowAction,
}

/// The model of a sign-in with its window.
#[verifier::ext_equal]
pub struct FlowView {
    pub window_error: Option<Seq<char>>,
    pub action: FlowActionView,
}

impl View for LoginFlow {
    type V = FlowView;

    open spec fn view(&self) -> FlowView {
        FlowView { window_error: text::opt_text(self.window_error), action: self.action@ }
    }
}

/// Where a sign-in stands after what its address was parsed to. An address that is none does not
/// end it: its task is still waited for.
pub open spec fn after_url(flow: FlowView, target: Result<Seq<char>, Seq<char>>) -> FlowView {
    match target {
        Ok(url) => FlowView { action: FlowActionView::OpenWindow(url), ..flow },
        Err(reason) => FlowView {
            window_error: Some(reason),
            action: FlowActionView::AwaitTask,
        },
    }
}

impl FlowView {
    /// Where the sign-in stands after its action came to `event`. It stays where it is where the
    /// event is none of the action.
    pub open spec fn after(self, event: FlowEvent) -> FlowView {
        match (self.action, event) {
            (FlowActionView::AwaitUrl, FlowEvent::Url(url)) => after_url(
                self,
                window_target(urls::parsed_url(url@)),
            ),
            (FlowActionView::AwaitUrl, FlowEvent::NoUrl) => FlowView {
                action: FlowActionView::AwaitTask,
                ..self
            },
            (FlowActionView::OpenWindow(_), FlowEvent::WindowOpened) => FlowView {
                action: FlowActionView::AwaitTask,
                ..self
            },
            (FlowActionView::OpenWindow(_), FlowEvent::WindowFailed(reason)) => FlowView {
                window_error: Some("open auth window: "@ + reason@),
                action: FlowActionView::AwaitTask,
            },
            (FlowActionView::AwaitTask, FlowEvent::Joined(result)) => FlowView {
                action: FlowActionView::Finish(login_result(Ok(result), self.window_error)),
                ..self
            },
            (FlowActionView::AwaitTask, FlowEvent::JoinFailed(reason)) => FlowView {
                action: FlowActionView::Finish(login_result(Err(reason), self.window_error)),
                ..self
            },
            _ => self,
        }
    }
}

/// Takes a sign-in on with what the address of its page was parsed to.
pub fn flow_after_url(flow: LoginFlow, target: Result<String, String>) -> (next: LoginFlow)
    ensures
        next@ == after_url(flow@, text::result_text(target)),
{
    match target {
        Ok(url) => LoginFlow { action: FlowAction::OpenWindow(url), ..flow },
        Err(reason) => LoginFlow {
            window_error: Some(reason),
            action: FlowAction::AwaitTask,
        },
    }
}

impl LoginFlow {
    /// A sign-in whose task has just been started.
    pub fn new() -> (flow: LoginFlow)
        ensures
            flow@ == (FlowView { window_error: None, action: FlowActionView::AwaitUrl }),
    {
        LoginFlow { window_error: None, action: FlowAction::AwaitUrl }
    }

    /// Takes the sign-in on after its action came to `event`.
    pub fn step(self, event: FlowEvent) -> (next: LoginFlow)
        ensures
            next@ == self@.after(event),
    {
        match (&self.action, event) {
            (FlowAction::AwaitUrl, FlowEvent::Url(url)) => {
                let target = auth_window_target(url.as_str());
                flow_after_url(self, target)
            },
            (FlowAction::AwaitUrl, FlowEvent::NoUrl) => LoginFlow {
                action: FlowAction::AwaitTask,
                ..self
            },
            (FlowAction::OpenWindow(_), FlowEvent::WindowOpened) => LoginFlow {
                action: FlowAction::AwaitTask,
                ..self
            },
            (FlowAction::OpenWindow(_), FlowEvent::WindowFailed(reason)) => LoginFlow {
                window_error: Some(auth_window_error(reason.as_str())),
                action: FlowAction::AwaitTask,
            },
            (FlowAction::AwaitTask, FlowEvent::Joined(result)) => {
                let window_error = self.window_error.clone();
                LoginFlow {
                    action: FlowAction::Finish(finish_browser_login(Ok(result), window_error)),
                    ..self
                }
            },
            (FlowAction::AwaitTask, FlowEvent::JoinFailed(reason)) => {
                let window_error = self.window_error.clone();
                LoginFlow {
                    action: FlowAction::Finish(finish_browser_login(Err(reason), window_error)),
                    ..self
                }
            },
            _ => self,
        }
    }
}

/// A sign-in ends only after the task that runs it has, whatever became of its window.
pub proof fn law_login_waits_for_its_task(flow: FlowView, event: FlowEvent)
    requires
        !(flow.action is Finish),
        flow.after(event).action is Finish,
    ensures
        flow.action is AwaitTask,
        event is Joined || event is JoinFailed,
{
}

/// A window that could not be opened decides how the sign-in ends, where its task ended.
pub proof fn law_window_error_is_reported(
    flow: FlowView,
    error: Seq<char>,
    result: Result<AgentStatus, String>,
)
    requires
        flow.action is AwaitTask,
        flow.window_error == Some(error),
    ensures
        flow.after(FlowEvent::Joined(result)).action == FlowActionView::Finish(Err(error)),
{
}

/// The process of the sign-in that is going on. There is one at most.
#[derive(Debug)]
pub struct LoginRegistry {
    pub pid: Option<u32>,
}

impl LoginRegistry {
    /// No sign-in is going on.
    pub fn new() -> (registry: LoginRegistry)
        ensures
            registry.pid is None,
    {
        LoginRegistry { pid: None }
    }

    /// Remembers the process of a sign-in.
    pub fn register(&mut self, pid: u32)
        ensures
            final(self).pid == Some(pid),
    {
        self.pid = Some(pid);
    }

    /// Forgets the process after its end, so that another that gets its number is left alone.
    pub fn clear(&mut self)
        ensures
            final(self).pid is None,
    {
        self.pid = None;
    }

    /// The command that cancels the sign-in by ending its process, where one is going on.
    pub fn cancel(&self, platform: Platform) -> (command: Option<CommandLine>)
        ensures
            match command {
                Some(command) => self.pid is Some && command@ == kill_command(
                    platform,
                    self.pid->0,
                ),
                None => self.pid is None,
            },
    {
        match self.pid {
            Some(pid) => Some(kill_pid(platform, pid)),
            None => None,
        }
    }
}

/// The command that ends a process; on Windows with those that it has started.
pub open spec fn kill_command(platform: Platform, pid: u32) -> CommandLineView {
    if platform == Platform::Windows {
        CommandLineView {
            program: "taskkill"@,
            args: seq!["/PID"@, text::decimal(pid as nat), "/T"@, "/F"@],
        }
    } else {
        CommandLineView { program: "kill"@, args: seq![text::decimal(pid as nat)] }
    }
}

/// Forms the command that ends a process.
pub fn kill_pid(platform: Platform, pid: u32) -> (command: CommandLine)
    ensures
        command@ == kill_command(platform, pid),
{
    let number = text::decimal_text(pid as u64);
    let command = if matches!(platform, Platform::Windows) {
        process::command_line("taskkill", &["/PID", number.as_str(), "/T", "/F"])
    } else {
        process::command_line("kill", &[number.as_str()])
    };
    assert(command@.args == kill_command(platform, pid).args);
    command
}

/// Whether the list holds `flag` directly followed by `value`.
pub open spec fn holds_pair(args: Seq<Seq<char>>, flag: Seq<char>, value: Seq<char>) -> bool {
    exists|i: int|
        0 <= i && i + 1 < args.len() && #[trigger] args[i] == flag && args[i + 1] == value
}

/// Every address that is given stands in the arguments directly behind its flag, whether or not
/// the other one is given.
pub proof fn law_login_passes_on_every_address(
    api_base_url: Option<&str>,
    web_base_url: Option<&str>,
)
    ensures
        api_base_url matches Some(api) ==> holds_pair(
            login_args(api_base_url, web_base_url),
            "--api-base-url"@,
            api@,
        ),
        web_base_url matches Some(web) ==> holds_pair(
            login_args(api_base_url, web_base_url),
            "--web-base-url"@,
            web@,
        ),
{
    let args = login_args(api_base_url, web_base_url);
    if let Some(api) = api_base_url {
        assert(args[4] == "--api-base-url"@ && args[5] == api@);
    }
    if let Some(web) = web_base_url {
        let i: int = if api_base_url is Some {
            6
        } else {
            4
        };
        assert(args[i] == "--web-base-url"@ && args[i + 1] == web@);
    }
}

/// A flag for an address that is not given is not among the arguments, unless the other address
/// reads like it.
pub proof fn law_login_has_no_flag_without_address(
    api_base_url: Option<&str>,
    web_base_url: Option<&str>,
    i: int,
)
    requires
        0 <= i < login_args(api_base_url, web_base_url).len(),
    ensures
        ({
            let args = login_args(api_base_url, web_base_url);
            &&& api_base_url is None && args[i] == "--api-base-url"@ ==> web_base_url is Some
                && web_base_url->0@ == "--api-base-url"@
            &&& web_base_url is None && args[i] == "--web-base-url"@ ==> api_base_url is Some
                && api_base_url->0@ == "--web-base-url"@
        }),
{
    reveal_strlit("login");
    reveal_strlit("--force");
    reveal_strlit("--suppress-browser");
    reveal_strlit("--print-auth-url");
    reveal_strlit("--api-base-url");
    reveal_strlit("--web-base-url");
    assert("login"@.len() == 5);
    assert("--force"@.len() == 7);
    assert("--suppress-browser"@.len() == 18);
    assert("--print-auth-url"@.len() == 16);
    assert("--api-base-url"@.len() == 14);
    assert("--web-base-url"@.len() == 14);
    assert("--api-base-url"@[2] != "--web-base-url"@[2]);
}

/// The arguments are those that make `tp-agent` print the address and leave the browser alone, and
/// behind them the given addresses with their flags, the API first, and nothing else.
pub proof fn law_login_arguments_in_order(api: &str, web: &str)
    ensures
        login_args(None, None) == seq![
            "login"@,
            "--force"@,
            "--suppress-browser"@,
            "--print-auth-url"@,
        ],
        login_args(Some(api), None) == login_args(None, None) + seq!["--api-base-url"@, api@],
        login_args(None, Some(web)) == login_args(None, None) + seq!["--web-base-url"@, web@],
        login_args(Some(api), Some(web)) == login_args(Some(api), None) + seq![
            "--web-base-url"@,
            web@,
        ],
{
    assert(login_args(None, None) == seq![
        "login"@,
        "--force"@,
        "--suppress-browser"@,
        "--print-auth-url"@,
    ]);
    assert(login_args(Some(api), None) == login_args(None, None) + seq!["--api-base-url"@, api@]);
    assert(login_args(None, Some(web)) == login_args(None, None) + seq!["--web-base-url"@, web@]);
}

/// A process that cannot be started, or whose output cannot be read, fails the sign-in, and the
/// message says what went wrong. One that runs is read line by line.
pub proof fn law_start_of_a_login(login: LoginView, reason: String)
    requires
        login.action is Spawn,
    ensures
        login.after(LoginEvent::NotInstalled).action == LoginActionView::Fail(
            "tp-agent not installed"@,
        ),
        login.after(LoginEvent::SpawnFailed(reason)).action == LoginActionView::Fail(
            "spawn tp-agent login: "@ + reason@,
        ),
        login.after(LoginEvent::Spawned { captured: false }).action == LoginActionView::Fail(
            "failed to capture tp-agent stdout"@,
        ),
        login.after(LoginEvent::Spawned { captured: true }).action == LoginActionView::ReadLine,
{
}

/// Lines are read until the process closes its output, and it is waited for after that, whether
/// or not it printed an address. Output that cannot be read fails the sign-in.
pub proof fn law_output_is_read_to_its_end(login: LoginView, line: String, reason: String)
    requires
        login.action is ReadLine,
    ensures
        login.after(LoginEvent::Line(line)).action == LoginActionView::ReadLine,
        login.after(LoginEvent::EndOfOutput).action == LoginActionView::Wait,
        login.after(LoginEvent::ReadFailed(reason)).action == LoginActionView::Fail(
            "read tp-agent stdout: "@ + reason@,
        ),
{
}

/// The first line that holds an address has it handed out, trimmed, and no later line does.
pub proof fn law_first_address_is_handed_out(login: LoginView, rest: Seq<char>, line: String)
    requires
        login.action is ReadLine,
        line@ == "TP_AUTH_URL="@ + rest,
        text::trimmed(rest).len() > 0,
    ensures
        !login.url_sent ==> login.handed_out(LoginEvent::Line(line)) == Some(text::trimmed(rest)),
        login.url_sent ==> login.handed_out(LoginEvent::Line(line)) is None,
        login.after(LoginEvent::Line(line)).url_sent,
{
    agent::law_auth_line_is_marker_and_address(line@, rest);
}

/// Nothing but a line that holds an address has one handed out, and what was handed out stays so.
pub proof fn law_only_lines_hand_out_an_address(login: LoginView, event: LoginEvent)
    ensures
        login.handed_out(event) is Some ==> login.action is ReadLine && !login.url_sent
            && event is Line && agent::auth_url(event->Line_0@) == login.handed_out(event),
        login.url_sent ==> login.after(event).url_sent,
        login.after(event).url_sent && !login.url_sent ==> login.handed_out(event) is Some,
{
}

/// The end of the process ends the sign-in: with the reading of the status where the process
/// succeeded after it had printed the address, with a message that holds its status and what it
/// wrote to its standard error otherwise.
pub proof fn law_end_of_a_login(
    login: LoginView,
    success: bool,
    status: String,
    stderr: String,
    reason: String,
)
    requires
        login.action is Wait,
    ensures
        login.url_sent && success ==> login.after(
            LoginEvent::Exited { success, status, stderr },
        ).action == LoginActionView::FetchStatus,
        login.url_sent && !success ==> login.after(
            LoginEvent::Exited { success, status, stderr },
        ).action == LoginActionView::Fail(
            "tp-agent login failed (exit "@ + status@ + "): "@ + text::trimmed(stderr@),
        ),
        !login.url_sent ==> login.after(LoginEvent::Exited { success, status, stderr }).action
            == LoginActionView::Fail(
            "tp-agent login 未输出授权 URL(exit "@ + status@ + "): "@ + text::trimmed(stderr@),
        ),
        login.after(LoginEvent::WaitFailed(reason)).action == LoginActionView::Fail(
            "wait tp-agent login: "@ + reason@,
        ),
{
}

/// A sign-in that has failed, or that reads the status, is over.
pub proof fn law_login_ends_for_good(login: LoginView, event: LoginEvent)
    requires
        login.action is FetchStatus || login.action is Fail,
    ensures
        login.after(event) == login,
{
}

/// The model of a sign-in holds what the sign-in holds.
pub proof fn law_model_of_a_login_is_complete(login: BrowserLogin)
    ensures
        login@.url_sent == login.url_sent,
        match login.action {
            LoginAction::Spawn(args) => login@.action == LoginActionView::Spawn(
                text::texts(args@),
            ),
            LoginAction::ReadLine => login@.action == LoginActionView::ReadLine,
            LoginAction::Wait => login@.action == LoginActionView::Wait,
            LoginAction::FetchStatus => login@.action == LoginActionView::FetchStatus,
            LoginAction::Fail(reason) => login@.action == LoginActionView::Fail(reason@),
        },
{
}

/// The window is opened with the very address that the text was parsed to, and a text that is no
/// address is reported with the reason.
pub proof fn law_window_shows_the_parsed_address(url: urls::UrlView, reason: Seq<char>)
    ensures
        window_target(Ok(url)) == Ok::<_, Seq<char>>(url.whole),
        window_target(Err(reason)) == Err::<Seq<char>, _>(
            "invalid auth url from tp-agent: "@ + reason,
        ),
{
}

/// The address of the sign-in page leads to its window. One that is none is remembered as the
/// failure of the window, and the task is waited for.
pub proof fn law_address_leads_to_the_window(flow: FlowView, url: String)
    requires
        flow.action is AwaitUrl,
    ensures
        match urls::parsed_url(url@) {
            Ok(parsed) => flow.after(FlowEvent::Url(url)) == (FlowView {
                window_error: flow.window_error,
                action: FlowActionView::OpenWindow(parsed.whole),
            }),
            Err(reason) => flow.after(FlowEvent::Url(url)) == (FlowView {
                window_error: Some("invalid auth url from tp-agent: "@ + reason),
                action: FlowActionView::AwaitTask,
            }),
        },
        flow.after(FlowEvent::NoUrl) == (FlowView {
            window_error: flow.window_error,
            action: FlowActionView::AwaitTask,
        }),
{
}

/// Whatever becomes of the window, the task is waited for after it, and a failure of the window is
/// remembered with its reason.
pub proof fn law_task_is_waited_for_after_the_window(flow: FlowView, reason: String)
    requires
        flow.action is OpenWindow,
    ensures
        flow.after(FlowEvent::WindowOpened) == (FlowView {
            window_error: flow.window_error,
            action: FlowActionView::AwaitTask,
        }),
        flow.after(FlowEvent::WindowFailed(reason)) == (FlowView {
            window_error: Some("open auth window: "@ + reason@),
            action: FlowActionView::AwaitTask,
        }),
{
}

/// A sign-in whose window was opened ends as its task does, with the very status or message, and
/// a task that broke down is reported whatever became of the window.
pub proof fn law_login_ends_as_its_task(
    flow: FlowView,
    status: AgentStatus,
    message: String,
    reason: String,
)
    requires
        flow.action is AwaitTask,
    ensures
        flow.window_error is None ==> flow.after(FlowEvent::Joined(Ok(status))).action
            == FlowActionView::Finish(Ok(status)),
        flow.window_error is None ==> flow.after(FlowEvent::Joined(Err(message))).action
            == FlowActionView::Finish(Err(message@)),
        flow.after(FlowEvent::JoinFailed(reason)).action == FlowActionView::Finish(
            Err("login task join: "@ + reason@),
        ),
{
}

/// A sign-in with its window that is over stays as it is.
pub proof fn law_flow_ends_for_good(flow: FlowView, event: FlowEvent)
    requires
        flow.action is Finish,
    ensures
        flow.after(event) == flow,
{
}

/// The model of a sign-in with its window holds what the sign-in holds.
pub proof fn law_model_of_a_flow_is_complete(flow: LoginFlow)
    ensures
        match flow.window_error {
            Some(error) => flow@.window_error == Some(error@),
            None => flow@.window_error is None,
        },
        match flow.action {
            FlowAction::AwaitUrl => flow@.action == FlowActionView::AwaitUrl,
            FlowAction::OpenWindow(url) => flow@.action == FlowActionView::OpenWindow(url@),
            FlowAction::AwaitTask => flow@.action == FlowActionView::AwaitTask,
            FlowAction::Finish(Ok(status)) => flow@.action == FlowActionView::Finish(Ok(status)),
            FlowAction::Finish(Err(error)) => flow@.action == FlowActionView::Finish(Err(error@)),
        },
{
}

/// The command that ends a process names that process by its number, and on Windows it is made to
/// end those that it has started as well.
pub proof fn law_cancel_ends_the_process(platform: Platform, pid: u32)
    ensures
        platform == Platform::Windows ==> kill_command(platform, pid) == (CommandLineView {
            program: "taskkill"@,
            args: seq!["/PID"@, text::decimal(pid as nat), "/T"@, "/F"@],
        }),
        platform != Platform::Windows ==> kill_command(platform, pid) == (CommandLineView {
            program: "kill"@,
            args: seq![text::decimal(pid as nat)],
        }),
{
}

/// Two processes are never ended by the same command.
pub proof fn law_each_process_has_its_command(platform: Platform, pid: u32, other: u32)
    requires
        pid != other,
    ensures
        kill_command(platform, pid) != kill_command(platform, other),
{
    text::law_decimal_is_read_back(pid as nat);
    text::law_decimal_is_read_back(other as nat);
    let i: int = if platform == Platform::Windows {
        1
    } else {
        0
    };
    assert(kill_command(platform, pid).args[i] != kill_command(platform, other).args[i]);
}

/// An event that is none of an action leaves a sign-in where it is, and hands nothing out.
pub proof fn law_foreign_event_changes_no_login(login: LoginView, event: LoginEvent)
    requires
        login.action is Spawn ==> !(event is NotInstalled || event is SpawnFailed || event
            is Spawned),
        login.action is ReadLine ==> !(event is Line || event is ReadFailed || event
            is EndOfOutput),
        login.action is Wait ==> !(event is WaitFailed || event is Exited),
    ensures
        login.after(event) == login,
        login.handed_out(event) is None,
{
}

/// An event that is none of an action leaves a sign-in with its window where it is.
pub proof fn law_foreign_event_changes_no_flow(flow: FlowView, event: FlowEvent)
    requires
        flow.action is AwaitUrl ==> !(event is Url || event is NoUrl),
        flow.action is OpenWindow ==> !(event is WindowOpened || event is WindowFailed),
        flow.action is AwaitTask ==> !(event is Joined || event is JoinFailed),
    ensures
        flow.after(event) == flow,
{
}

} // verus!
