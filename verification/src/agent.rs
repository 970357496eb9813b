//! Commands to the local `tp-agent`: reading its status, starting and stopping its daemon,
//! signing in, and the names of its releases.
//!
//! A command is a task: a list of runs of `tp-agent` that the caller performs one by one,
//! followed by the reading of the status that the last of them printed.

use vstd::prelude::*;
use vstd::string::*;

use crate::process;
use crate::process::RunOutcome;
use crate::text;
use crate::text::CharSet;

verus! {

/// What `tp-agent status --json` reports.
#[derive(Clone, Debug)]
pub struct AgentStatus {
    pub running: bool,
    pub pid: Option<u32>,
    pub lifecycle: String,
    pub enrolled: bool,
    pub active_tenant_id: Option<String>,
    pub accounts_bound: usize,
    pub accounts_enabled: usize,
    pub last_error: Option<String>,
}

/// One run of `tp-agent`.
#[derive(Debug)]
pub struct AgentCommand {
    pub args: Vec<String>,
    /// Whether the task ends where this run fails.
    pub required: bool,
}

/// The model of a run of `tp-agent`.
pub struct CommandView {
    pub args: Seq<Seq<char>>,
    pub required: bool,
}

impl View for AgentCommand {
    type V = CommandView;

    open spec fn view(&self) -> CommandView {
        CommandView { args: text::texts(self.args@), required: self.required }
    }
}

/// The models of a list of runs.
pub open spec fn commands(list: Seq<AgentCommand>) -> Seq<CommandView> {
    Seq::new(list.len(), |i: int| list[i]@)
}

/// A command to `tp-agent` at the point that it has reached: what the caller does next.
#[derive(Debug)]
pub enum AgentTask {
    /// Run `tp-agent` with `next.args` and report what came of it to `ran`.
    Run { next: AgentCommand, later: Vec<AgentCommand> },
    /// Parse this text as a status and report it to `parsed`.
    Parse(String),
    /// The command is over.
    Done(Result<AgentStatus, String>),
}

/// The model of a task.
pub enum TaskView {
    Run(Seq<CommandView>),
    Parse(Seq<char>),
    Done(Result<AgentStatus, Seq<char>>),
}

impl View for AgentTask {
    type V = TaskView;

    open spec fn view(&self) -> TaskView {
        match self {
            AgentTask::Run { next, later } => TaskView::Run(seq![next@] + commands(later@)),
            AgentTask::Parse(json) => TaskView::Parse(json@),
            AgentTask::Done(result) => TaskView::Done(text::error_text(*result)),
        }
    }
}

/// The run that prints the status.
pub open spec fn status_query() -> CommandView {
    CommandView { args: seq!["status"@, "--json"@], required: true }
}

/// A run with these arguments that must succeed.
pub open spec fn required(args: Seq<Seq<char>>) -> CommandView {
    CommandView { args, required: true }
}

/// A run with these arguments that may fail.
pub open spec fn optional(args: Seq<Seq<char>>) -> CommandView {
    CommandView { args, required: false }
}

/// Where a task stands after the first of its runs came to `outcome`.
pub open spec fn after_run(runs: Seq<CommandView>, outcome: RunOutcome) -> TaskView {
    match process::run_result(runs[0].args, outcome) {
        Ok(output) => if runs.len() > 1 {
            TaskView::Run(runs.drop_first())
        } else {
            TaskView::Parse(process::output_text(output.stdout@))
        },
        Err(error) => if runs.len() > 1 && !runs[0].required {
            TaskView::Run(runs.drop_first())
        } else {
            TaskView::Done(Err(error))
        },
    }
}

/// How a task ends with the status that was read from the printed text.
pub open spec fn after_parse(status: Result<AgentStatus, Seq<char>>) -> Result<
    AgentStatus,
    Seq<char>,
> {
    match status {
        Ok(status) => Ok(status),
        Err(error) => Err("parse status json: "@ + error),
    }
}

/// How a task ends that starts with `runs`, where its runs come to `outcomes` in turn and `parse`
/// reads a status.
pub open spec fn task_result(
    runs: Seq<CommandView>,
    outcomes: Seq<RunOutcome>,
    parse: spec_fn(Seq<char>) -> Result<AgentStatus, Seq<char>>,
) -> Result<AgentStatus, Seq<char>>
    decreases runs.len(),
{
    match after_run(runs, outcomes[0]) {
        TaskView::Run(rest) => if rest.len() < runs.len() {
            task_result(rest, outcomes.drop_first(), parse)
        } else {
            arbitrary()
        },
        TaskView::Parse(json) => after_parse(parse(json)),
        TaskView::Done(result) => result,
    }
}

impl AgentTask {
    /// Takes the task on after its next run came to `outcome`. A task that asked for no run stays
    /// as it is.
    pub fn ran(self, outcome: RunOutcome) -> (task: AgentTask)
        ensures
            task@ == match self@ {
                TaskView::Run(runs) => after_run(runs, outcome),
                other => other,
            },
            !(self is Run) ==> task == self,
    {
        let ghost before = self@;
        match self {
            AgentTask::Run { next, mut later } => {
                let ghost rest = commands(later@);
                assert(before->Run_0.drop_first() == rest);
                let result = process::run_tp_agent(&next.args, outcome);
                if later.len() == 0 {
                    match result {
                        Ok(output) => AgentTask::Parse(
                            process::trimmed_output(output.stdout.as_slice()),
                        ),
                        Err(error) => AgentTask::Done(Err(error)),
                    }
                } else {
                    match result {
                        Err(error) if next.required => AgentTask::Done(Err(error)),
                        _ => {
                            let next = later.remove(0);
                            assert(rest == seq![next@] + commands(later@));
                            AgentTask::Run { next, later }
                        },
                    }
                }
            },
            other => other,
        }
    }

    /// Ends the task with the status that was read from the text that it asked to be parsed. A
    /// task that asked for none stays as it is.
    pub fn parsed(self, status: Result<AgentStatus, String>) -> (task: AgentTask)
        ensures
            task@ == match self@ {
                TaskView::Parse(_) => TaskView::Done(after_parse(text::error_text(status))),
                other => other,
            },
            self is Parse && status is Ok ==> task == AgentTask::Done(status),
            self is Parse && status is Err ==> task is Done && task->Done_0 is Err
                && task->Done_0->Err_0@ == "parse status json: "@ + status->Err_0@,
            !(self is Parse) ==> task == self,
    {
        match self {
            AgentTask::Parse(_) => match status {
                Ok(status) => AgentTask::Done(Ok(status)),
                Err(error) => {
                    let mut message = "parse status json: ".to_owned();
                    message.append(error.as_str());
                    AgentTask::Done(Err(message))
                },
            },
            other => other,
        }
    }
}

fn query_status() -> (command: AgentCommand)
    ensures
        command@ == status_query(),
{
    let args = text::words(&["status", "--json"]);
    assert(text::texts(args@) == status_query().args);
    AgentCommand { args, required: true }
}

/// A task of one run that must succeed, followed by the status.
fn run_then_status(args: Vec<String>) -> (task: AgentTask)
    ensures
        task@ == TaskView::Run(seq![required(text::texts(args@)), status_query()]),
{
    let next = AgentCommand { args, required: true };
    let mut later: Vec<AgentCommand> = Vec::new();
    later.push(query_status());
    assert(seq![next@] + commands(later@) == seq![required(text::texts(args@)), status_query()]);
    AgentTask::Run { next, later }
}

/// Reads the status: `tp-agent status --json`, parsed.
pub fn fetch_status() -> (task: AgentTask)
    ensures
        task@ == TaskView::Run(seq![status_query()]),
{
    let next = query_status();
    let later: Vec<AgentCommand> = Vec::new();
    assert(seq![next@] + commands(later@) == seq![status_query()]);
    AgentTask::Run { next, later }
}

/// Starts the daemon, which does nothing where it runs already, and reads the status after that.
pub fn start_daemon() -> (task: AgentTask)
    ensures
        task@ == TaskView::Run(seq![required(seq!["start"@]), status_query()]),
{
    let args = text::words(&["start"]);
    assert(text::texts(args@) == seq!["start"@]);
    run_then_status(args)
}

/// Stops the daemon and reads the status after that.
pub fn stop_daemon() -> (task: AgentTask)
    ensures
        task@ == TaskView::Run(seq![required(seq!["stop"@]), status_query()]),
{
    let args = text::words(&["stop"]);
    assert(text::texts(args@) == seq!["stop"@]);
    run_then_status(args)
}

/// Restarts the daemon, so that an account that has signed in since takes effect. A failure to
/// stop it is no failure: it may not have been running.
pub fn restart_daemon() -> (task: AgentTask)
    ensures
        task@ == TaskView::Run(
            seq![optional(seq!["stop"@]), required(seq!["start"@]), status_query()],
        ),
{
    let stop = text::words(&["stop"]);
    let start = text::words(&["start"]);
    assert(text::texts(stop@) == seq!["stop"@]);
    assert(text::texts(start@) == seq!["start"@]);
    let next = AgentCommand { args: stop, required: false };
    let mut later: Vec<AgentCommand> = Vec::new();
    later.push(AgentCommand { args: start, required: true });
    later.push(query_status());
    assert(seq![next@] + commands(later@) == seq![
        optional(seq!["stop"@]),
        required(seq!["start"@]),
        status_query(),
    ]);
    AgentTask::Run { next, later }
}

/// Signs in with a key, which also enrolls the machine, and reads the status after that.
pub fn login_with_key(api_key: &str) -> (task: AgentTask)
    ensures
        task@ == TaskView::Run(
            seq![required(seq!["login"@, "--key"@, api_key@]), status_query()],
        ),
{
    let args = text::words(&["login", "--key", api_key]);
    assert(text::texts(args@) == seq!["login"@, "--key"@, api_key@]);
    run_then_status(args)
}

/// The asset of a release for an operating system and a processor architecture. Others have none.
pub open spec fn asset_for(os: Seq<char>, arch: Seq<char>) -> Option<Seq<char>> {
    if os == "macos"@ && arch == "aarch64"@ {
        Some("tp-agent-macos-arm64.tar.gz"@)
    } else if os == "macos"@ && arch == "x86_64"@ {
        Some("tp-agent-macos-x64.tar.gz"@)
    } else if os == "linux"@ && arch == "x86_64"@ {
        Some("tp-agent-linux-x64.tar.gz"@)
    } else if os == "windows"@ && arch == "x86_64"@ {
        Some("tp-agent-windows-x64.zip"@)
    } else {
        None
    }
}

/// Finds the asset of a release for an operating system and a processor architecture.
pub fn release_asset_name(os: &str, arch: &str) -> (asset: Result<&'static str, String>)
    ensures
        match asset {
            Ok(name) => asset_for(os@, arch@) == Some(name@),
            Err(message) => asset_for(os@, arch@) is None && message@
                == "no prebuilt tp-agent asset for "@ + os@ + "-"@ + arch@,
        },
{
    let x64 = text::same_text(arch, "x86_64");
    if text::same_text(os, "macos") && text::same_text(arch, "aarch64") {
        Ok("tp-agent-macos-arm64.tar.gz")
    } else if text::same_text(os, "macos") && x64 {
        Ok("tp-agent-macos-x64.tar.gz")
    } else if text::same_text(os, "linux") && x64 {
        Ok("tp-agent-linux-x64.tar.gz")
    } else if text::same_text(os, "windows") && x64 {
        Ok("tp-agent-windows-x64.zip")
    } else {
        let mut message = "no prebuilt tp-agent asset for ".to_owned();
        message.append(os);
        message.append("-");
        message.append(arch);
        Err(message)
    }
}

/// The version without white space around it and without any `v` in front of it.
pub open spec fn bare_version(version: Seq<char>) -> Seq<char> {
    text::trimmed_start(text::trimmed(version), CharSet::Only('v'))
}

/// The address of a release asset: in the release `v<version>` where a version is given, in the
/// newest release otherwise.
pub open spec fn download_url(repo: Seq<char>, version: Option<&str>, asset: Seq<char>) -> Seq<
    char,
> {
    match version {
        Some(v) => "https://github.com/"@ + repo + "/releases/download/v"@ + bare_version(v@) + "/"@
            + asset,
        None => "https://github.com/"@ + repo + "/releases/latest/download/"@ + asset,
    }
}

/// Forms the address of a release asset.
pub fn release_download_url(repo: &str, version: Option<&str>, asset: &str) -> (url: String)
    ensures
        url@ == download_url(repo@, version, asset@),
{
    let mut url = "https://github.com/".to_owned();
    url.append(repo);
    match version {
        Some(v) => {
            url.append("/releases/download/v");
            url.append(text::trim_start_set(text::trim(v), CharSet::Only('v')));
            url.append("/");
        },
        None => {
            url.append("/releases/latest/download/");
        },
    }
    url.append(asset);
    url
}

/// The address in a line `TP_AUTH_URL=<address>`. Another line, and a blank address, give none.
pub open spec fn auth_url(line: Seq<char>) -> Option<Seq<char>> {
    let url = text::trimmed(line.skip("TP_AUTH_URL="@.len() as int));
    if text::begins_with(line, "TP_AUTH_URL="@) && url.len() > 0 {
        Some(url)
    } else {
        None
    }
}

/// Finds the address of the sign-in page in a line that `tp-agent login` printed.
pub fn extract_auth_url(line: &str) -> (url: Option<String>)
    ensures
        text::opt_text(url) == auth_url(line@),
{
    match text::strip_prefix(line, "TP_AUTH_URL=") {
        Some(rest) => {
            let url = text::trim(rest);
            if url.is_empty() {
                None
            } else {
                Some(url.to_owned())
            }
        },
        None => None,
    }
}

/// A restart ends as a start does, whatever came of stopping the daemon.
pub proof fn law_restart_ends_as_start(
    stopped: RunOutcome,
    outcomes: Seq<RunOutcome>,
    parse: spec_fn(Seq<char>) -> Result<AgentStatus, Seq<char>>,
)
    ensures
        task_result(
            seq![optional(seq!["stop"@]), required(seq!["start"@]), status_query()],
            seq![stopped] + outcomes,
            parse,
        ) == task_result(seq![required(seq!["start"@]), status_query()], outcomes, parse),
{
    let restart = seq![optional(seq!["stop"@]), required(seq!["start"@]), status_query()];
    assert(restart.drop_first() == seq![required(seq!["start"@]), status_query()]);
    assert((seq![stopped] + outcomes).drop_first() == outcomes);
}

/// A command whose first run succeeds ends as a reading of the status does.
pub proof fn law_success_ends_with_the_status(
    args: Seq<Seq<char>>,
    outcomes: Seq<RunOutcome>,
    parse: spec_fn(Seq<char>) -> Result<AgentStatus, Seq<char>>,
)
    requires
        process::run_result(args, outcomes[0]) is Ok,
    ensures
        task_result(seq![required(args), status_query()], outcomes, parse) == task_result(
            seq![status_query()],
            outcomes.drop_first(),
            parse,
        ),
{
    assert(seq![required(args), status_query()].drop_first() == seq![status_query()]);
}

/// A command whose first run fails ends with the message of that run, and the status is not read.
pub proof fn law_failure_ends_the_command(
    args: Seq<Seq<char>>,
    outcomes: Seq<RunOutcome>,
    parse: spec_fn(Seq<char>) -> Result<AgentStatus, Seq<char>>,
    error: Seq<char>,
)
    requires
        process::run_result(args, outcomes[0]) == Err::<process::ProcessOutput, _>(error),
    ensures
        task_result(seq![required(args), status_query()], outcomes, parse)
            == Err::<AgentStatus, _>(error),
{
}

/// A status that was read is what the command ends with, unchanged.
pub proof fn law_parsed_status_is_the_result(status: AgentStatus)
    ensures
        after_parse(Ok(status)) == Ok::<_, Seq<char>>(status),
{
}

/// A text that is no status fails the command, with the reason behind fixed words.
pub proof fn law_unreadable_status_is_explained(reason: Seq<char>)
    ensures
        after_parse(Err(reason)) == Err::<AgentStatus, _>("parse status json: "@ + reason),
{
}

/// The last run of a command hands on what it printed, trimmed, as the status to read.
pub proof fn law_last_run_prints_the_status(run: CommandView, output: process::ProcessOutput)
    requires
        output.success,
    ensures
        after_run(seq![run], RunOutcome::Finished(output)) == TaskView::Parse(
            text::trimmed(process::lossy_utf8(output.stdout@)),
        ),
{
}

/// A run that succeeds leads to the runs behind it, and so does one that may fail, however it
/// ends.
pub proof fn law_command_goes_on_with_its_next_run(
    run: CommandView,
    later: Seq<CommandView>,
    outcome: RunOutcome,
)
    requires
        later.len() > 0,
        !run.required || (outcome is Finished && outcome->Finished_0.success),
    ensures
        after_run(seq![run] + later, outcome) == TaskView::Run(later),
{
    assert((seq![run] + later).drop_first() == later);
}

/// A run that must succeed, and the last one, end the command where they fail, with the message of
/// that failure.
pub proof fn law_failed_run_ends_the_command(
    run: CommandView,
    later: Seq<CommandView>,
    outcome: RunOutcome,
)
    requires
        run.required || later.len() == 0,
        !(outcome is Finished && outcome->Finished_0.success),
    ensures
        after_run(seq![run] + later, outcome) == TaskView::Done(
            Err(process::run_result(run.args, outcome)->Err_0),
        ),
{
}

/// A run keeps its arguments, and whether it must succeed.
pub proof fn law_runs_keep_their_arguments(args: Seq<Seq<char>>)
    ensures
        required(args).args == args && required(args).required,
        optional(args).args == args && !optional(args).required,
        status_query() == required(seq!["status"@, "--json"@]),
{
}

/// The model of a task holds everything that the task holds: each of its runs in turn, the text to
/// parse, or the result.
pub proof fn law_model_of_a_task_is_complete(task: AgentTask, i: int)
    ensures
        match task {
            AgentTask::Run { next, later } => {
                &&& task@ is Run
                &&& task@->Run_0.len() == later@.len() + 1
                &&& task@->Run_0[0].required == next.required
                &&& task@->Run_0[0].args == text::texts(next.args@)
                &&& 0 <= i < later@.len() ==> {
                    &&& task@->Run_0[i + 1].required == later@[i].required
                    &&& task@->Run_0[i + 1].args == text::texts(later@[i].args@)
                }
            },
            AgentTask::Parse(json) => task@ == TaskView::Parse(json@),
            AgentTask::Done(Ok(status)) => task@ == TaskView::Done(Ok(status)),
            AgentTask::Done(Err(error)) => task@ == TaskView::Done(Err(error@)),
        },
{
}

/// A release asset is for one system: where there is one, its name holds the system and the
/// architecture, and only the asset for Windows is a zip archive.
pub proof fn law_assets_of_the_systems(os: Seq<char>, arch: Seq<char>)
    ensures
        asset_for(os, arch) is Some <==> (arch == "x86_64"@ && (os == "macos"@ || os == "linux"@
            || os == "windows"@)) || (arch == "aarch64"@ && os == "macos"@),
        asset_for(os, arch) matches Some(asset) ==> asset == "tp-agent-"@ + os + "-"@ + (if arch
            == "aarch64"@ {
            "arm64"@
        } else {
            "x64"@
        }) + (if os == "windows"@ {
            ".zip"@
        } else {
            ".tar.gz"@
        }),
{
    reveal_strlit("windows");
    reveal_strlit("macos");
    reveal_strlit("linux");
    reveal_strlit("x86_64");
    reveal_strlit("aarch64");
    reveal_strlit("arm64");
    reveal_strlit("x64");
    reveal_strlit("-");
    reveal_strlit(".zip");
    reveal_strlit(".tar.gz");
    reveal_strlit("tp-agent-");
    reveal_strlit("tp-agent-macos-arm64.tar.gz");
    reveal_strlit("tp-agent-macos-x64.tar.gz");
    reveal_strlit("tp-agent-linux-x64.tar.gz");
    reveal_strlit("tp-agent-windows-x64.zip");
    assert("windows"@.len() == 7);
    assert("macos"@[0] != "linux"@[0]);
    assert("x86_64"@.len() == 6);
    assert("aarch64"@.len() == 7);
    assert("tp-agent-macos-arm64.tar.gz"@ == "tp-agent-"@ + "macos"@ + "-"@ + "arm64"@
        + ".tar.gz"@);
    assert("tp-agent-macos-x64.tar.gz"@ == "tp-agent-"@ + "macos"@ + "-"@ + "x64"@ + ".tar.gz"@);
    assert("tp-agent-linux-x64.tar.gz"@ == "tp-agent-"@ + "linux"@ + "-"@ + "x64"@ + ".tar.gz"@);
    assert("tp-agent-windows-x64.zip"@ == "tp-agent-"@ + "windows"@ + "-"@ + "x64"@ + ".zip"@);
}

/// What is left of a version neither begins with `v` nor has white space around it, and only such
/// characters were taken off.
pub proof fn law_bare_version_is_the_version(version: Seq<char>) -> (off: Seq<char>)
    ensures
        text::trimmed(version) == off + bare_version(version),
        text::consists_of(off, CharSet::Only('v')),
        bare_version(version).len() > 0 ==> bare_version(version)[0] != 'v',
{
    let inner = text::trimmed(version);
    text::lemma_trimmed_start(inner, CharSet::Only('v'));
    let off = inner.take(inner.len() - bare_version(version).len());
    assert(inner == off + bare_version(version));
    off
}

/// The address of an asset names the repository, the release and the asset, whatever they are.
pub proof fn law_release_address_names_its_parts(
    repo: Seq<char>,
    version: &str,
    asset: Seq<char>,
)
    ensures
        download_url(repo, None, asset) == "https://github.com/"@ + repo
            + "/releases/latest/download/"@ + asset,
        download_url(repo, Some(version), asset) == "https://github.com/"@ + repo
            + "/releases/download/v"@ + bare_version(version@) + "/"@ + asset,
{
}

/// A line gives an address exactly where it is the marker followed by something that is not blank,
/// and the address is that, trimmed.
pub proof fn law_auth_line_is_marker_and_address(line: Seq<char>, rest: Seq<char>)
    ensures
        text::trimmed(rest).len() > 0 ==> auth_url("TP_AUTH_URL="@ + rest) == Some(
            text::trimmed(rest),
        ),
        text::trimmed(rest).len() == 0 ==> auth_url("TP_AUTH_URL="@ + rest) is None,
        auth_url(line) is Some ==> exists|r: Seq<char>| line == #[trigger] ("TP_AUTH_URL="@ + r),
{
    let whole = "TP_AUTH_URL="@ + rest;
    assert(whole.skip("TP_AUTH_URL="@.len() as int) == rest);
    text::law_beginning_is_followed_by_the_rest(whole, "TP_AUTH_URL="@);
    text::law_beginning_is_followed_by_the_rest(line, "TP_AUTH_URL="@);
}

} // verus!
