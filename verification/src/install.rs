//! Installing `tp-agent`: what is downloaded from where, how its progress is reported, and which
//! of the directories receives the executable.
//!
//! An installation is a task. The caller performs the action that the task stands at and reports
//! what came of it to `step`, until the task is done.

use vstd::prelude::*;
use vstd::string::*;

use crate::agent;
use crate::archive;
use crate::archive::{Extraction, ExtractionView};
use crate::locate;
use crate::platform;
use crate::platform::{join_path, HostEnv, Platform};
use crate::process;
use crate::process::{CommandLine, CommandLineView};
use crate::text;

verus! {

/// The repository whose releases hold the executable.
pub const RELEASE_REPO: &'static str = "darkmice/talon-pilot-client";

/// The number of seconds within which the server must be reached.
pub const CONNECT_TIMEOUT_SECS: u64 = 15;

/// The number of seconds within which a download must end.
pub const DOWNLOAD_TIMEOUT_SECS: u64 = 600;

/// The most bytes that are set aside for a download before any of it has arrived.
pub const MAX_PREALLOCATED: u64 = 0x400_0000;

/// The fewest bytes between two reports of a download's progress.
pub const REPORT_INTERVAL: u64 = 0x4_0000;

/// Why a download failed.
#[derive(Debug)]
pub enum DownloadFailure {
    /// No client could be made.
    Init(String),
    /// The request failed or was refused.
    Request(String),
    /// The answer broke off.
    Interrupted(String),
}

/// The message for a download of `url` that failed.
pub open spec fn download_error(url: Seq<char>, failure: DownloadFailure) -> Seq<char> {
    match failure {
        DownloadFailure::Init(reason) => "init http client: "@ + reason@,
        DownloadFailure::Request(reason) => "下载 "@ + url + " 失败: "@ + reason@,
        DownloadFailure::Interrupted(reason) => "下载 "@ + url + " 中断: "@ + reason@,
    }
}

/// Words the message for a download that failed.
pub fn download_message(url: &str, failure: &DownloadFailure) -> (message: String)
    ensures
        message@ == download_error(url@, *failure),
{
    match failure {
        DownloadFailure::Init(reason) => {
            let mut message = "init http client: ".to_owned();
            message.append(reason.as_str());
            message
        },
        DownloadFailure::Request(reason) => {
            let mut message = "下载 ".to_owned();
            message.append(url);
            message.append(" 失败: ");
            message.append(reason.as_str());
            message
        },
        DownloadFailure::Interrupted(reason) => {
            let mut message = "下载 ".to_owned();
            message.append(url);
            message.append(" 中断: ");
            message.append(reason.as_str());
            message
        },
    }
}

/// How much of a download has arrived.
#[derive(Clone, Copy, Debug, PartialEq, Eq, Structural)]
pub struct DownloadReport {
    pub downloaded: u64,
    /// The length of the whole, where the server gave it.
    pub total: Option<u64>,
}

/// The bytes of a download as they arrive.
#[derive(Debug)]
pub struct Download {
    pub bytes: Vec<u8>,
    pub total: Option<u64>,
}

/// The number of bytes that are set aside for a download of `total` bytes. A length that a server
/// gives is not trusted beyond `MAX_PREALLOCATED`.
pub fn preallocated(total: Option<u64>) -> (bytes: usize)
    ensures
        bytes == match total {
            Some(n) => if n < MAX_PREALLOCATED {
                n
            } else {
                MAX_PREALLOCATED
            },
            None => 0,
        },
        total is Some && total->0 <= 0x400_0000 ==> bytes == total->0,
        total is Some && total->0 >= 0x400_0000 ==> bytes == 0x400_0000,
{
    match total {
        Some(n) => if n < MAX_PREALLOCATED {
            n as usize
        } else {
            MAX_PREALLOCATED as usize
        },
        None => 0,
    }
}

impl Download {
    /// A download of which nothing has arrived.
    pub fn new(total: Option<u64>) -> (download: Download)
        ensures
            download.bytes@.len() == 0,
            download.total == total,
    {
        Download { bytes: Vec::with_capacity(preallocated(total)), total }
    }

    /// Adds a chunk that has arrived and reports how far the download has come.
    pub fn chunk(&mut self, data: &[u8]) -> (report: DownloadReport)
        ensures
            final(self).bytes@ == old(self).bytes@ + data@,
            final(self).total == old(self).total,
            report.downloaded == final(self).bytes@.len(),
            report.total == final(self).total,
    {
        self.bytes.extend_from_slice(data);
        DownloadReport { downloaded: self.bytes.len() as u64, total: self.total }
    }
}

/// Whether a report is passed on where `last` bytes were reported before: at intervals, and when
/// the whole has arrived.
pub open spec fn is_due(last: int, report: DownloadReport) -> bool {
    report.downloaded - last >= REPORT_INTERVAL || report.total == Some(report.downloaded)
}

/// The reports of a download that are passed on to the page.
#[derive(Debug)]
pub struct ReportThrottle {
    /// The number of bytes in the last report that was passed on.
    pub last: u64,
}

impl ReportThrottle {
    /// Nothing has been passed on.
    pub fn new() -> (throttle: ReportThrottle)
        ensures
            throttle.last == 0,
    {
        ReportThrottle { last: 0 }
    }

    /// Tells whether a report is passed on, and remembers it where it is. What has arrived and is
    /// not passed on stays below the interval.
    pub fn passes(&mut self, report: DownloadReport) -> (due: bool)
        requires
            old(self).last <= report.downloaded,
        ensures
            due == is_due(old(self).last as int, report),
            final(self).last == if due {
                report.downloaded
            } else {
                old(self).last
            },
            report.downloaded - final(self).last < REPORT_INTERVAL,
            due <==> report.downloaded - old(self).last >= 0x4_0000 || report.total == Some(
                report.downloaded,
            ),
    {
        let whole = match report.total {
            Some(total) => total == report.downloaded,
            None => false,
        };
        if report.downloaded - self.last < REPORT_INTERVAL && !whole {
            return false;
        }
        self.last = report.downloaded;
        true
    }
}

/// The number of reports that are passed on where `last` bytes were reported before and the
/// download then comes to `counts` bytes in turn.
pub open spec fn passed_on(last: int, counts: Seq<u64>, total: Option<u64>) -> nat
    decreases counts.len(),
{
    if counts.len() == 0 {
        0
    } else {
        let report = DownloadReport { downloaded: counts[0], total };
        if is_due(last, report) {
            1 + passed_on(counts[0] as int, counts.drop_first(), total)
        } else {
            passed_on(last, counts.drop_first(), total)
        }
    }
}

/// Whether a download grows with every chunk.
pub open spec fn grows(last: int, counts: Seq<u64>) -> bool {
    &&& counts.len() > 0 ==> last < counts[0]
    &&& forall|i: int, j: int| 0 <= i < j < counts.len() ==> counts[i] < counts[j]
}

proof fn lemma_passed_on(last: int, counts: Seq<u64>, total: Option<u64>)
    requires
        0 <= last,
        grows(last, counts),
    ensures
        counts.len() > 0 ==> {
            let reports = passed_on(last, counts, total);
            ||| last + reports * REPORT_INTERVAL <= counts.last()
            ||| total is Some && last < total->0 <= counts.last() && last + (reports - 1)
                * REPORT_INTERVAL <= counts.last()
        },
    decreases counts.len(),
{
    if counts.len() > 0 {
        let rest = counts.drop_first();
        let report = DownloadReport { downloaded: counts[0], total };
        let next: int = if is_due(last, report) {
            counts[0] as int
        } else {
            last
        };
        if rest.len() > 0 {
            assert(rest[0] == counts[1] && counts[0] < counts[1]);
            lemma_passed_on(next, rest, total);
            assert(rest.last() == counts.last());
            let inner = passed_on(next, rest, total);
            let size = REPORT_INTERVAL as int;
            assert((inner + 1) * size == inner * size + size) by (nonlinear_arith);
            assert((inner - 1) * size == inner * size - size) by (nonlinear_arith);
        } else {
            assert(passed_on(next, rest, total) == 0);
        }
    }
}

/// A download is reported at most once for every interval of bytes, and once more when the whole
/// has arrived.
pub proof fn law_reports_are_throttled(counts: Seq<u64>, total: Option<u64>)
    requires
        counts.len() > 0,
        grows(0, counts),
    ensures
        passed_on(0, counts, total) * REPORT_INTERVAL <= counts.last() + REPORT_INTERVAL,
{
    lemma_passed_on(0, counts, total);
    let reports = passed_on(0, counts, total) as int;
    let size = REPORT_INTERVAL as int;
    assert((reports - 1) * size == reports * size - size) by (nonlinear_arith);
}

/// The end of a download whose length is known is always reported.
pub proof fn law_the_whole_is_always_reported(last: int, total: u64)
    ensures
        is_due(last, DownloadReport { downloaded: total, total: Some(total) }),
{
}

/// What the caller of an installation does next.
#[derive(Debug)]
pub enum InstallAction {
    /// Create the directory for the files of the installation.
    CreateScratch(String),
    /// Download what is at this address.
    Download(String),
    /// Write the executable to `to`.
    Unpack { found: Extraction, to: String },
    /// Set the mode of this file to `rwxr-xr-x`.
    MakeExecutable(String),
    /// Run this command, whatever comes of it.
    ClearQuarantine(CommandLine),
    /// Run this command.
    Sign(CommandLine),
    /// Create this directory and those above it.
    CreateDir(String),
    /// Copy the executable from `from` to `to`.
    Copy { from: String, to: String },
    /// Write the path of the executable into this file, creating the directories above it,
    /// whatever comes of it.
    Record { file: String, path: String },
    /// The installation is over. The executable is at this path, or could not be installed for
    /// this reason.
    Done(Result<String, String>),
}

/// The model of an action.
#[verifier::ext_equal]
pub enum ActionView {
    CreateScratch(Seq<char>),
    Download(Seq<char>),
    Unpack(ExtractionView, Seq<char>),
    MakeExecutable(Seq<char>),
    ClearQuarantine(CommandLineView),
    Sign(CommandLineView),
    CreateDir(Seq<char>),
    Copy(Seq<char>, Seq<char>),
    Record(Seq<char>, Seq<char>),
    Done(Result<Seq<char>, Seq<char>>),
}

impl View for InstallAction {
    type V = ActionView;

    open spec fn view(&self) -> ActionView {
        match self {
            InstallAction::CreateScratch(dir) => ActionView::CreateScratch(dir@),
            InstallAction::Download(url) => ActionView::Download(url@),
            InstallAction::Unpack { found, to } => ActionView::Unpack(found@, to@),
            InstallAction::MakeExecutable(path) => ActionView::MakeExecutable(path@),
            InstallAction::ClearQuarantine(command) => ActionView::ClearQuarantine(command@),
            InstallAction::Sign(command) => ActionView::Sign(command@),
            InstallAction::CreateDir(dir) => ActionView::CreateDir(dir@),
            InstallAction::Copy { from, to } => ActionView::Copy(from@, to@),
            InstallAction::Record { file, path } => ActionView::Record(file@, path@),
            InstallAction::Done(result) => ActionView::Done(text::result_text(*result)),
        }
    }
}

/// What came of an action.
#[derive(Debug)]
pub enum InstallEvent {
    /// It succeeded.
    Succeeded,
    /// It failed for this reason, or the command could not be run for it.
    Failed(String),
    /// The command exited, with success or not.
    Exited(bool),
    /// The download ended with these bytes.
    Downloaded(Vec<u8>),
    /// The download failed.
    DownloadFailed(DownloadFailure),
}

/// An installation at the point that it has reached.
#[derive(Debug)]
pub struct InstallTask {
    platform: Platform,
    /// Where the executable comes from.
    url: String,
    /// Where the executable is put before it is installed.
    unpacked: String,
    /// The directories that are still to be tried.
    later: Vec<String>,
    /// Why the directories that have been tried were no use.
    errors: Vec<String>,
    /// The file that records where the executable is.
    record_file: Option<String>,
    action: InstallAction,
}

/// The model of an installation.
#[verifier::ext_equal]
pub struct InstallView {
    pub platform: Platform,
    pub url: Seq<char>,
    pub unpacked: Seq<char>,
    pub later: Seq<Seq<char>>,
    pub errors: Seq<Seq<char>>,
    pub record_file: Option<Seq<char>>,
    pub action: ActionView,
}

impl View for InstallTask {
    type V = InstallView;

    closed spec fn view(&self) -> InstallView {
        InstallView {
            platform: self.platform,
            url: self.url@,
            unpacked: self.unpacked@,
            later: text::texts(self.later@),
            errors: text::texts(self.errors@),
            record_file: text::opt_text(self.record_file),
            action: self.action@,
        }
    }
}

/// The message for an executable that no directory could receive.
pub open spec fn install_error(errors: Seq<Seq<char>>) -> Seq<char> {
    "无法安装 tp-agent(已尝试 "@ + text::decimal(errors.len()) + " 个目录均失败):\n"@ + text::joined(
        errors,
        "\n"@,
    ) + "\n可手动下载并放到 PATH 目录。"@
}

/// The message for a directory that could not be created.
pub open spec fn create_error(dir: Seq<char>, reason: Seq<char>) -> Seq<char> {
    dir + ": 创建目录失败 "@ + reason
}

/// The message for a file that could not be written.
pub open spec fn write_error(path: Seq<char>, reason: Seq<char>) -> Seq<char> {
    path + ": 写入失败 "@ + reason
}

/// The command that removes the mark of a download from a file.
pub open spec fn clear_command(path: Seq<char>) -> CommandLineView {
    CommandLineView { program: "xattr"@, args: seq!["-c"@, path] }
}

/// The command that signs a file for this machine.
pub open spec fn sign_command(path: Seq<char>) -> CommandLineView {
    CommandLineView { program: "codesign"@, args: seq!["-s"@, "-"@, "--force"@, path] }
}

impl InstallView {
    /// The same installation at another action.
    pub open spec fn at(self, action: ActionView) -> InstallView {
        InstallView { action, ..self }
    }

    /// The installation that has failed.
    pub open spec fn failed(self, reason: Seq<char>) -> InstallView {
        self.at(ActionView::Done(Err(reason)))
    }

    /// The installation that turns to the next directory, or fails where none is left.
    pub open spec fn at_next_dir(self) -> InstallView {
        if self.later.len() == 0 {
            self.failed(install_error(self.errors))
        } else {
            InstallView { later: self.later.drop_first(), ..self }.at(
                ActionView::CreateDir(self.later[0]),
            )
        }
    }

    /// The installation that gives up a directory for this reason.
    pub open spec fn without_dir(self, reason: Seq<char>) -> InstallView {
        InstallView { errors: self.errors.push(reason), ..self }.at_next_dir()
    }

    /// Where the installation stands after its action came to `event`. It stays where it is where
    /// the event is none of the action.
    pub open spec fn after(self, event: InstallEvent) -> InstallView {
        match (self.action, event) {
            (ActionView::CreateScratch(_), InstallEvent::Succeeded) => self.at(
                ActionView::Download(self.url),
            ),
            (ActionView::CreateScratch(_), InstallEvent::Failed(reason)) => self.failed(reason@),
            (
                ActionView::Download(_),
                InstallEvent::Downloaded(bytes),
            ) => match archive::extraction(self.platform, bytes@) {
                Ok(found) => self.at(ActionView::Unpack(found, self.unpacked)),
                Err(reason) => self.failed(reason),
            },
            (ActionView::Download(url), InstallEvent::DownloadFailed(failure)) => self.failed(
                download_error(url, failure),
            ),
            (ActionView::Unpack(_, _), InstallEvent::Succeeded) => if self.platform
                == Platform::Windows {
                self.at_next_dir()
            } else {
                self.at(ActionView::MakeExecutable(self.unpacked))
            },
            (ActionView::Unpack(_, _), InstallEvent::Failed(reason)) => self.failed(reason@),
            (ActionView::MakeExecutable(_), InstallEvent::Succeeded) => if self.platform
                == Platform::MacOs {
                self.at(ActionView::ClearQuarantine(clear_command(self.unpacked)))
            } else {
                self.at_next_dir()
            },
            (ActionView::MakeExecutable(_), InstallEvent::Failed(reason)) => self.failed(reason@),
            (ActionView::ClearQuarantine(_), _) => self.at(
                ActionView::Sign(sign_command(self.unpacked)),
            ),
            (ActionView::Sign(_), InstallEvent::Exited(success)) => if success {
                self.at_next_dir()
            } else {
                self.failed("codesign ad-hoc 签名失败"@)
            },
            (ActionView::Sign(_), InstallEvent::Failed(reason)) => self.failed(
                "codesign: "@ + reason@,
            ),
            (ActionView::CreateDir(dir), InstallEvent::Succeeded) => self.at(
                ActionView::Copy(
                    self.unpacked,
                    platform::path_below(self.platform, dir, locate::bin_name(self.platform)),
                ),
            ),
            (ActionView::CreateDir(dir), InstallEvent::Failed(reason)) => self.without_dir(
                create_error(dir, reason@),
            ),
            (ActionView::Copy(_, to), InstallEvent::Succeeded) => match self.record_file {
                Some(file) => self.at(ActionView::Record(file, to)),
                None => self.at(ActionView::Done(Ok(to))),
            },
            (ActionView::Copy(_, to), InstallEvent::Failed(reason)) => self.without_dir(
                write_error(to, reason@),
            ),
            (ActionView::Record(_, path), _) => self.at(ActionView::Done(Ok(path))),
            _ => self,
        }
    }
}

fn install_message(errors: &Vec<String>) -> (message: String)
    ensures
        message@ == install_error(text::texts(errors@)),
{
    let mut message = "无法安装 tp-agent(已尝试 ".to_owned();
    message.append(text::decimal_text(errors.len() as u64).as_str());
    message.append(" 个目录均失败):\n");
    message.append(text::join(errors, "\n").as_str());
    message.append("\n可手动下载并放到 PATH 目录。");
    message
}

fn clear_quarantine(path: &str) -> (command: CommandLine)
    ensures
        command@ == clear_command(path@),
{
    let command = process::command_line("xattr", &["-c", path]);
    assert(command@.args == clear_command(path@).args);
    command
}

fn sign(path: &str) -> (command: CommandLine)
    ensures
        command@ == sign_command(path@),
{
    let command = process::command_line("codesign", &["-s", "-", "--force", path]);
    assert(command@.args == sign_command(path@).args);
    command
}

impl InstallTask {
    /// What is to be done next.
    pub fn action(&self) -> (action: &InstallAction)
        ensures
            action@ == self@.action,
    {
        &self.action
    }

    fn at(self, action: InstallAction) -> (task: InstallTask)
        ensures
            task@ == self@.at(action@),
    {
        InstallTask { action, ..self }
    }

    fn failed(self, reason: String) -> (task: InstallTask)
        ensures
            task@ == self@.failed(reason@),
    {
        self.at(InstallAction::Done(Err(reason)))
    }

    fn at_next_dir(self) -> (task: InstallTask)
        ensures
            task@ == self@.at_next_dir(),
    {
        let ghost before = self@;
        let mut task = self;
        if task.later.len() == 0 {
            let reason = install_message(&task.errors);
            task.failed(reason)
        } else {
            let dir = task.later.remove(0);
            assert(before.later[0] == dir@);
            assert(text::texts(task.later@) == before.later.drop_first());
            task.action = InstallAction::CreateDir(dir);
            task
        }
    }

    fn without_dir(self, reason: String) -> (task: InstallTask)
        ensures
            task@ == self@.without_dir(reason@),
    {
        let ghost before = self@;
        let mut task = self;
        task.errors.push(reason);
        assert(text::texts(task.errors@) == before.errors.push(reason@));
        task.at_next_dir()
    }

    /// Takes the installation on after its action came to `event`.
    pub fn step(self, event: InstallEvent) -> (task: InstallTask)
        ensures
            task@ == self@.after(event),
    {
        let unpacked = self.unpacked.clone();
        match (&self.action, event) {
            (InstallAction::CreateScratch(_), InstallEvent::Succeeded) => {
                let url = self.url.clone();
                self.at(InstallAction::Download(url))
            },
            (InstallAction::CreateScratch(_), InstallEvent::Failed(reason)) => self.failed(reason),
            (
                InstallAction::Download(_),
                InstallEvent::Downloaded(bytes),
            ) => match archive::extract_tp_agent(self.platform, bytes.as_slice()) {
                Ok(found) => self.at(InstallAction::Unpack { found, to: unpacked }),
                Err(reason) => self.failed(reason),
            },
            (InstallAction::Download(url), InstallEvent::DownloadFailed(failure)) => {
                let message = download_message(url.as_str(), &failure);
                self.failed(message)
            },
            (InstallAction::Unpack { .. }, InstallEvent::Succeeded) => if matches!(
                self.platform,
                Platform::Windows
            ) {
                self.at_next_dir()
            } else {
                self.at(InstallAction::MakeExecutable(unpacked))
            },
            (InstallAction::Unpack { .. }, InstallEvent::Failed(reason)) => self.failed(reason),
            (InstallAction::MakeExecutable(_), InstallEvent::Succeeded) => if matches!(
                self.platform,
                Platform::MacOs
            ) {
                self.at(InstallAction::ClearQuarantine(clear_quarantine(unpacked.as_str())))
            } else {
                self.at_next_dir()
            },
            (InstallAction::MakeExecutable(_), InstallEvent::Failed(reason)) => self.failed(reason),
            (InstallAction::ClearQuarantine(_), _) => self.at(
                InstallAction::Sign(sign(unpacked.as_str())),
            ),
            (InstallAction::Sign(_), InstallEvent::Exited(success)) => if success {
                self.at_next_dir()
            } else {
                self.failed("codesign ad-hoc 签名失败".to_owned())
            },
            (InstallAction::Sign(_), InstallEvent::Failed(reason)) => {
                let mut message = "codesign: ".to_owned();
                message.append(reason.as_str());
                self.failed(message)
            },
            (InstallAction::CreateDir(dir), InstallEvent::Succeeded) => {
                let to = join_path(
                    self.platform,
                    dir.as_str(),
                    locate::tp_agent_bin_name(self.platform),
                );
                self.at(InstallAction::Copy { from: unpacked, to })
            },
            (InstallAction::CreateDir(dir), InstallEvent::Failed(reason)) => {
                let mut message = dir.clone();
                message.append(": 创建目录失败 ");
                message.append(reason.as_str());
                self.without_dir(message)
            },
            (InstallAction::Copy { to, .. }, InstallEvent::Succeeded) => {
                let path = to.clone();
                match &self.record_file {
                    Some(file) => {
                        let file = file.clone();
                        self.at(InstallAction::Record { file, path })
                    },
                    None => self.at(InstallAction::Done(Ok(path))),
                }
            },
            (InstallAction::Copy { to, .. }, InstallEvent::Failed(reason)) => {
                let mut message = to.clone();
                message.append(": 写入失败 ");
                message.append(reason.as_str());
                self.without_dir(message)
            },
            (InstallAction::Record { path, .. }, _) => {
                let path = path.clone();
                self.at(InstallAction::Done(Ok(path)))
            },
            _ => self,
        }
    }
}

/// Where the executable for this system comes from: the mirror where there is one, else the
/// newest release.
pub open spec fn source_url(mirror: Option<&str>, asset: Seq<char>) -> Seq<char> {
    match mirror {
        Some(base) => base@ + "/"@ + asset,
        None => agent::download_url(RELEASE_REPO@, None, asset),
    }
}

/// The message for a system for which no release is built.
pub open spec fn no_asset_error(os: Seq<char>, arch: Seq<char>) -> Seq<char> {
    "暂无 "@ + os + "-"@ + arch + " 的 tp-agent 预编译包,请手动安装 tp-agent。"@
}

/// The installation on this system at its start.
pub open spec fn installation(
    os: Seq<char>,
    arch: Seq<char>,
    env: HostEnv,
    mirror: Option<&str>,
    temp_dir: Seq<char>,
) -> Result<InstallView, Seq<char>> {
    let platform = platform::platform_named(os);
    let scratch = platform::path_below(platform, temp_dir, "tp-agent-install"@);
    match agent::asset_for(os, arch) {
        None => Err(no_asset_error(os, arch)),
        Some(asset) => Ok(
            InstallView {
                platform,
                url: source_url(mirror, asset),
                unpacked: platform::path_below(platform, scratch, locate::bin_name(platform)),
                later: locate::install_dirs(platform, env),
                errors: seq![],
                record_file: crate::config::config_file(platform, env, "agent-path"@),
                action: ActionView::CreateScratch(scratch),
            },
        ),
    }
}

/// Begins an installation on the system `os` with the processor architecture `arch`. The
/// executable comes from `mirror` where there is one, and the files of the installation are put
/// below `temp_dir`.
pub fn install_tp_agent(
    os: &str,
    arch: &str,
    env: &HostEnv,
    mirror: Option<&str>,
    temp_dir: &str,
) -> (task: Result<InstallTask, String>)
    ensures
        match task {
            Ok(task) => installation(os@, arch@, *env, mirror, temp_dir@) == Ok::<_, Seq<char>>(
                task@,
            ),
            Err(message) => installation(os@, arch@, *env, mirror, temp_dir@) == Err::<
                InstallView,
                _,
            >(message@),
        },
{
    let platform = platform::platform_of(os);
    match agent::release_asset_name(os, arch) {
        Err(_) => {
            let mut message = "暂无 ".to_owned();
            message.append(os);
            message.append("-");
            message.append(arch);
            message.append(" 的 tp-agent 预编译包,请手动安装 tp-agent。");
            Err(message)
        },
        Ok(asset) => {
            let url = match mirror {
                Some(base) => {
                    let mut url = base.to_owned();
                    url.append("/");
                    url.append(asset);
                    url
                },
                None => agent::release_download_url(RELEASE_REPO, None, asset),
            };
            let scratch = join_path(platform, temp_dir, "tp-agent-install");
            let unpacked = join_path(
                platform,
                scratch.as_str(),
                locate::tp_agent_bin_name(platform),
            );
            let task = InstallTask {
                platform,
                url,
                unpacked,
                later: locate::install_dir_candidates(platform, env),
                errors: Vec::new(),
                record_file: locate::installed_path_file(platform, env),
                action: InstallAction::CreateScratch(scratch),
            };
            assert(task@ == installation(os@, arch@, *env, mirror, temp_dir@)->Ok_0);
            Ok(task)
        },
    }
}

/// What comes of the attempt to put the executable into a directory.
pub enum DirOutcome {
    /// The directory could not be created.
    NotCreated(String),
    /// The directory was created, and the executable could not be written.
    NotWritten(String),
    /// The executable was written.
    Written,
}

/// Why the attempt on a directory failed.
pub open spec fn dir_error(platform: Platform, dir: Seq<char>, outcome: DirOutcome) -> Seq<char> {
    match outcome {
        DirOutcome::NotCreated(reason) => create_error(dir, reason@),
        DirOutcome::NotWritten(reason) => write_error(
            platform::path_below(platform, dir, locate::bin_name(platform)),
            reason@,
        ),
        DirOutcome::Written => seq![],
    }
}

/// Why the attempts on these directories failed.
pub open spec fn dir_errors(
    platform: Platform,
    dirs: Seq<Seq<char>>,
    outcomes: Seq<DirOutcome>,
) -> Seq<Seq<char>> {
    Seq::new(dirs.len(), |i: int| dir_error(platform, dirs[i], outcomes[i]))
}

impl InstallView {
    /// Where the installation stands after the attempts on its directories came to `outcomes` in
    /// turn.
    pub open spec fn after_dirs(self, outcomes: Seq<DirOutcome>) -> InstallView
        decreases outcomes.len(),
    {
        if outcomes.len() == 0 || !(self.action is CreateDir) {
            self
        } else {
            let created = self.after(InstallEvent::Succeeded);
            match outcomes[0] {
                DirOutcome::NotCreated(reason) => self.after(
                    InstallEvent::Failed(reason),
                ).after_dirs(outcomes.drop_first()),
                DirOutcome::NotWritten(reason) => created.after(
                    InstallEvent::Failed(reason),
                ).after_dirs(outcomes.drop_first()),
                DirOutcome::Written => created.after(InstallEvent::Succeeded).after_dirs(
                    outcomes.drop_first(),
                ),
            }
        }
    }

    /// Whether the installation is over, or records this path as its last action.
    pub open spec fn has_installed(self, path: Seq<char>) -> bool {
        match self.record_file {
            Some(file) => self.action == ActionView::Record(file, path),
            None => self.action == ActionView::Done(Ok(path)),
        }
    }
}

/// The installation after its next directory came to a failure and was given up.
pub open spec fn given_up(task: InstallView, outcome: DirOutcome) -> InstallView {
    InstallView {
        errors: task.errors.push(dir_error(task.platform, task.later[0], outcome)),
        later: task.later.drop_first(),
        ..task.at_next_dir()
    }
}

proof fn lemma_not_created(task: InstallView, reason: String)
    requires
        task.later.len() > 0,
    ensures
        task.at_next_dir().after(InstallEvent::Failed(reason)) == given_up(
            task,
            DirOutcome::NotCreated(reason),
        ).at_next_dir(),
{
}

proof fn lemma_not_written(task: InstallView, reason: String)
    requires
        task.later.len() > 0,
    ensures
        task.at_next_dir().after(InstallEvent::Succeeded).after(InstallEvent::Failed(reason))
            == given_up(task, DirOutcome::NotWritten(reason)).at_next_dir(),
{
}

/// A directory that came to a failure is given up, and the next one is tried.
proof fn lemma_dir_is_given_up(task: InstallView, outcomes: Seq<DirOutcome>)
    requires
        task.later.len() > 0,
        outcomes.len() > 0,
        !(outcomes[0] is Written),
    ensures
        task.at_next_dir().after_dirs(outcomes) == given_up(
            task,
            outcomes[0],
        ).at_next_dir().after_dirs(outcomes.drop_first()),
{
    assert(task.at_next_dir().action is CreateDir);
    match outcomes[0] {
        DirOutcome::NotCreated(reason) => lemma_not_created(task, reason),
        DirOutcome::NotWritten(reason) => lemma_not_written(task, reason),
        DirOutcome::Written => {},
    }
}

/// A directory that receives the executable ends the search for one.
proof fn lemma_dir_receives(task: InstallView, outcomes: Seq<DirOutcome>)
    requires
        task.later.len() > 0,
        outcomes.len() > 0,
        outcomes[0] is Written,
    ensures
        task.at_next_dir().after_dirs(outcomes).has_installed(
            platform::path_below(task.platform, task.later[0], locate::bin_name(task.platform)),
        ),
{
    let done = task.at_next_dir().after(InstallEvent::Succeeded).after(InstallEvent::Succeeded);
    assert(done.after_dirs(outcomes.drop_first()) == done);
}

/// The executable is installed into the first directory that receives it, whatever the other
/// directories would have come to.
pub proof fn law_first_usable_dir_receives_the_executable(
    task: InstallView,
    outcomes: Seq<DirOutcome>,
    i: int,
)
    requires
        0 <= i < task.later.len(),
        i < outcomes.len(),
        outcomes[i] is Written,
        forall|k: int| 0 <= k < i ==> !((#[trigger] outcomes[k]) is Written),
    ensures
        task.at_next_dir().after_dirs(outcomes).has_installed(
            platform::path_below(task.platform, task.later[i], locate::bin_name(task.platform)),
        ),
    decreases i,
{
    if i == 0 {
        lemma_dir_receives(task, outcomes);
    } else {
        assert(!(outcomes[0] is Written));
        lemma_dir_is_given_up(task, outcomes);
        law_first_usable_dir_receives_the_executable(
            given_up(task, outcomes[0]),
            outcomes.drop_first(),
            i - 1,
        );
    }
}

/// Where no directory receives the executable, the installation fails, and its message holds why
/// each of them did not, in the order in which they were tried.
pub proof fn law_failure_names_every_dir(task: InstallView, outcomes: Seq<DirOutcome>)
    requires
        task.later.len() <= outcomes.len(),
        forall|k: int| 0 <= k < task.later.len() ==> !((#[trigger] outcomes[k]) is Written),
    ensures
        task.at_next_dir().after_dirs(outcomes).action == ActionView::Done(
            Err(
                install_error(
                    task.errors + dir_errors(task.platform, task.later, outcomes),
                ),
            ),
        ),
    decreases task.later.len(),
{
    let all = task.errors + dir_errors(task.platform, task.later, outcomes);
    if task.later.len() == 0 {
        assert(all == task.errors);
    } else {
        assert(!(outcomes[0] is Written));
        let next = given_up(task, outcomes[0]);
        let rest = outcomes.drop_first();
        assert forall|k: int| 0 <= k < next.later.len() implies !((
        #[trigger] rest[k]) is Written) by {
            assert(rest[k] == outcomes[k + 1]);
        }
        lemma_dir_is_given_up(task, outcomes);
        law_failure_names_every_dir(next, rest);
        assert(next.errors + dir_errors(task.platform, next.later, rest) == all);
    }
}

/// Whether the installation aims at nothing but the places where the executable is looked for on
/// this system.
pub open spec fn stays_locatable(task: InstallView, env: HostEnv) -> bool {
    let dirs = locate::install_dirs(task.platform, env);
    let paths = locate::located_at(task.platform, env);
    &&& forall|i: int| 0 <= i < task.later.len() ==> dirs.contains(#[trigger] task.later[i])
    &&& match task.action {
        ActionView::CreateDir(dir) => dirs.contains(dir),
        ActionView::Copy(_, to) => paths.contains(to),
        ActionView::Record(_, path) => paths.contains(path),
        ActionView::Done(Ok(path)) => paths.contains(path),
        _ => true,
    }
}

/// An installation begins with directories in all of which the executable is looked for.
pub proof fn law_installation_begins_locatable(
    os: Seq<char>,
    arch: Seq<char>,
    env: HostEnv,
    mirror: Option<&str>,
    temp_dir: Seq<char>,
)
    ensures
        match installation(os, arch, env, mirror, temp_dir) {
            Ok(task) => stays_locatable(task, env),
            Err(_) => agent::asset_for(os, arch) is None,
        },
{
}

/// Whatever comes of its actions, an installation puts the executable only where it is looked
/// for afterwards.
pub proof fn law_installed_executable_is_locatable(
    task: InstallView,
    env: HostEnv,
    event: InstallEvent,
)
    requires
        stays_locatable(task, env),
    ensures
        stays_locatable(task.after(event), env),
{
    let dirs = locate::install_dirs(task.platform, env);
    if let ActionView::CreateDir(dir) = task.action {
        locate::law_locate_covers_every_install_dir(task.platform, env, dir);
    }
    if task.later.len() > 0 {
        assert(dirs.contains(task.later[0]));
    }
    assert forall|i: int| 0 <= i < task.after(event).later.len() implies dirs.contains(
        #[trigger] task.after(event).later[i],
    ) by {
        assert(task.after(event).later[i] == task.later[i] || task.after(event).later[i]
            == task.later[i + 1]);
    }
}

/// On macOS the executable reaches a directory only after it has been signed.
pub proof fn law_macos_installs_only_what_is_signed(task: InstallView, event: InstallEvent)
    requires
        task.platform == Platform::MacOs,
        task.after(event).action is CreateDir,
    ensures
        (task.action is Sign && event == InstallEvent::Exited(true)) || task.action is CreateDir
            || task.action is Copy,
{
}

/// Once the executable has been copied to a path, the installation ends with that path, whatever
/// comes of recording it.
pub proof fn law_recorded_installation_succeeds(
    task: InstallView,
    file: Seq<char>,
    path: Seq<char>,
    event: InstallEvent,
)
    requires
        task.action == ActionView::Record(file, path),
    ensures
        task.after(event).action == ActionView::Done(Ok(path)),
{
}

/// A copy that succeeded is recorded where there is a file for it, and ends the installation
/// with its path where there is none.
pub proof fn law_copied_executable_is_recorded(
    task: InstallView,
    from: Seq<char>,
    to: Seq<char>,
)
    requires
        task.action == ActionView::Copy(from, to),
    ensures
        task.record_file matches Some(file) ==> task.after(InstallEvent::Succeeded).action
            == ActionView::Record(file, to),
        task.record_file is None ==> task.after(InstallEvent::Succeeded).action
            == ActionView::Done(Ok(to)),
{
}

/// Whatever comes of an action, an installation stays with its platform, its source, the place
/// where it unpacks the executable and the file in which it records it.
pub proof fn law_installation_keeps_its_aims(task: InstallView, event: InstallEvent)
    ensures
        task.after(event).platform == task.platform,
        task.after(event).url == task.url,
        task.after(event).unpacked == task.unpacked,
        task.after(event).record_file == task.record_file,
{
}

/// An installation that is over stays as it is.
pub proof fn law_installation_ends_for_good(task: InstallView, event: InstallEvent)
    requires
        task.action is Done,
    ensures
        task.after(event) == task,
{
}

/// A directory is given up, or taken on, only by the attempt on it: the directories that are left,
/// and the reasons why others were no use, change with no other action.
pub proof fn law_dirs_change_only_with_an_attempt(task: InstallView, event: InstallEvent)
    ensures
        task.after(event).later == task.later || (task.later.len() > 0 && task.after(event).later
            == task.later.drop_first() && task.after(event).action == ActionView::CreateDir(
            task.later[0],
        )),
        task.after(event).errors != task.errors ==> (task.action is CreateDir || task.action
            is Copy) && event is Failed,
{
}

/// An action before the directories are tried that fails ends the installation with the reason
/// for its failure, and nothing else about the installation changes.
pub proof fn law_early_failure_ends_the_installation(task: InstallView, reason: String)
    requires
        task.action is CreateScratch || task.action is Unpack || task.action is MakeExecutable,
    ensures
        task.after(InstallEvent::Failed(reason)).action == ActionView::Done(Err(reason@)),
{
}

/// A download that fails ends the installation, and the message names the address and the reason.
pub proof fn law_failed_download_ends_the_installation(
    task: InstallView,
    url: Seq<char>,
    reason: String,
)
    requires
        task.action == ActionView::Download(url),
    ensures
        task.after(InstallEvent::DownloadFailed(DownloadFailure::Init(reason))).action
            == ActionView::Done(Err("init http client: "@ + reason@)),
        task.after(InstallEvent::DownloadFailed(DownloadFailure::Request(reason))).action
            == ActionView::Done(Err("下载 "@ + url + " 失败: "@ + reason@)),
        task.after(InstallEvent::DownloadFailed(DownloadFailure::Interrupted(reason))).action
            == ActionView::Done(Err("下载 "@ + url + " 中断: "@ + reason@)),
{
}

/// What was downloaded is unpacked where it holds the executable, and ends the installation with
/// the reason where it does not.
pub proof fn law_download_is_unpacked(task: InstallView, bytes: Vec<u8>)
    requires
        task.action is Download,
    ensures
        archive::extraction(task.platform, bytes@) matches Ok(found) ==> task.after(
            InstallEvent::Downloaded(bytes),
        ).action == ActionView::Unpack(found, task.unpacked),
        archive::extraction(task.platform, bytes@) matches Err(reason) ==> task.after(
            InstallEvent::Downloaded(bytes),
        ).action == ActionView::Done(Err(reason)),
{
}

/// The download follows the creation of the directory for it, from the source of the installation.
pub proof fn law_download_follows_the_scratch_dir(task: InstallView)
    requires
        task.action is CreateScratch,
    ensures
        task.after(InstallEvent::Succeeded) == (InstallView {
            action: ActionView::Download(task.url),
            ..task
        }),
{
}

/// What was unpacked is made executable except on Windows, and on macOS it is freed from its
/// quarantine and signed behind that, before the first directory is tried.
pub proof fn law_unpacked_file_is_prepared(task: InstallView, event: InstallEvent)
    ensures
        task.action is Unpack && task.platform != Platform::Windows ==> task.after(
            InstallEvent::Succeeded,
        ).action == ActionView::MakeExecutable(task.unpacked),
        task.action is MakeExecutable && task.platform == Platform::MacOs ==> task.after(
            InstallEvent::Succeeded,
        ).action == ActionView::ClearQuarantine(
            (CommandLineView { program: "xattr"@, args: seq!["-c"@, task.unpacked] }),
        ),
        task.action is ClearQuarantine ==> task.after(event).action == ActionView::Sign(
            (CommandLineView {
                program: "codesign"@,
                args: seq!["-s"@, "-"@, "--force"@, task.unpacked],
            }),
        ),
{
}

/// The first directory is tried as soon as the executable is prepared: on Windows when it is
/// unpacked, on macOS when it is signed, and elsewhere when it may be executed.
pub proof fn law_prepared_file_goes_to_the_first_dir(task: InstallView, event: InstallEvent)
    requires
        task.later.len() > 0,
        (task.action is Unpack && task.platform == Platform::Windows && event
            == InstallEvent::Succeeded) || (task.action is MakeExecutable && task.platform
            != Platform::MacOs && event == InstallEvent::Succeeded) || (task.action is Sign
            && event == InstallEvent::Exited(true)),
    ensures
        task.after(event).action == ActionView::CreateDir(task.later[0]),
        task.after(event).later == task.later.drop_first(),
        task.after(event).errors == task.errors,
{
}

/// A signature that fails ends the installation, and the message says whether the command failed
/// or could not be run.
pub proof fn law_failed_signature_ends_the_installation(task: InstallView, reason: String)
    requires
        task.action is Sign,
    ensures
        task.after(InstallEvent::Exited(false)).action == ActionView::Done(
            Err("codesign ad-hoc 签名失败"@),
        ),
        task.after(InstallEvent::Failed(reason)).action == ActionView::Done(
            Err("codesign: "@ + reason@),
        ),
{
}

/// A directory that was created receives the executable, under its name on the platform.
pub proof fn law_created_dir_receives_the_unpacked_file(task: InstallView, dir: Seq<char>)
    requires
        task.action == ActionView::CreateDir(dir),
    ensures
        task.after(InstallEvent::Succeeded) == (InstallView {
            action: ActionView::Copy(
                task.unpacked,
                platform::path_below(
                    task.platform,
                    dir,
                    if task.platform == Platform::Windows {
                        "tp-agent.exe"@
                    } else {
                        "tp-agent"@
                    },
                ),
            ),
            ..task
        }),
{
}

/// A directory that could not be created, or not be written to, is given up for the next one, and
/// its reason is kept behind the others.
pub proof fn law_unusable_dir_is_given_up(task: InstallView, place: Seq<char>, reason: String)
    requires
        task.later.len() > 0,
    ensures
        task.action == ActionView::CreateDir(place) ==> task.after(InstallEvent::Failed(reason))
            == (InstallView {
            errors: task.errors.push(place + ": 创建目录失败 "@ + reason@),
            later: task.later.drop_first(),
            action: ActionView::CreateDir(task.later[0]),
            ..task
        }),
        (task.action is Copy && task.action->Copy_1 == place) ==> task.after(
            InstallEvent::Failed(reason),
        ) == (InstallView {
            errors: task.errors.push(place + ": 写入失败 "@ + reason@),
            later: task.later.drop_first(),
            action: ActionView::CreateDir(task.later[0]),
            ..task
        }),
{
}

/// Where the last directory is given up too, the installation fails, and the message holds the
/// number of the directories and the reason of each, a line each.
pub proof fn law_last_unusable_dir_ends_the_installation(
    task: InstallView,
    dir: Seq<char>,
    reason: String,
)
    requires
        task.later.len() == 0,
        task.action == ActionView::CreateDir(dir) || (task.action is Copy && task.action->Copy_1
            == dir),
    ensures
        task.after(InstallEvent::Failed(reason)).action == ActionView::Done(
            Err(
                "无法安装 tp-agent(已尝试 "@ + text::decimal(task.errors.len() + 1)
                    + " 个目录均失败):\n"@ + text::joined(
                    task.errors.push(
                        dir + (if task.action is CreateDir {
                            ": 创建目录失败 "@
                        } else {
                            ": 写入失败 "@
                        }) + reason@,
                    ),
                    "\n"@,
                ) + "\n可手动下载并放到 PATH 目录。"@,
            ),
        ),
{
}

/// The event that an action comes to where it succeeds and the download brings `bytes`.
pub open spec fn success_of(action: ActionView, bytes: Vec<u8>) -> InstallEvent {
    match action {
        ActionView::Download(_) => InstallEvent::Downloaded(bytes),
        ActionView::Sign(_) => InstallEvent::Exited(true),
        _ => InstallEvent::Succeeded,
    }
}

/// Where an installation stands after `n` actions that succeed.
pub open spec fn after_successes(task: InstallView, bytes: Vec<u8>, n: nat) -> InstallView
    decreases n,
{
    if n == 0 {
        task
    } else {
        after_successes(task.after(success_of(task.action, bytes)), bytes, (n - 1) as nat)
    }
}

proof fn lemma_done_stays(task: InstallView, bytes: Vec<u8>, n: nat)
    requires
        task.action is Done,
    ensures
        after_successes(task, bytes, n) == task,
    decreases n,
{
    if n > 0 {
        lemma_done_stays(task, bytes, (n - 1) as nat);
    }
}

proof fn lemma_first_dir_receives(task: InstallView, bytes: Vec<u8>, n: nat)
    requires
        task.later.len() > 0,
        n >= 3,
    ensures
        after_successes(task.at_next_dir(), bytes, n).action == ActionView::Done(
            Ok(
                platform::path_below(
                    task.platform,
                    task.later[0],
                    locate::bin_name(task.platform),
                ),
            ),
        ),
{
    let creating = task.at_next_dir();
    let copying = creating.after(InstallEvent::Succeeded);
    let copied = copying.after(InstallEvent::Succeeded);
    assert(after_successes(creating, bytes, n) == after_successes(
        copying,
        bytes,
        (n - 1) as nat,
    ));
    assert(after_successes(copying, bytes, (n - 1) as nat) == after_successes(
        copied,
        bytes,
        (n - 2) as nat,
    ));
    if task.record_file is Some {
        let recorded = copied.after(InstallEvent::Succeeded);
        assert(after_successes(copied, bytes, (n - 2) as nat) == after_successes(
            recorded,
            bytes,
            (n - 3) as nat,
        ));
        lemma_done_stays(recorded, bytes, (n - 3) as nat);
    } else {
        lemma_done_stays(copied, bytes, (n - 2) as nat);
    }
}

/// An installation all of whose actions succeed, and whose download holds the executable, ends
/// with the executable in the first of the directories.
pub proof fn law_undisturbed_installation_succeeds(
    os: Seq<char>,
    arch: Seq<char>,
    env: HostEnv,
    mirror: Option<&str>,
    temp_dir: Seq<char>,
    bytes: Vec<u8>,
)
    requires
        agent::asset_for(os, arch) is Some,
        archive::extraction(platform::platform_named(os), bytes@) is Ok,
        locate::install_dirs(platform::platform_named(os), env).len() > 0,
    ensures
        ({
            let platform = platform::platform_named(os);
            let begun = installation(os, arch, env, mirror, temp_dir);
            let name = if platform == Platform::Windows {
                "tp-agent.exe"@
            } else {
                "tp-agent"@
            };
            begun is Ok && after_successes(begun->Ok_0, bytes, 9).action == ActionView::Done(
                Ok(
                    platform::path_below(
                        platform,
                        locate::install_dirs(platform, env)[0],
                        name,
                    ),
                ),
            )
        }),
{
    let begun = installation(os, arch, env, mirror, temp_dir)->Ok_0;
    let loading = begun.at(ActionView::Download(begun.url));
    let found = archive::extraction(begun.platform, bytes@)->Ok_0;
    let unpacking = begun.at(ActionView::Unpack(found, begun.unpacked));
    assert(after_successes(begun, bytes, 9) == after_successes(loading, bytes, 8));
    assert(after_successes(loading, bytes, 8) == after_successes(unpacking, bytes, 7));
    if begun.platform == Platform::Windows {
        assert(after_successes(unpacking, bytes, 7) == after_successes(
            unpacking.at_next_dir(),
            bytes,
            6,
        ));
        lemma_first_dir_receives(unpacking, bytes, 6);
    } else {
        let marking = begun.at(ActionView::MakeExecutable(begun.unpacked));
        assert(after_successes(unpacking, bytes, 7) == after_successes(marking, bytes, 6));
        if begun.platform == Platform::MacOs {
            let clearing = begun.at(ActionView::ClearQuarantine(clear_command(begun.unpacked)));
            let signing = begun.at(ActionView::Sign(sign_command(begun.unpacked)));
            assert(after_successes(marking, bytes, 6) == after_successes(clearing, bytes, 5));
            assert(after_successes(clearing, bytes, 5) == after_successes(signing, bytes, 4));
            assert(after_successes(signing, bytes, 4) == after_successes(
                signing.at_next_dir(),
                bytes,
                3,
            ));
            lemma_first_dir_receives(signing, bytes, 3);
        } else {
            assert(after_successes(marking, bytes, 6) == after_successes(
                marking.at_next_dir(),
                bytes,
                5,
            ));
            lemma_first_dir_receives(marking, bytes, 5);
        }
    }
}

/// The executable comes from the mirror where there is one, from the newest release of the
/// repository otherwise, and it is the asset for the system.
pub proof fn law_installation_downloads_the_asset(
    os: Seq<char>,
    arch: Seq<char>,
    env: HostEnv,
    mirror: Option<&str>,
    temp_dir: Seq<char>,
    asset: Seq<char>,
)
    requires
        agent::asset_for(os, arch) == Some(asset),
    ensures
        match installation(os, arch, env, mirror, temp_dir) {
            Ok(task) => match mirror {
                Some(base) => task.url == base@ + "/"@ + asset,
                None => task.url
                    == "https://github.com/darkmice/talon-pilot-client/releases/latest/download/"@
                    + asset,
            },
            Err(_) => false,
        },
{
    reveal_strlit("https://github.com/");
    reveal_strlit("darkmice/talon-pilot-client");
    reveal_strlit("/releases/latest/download/");
    reveal_strlit("https://github.com/darkmice/talon-pilot-client/releases/latest/download/");
    assert("https://github.com/"@ + RELEASE_REPO@ + "/releases/latest/download/"@
        == "https://github.com/darkmice/talon-pilot-client/releases/latest/download/"@);
}

/// An installation begins with a directory of its own below the one for temporary files, puts the
/// executable there, and has tried no directory. A system without an asset is named.
pub proof fn law_installation_begins_in_its_scratch_dir(
    os: Seq<char>,
    arch: Seq<char>,
    env: HostEnv,
    mirror: Option<&str>,
    temp_dir: Seq<char>,
)
    ensures
        ({
            let platform = platform::platform_named(os);
            let scratch = platform::path_below(platform, temp_dir, "tp-agent-install"@);
            match installation(os, arch, env, mirror, temp_dir) {
                Ok(task) => {
                    &&& task.platform == platform
                    &&& task.action == ActionView::CreateScratch(scratch)
                    &&& task.unpacked == platform::path_below(
                        platform,
                        scratch,
                        locate::bin_name(platform),
                    )
                    &&& task.errors.len() == 0
                    &&& task.later == locate::install_dirs(platform, env)
                    &&& task.record_file == crate::config::config_file(
                        platform,
                        env,
                        "agent-path"@,
                    )
                },
                Err(message) => message == "暂无 "@ + os + "-"@ + arch
                    + " 的 tp-agent 预编译包,请手动安装 tp-agent。"@,
            }
        }),
{
}

/// The model of an action holds what the action holds.
pub proof fn law_model_of_an_action_is_complete(action: InstallAction)
    ensures
        match action {
            InstallAction::CreateScratch(dir) => action@ == ActionView::CreateScratch(dir@),
            InstallAction::Download(url) => action@ == ActionView::Download(url@),
            InstallAction::Unpack { found, to } => action@ == ActionView::Unpack(found@, to@),
            InstallAction::MakeExecutable(path) => action@ == ActionView::MakeExecutable(path@),
            InstallAction::ClearQuarantine(command) => action@ == ActionView::ClearQuarantine(
                command@,
            ),
            InstallAction::Sign(command) => action@ == ActionView::Sign(command@),
            InstallAction::CreateDir(dir) => action@ == ActionView::CreateDir(dir@),
            InstallAction::Copy { from, to } => action@ == ActionView::Copy(from@, to@),
            InstallAction::Record { file, path } => action@ == ActionView::Record(file@, path@),
            InstallAction::Done(Ok(path)) => action@ == ActionView::Done(Ok(path@)),
            InstallAction::Done(Err(reason)) => action@ == ActionView::Done(Err(reason@)),
        },
{
}

/// A report is passed on exactly where a quarter of a mebibyte has arrived since the last one, or
/// where the whole has arrived.
pub proof fn law_reports_come_at_intervals(last: int, downloaded: u64, total: Option<u64>)
    ensures
        is_due(last, DownloadReport { downloaded, total }) <==> downloaded - last >= 262144 || (
        total is Some && total->0 == downloaded),
{
}

/// An event that is none of an action leaves an installation where it is.
pub proof fn law_foreign_event_changes_no_installation(task: InstallView, event: InstallEvent)
    requires
        task.action is CreateScratch || task.action is Unpack || task.action is MakeExecutable
            || task.action is CreateDir || task.action is Copy ==> !(event is Succeeded || event
            is Failed),
        task.action is Download ==> !(event is Downloaded || event is DownloadFailed),
        task.action is Sign ==> !(event is Exited || event is Failed),
        !(task.action is ClearQuarantine) && !(task.action is Record),
    ensures
        task.after(event) == task,
{
}

} // verus!
