//! The update dialog: a small window of the shell's own that shows the release notes, starts the
//! download and shows its progress.
//!
//! The page is served under the scheme `tpupdater`. Its buttons navigate to `tpupdate://install`
//! and `tpupdate://later`, which no one serves: the shell takes them as actions and cancels the
//! navigation. The shell tells the page about progress and errors by scripts.

use vstd::prelude::*;
use vstd::string::*;

use crate::base64_text;
use crate::dialog_page;
use crate::html;
use crate::json;
use crate::markdown;
use crate::text;
use crate::urls::{UrlParts, UrlView};

verus! {

/// The scheme under which the dialog's page is served.
pub const URI_SCHEME: &'static str = "tpupdater";

/// The label of the dialog's window, of which there is at most one.
pub const DIALOG_LABEL: &'static str = "tp-updater";

/// The title of the dialog's window.
pub const DIALOG_TITLE: &'static str = "Talon Pilot Studio 更新";

/// The width of the dialog's window in logical pixels.
pub const DIALOG_WIDTH: u32 = 420;

/// The height of the dialog's window in logical pixels.
pub const DIALOG_HEIGHT: u32 = 540;

/// The version that a preview of the dialog offers.
pub const PREVIEW_VERSION: &'static str = "0.1.7";

/// The release notes that a preview of the dialog shows.
pub const PREVIEW_NOTES: &'static str =
    "## 本次更新\n\n- 修复 **tp-agent** 安装后检测不到的问题(`install`/`locate` 路径闭环)\n- 帮装/登录命令移出主线程,加下载超时与进度,断网不再卡死\n- 新增 daemon 管理:启动/停止/重启,多账号切换后自动生效\n- 更新弹窗改为品牌化样式,支持 **Markdown 渲染**与滚动渐隐\n- 自动更新与 tp-agent 下载支持镜像加速(大陆直连更稳)\n- 开启内容安全策略(CSP)、系统托盘、单实例、窗口状态记忆\n\n[查看完整发布说明](https://github.com/darkmice/talon-pilot-studio/releases)";

/// The page that waits to be served to the dialog.
pub struct UpdaterHtml {
    pub pending: Option<String>,
}

/// A response to a request for the dialog's page.
pub struct Page {
    pub content_type: &'static str,
    pub body: String,
}

impl Default for UpdaterHtml {
    fn default() -> (r: Self)
        ensures
            r.pending is None,
    {
        UpdaterHtml { pending: None }
    }
}

impl UpdaterHtml {
    /// What is served: the pending page, or an empty one.
    pub open spec fn served(self) -> Seq<char> {
        match self.pending {
            Some(html) => html@,
            None => seq![],
        }
    }

    /// Makes `html` the page that is served.
    pub fn set(&mut self, html: String)
        ensures
            final(self).pending == Some(html),
            final(self).served() == html@,
    {
        self.pending = Some(html);
    }

    /// Answers a request under the dialog's scheme.
    pub fn serve(&self) -> (page: Page)
        ensures
            page.content_type@ == "text/html; charset=utf-8"@,
            page.body@ == self.served(),
    {
        let body = match &self.pending {
            Some(html) => html.clone(),
            None => String::new(),
        };
        Page { content_type: "text/html; charset=utf-8", body }
    }
}

/// The dialog's page: the fixed text with the logo as base64, the two version numbers escaped,
/// and the rendered release notes.
pub open spec fn dialog_html(
    logo: Seq<u8>,
    current: Seq<char>,
    new_version: Seq<char>,
    notes: Seq<char>,
) -> Seq<char> {
    dialog_page::PAGE_BEFORE_LOGO@ + base64_text::standard_base64(logo)
        + dialog_page::PAGE_BEFORE_NEW_VERSION@ + html::escaped(new_version)
        + dialog_page::PAGE_BEFORE_CURRENT_VERSION@ + html::escaped(current)
        + dialog_page::PAGE_BEFORE_NOTES@ + markdown::notes_html(notes)
        + dialog_page::PAGE_AFTER_NOTES@
}

/// Whether a logo's base64 text fits in a string.
pub open spec fn logo_fits(logo: Seq<u8>) -> bool {
    (logo.len() + 2) / 3 * 4 <= isize::MAX
}

/// Renders the dialog's page. `logo` is a PNG image.
pub fn render_html(logo: &[u8], current: &str, new_version: &str, notes: &str) -> (page: String)
    requires
        logo_fits(logo@),
    ensures
        page@ == dialog_html(logo@, current@, new_version@, notes@),
{
    let mut page = dialog_page::PAGE_BEFORE_LOGO.to_owned();
    page.append(base64_text::encode_base64(logo).as_str());
    page.append(dialog_page::PAGE_BEFORE_NEW_VERSION);
    page.append(html::escape_html(new_version).as_str());
    page.append(dialog_page::PAGE_BEFORE_CURRENT_VERSION);
    page.append(html::escape_html(current).as_str());
    page.append(dialog_page::PAGE_BEFORE_NOTES);
    page.append(markdown::render_notes(notes).as_str());
    page.append(dialog_page::PAGE_AFTER_NOTES);
    page
}

/// A version that the update server offers.
#[derive(Debug)]
pub struct UpdateInfo {
    pub version: String,
    pub notes: Option<String>,
}

impl UpdateInfo {
    /// The release notes, or none at all.
    pub open spec fn notes_text(self) -> Seq<char> {
        match self.notes {
            Some(notes) => notes@,
            None => seq![],
        }
    }
}

/// A dialog to be opened.
pub struct DialogWindow {
    /// The page to be served to it.
    pub html: String,
    /// The address that it loads.
    pub url: String,
}

/// The address that the dialog loads.
pub open spec fn dialog_url() -> Seq<char> {
    URI_SCHEME@ + "://localhost/"@
}

fn dialog_window(html: String) -> (window: DialogWindow)
    ensures
        window.html == html,
        window.url@ == dialog_url(),
{
    let mut url = URI_SCHEME.to_owned();
    url.append("://localhost/");
    DialogWindow { html, url }
}

/// Prepares the dialog for a version that was found. Where a dialog is open already, because two
/// checks ran at once, no second one is opened.
pub fn show_update_dialog(
    already_open: bool,
    logo: &[u8],
    update: &UpdateInfo,
    current: &str,
) -> (window: Option<DialogWindow>)
    requires
        logo_fits(logo@),
    ensures
        window is Some == !already_open,
        window matches Some(w) ==> w.url@ == dialog_url() && w.html@ == dialog_html(
            logo@,
            current@,
            update.version@,
            update.notes_text(),
        ),
        (window is Some && update.notes is Some) ==> window->0.html@ == dialog_html(
            logo@,
            current@,
            update.version@,
            update.notes->0@,
        ),
        (window is Some && update.notes is None) ==> window->0.html@ == dialog_html(
            logo@,
            current@,
            update.version@,
            Seq::empty(),
        ),
{
    if already_open {
        return None;
    }
    let notes = match &update.notes {
        Some(notes) => notes.clone(),
        None => String::new(),
    };
    Some(
        dialog_window(render_html(logo, current, update.version.as_str(), notes.as_str())),
    )
}

/// Prepares the dialog for a look at it, without a version that was found.
pub fn preview_dialog(already_open: bool, logo: &[u8], current: &str) -> (window: Option<
    DialogWindow,
>)
    requires
        logo_fits(logo@),
    ensures
        window is Some == !already_open,
        window matches Some(w) ==> w.url@ == dialog_url() && w.html@ == dialog_html(
            logo@,
            current@,
            PREVIEW_VERSION@,
            PREVIEW_NOTES@,
        ),
{
    if already_open {
        return None;
    }
    Some(dialog_window(render_html(logo, current, PREVIEW_VERSION, PREVIEW_NOTES)))
}

/// The host under which a platform without custom schemes serves the dialog's page.
pub open spec fn dialog_host() -> Seq<char> {
    URI_SCHEME@ + ".localhost"@
}

/// Whether an address is the dialog's own page: `tpupdater://localhost` on some platforms,
/// `http(s)://tpupdater.localhost` on others.
pub open spec fn is_own_page(url: UrlView) -> bool {
    url.scheme == URI_SCHEME@ || url.host == Some(dialog_host())
}

/// Tests whether an address is the dialog's own page.
pub fn is_dialog_origin(url: &UrlParts) -> (own: bool)
    ensures
        own == is_own_page(url@),
{
    if text::same_text(url.scheme.as_str(), URI_SCHEME) {
        return true;
    }
    let mut host = URI_SCHEME.to_owned();
    host.append(".localhost");
    match &url.host {
        Some(h) => text::same_text(h.as_str(), host.as_str()),
        None => false,
    }
}

/// What a navigation of the dialog makes the shell do.
#[derive(Debug)]
pub enum NavAction {
    Nothing,
    /// Download and install the update.
    StartDownload,
    /// Close the dialog.
    CloseDialog,
    /// Open this address in the system's browser.
    OpenInBrowser(String),
}

/// The model of what a navigation makes the shell do.
pub enum NavActionView {
    Nothing,
    StartDownload,
    CloseDialog,
    OpenInBrowser(Seq<char>),
}

impl View for NavAction {
    type V = NavActionView;

    open spec fn view(&self) -> NavActionView {
        match self {
            NavAction::Nothing => NavActionView::Nothing,
            NavAction::StartDownload => NavActionView::StartDownload,
            NavAction::CloseDialog => NavActionView::CloseDialog,
            NavAction::OpenInBrowser(url) => NavActionView::OpenInBrowser(url@),
        }
    }
}

/// The answer to a navigation.
#[derive(Debug)]
pub struct Navigation {
    /// Whether the dialog may load the address.
    pub allow: bool,
    pub action: NavAction,
}

/// Whether an address is one of the web.
pub open spec fn is_web_address(url: UrlView) -> bool {
    url.scheme == "http"@ || url.scheme == "https"@
}

/// What an address that is no action makes the shell do: a link to the web opens in the system's
/// browser, everything else is left to the dialog.
pub open spec fn plain_action(url: UrlView) -> NavActionView {
    if !is_own_page(url) && is_web_address(url) {
        NavActionView::OpenInBrowser(url.whole)
    } else {
        NavActionView::Nothing
    }
}

/// Answers a navigation to an address that is no action. The dialog loads its own page. A link
/// to the web would replace it, so that opens in the system's browser instead.
pub fn route_non_action(url: &UrlParts) -> (nav: Navigation)
    ensures
        nav.action@ == plain_action(url@),
        nav.allow == (is_own_page(url@) || !is_web_address(url@)),
{
    if is_dialog_origin(url) {
        return Navigation { allow: true, action: NavAction::Nothing };
    }
    if text::same_text(url.scheme.as_str(), "http") || text::same_text(
        url.scheme.as_str(),
        "https",
    ) {
        return Navigation { allow: false, action: NavAction::OpenInBrowser(url.whole.clone()) };
    }
    Navigation { allow: true, action: NavAction::Nothing }
}

/// The state of an open dialog.
#[derive(Debug)]
pub struct DialogState {
    /// Whether a download has been started and has not failed since.
    pub started: bool,
}

/// Whether an address is an action of the dialog.
pub open spec fn is_action(url: UrlView) -> bool {
    url.scheme == "tpupdate"@
}

/// Whether an address asks for the download.
pub open spec fn asks_install(url: UrlView) -> bool {
    is_action(url) && url.host == Some("install"@)
}

/// Whether an address asks to close the dialog.
pub open spec fn asks_later(url: UrlView) -> bool {
    is_action(url) && url.host == Some("later"@)
}

/// What a navigation makes the shell do where a download has been started or not.
pub open spec fn nav_action(url: UrlView, started: bool) -> NavActionView {
    if asks_install(url) && !started {
        NavActionView::StartDownload
    } else if asks_later(url) {
        NavActionView::CloseDialog
    } else if is_action(url) {
        NavActionView::Nothing
    } else {
        plain_action(url)
    }
}

impl DialogState {
    /// A dialog that was just opened.
    pub fn new() -> (state: DialogState)
        ensures
            !state.started,
    {
        DialogState { started: false }
    }

    /// Answers a navigation of the dialog. An action is taken and never loaded; a second click on
    /// the download starts no second one.
    pub fn nav_handler(&mut self, url: &UrlParts) -> (nav: Navigation)
        ensures
            nav.action@ == nav_action(url@, old(self).started),
            nav.allow == (!is_action(url@) && (is_own_page(url@) || !is_web_address(url@))),
            final(self).started == (old(self).started || asks_install(url@)),
    {
        if !text::same_text(url.scheme.as_str(), "tpupdate") {
            return route_non_action(url);
        }
        let action = match &url.host {
            Some(host) => {
                if text::same_text(host.as_str(), "install") {
                    proof {
                        reveal_strlit("install");
                        reveal_strlit("later");
                        assert("install"@.len() != "later"@.len());
                    }
                    if self.started {
                        NavAction::Nothing
                    } else {
                        self.started = true;
                        NavAction::StartDownload
                    }
                } else if text::same_text(host.as_str(), "later") {
                    NavAction::CloseDialog
                } else {
                    NavAction::Nothing
                }
            },
            None => NavAction::Nothing,
        };
        Navigation { allow: false, action }
    }

    /// Takes note of a download that failed. The page offers to try again, so the next click on
    /// the download starts a new one. Returns the script that tells the page.
    pub fn download_failed(&mut self, error: &str) -> (script: String)
        ensures
            !final(self).started,
            script@ == error_script(error@),
    {
        self.started = false;
        let literal = match json::quote(error) {
            Some(literal) => literal,
            None => "\"更新失败\"".to_owned(),
        };
        let mut script = "window.__tpError && window.__tpError(".to_owned();
        script.append(literal.as_str());
        script.append(")");
        script
    }
}

/// What is done after a download.
#[derive(Debug)]
pub struct DownloadEnd {
    /// The script that tells the page.
    pub script: String,
    /// Whether the shell restarts, which puts the new version in its place.
    pub restart: bool,
    /// The error that is broadcast.
    pub error: Option<String>,
}

impl DialogState {
    /// Takes note of the end of a download, which failed with `error` where there is one.
    pub fn download_ended(&mut self, error: Option<String>) -> (end: DownloadEnd)
        ensures
            end.script@ == match error {
                None => DONE_SCRIPT@,
                Some(reason) => error_script(reason@),
            },
            error is None ==> end.script@ == "window.__tpDone && window.__tpDone()"@,
            end.restart == (error is None),
            end.error == error,
            final(self).started == (old(self).started && error is None),
    {
        match error {
            None => DownloadEnd { script: DONE_SCRIPT.to_owned(), restart: true, error: None },
            Some(reason) => {
                let script = self.download_failed(reason.as_str());
                DownloadEnd { script, restart: false, error: Some(reason) }
            },
        }
    }
}

/// The script that tells the page of an error.
pub open spec fn error_script(error: Seq<char>) -> Seq<char> {
    "window.__tpError && window.__tpError("@ + json::string_literal(error) + ")"@
}

/// The script that tells the page that the download has started.
pub const START_SCRIPT: &'static str = "window.__tpStart && window.__tpStart()";

/// The script that tells the page that the download is done.
pub const DONE_SCRIPT: &'static str = "window.__tpDone && window.__tpDone()";

/// The script that tells the page how much has been downloaded.
pub open spec fn progress_script(percent: int) -> Seq<char> {
    "window.__tpProgress && window.__tpProgress("@ + text::signed_decimal(percent) + ")"@
}

fn show_progress(percent: i128) -> (script: String)
    requires
        -u64::MAX <= percent <= u64::MAX,
    ensures
        script@ == progress_script(percent as int),
{
    let mut script = "window.__tpProgress && window.__tpProgress(".to_owned();
    script.append(text::signed_decimal_text(percent).as_str());
    script.append(")");
    script
}

/// The progress of a download.
#[derive(Debug)]
pub struct DownloadProgress {
    /// The number of bytes that have arrived.
    pub downloaded: u64,
    /// The percentage that the page shows; -1 where it shows none.
    pub last_percent: i128,
}

/// How much of `total` bytes `downloaded` is, in whole percent, or -1 where the total is not
/// known.
pub open spec fn percent_of(downloaded: int, total: Option<u64>) -> int {
    match total {
        Some(t) => if t > 0 {
            downloaded * 100 / (t as int)
        } else {
            -1
        },
        None => -1,
    }
}

impl DownloadProgress {
    /// A download of which nothing has arrived.
    pub fn new() -> (progress: DownloadProgress)
        ensures
            progress.downloaded == 0,
            progress.last_percent == -1,
    {
        DownloadProgress { downloaded: 0, last_percent: -1 }
    }

    /// Counts a chunk that has arrived. Returns a script for the page where the percentage has
    /// changed with it.
    pub fn on_chunk(&mut self, chunk: usize, total: Option<u64>) -> (script: Option<String>)
        requires
            old(self).downloaded + chunk <= u64::MAX,
            total is Some && total->0 > 0 ==> (old(self).downloaded + chunk) * 100 <= u64::MAX,
        ensures
            final(self).downloaded == old(self).downloaded + chunk,
            final(self).last_percent == percent_of(final(self).downloaded as int, total),
            text::opt_text(script) == (if final(self).last_percent == old(self).last_percent {
                None
            } else {
                Some(progress_script(final(self).last_percent as int))
            }),
    {
        self.downloaded = self.downloaded + chunk as u64;
        let percent: i128 = match total {
            Some(t) => if t > 0 {
                ((self.downloaded * 100) / t) as i128
            } else {
                -1
            },
            None => -1,
        };
        if percent == self.last_percent {
            return None;
        }
        self.last_percent = percent;
        Some(show_progress(percent))
    }
}

/// The scripts of a preview's download that is none: the start, every fifth percent, the end.
pub open spec fn preview_scripts() -> Seq<Seq<char>> {
    seq![START_SCRIPT@] + Seq::new(21, |i: int| progress_script(5 * i)) + seq![DONE_SCRIPT@]
}

/// The scripts that show a preview's page a download, one after another.
pub fn preview_simulate_install() -> (scripts: Vec<String>)
    ensures
        text::texts(scripts@) == preview_scripts(),
{
    let mut scripts: Vec<String> = Vec::new();
    scripts.push(START_SCRIPT.to_owned());
    for i in 0..21
        invariant
            scripts@.len() == 1 + i,
            scripts@[0]@ == START_SCRIPT@,
            forall|k: int| 1 <= k <= i ==> (#[trigger] scripts@[k])@ == progress_script(5 * (k - 1)),
    {
        let percent: i128 = 5 * (i as i128);
        scripts.push(show_progress(percent));
    }
    scripts.push(DONE_SCRIPT.to_owned());
    assert(text::texts(scripts@) == preview_scripts());
    scripts
}

/// Something that happens to an open dialog.
pub enum DialogEvent {
    /// It navigates to an address.
    Navigates(UrlView),
    /// A download that it started has failed.
    DownloadFails,
}

/// Whether a download has been started, and has not failed since, after `events`.
pub open spec fn started_after(started: bool, events: Seq<DialogEvent>) -> bool
    decreases events.len(),
{
    if events.len() == 0 {
        started
    } else {
        match events.last() {
            DialogEvent::Navigates(url) => started_after(started, events.drop_last())
                || asks_install(url),
            DialogEvent::DownloadFails => false,
        }
    }
}

/// How many downloads `events` start.
pub open spec fn downloads_started(started: bool, events: Seq<DialogEvent>) -> nat
    decreases events.len(),
{
    if events.len() == 0 {
        0
    } else {
        let before = downloads_started(started, events.drop_last());
        match events.last() {
            DialogEvent::Navigates(url) => if nav_action(
                url,
                started_after(started, events.drop_last()),
            ) == NavActionView::StartDownload {
                before + 1
            } else {
                before
            },
            DialogEvent::DownloadFails => before,
        }
    }
}

/// How many of `events` are failures of a download.
pub open spec fn downloads_failed(events: Seq<DialogEvent>) -> nat
    decreases events.len(),
{
    if events.len() == 0 {
        0
    } else {
        downloads_failed(events.drop_last()) + if events.last() is DownloadFails {
            1nat
        } else {
            0nat
        }
    }
}

/// However often the buttons are clicked, a dialog starts at most one download, and one more
/// after each that failed: no two run at once.
pub proof fn law_one_download_at_a_time(events: Seq<DialogEvent>)
    ensures
        downloads_started(false, events) <= downloads_failed(events) + 1,
        !started_after(false, events) ==> downloads_started(false, events) <= downloads_failed(
            events,
        ),
    decreases events.len(),
{
    if events.len() > 0 {
        law_one_download_at_a_time(events.drop_last());
    }
}

/// After a download failed, the next click on the download starts a new one.
pub proof fn law_failed_download_can_be_retried(
    started: bool,
    events: Seq<DialogEvent>,
    url: UrlView,
)
    requires
        events.len() > 0,
        events.last() is DownloadFails,
        asks_install(url),
    ensures
        nav_action(url, started_after(started, events)) == NavActionView::StartDownload,
{
}

/// While no more arrives than was announced, the percentage lies between 0 and 100, does not
/// fall, and is 100 exactly when everything has arrived.
pub proof fn law_percentage_follows_the_download(before: int, after: int, total: u64)
    requires
        0 <= before <= after <= total,
        total > 0,
    ensures
        0 <= percent_of(before, Some(total)) <= percent_of(after, Some(total)) <= 100,
        percent_of(after, Some(total)) == 100 <==> after == total,
{
    let t = total as int;
    assert(0 <= before * 100 / t <= after * 100 / t <= 100) by (nonlinear_arith)
        requires
            0 <= before <= after <= t,
            t > 0,
    ;
    assert(after * 100 / t == 100 <==> after == t) by (nonlinear_arith)
        requires
            0 <= after <= t,
            t > 0,
    ;
}

/// The notes that the dialog shows for an update are those of the update, as they are, and nothing
/// where it has none.
pub proof fn law_dialog_shows_the_notes(version: String, notes: String)
    ensures
        (UpdateInfo { version, notes: Some(notes) }).notes_text() == notes@,
        (UpdateInfo { version, notes: None }).notes_text() == Seq::<char>::empty(),
{
}

/// The dialog's page is the same for every logo, every pair of versions and all notes, except that
/// it holds the logo in base64, the two versions escaped and the notes rendered, each in its
/// place. The result is the text around them.
pub proof fn law_page_holds_what_it_is_given() -> (fixed: Seq<Seq<char>>)
    ensures
        fixed.len() == 5,
        forall|logo: Seq<u8>, current: Seq<char>, new_version: Seq<char>, notes: Seq<char>|
            #[trigger] dialog_html(logo, current, new_version, notes) == fixed[0]
                + base64_text::standard_base64(logo) + fixed[1] + html::escaped(new_version)
                + fixed[2] + html::escaped(current) + fixed[3] + markdown::notes_html(notes)
                + fixed[4],
{
    seq![
        dialog_page::PAGE_BEFORE_LOGO@,
        dialog_page::PAGE_BEFORE_NEW_VERSION@,
        dialog_page::PAGE_BEFORE_CURRENT_VERSION@,
        dialog_page::PAGE_BEFORE_NOTES@,
        dialog_page::PAGE_AFTER_NOTES@,
    ]
}

/// What was last set is what is served, and nothing before that.
pub proof fn law_pending_page_is_served(html: String)
    ensures
        (UpdaterHtml { pending: Some(html) }).served() == html@,
        (UpdaterHtml { pending: None }).served() == Seq::<char>::empty(),
{
}

/// The dialog loads the page under the scheme of the dialog.
pub proof fn law_dialog_loads_its_own_scheme()
    ensures
        dialog_url() == "tpupdater://localhost/"@,
        dialog_host() == "tpupdater.localhost"@,
{
    reveal_strlit("tpupdater");
    reveal_strlit("://localhost/");
    reveal_strlit("tpupdater://localhost/");
    reveal_strlit(".localhost");
    reveal_strlit("tpupdater.localhost");
    assert("tpupdater"@ + "://localhost/"@ == "tpupdater://localhost/"@);
    assert("tpupdater"@ + ".localhost"@ == "tpupdater.localhost"@);
}

/// An address is the dialog's own page by its scheme or by its host, an action by its scheme, and
/// one of the web by its scheme.
pub proof fn law_addresses_are_told_apart(url: UrlView)
    ensures
        is_own_page(url) <==> url.scheme == "tpupdater"@ || url.host == Some(
            "tpupdater.localhost"@,
        ),
        is_action(url) <==> url.scheme == "tpupdate"@,
        asks_install(url) <==> url.scheme == "tpupdate"@ && url.host == Some("install"@),
        asks_later(url) <==> url.scheme == "tpupdate"@ && url.host == Some("later"@),
        is_web_address(url) <==> url.scheme == "http"@ || url.scheme == "https"@,
{
    law_dialog_loads_its_own_scheme();
}

/// A click on the download starts one unless one is going on, and a click on the other button
/// closes the dialog whether or not one is. No other action does anything.
pub proof fn law_buttons_do_what_they_say(url: UrlView, started: bool)
    requires
        url.scheme == "tpupdate"@,
    ensures
        url.host == Some("install"@) && !started ==> nav_action(url, started)
            == NavActionView::StartDownload,
        url.host == Some("install"@) && started ==> nav_action(url, started)
            == NavActionView::Nothing,
        url.host == Some("later"@) ==> nav_action(url, started) == NavActionView::CloseDialog,
        url.host != Some("install"@) && url.host != Some("later"@) ==> nav_action(url, started)
            == NavActionView::Nothing,
{
    reveal_strlit("install");
    reveal_strlit("later");
    assert("install"@.len() != "later"@.len());
}

/// A link to the web opens in the system's browser, with the very address, and every other address
/// that is no action does nothing. Neither depends on a download.
pub proof fn law_links_open_in_the_browser(url: UrlView, started: bool)
    requires
        url.scheme != "tpupdate"@,
    ensures
        (url.scheme == "http"@ || url.scheme == "https"@) && url.host != Some(
            "tpupdater.localhost"@,
        ) ==> nav_action(url, started) == NavActionView::OpenInBrowser(url.whole),
        url.host == Some("tpupdater.localhost"@) ==> nav_action(url, started)
            == NavActionView::Nothing,
        url.scheme != "http"@ && url.scheme != "https"@ ==> nav_action(url, started)
            == NavActionView::Nothing,
        plain_action(url) == nav_action(url, started),
{
    law_dialog_loads_its_own_scheme();
    reveal_strlit("tpupdater");
    reveal_strlit("http");
    reveal_strlit("https");
    assert("tpupdater"@.len() == 9);
    assert("http"@.len() == 4);
    assert("https"@.len() == 5);
}

/// The model of what a navigation does holds the address that is opened.
pub proof fn law_model_of_a_navigation_is_complete(action: NavAction)
    ensures
        match action {
            NavAction::Nothing => action@ == NavActionView::Nothing,
            NavAction::StartDownload => action@ == NavActionView::StartDownload,
            NavAction::CloseDialog => action@ == NavActionView::CloseDialog,
            NavAction::OpenInBrowser(url) => action@ == NavActionView::OpenInBrowser(url@),
        },
{
}

/// The page is told of an error by a call whose argument is the error as a JSON string, and of its
/// progress by one whose argument is the percentage.
pub proof fn law_scripts_pass_on_their_argument(error: Seq<char>, percent: int)
    ensures
        error_script(error) == "window.__tpError && window.__tpError("@ + json::string_literal(
            error,
        ) + ")"@,
        progress_script(percent) == "window.__tpProgress && window.__tpProgress("@
            + text::signed_decimal(percent) + ")"@,
{
}

/// The percentage is that of the whole, rounded down, however much has arrived, and -1 where the
/// whole is not known or empty.
pub proof fn law_percentage_is_rounded_down(downloaded: int, total: Option<u64>)
    requires
        downloaded >= 0,
    ensures
        match total {
            Some(t) if t > 0 => percent_of(downloaded, total) * t <= downloaded * 100 < (percent_of(
                downloaded,
                total,
            ) + 1) * t,
            _ => percent_of(downloaded, total) == -1,
        },
{
    if let Some(t) = total {
        if t > 0 {
            let n = t as int;
            let whole = downloaded * 100;
            let q = whole / n;
            assert(q * n <= whole < (q + 1) * n) by (nonlinear_arith)
                requires
                    n > 0,
                    q == whole / n,
            ;
        }
    }
}

/// A preview shows a download from its start over every fifth percent to its end.
pub proof fn law_preview_shows_a_whole_download(i: int)
    ensures
        preview_scripts().len() == 23,
        preview_scripts()[0] == "window.__tpStart && window.__tpStart()"@,
        0 <= i <= 20 ==> preview_scripts()[i + 1] == progress_script(5 * i),
        preview_scripts()[22] == "window.__tpDone && window.__tpDone()"@,
{
}

} // verus!
