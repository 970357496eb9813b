//! The shell around the page: what is injected into a page that loads, which links are opened,
//! and what the tray does.

use vstd::prelude::*;
use vstd::string::*;

use crate::json;
use crate::json::{Field, FieldView};
use crate::platform::Platform;
use crate::text;

verus! {

/// The label of the main window, and the id of the tray icon.
pub const MAIN_LABEL: &'static str = "main";

/// The environment variable that shows a preview of the update dialog at the start.
pub const PREVIEW_UPDATER_ENV: &'static str = "TP_PREVIEW_UPDATER";

/// Whether an address leads to the web.
pub open spec fn is_web_link(url: Seq<char>) -> bool {
    text::begins_with(url, "http://"@) || text::begins_with(url, "https://"@)
}

/// Tells whether a link may be opened in the system's browser. Nothing but the web is: another
/// scheme could reach a local handler.
pub fn open_external(url: &str) -> (allowed: Result<(), String>)
    ensures
        match allowed {
            Ok(()) => is_web_link(url@),
            Err(message) => !is_web_link(url@) && message@ == "拒绝打开非 http(s) 链接: "@ + url@,
        },
{
    if text::starts_with(url, "http://") || text::starts_with(url, "https://") {
        Ok(())
    } else {
        let mut message = "拒绝打开非 http(s) 链接: ".to_owned();
        message.append(url);
        Err(message)
    }
}

/// An item of the tray's menu.
#[derive(Debug)]
pub struct TrayItem {
    pub id: &'static str,
    pub label: &'static str,
}

/// The ids and labels of the tray's menu.
pub open spec fn tray_items() -> Seq<(Seq<char>, Seq<char>)> {
    seq![("show"@, "显示主窗口"@), ("check-update"@, "检查更新"@), ("quit"@, "退出"@)]
}

/// Lists the items of the tray's menu from top to bottom.
pub fn tray_menu() -> (menu: Vec<TrayItem>)
    ensures
        menu@.len() == tray_items().len(),
        forall|i: int|
            0 <= i < menu@.len() ==> ((#[trigger] menu@[i]).id@, menu@[i].label@)
                == tray_items()[i],
{
    let mut menu: Vec<TrayItem> = Vec::new();
    menu.push(TrayItem { id: "show", label: "显示主窗口" });
    menu.push(TrayItem { id: "check-update", label: "检查更新" });
    menu.push(TrayItem { id: "quit", label: "退出" });
    menu
}

/// What a choice from the tray's menu asks for.
#[derive(Clone, Copy, Debug, PartialEq, Eq, Structural)]
pub enum TrayAction {
    ShowMainWindow,
    CheckForUpdate,
    /// Save the geometry of the main window and exit.
    Quit,
    Nothing,
}

/// What the choice of the item with this id asks for.
pub open spec fn tray_action(id: Seq<char>) -> TrayAction {
    if id == "show"@ {
        TrayAction::ShowMainWindow
    } else if id == "check-update"@ {
        TrayAction::CheckForUpdate
    } else if id == "quit"@ {
        TrayAction::Quit
    } else {
        TrayAction::Nothing
    }
}

/// Finds what the choice of a menu item asks for.
pub fn on_menu_event(id: &str) -> (action: TrayAction)
    ensures
        action == tray_action(id@),
{
    if text::same_text(id, "show") {
        TrayAction::ShowMainWindow
    } else if text::same_text(id, "check-update") {
        TrayAction::CheckForUpdate
    } else if text::same_text(id, "quit") {
        TrayAction::Quit
    } else {
        TrayAction::Nothing
    }
}

/// Finds what a click on the tray icon asks for: the main window, when the left button is let go.
pub fn on_tray_click(left_button: bool, released: bool) -> (action: TrayAction)
    ensures
        action == (if left_button && released {
            TrayAction::ShowMainWindow
        } else {
            TrayAction::Nothing
        }),
{
    if left_button && released {
        TrayAction::ShowMainWindow
    } else {
        TrayAction::Nothing
    }
}

/// Every item of the tray's menu asks for something, and no two for the same.
pub proof fn law_every_tray_item_acts(i: int, j: int)
    requires
        0 <= i < tray_items().len(),
        0 <= j < tray_items().len(),
    ensures
        tray_action(tray_items()[i].0) != TrayAction::Nothing,
        tray_action(tray_items()[i].0) == tray_action(tray_items()[j].0) ==> i == j,
{
    reveal_strlit("show");
    reveal_strlit("check-update");
    reveal_strlit("quit");
    assert("show"@[0] != "quit"@[0]);
    assert("show"@.len() != "check-update"@.len());
    assert("quit"@.len() != "check-update"@.len());
}

/// Ends an installation. `joined` is what became of the task that ran it.
pub fn finish_install(joined: Result<Result<String, String>, String>) -> (result: Result<
    String,
    String,
>)
    ensures
        text::result_text(result) == match joined {
            Ok(result) => text::result_text(result),
            Err(reason) => Err("install task join: "@ + reason@),
        },
{
    match joined {
        Ok(result) => result,
        Err(reason) => {
            let mut message = "install task join: ".to_owned();
            message.append(reason.as_str());
            Err(message)
        },
    }
}

/// The script that tells a page the address of the cloud.
pub open spec fn api_base_script(api_base: Seq<char>) -> Seq<char> {
    "window.__TP_API_BASE__ = "@ + json::string_literal(api_base) + ";"@
}

/// The members of what a page is told about the shell.
pub open spec fn client_members(version: Seq<char>, os: Seq<char>) -> Seq<(Seq<char>, FieldView)> {
    seq![("os"@, FieldView::Text(os)), ("version"@, FieldView::Text(version))]
}

/// The script that tells a page which shell it runs in.
pub open spec fn client_info_script(version: Seq<char>, os: Seq<char>) -> Seq<char> {
    "window.__TP_CLIENT_INFO__ = "@ + json::compact_object(client_members(version, os)) + ";"@
}

fn api_base_injection(api_base: &str) -> (script: Option<String>)
    ensures
        text::opt_text(script) == Some(api_base_script(api_base@)),
{
    match json::quote(api_base) {
        Some(literal) => {
            let mut script = "window.__TP_API_BASE__ = ".to_owned();
            script.append(literal.as_str());
            script.append(";");
            Some(script)
        },
        None => None,
    }
}

fn client_info_injection(version: &str, os: &str) -> (script: Option<String>)
    ensures
        text::opt_text(script) == Some(client_info_script(version@, os@)),
{
    let mut fields: Vec<(String, Field)> = Vec::new();
    fields.push(("os".to_owned(), Field::Text(os.to_owned())));
    fields.push(("version".to_owned(), Field::Text(version.to_owned())));
    proof {
        reveal_strlit("os");
        reveal_strlit("version");
        assert(json::members(fields@) == client_members(version@, os@));
        assert(json::names_ascend(client_members(version@, os@)));
    }
    match json::write_object(fields) {
        Some(literal) => {
            let mut script = "window.__TP_CLIENT_INFO__ = ".to_owned();
            script.append(literal.as_str());
            script.append(";");
            Some(script)
        },
        None => None,
    }
}

/// The scripts that run in a page that loads: the address of the cloud, the shell's version and
/// system, and on macOS, where the window has no title bar of its own, a bar to drag it by.
pub open spec fn page_scripts(
    platform: Platform,
    api_base: Seq<char>,
    version: Seq<char>,
    os: Seq<char>,
) -> Seq<Seq<char>> {
    let told = seq![api_base_script(api_base), client_info_script(version, os)];
    if platform == Platform::MacOs {
        told.push(TITLEBAR_DRAG_SCRIPT@)
    } else {
        told
    }
}

/// Lists the scripts that run in a page that loads.
pub fn on_page_load(platform: Platform, api_base: &str, version: &str, os: &str) -> (scripts: Vec<
    String,
>)
    ensures
        text::texts(scripts@) == page_scripts(platform, api_base@, version@, os@),
{
    let mut scripts: Vec<String> = Vec::new();
    if let Some(script) = api_base_injection(api_base) {
        scripts.push(script);
    }
    if let Some(script) = client_info_injection(version, os) {
        scripts.push(script);
    }
    if matches!(platform, Platform::MacOs) {
        scripts.push(TITLEBAR_DRAG_SCRIPT.to_owned());
    }
    assert(text::texts(scripts@) == page_scripts(platform, api_base@, version@, os@));
    scripts
}

/// The script that lays a bar over the top of the page by which the window is dragged. The corner
/// of the window's buttons is left out, and a double click maximizes.
pub const TITLEBAR_DRAG_SCRIPT: &'static str = r#"
(function () {
  var ID = '__tp_titlebar_drag__';
  var BAR_H = 28;     // 拖动条高度,与前端 macOS 避让 padding 对齐
  var LIGHTS_W = 80;  // 左上交通灯宽度,这一段不触发拖动
  function getWin() {
    try { return window.__TAURI__.window.getCurrentWindow(); } catch (e) { return null; }
  }
  function ensure() {
    if (document.getElementById(ID)) return;
    if (!document.body) return;
    var bar = document.createElement('div');
    bar.id = ID;
    bar.style.cssText = [
      'position:fixed','top:0','left:0','right:0','height:' + BAR_H + 'px',
      'z-index:2147483647','user-select:none','-webkit-user-select:none'
    ].join(';');
    bar.addEventListener('mousedown', function (e) {
      if (e.buttons !== 1) return;            // 仅左键
      if (e.clientX < LIGHTS_W) return;       // 交通灯区域放行,不抢点击
      var win = getWin();
      if (!win) return;
      if (e.detail === 2) { win.toggleMaximize(); return; }  // 双击切最大化
      e.preventDefault();
      win.startDragging();
    });
    document.body.appendChild(bar);
  }
  function boot() {
    ensure();
    try {
      var obs = new MutationObserver(ensure);
      obs.observe(document.documentElement, { childList: true, subtree: true });
    } catch (e) {}
  }
  // __TAURI__ 由 initialization script 注入,顶层脚本执行时可能还没就绪,轮询等一下
  if (window.__TAURI__ && window.__TAURI__.window) {
    boot();
  } else {
    var tries = 0;
    var t = setInterval(function () {
      if ((window.__TAURI__ && window.__TAURI__.window) || tries++ > 50) {
        clearInterval(t); boot();
      }
    }, 100);
  }
})();
"#;

/// A link leads to the web exactly where it is one of two schemes with anything behind it.
pub proof fn law_web_links_begin_with_their_scheme(url: Seq<char>, rest: Seq<char>)
    ensures
        is_web_link("http://"@ + rest),
        is_web_link("https://"@ + rest),
        is_web_link(url) <==> (exists|r: Seq<char>| url == #[trigger] ("http://"@ + r)) || (exists|
            r: Seq<char>,
        |
            url == #[trigger] ("https://"@ + r)),
{
    text::law_beginning_is_followed_by_the_rest("http://"@ + rest, "http://"@);
    text::law_beginning_is_followed_by_the_rest("https://"@ + rest, "https://"@);
    text::law_beginning_is_followed_by_the_rest(url, "http://"@);
    text::law_beginning_is_followed_by_the_rest(url, "https://"@);
}

/// Each id of the menu asks for its own, and every other id for nothing.
pub proof fn law_tray_ids_ask_for_their_own(id: Seq<char>)
    ensures
        tray_action(id) == TrayAction::ShowMainWindow <==> id == "show"@,
        tray_action(id) == TrayAction::CheckForUpdate <==> id == "check-update"@,
        tray_action(id) == TrayAction::Quit <==> id == "quit"@,
{
    reveal_strlit("show");
    reveal_strlit("check-update");
    reveal_strlit("quit");
    assert("show"@[0] != "quit"@[0]);
    assert("show"@.len() != "check-update"@.len());
    assert("quit"@.len() != "check-update"@.len());
}

/// Every page is told the address of the cloud first and the shell behind it, on macOS it is given
/// the bar as well, and nothing else.
pub proof fn law_every_page_is_told_the_same(
    platform: Platform,
    api_base: Seq<char>,
    version: Seq<char>,
    os: Seq<char>,
)
    ensures
        ({
            let scripts = page_scripts(platform, api_base, version, os);
            &&& scripts.len() == if platform == Platform::MacOs {
                3int
            } else {
                2
            }
            &&& scripts[0] == "window.__TP_API_BASE__ = "@ + json::string_literal(api_base) + ";"@
            &&& scripts[1] == "window.__TP_CLIENT_INFO__ = "@ + json::compact_object(
                seq![("os"@, FieldView::Text(os)), ("version"@, FieldView::Text(version))],
            ) + ";"@
            &&& platform == Platform::MacOs ==> scripts[2] == TITLEBAR_DRAG_SCRIPT@
        }),
{
}

/// Whatever can be asked for from the tray stands in its menu, under its label.
pub proof fn law_menu_offers_every_action(action: TrayAction)
    requires
        action != TrayAction::Nothing,
    ensures
        tray_items().contains(
            match action {
                TrayAction::ShowMainWindow => ("show"@, "显示主窗口"@),
                TrayAction::CheckForUpdate => ("check-update"@, "检查更新"@),
                _ => ("quit"@, "退出"@),
            },
        ),
        tray_items().len() == 3,
{
    let items = tray_items();
    assert(items[0] == ("show"@, "显示主窗口"@));
    assert(items[1] == ("check-update"@, "检查更新"@));
    assert(items[2] == ("quit"@, "退出"@));
}

} // verus!
