use base64::Engine;

use talon_pilot_studio::html::escape_html;
use talon_pilot_studio::markdown::{demote_raw_html, render_notes, NoteEvent};
use talon_pilot_studio::updater_ui::{
    is_dialog_origin, preview_dialog, preview_simulate_install, render_html, route_non_action,
    show_update_dialog, DialogState, DownloadProgress, NavAction, UpdateInfo, UpdaterHtml,
    DONE_SCRIPT, PREVIEW_VERSION, START_SCRIPT,
};
use talon_pilot_studio::urls::UrlParts;

const LOGO: &[u8] = b"\x89PNG\r\n\x1a\n logo";

fn url(s: &str) -> UrlParts {
    let url = url::Url::parse(s).unwrap();
    UrlParts {
        scheme: url.scheme().to_string(),
        host: url.host_str().map(|h| h.to_string()),
        whole: url.as_str().to_string(),
    }
}

#[test]
fn escapes_html_special_chars() {
    assert_eq!(
        escape_html(r#"<script>"x"&'y'</script>"#),
        "&lt;script&gt;&quot;x&quot;&amp;&#39;y&#39;&lt;/script&gt;"
    );
}

#[test]
fn empty_notes_render_empty() {
    assert_eq!(render_notes("   \n  "), "");
    assert_eq!(render_notes(""), "");
}

#[test]
fn renders_markdown_list_and_emphasis() {
    let html = render_notes("- 修复 **A**\n- 新增 B");
    assert!(html.contains("<ul>"));
    assert!(html.contains("<li>修复 <strong>A</strong></li>"));
    assert!(html.contains("<li>新增 B</li>"));
}

#[test]
fn renders_markdown_heading_and_link() {
    let html = render_notes("## 标题\n\n[文档](https://example.com)");
    assert!(html.contains("<h2>标题</h2>"));
    assert!(html.contains(r#"<a href="https://example.com">文档</a>"#));
}

#[test]
fn html_embeds_versions_and_logo() {
    let html = render_html(LOGO, "0.1.0", "0.1.6", "改进若干");
    assert!(html.contains("0.1.6"));
    assert!(html.contains("0.1.0"));
    assert!(html.contains("data:image/png;base64,"));
    assert!(html.contains("tpupdate://install"));
    assert!(html.contains("tpupdate://later"));
    assert!(html.contains("改进若干"));
}

#[test]
fn raw_html_in_notes_is_neutralized() {
    let html = render_notes("正常文本 <script>alert(1)</script> <img src=x onerror=alert(1)>");
    assert!(!html.contains("<script>"));
    assert!(!html.contains("<img src=x"));
    assert!(html.contains("&lt;script&gt;"));
    assert!(html.contains("正常文本"));
}

#[test]
fn notes_have_scroll_mask() {
    let html = render_html(LOGO, "0.1.0", "0.1.6", "a\nb");
    assert!(html.contains("mask-image"));
    assert!(html.contains("--fade-top"));
    assert!(html.contains("overflow-y: auto"));
}

#[test]
fn dialog_origin_recognized_cross_platform() {
    assert!(is_dialog_origin(&url("tpupdater://localhost/")));
    assert!(is_dialog_origin(&url("http://tpupdater.localhost/")));
    assert!(is_dialog_origin(&url("https://tpupdater.localhost/x")));
    assert!(!is_dialog_origin(&url("https://github.com/")));
}

#[test]
fn block_html_is_neutralized_too() {
    let html = render_notes("<div onclick=\"x\">\n<script>\n</div>\n\ntext <b>bold</b>");
    assert!(!html.contains("<div"));
    assert!(!html.contains("<script"));
    assert!(!html.contains("<b>"));
    assert!(html.contains("&lt;div"));
}

#[test]
fn tables_and_strikethrough_are_rendered() {
    let html = render_notes("~~old~~\n\n|a|b|\n|-|-|\n|1|2|");
    assert!(html.contains("<del>old</del>"));
    assert!(html.contains("<table>"));
}

#[test]
fn raw_html_becomes_text_and_the_rest_stays() {
    let events = demote_raw_html(vec![
        NoteEvent::Html("<p>".to_string()),
        NoteEvent::InlineHtml("<b>".to_string()),
        NoteEvent::Text("t".to_string()),
    ]);
    let texts: Vec<&str> = events
        .iter()
        .map(|event| match event {
            NoteEvent::Text(s) => s.as_str(),
            other => panic!("unexpected {other:?}"),
        })
        .collect();
    assert_eq!(texts, ["<p>", "<b>", "t"]);
}

#[test]
fn escaping_is_that_of_replacing_in_turn() {
    for s in ["", "&lt;", "a&b<c>d\"e'f", "中文 & more", "&&&"] {
        let expected = s
            .replace('&', "&amp;")
            .replace('<', "&lt;")
            .replace('>', "&gt;")
            .replace('"', "&quot;")
            .replace('\'', "&#39;");
        assert_eq!(escape_html(s), expected);
    }
}

#[test]
fn logos_of_every_length_are_encoded() {
    for n in 0..7usize {
        let logo: Vec<u8> = (0..n).map(|i| (i * 83 + 250) as u8).collect();
        let html = render_html(&logo, "a", "b", "");
        let encoded = base64::engine::general_purpose::STANDARD.encode(&logo);
        assert!(html.contains(&format!("src=\"data:image/png;base64,{encoded}\" alt")));
    }
}

#[test]
fn versions_are_escaped_and_in_their_places() {
    let html = render_html(LOGO, "<1>", "\"2\"", "- n");
    assert!(html.contains("发现新版本 <b>&quot;2&quot;</b>（当前 &lt;1&gt;）"));
    assert!(html.contains("<div class=\"notes-body\"><ul>\n<li>n</li>\n</ul>\n</div>"));
    assert!(html.starts_with("<!doctype html>"));
    assert!(html.ends_with("</html>"));
    assert!(!html.contains("{{"));
}

#[test]
fn dialog_opens_once() {
    let update = UpdateInfo {
        version: "2.0.0".to_string(),
        notes: None,
    };
    let window = show_update_dialog(false, LOGO, &update, "1.0.0").unwrap();
    assert_eq!(window.url, "tpupdater://localhost/");
    assert_eq!(window.html, render_html(LOGO, "1.0.0", "2.0.0", ""));
    assert!(show_update_dialog(true, LOGO, &update, "1.0.0").is_none());
    assert!(preview_dialog(true, LOGO, "1.0.0").is_none());
    let preview = preview_dialog(false, LOGO, "1.0.0").unwrap();
    assert!(preview.html.contains(PREVIEW_VERSION));
    assert!(preview.html.contains("<strong>tp-agent</strong>"));
}

#[test]
fn pending_page_is_served() {
    let mut html = UpdaterHtml::default();
    assert_eq!(html.serve().body, "");
    html.set("<p>".to_string());
    let page = html.serve();
    assert_eq!(page.body, "<p>");
    assert_eq!(page.content_type, "text/html; charset=utf-8");
}

#[test]
fn links_open_outside_and_the_page_stays() {
    let nav = route_non_action(&url("https://github.com/x"));
    assert!(!nav.allow);
    assert!(matches!(nav.action, NavAction::OpenInBrowser(u) if u == "https://github.com/x"));
    let nav = route_non_action(&url("tpupdater://localhost/"));
    assert!(nav.allow && matches!(nav.action, NavAction::Nothing));
    let nav = route_non_action(&url("about:blank"));
    assert!(nav.allow && matches!(nav.action, NavAction::Nothing));
}

#[test]
fn install_starts_one_download_until_it_fails() {
    let mut dialog = DialogState::new();
    let install = url("tpupdate://install");
    let nav = dialog.nav_handler(&install);
    assert!(!nav.allow && matches!(nav.action, NavAction::StartDownload));
    let nav = dialog.nav_handler(&install);
    assert!(!nav.allow && matches!(nav.action, NavAction::Nothing));
    assert_eq!(
        dialog.download_failed("bad \"sig\""),
        "window.__tpError && window.__tpError(\"bad \\\"sig\\\"\")"
    );
    let nav = dialog.nav_handler(&install);
    assert!(matches!(nav.action, NavAction::StartDownload));
}

#[test]
fn later_closes_and_other_actions_do_nothing() {
    let mut dialog = DialogState::new();
    let nav = dialog.nav_handler(&url("tpupdate://later"));
    assert!(!nav.allow && matches!(nav.action, NavAction::CloseDialog));
    let nav = dialog.nav_handler(&url("tpupdate://other"));
    assert!(!nav.allow && matches!(nav.action, NavAction::Nothing));
    let nav = dialog.nav_handler(&url("tpupdate:install"));
    assert!(!nav.allow && matches!(nav.action, NavAction::Nothing));
    assert!(!dialog.started);
}

#[test]
fn progress_is_told_when_the_percentage_changes() {
    let mut progress = DownloadProgress::new();
    assert_eq!(
        progress.on_chunk(5, Some(1000)).as_deref(),
        Some("window.__tpProgress && window.__tpProgress(0)")
    );
    assert_eq!(progress.on_chunk(4, Some(1000)), None);
    assert_eq!(
        progress.on_chunk(1, Some(1000)).as_deref(),
        Some("window.__tpProgress && window.__tpProgress(1)")
    );
    assert_eq!(
        progress.on_chunk(1, None).as_deref(),
        Some("window.__tpProgress && window.__tpProgress(-1)")
    );
    let mut more_than_announced = DownloadProgress::new();
    assert_eq!(
        more_than_announced.on_chunk(100_000_000_000_000_000, Some(1)).as_deref(),
        Some("window.__tpProgress && window.__tpProgress(10000000000000000000)")
    );
    let mut unknown = DownloadProgress::new();
    assert_eq!(unknown.on_chunk(5, None), None);
    assert_eq!(unknown.on_chunk(5, Some(0)), None);
}

#[test]
fn preview_shows_every_fifth_percent() {
    let scripts = preview_simulate_install();
    assert_eq!(scripts.len(), 23);
    assert_eq!(scripts[0], START_SCRIPT);
    assert_eq!(scripts[1], "window.__tpProgress && window.__tpProgress(0)");
    assert_eq!(scripts[21], "window.__tpProgress && window.__tpProgress(100)");
    assert_eq!(scripts[22], DONE_SCRIPT);
}

#[test]
fn end_of_a_download_restarts_or_reports() {
    let mut dialog = DialogState { started: true };
    let end = dialog.download_ended(None);
    assert_eq!(end.script, DONE_SCRIPT);
    assert!(end.restart && end.error.is_none() && dialog.started);
    let end = dialog.download_ended(Some("x".to_string()));
    assert_eq!(end.script, "window.__tpError && window.__tpError(\"x\")");
    assert!(!end.restart && !dialog.started);
    assert_eq!(end.error.as_deref(), Some("x"));
}

/// Whether a tag is one that the renderer writes for Markdown, with its own attributes only.
fn is_own_tag(tag: &str) -> bool {
    const ELEMENTS: [&str; 22] = [
        "p", "h1", "h2", "h3", "h4", "h5", "h6", "table", "thead", "tbody", "tr", "th", "td",
        "blockquote", "pre", "code", "ol", "ul", "li", "em", "strong", "del",
    ];
    let inner = tag.trim_start_matches('<').trim_end_matches('>');
    if ELEMENTS.contains(&inner.trim_start_matches('/')) || ["br /", "hr /", "/a"].contains(&inner) {
        return true;
    }
    // The even pieces stand outside quotes.
    let pieces: Vec<&str> = inner.split('"').collect();
    let outside: Vec<&str> = pieces.iter().step_by(2).copied().collect();
    match outside.as_slice() {
        ["a href=", ""] | ["a href=", " title=", ""] => true,
        ["img src=", " alt=", " /"] | ["img src=", " alt=", " title=", " /"] => true,
        ["ol start=", ""] => true,
        ["code class=", ""] => pieces[1].starts_with("language-"),
        ["th style=", ""] | ["td style=", ""] => pieces[1].starts_with("text-align: "),
        _ => false,
    }
}

#[test]
fn notes_hold_only_tags_of_the_renderer() {
    let notes = [
        "# a\n\n###### b\n\n- [x] c\n7. d\n\n> e\n\n***\n\nf  \ng ~~h~~ `<i>` *j* **k**",
        "|a|b|c|\n|:-|:-:|-:|\n|<b>|`|`|![x\"<y>](z \"t<>\\\"\")|",
        "```a\"b<c\n</code><script>\n```\n\n    <pre>\n",
        "[l](<a b\"> \"t\\\"'\") <m@n.o> <https://p.q/<r> ![*s* <img onerror=\"x\">](t\"u)",
        "<img src=\"x\" onerror=\"alert(1)\"> <a href=\"x\" onclick=\"y\">z</a> <!-- c --> <?p?>",
        "<div onclick=\"x\">\n\n<svg/onload=x>\n\n</div>\n<iframe src=\"x\">",
        "![a <b onclick=x>](s) [<i>](t) <br/> &lt;u&gt; \\<v\\>",
    ];
    for note in notes {
        let html = render_notes(note);
        for (i, _) in html.match_indices('<') {
            let end = i + html[i..].find('>').unwrap();
            assert!(is_own_tag(&html[i..=end]), "{} in {html}", &html[i..=end]);
        }
    }
}
