//! The fixed text of the update dialog's page, in the pieces between which the logo, the two
//! version numbers and the release notes stand.

use vstd::prelude::*;

verus! {

/// The page of the update dialog up to the logo's base64 text.
pub const PAGE_BEFORE_LOGO: &'static str = r#"<!doctype html>
<html lang="zh-CN">
<head>
<meta charset="utf-8">
<meta name="viewport" content="width=device-width, initial-scale=1, viewport-fit=cover">
<title>更新</title>
<style>
  :root {
    --brand: #4f46e5;       /* 与产品主色一致的靛蓝 */
    --brand-2: #6366f1;
    --ink: #0f172a;
    --muted: #64748b;
    --line: #e2e8f0;
    --bg: #ffffff;
  }
  @media (prefers-color-scheme: dark) {
    :root { --ink:#f1f5f9; --muted:#94a3b8; --line:#1e293b; --bg:#0b1220; }
  }
  * { box-sizing: border-box; }
  html, body { margin: 0; height: 100%; }
  body {
    font-family: -apple-system, "PingFang SC", "Microsoft YaHei", system-ui, sans-serif;
    background: var(--bg); color: var(--ink);
    display: flex; flex-direction: column; align-items: center;
    text-align: center; padding: 32px 28px 24px; user-select: none;
    -webkit-user-select: none;
  }
  .logo { width: 84px; height: 84px; border-radius: 20px; }
  h1 { font-size: 17px; font-weight: 600; margin: 18px 0 2px; letter-spacing: .2px; }
  .ver { font-size: 13px; color: var(--muted); margin: 0; }
  .ver b { color: var(--ink); font-weight: 600; }
  /* 更新说明:内容过多则滚动。scroll-mask —— 用 mask-image 线性渐变在上下边缘渐隐,
     提示"还有更多";--fade-top/--fade-bottom 由 JS 按滚动位置动态置 0(到顶不隐顶、
     到底不隐底、不溢出则全不隐)。等价 tailwindcss-scroll-mask,纯 CSS/JS 无需工具链。 */
  /* 弹性填充 logo/版本 与 按钮之间的全部空间(flex:1 + min-height:0 让 overflow 在
     flex 容器里生效)。内容少:在该空间内垂直居中(不在底部留空);内容多:`safe center`
     自动回退到顶对齐,可滚动不裁切 + scroll-mask 上下渐隐。 */
  .notes {
    margin: 16px 0 14px; width: 100%; flex: 1 1 auto; min-height: 0; overflow-y: auto;
    display: flex; flex-direction: column; justify-content: safe center;
    font-size: 12.5px; line-height: 1.7; color: var(--muted);
    padding: 10px 12px; text-align: left;
    --fade: 22px; --fade-top: 0px; --fade-bottom: 0px;
    -webkit-mask-image: linear-gradient(to bottom, transparent 0,
      #000 var(--fade-top), #000 calc(100% - var(--fade-bottom)), transparent 100%);
    mask-image: linear-gradient(to bottom, transparent 0,
      #000 var(--fade-top), #000 calc(100% - var(--fade-bottom)), transparent 100%);
    scrollbar-width: thin; scrollbar-color: var(--line) transparent;
  }
  .notes-body { width: 100%; }
  /* Markdown 元素样式(render_notes 产出) */
  .notes-body > :first-child { margin-top: 0; }
  .notes-body > :last-child { margin-bottom: 0; }
  .notes-body h1, .notes-body h2, .notes-body h3 {
    font-size: 13.5px; font-weight: 600; color: var(--ink); margin: 12px 0 6px;
  }
  .notes-body p { margin: 6px 0; }
  .notes-body ul, .notes-body ol { margin: 6px 0; padding-left: 20px; }
  .notes-body li { margin: 3px 0; }
  .notes-body strong, .notes-body b { color: var(--ink); font-weight: 600; }
  .notes-body a { color: var(--brand-2); text-decoration: none; }
  .notes-body a:hover { text-decoration: underline; }
  .notes-body code {
    background: var(--line); border-radius: 4px; padding: 1px 5px; font-size: 11.5px;
    font-family: ui-monospace, SFMono-Regular, Menlo, monospace;
  }
  .notes-body pre { background: var(--line); border-radius: 8px; padding: 10px; overflow-x: auto; }
  .notes-body pre code { background: none; padding: 0; }
  .notes-body hr { border: none; border-top: 1px solid var(--line); margin: 10px 0; }
  .notes::-webkit-scrollbar { width: 6px; }
  .notes::-webkit-scrollbar-thumb { background: var(--line); border-radius: 3px; }
  /* 进度区:下载时显示 */
  .progress-wrap { width: 100%; margin: 14px 0 2px; display: none; }
  .progress-wrap.show { display: block; }
  .bar { height: 6px; border-radius: 999px; background: var(--line); overflow: hidden; }
  .bar > i {
    display: block; height: 100%; width: 0%;
    background: linear-gradient(90deg, var(--brand), var(--brand-2));
    transition: width .2s ease;
  }
  .bar.indeterminate > i { width: 40% !important; animation: slide 1.1s ease-in-out infinite; }
  @keyframes slide { 0%{margin-left:-40%} 100%{margin-left:100%} }
  .progress-text { font-size: 12px; color: var(--muted); margin-top: 8px; }
  .err { color: #dc2626; font-size: 12.5px; margin: 12px 0 0; display: none; }
  .actions { display: flex; gap: 10px; width: 100%; margin-top: 18px; }
  button {
    flex: 1; height: 38px; border-radius: 10px; font-size: 14px; cursor: pointer;
    border: 1px solid var(--line); background: transparent; color: var(--ink);
    transition: opacity .15s, filter .15s;
  }
  button.primary {
    border: none; color: #fff;
    background: linear-gradient(90deg, var(--brand), var(--brand-2));
  }
  button:disabled { opacity: .5; cursor: default; }
  button:not(:disabled):hover { filter: brightness(1.05); }
</style>
</head>
<body>
  <img class="logo" src="data:image/png;base64,"#;

/// From the logo to the number of the new version.
pub const PAGE_BEFORE_NEW_VERSION: &'static str = r#"" alt="Talon Pilot">
  <h1>Talon Pilot Studio 有新版本</h1>
  <p class="ver">发现新版本 <b>"#;

/// From the number of the new version to that of the current one.
pub const PAGE_BEFORE_CURRENT_VERSION: &'static str = r#"</b>（当前 "#;

/// From the number of the current version to the release notes.
pub const PAGE_BEFORE_NOTES: &'static str = r#"）</p>
  <div class="notes"><div class="notes-body">"#;

/// Everything behind the release notes: progress bar, buttons and script.
pub const PAGE_AFTER_NOTES: &'static str = r#"</div></div>

  <div class="progress-wrap" id="pw">
    <div class="bar" id="bar"><i id="barfill"></i></div>
    <div class="progress-text" id="ptext">正在下载…</div>
  </div>
  <p class="err" id="err"></p>

  <div class="actions" id="actions">
    <button id="later" onclick="location.href='tpupdate://later'">稍后</button>
    <button id="now" class="primary" onclick="location.href='tpupdate://install'">立即更新</button>
  </div>

<script>
  var pw = document.getElementById('pw');
  var bar = document.getElementById('bar');
  var fill = document.getElementById('barfill');
  var ptext = document.getElementById('ptext');
  var err = document.getElementById('err');
  var nowBtn = document.getElementById('now');
  var laterBtn = document.getElementById('later');

  // 后端调用:开始下载 —— 禁用按钮、显示进度区(先用 indeterminate 等首个百分比)。
  window.__tpStart = function () {
    nowBtn.disabled = true; laterBtn.disabled = true;
    nowBtn.textContent = '更新中…';
    pw.classList.add('show'); bar.classList.add('indeterminate');
    ptext.textContent = '正在下载…';
  };
  // 后端调用:进度。pct<0 表示服务器没报总长,保持 indeterminate。
  window.__tpProgress = function (pct) {
    if (pct < 0) { bar.classList.add('indeterminate'); ptext.textContent = '正在下载…'; return; }
    bar.classList.remove('indeterminate');
    fill.style.width = pct + '%';
    ptext.textContent = '正在下载… ' + pct + '%';
  };
  // 后端调用:下载安装完成,即将重启。
  window.__tpDone = function () {
    bar.classList.remove('indeterminate'); fill.style.width = '100%';
    ptext.textContent = '下载完成,正在重启应用…';
  };
  // 后端调用:出错,恢复按钮让用户可重试 / 稍后。
  window.__tpError = function (msg) {
    bar.classList.remove('indeterminate');
    pw.classList.remove('show');
    err.style.display = 'block';
    err.textContent = '更新失败:' + msg;
    nowBtn.disabled = false; laterBtn.disabled = false;
    nowBtn.textContent = '重试';
  };

  // scroll-mask:按滚动位置动态控制上下渐隐(到顶不隐顶 / 到底不隐底 / 不溢出全不隐)。
  var notes = document.querySelector('.notes');
  function updateMask() {
    if (!notes) return;
    var fade = getComputedStyle(notes).getPropertyValue('--fade').trim() || '22px';
    var scrollable = notes.scrollHeight > notes.clientHeight + 1;
    if (!scrollable) {
      notes.style.setProperty('--fade-top', '0px');
      notes.style.setProperty('--fade-bottom', '0px');
      return;
    }
    var atTop = notes.scrollTop <= 0;
    var atBottom = notes.scrollTop + notes.clientHeight >= notes.scrollHeight - 1;
    notes.style.setProperty('--fade-top', atTop ? '0px' : fade);
    notes.style.setProperty('--fade-bottom', atBottom ? '0px' : fade);
  }
  if (notes) {
    updateMask();
    notes.addEventListener('scroll', updateMask, { passive: true });
    window.addEventListener('resize', updateMask);
  }
</script>
</body>
</html>"#;

} // verus!
