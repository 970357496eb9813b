//! The client's settings: where they are stored, how the file is read, and which of environment,
//! file and built-in default wins.
//!
//! Each setting is resolved in this order:
//!   1. the environment variable, for development and CI;
//!   2. the user's `config.toml`;
//!   3. the built-in default.

use vstd::prelude::*;
use vstd::string::*;

use crate::platform::{join_path, HostEnv, Platform};
use crate::platform;
use crate::text;
use crate::text::CharSet;

verus! {

/// The cloud address that is used where neither the environment nor the user names one.
pub const DEFAULT_API_BASE: &'static str = "https://agents.deeplan.ai";

/// The environment variable that overrides `api_base`.
pub const API_BASE_ENV: &'static str = "TP_API_BASE";

/// The environment variable that overrides `agent_download_base`.
pub const AGENT_DOWNLOAD_BASE_ENV: &'static str = "TP_AGENT_DOWNLOAD_BASE";

/// The environment variable that overrides `update_endpoint`.
pub const UPDATE_ENDPOINT_ENV: &'static str = "TP_UPDATE_ENDPOINT";

/// The directory of the shell's own files.
pub open spec fn config_dir(platform: Platform, env: HostEnv) -> Option<Seq<char>> {
    if platform == Platform::Windows {
        match env.app_data {
            Some(base) => Some(platform::path_below(platform, base@, "talon-pilot-studio"@)),
            None => None,
        }
    } else {
        match env.home {
            Some(home) => Some(
                platform::path_below(
                    platform,
                    platform::path_below(platform, home@, ".config"@),
                    "talon-pilot-studio"@,
                ),
            ),
            None => None,
        }
    }
}

/// The path of the file `name` in the directory of the shell's own files.
pub open spec fn config_file(platform: Platform, env: HostEnv, name: Seq<char>) -> Option<
    Seq<char>,
> {
    match config_dir(platform, env) {
        Some(dir) => Some(platform::path_below(platform, dir, name)),
        None => None,
    }
}

/// The directory of the shell's own files: `%APPDATA%\talon-pilot-studio` on Windows,
/// `~/.config/talon-pilot-studio` elsewhere. There is none where the variable is not set.
pub fn app_config_dir(platform: Platform, env: &HostEnv) -> (dir: Option<String>)
    ensures
        text::opt_text(dir) == config_dir(platform, *env),
{
    if matches!(platform, Platform::Windows) {
        match &env.app_data {
            Some(base) => Some(join_path(platform, base.as_str(), "talon-pilot-studio")),
            None => None,
        }
    } else {
        match &env.home {
            Some(home) => {
                let config = join_path(platform, home.as_str(), ".config");
                Some(join_path(platform, config.as_str(), "talon-pilot-studio"))
            },
            None => None,
        }
    }
}

/// The path of a file in the directory of the shell's own files.
pub fn app_config_file(platform: Platform, env: &HostEnv, name: &str) -> (path: Option<String>)
    ensures
        text::opt_text(path) == config_file(platform, *env, name@),
{
    match app_config_dir(platform, env) {
        Some(dir) => Some(join_path(platform, dir.as_str(), name)),
        None => None,
    }
}

/// The path of the user's settings file.
pub fn config_path(platform: Platform, env: &HostEnv) -> (path: Option<String>)
    ensures
        text::opt_text(path) == config_file(platform, *env, "config.toml"@),
{
    app_config_file(platform, env, "config.toml")
}

/// Whether `c` is one of the quotes that may stand around a value.
pub open spec fn is_quote(c: char) -> bool {
    c == '"' || c == '\''
}

/// A value without the comment behind it. Only a quoted value can have one: it begins with a `#`
/// behind the closing quote, with or without white space between the two.
pub open spec fn without_comment(value: Seq<char>) -> Seq<char> {
    let length = text::length_before(value.skip(1), value[0]) as int;
    let behind = text::trimmed_start(value.skip(length + 2), CharSet::WhiteSpace);
    if value.len() > 0 && is_quote(value[0]) && length + 1 < value.len() && text::begins_with(
        behind,
        seq!['#'],
    ) {
        value.take(length + 2)
    } else {
        value
    }
}

/// The value that one line of a settings file gives to `key`: the text behind `<key> =` without
/// a comment behind it and without the quotes and white space around it, unless nothing is left of
/// it. A line that starts with `#` gives none.
pub open spec fn line_value(line: Seq<char>, key: Seq<char>) -> Option<Seq<char>> {
    let content = text::trimmed(line);
    let rest = text::trimmed_start(content.skip(key.len() as int), CharSet::WhiteSpace);
    let unquoted = text::trimmed_both(
        text::trimmed_both(without_comment(text::trimmed(rest.skip(1))), CharSet::Only('"')),
        CharSet::Only('\''),
    );
    if text::begins_with(content, seq!['#']) || !text::begins_with(content, key) || !text::begins_with(
        rest,
        seq!['='],
    ) || text::trimmed(unquoted).len() == 0 {
        None
    } else {
        Some(text::trimmed(unquoted))
    }
}

/// The value that the first of `lines` with a value for `key` gives to it.
pub open spec fn first_value(lines: Seq<Seq<char>>, key: Seq<char>) -> Option<Seq<char>>
    decreases lines.len(),
{
    if lines.len() == 0 {
        None
    } else if line_value(lines[0], key) is Some {
        line_value(lines[0], key)
    } else {
        first_value(lines.drop_first(), key)
    }
}

/// The value that a settings file gives to `key`.
pub open spec fn config_value(content: Seq<char>, key: Seq<char>) -> Option<Seq<char>> {
    first_value(text::lines_of(content), key)
}

/// Removes the comment behind a quoted value.
fn strip_comment<'a>(value: &'a str) -> (r: &'a str)
    ensures
        r@ == without_comment(value@),
{
    proof {
        reveal_strlit("#");
        assert("#"@ == seq!['#']);
    }
    let chars = text::chars_of(value);
    if chars.len() == 0 || !(chars[0] == '"' || chars[0] == '\'') {
        return value;
    }
    let mut end: usize = 1;
    while end < chars.len() && chars[end] != chars[0]
        invariant
            1 <= end <= chars@.len(),
            forall|k: int| 1 <= k < end ==> (#[trigger] chars@[k]) != chars@[0],
        decreases chars.len() - end,
    {
        end = end + 1;
    }
    proof {
        text::lemma_length_before(value@.skip(1), value@[0], (end - 1) as nat);
    }
    if end < chars.len() {
        let behind = value.substring_char(end + 1, chars.len());
        assert(behind@ == value@.skip(end + 1));
        if text::starts_with(text::trim_start_set(behind, CharSet::WhiteSpace), "#") {
            let quoted = value.substring_char(0, end + 1);
            assert(quoted@ == value@.take(end + 1));
            return quoted;
        }
    }
    value
}

/// Reads the value that one line gives to `key`.
fn parse_config_line(line: &str, key: &str) -> (value: Option<String>)
    ensures
        text::opt_text(value) == line_value(line@, key@),
{
    proof {
        reveal_strlit("#");
        reveal_strlit("=");
        assert("#"@ == seq!['#']);
        assert("="@ == seq!['=']);
    }
    let content = text::trim(line);
    if text::starts_with(content, "#") {
        return None;
    }
    match text::strip_prefix(content, key) {
        Some(behind_key) => match text::strip_prefix(
            text::trim_start_set(behind_key, CharSet::WhiteSpace),
            "=",
        ) {
            Some(rest) => {
                let unquoted = text::trim_set(
                    text::trim_set(strip_comment(text::trim(rest)), CharSet::Only('"')),
                    CharSet::Only('\''),
                );
                let value = text::trim(unquoted);
                if value.is_empty() {
                    None
                } else {
                    Some(value.to_owned())
                }
            },
            None => None,
        },
        None => None,
    }
}

/// Reads the value of `key` from the text of a settings file. Behind the key stands `=`, with or
/// without white space before it, so that a longer key is not taken for a shorter one.
pub fn parse_config_value(content: &str, key: &str) -> (value: Option<String>)
    ensures
        text::opt_text(value) == config_value(content@, key@),
{
    let all = text::lines(content);
    let ghost expected = text::lines_of(content@);
    assert(expected.skip(0) == expected);
    for i in 0..all.len()
        invariant
            expected == text::lines_of(content@),
            all@.len() == expected.len(),
            forall|k: int| 0 <= k < all@.len() ==> (#[trigger] all@[k])@ == expected[k],
            config_value(content@, key@) == first_value(expected.skip(i as int), key@),
    {
        assert(expected.skip(i as int).drop_first() == expected.skip(i + 1));
        let value = parse_config_line(all[i], key);
        if value.is_some() {
            return value;
        }
    }
    None
}

/// The value that the settings file gives to `key`, where there is such a file.
pub open spec fn configured(content: Option<&str>, key: Seq<char>) -> Option<Seq<char>> {
    match content {
        Some(text) => config_value(text@, key),
        None => None,
    }
}

/// Reads the value of `key` from the settings file, of which `content` is the text if it could
/// be read.
pub fn read_configured(content: Option<&str>, key: &str) -> (value: Option<String>)
    ensures
        text::opt_text(value) == configured(content, key@),
{
    match content {
        Some(text) => parse_config_value(text, key),
        None => None,
    }
}

/// An address without slashes at its end.
pub open spec fn without_slashes(address: Seq<char>) -> Seq<char> {
    text::trimmed_end(address, CharSet::Only('/'))
}

/// What a setting resolves to: the variable of the environment where it is set and not blank,
/// else the value from the settings file; in either case without slashes at its end.
pub open spec fn resolved(env: Option<&str>, configured: Option<Seq<char>>) -> Option<Seq<char>> {
    if env is Some && text::trimmed(env->0@).len() > 0 {
        Some(without_slashes(text::trimmed(env->0@)))
    } else {
        match configured {
            Some(value) => Some(without_slashes(value)),
            None => None,
        }
    }
}

/// Resolves a setting from the value of its environment variable and from the settings file.
pub fn resolve(env: Option<&str>, content: Option<&str>, key: &str) -> (value: Option<String>)
    ensures
        text::opt_text(value) == resolved(env, configured(content, key@)),
{
    if let Some(set) = env {
        let set = text::trim(set);
        if !set.is_empty() {
            return Some(text::trim_end_set(set, CharSet::Only('/')).to_owned());
        }
    }
    match read_configured(content, key) {
        Some(value) => Some(text::trim_end_set(value.as_str(), CharSet::Only('/')).to_owned()),
        None => None,
    }
}

/// The cloud address: `TP_API_BASE`, else `api_base` from the settings file, else the default.
pub open spec fn api_base(env: Option<&str>, content: Option<&str>) -> Seq<char> {
    match resolved(env, configured(content, "api_base"@)) {
        Some(value) => value,
        None => without_slashes(DEFAULT_API_BASE@),
    }
}

/// Resolves the cloud address that is injected into the page.
pub fn resolve_api_base(env: Option<&str>, content: Option<&str>) -> (base: String)
    ensures
        base@ == api_base(env, content),
{
    match resolve(env, content, "api_base") {
        Some(value) => value,
        None => text::trim_end_set(DEFAULT_API_BASE, CharSet::Only('/')).to_owned(),
    }
}

/// Resolves the address of a mirror that holds the release assets side by side. Without one the
/// assets come from the release page.
pub fn resolve_agent_download_base(env: Option<&str>, content: Option<&str>) -> (base: Option<
    String,
>)
    ensures
        text::opt_text(base) == resolved(env, configured(content, "agent_download_base"@)),
{
    resolve(env, content, "agent_download_base")
}

/// Resolves the address of the file that announces the newest version of the shell. Without one
/// the built-in address is asked.
pub fn resolve_update_endpoint(env: Option<&str>, content: Option<&str>) -> (endpoint: Option<
    String,
>)
    ensures
        text::opt_text(endpoint) == resolved(env, configured(content, "update_endpoint"@)),
{
    resolve(env, content, "update_endpoint")
}

/// A line for a longer key gives a shorter one no value: what follows the key, with or without
/// white space before it, is `=`.
pub proof fn law_longer_key_is_not_taken(line: Seq<char>, key: Seq<char>)
    requires
        text::begins_with(text::trimmed(line), key),
        text::trimmed(line).len() > key.len(),
        text::trimmed(line)[key.len() as int] != '=',
        !text::is_white_space(text::trimmed(line)[key.len() as int]),
    ensures
        line_value(line, key) is None,
{
    let rest = text::trimmed(line).skip(key.len() as int);
    assert(text::trimmed_start(rest, CharSet::WhiteSpace) == rest);
    assert(rest.take(1)[0] != '=');
}

/// A line that is a comment gives no key a value.
pub proof fn law_comment_gives_nothing(line: Seq<char>, key: Seq<char>)
    requires
        text::begins_with(text::trimmed(line), seq!['#']),
    ensures
        line_value(line, key) is None,
{
}

/// A value is never blank, and has no white space around it.
pub proof fn law_value_is_trimmed_and_not_blank(content: Seq<char>, key: Seq<char>)
    ensures
        match config_value(content, key) {
            Some(value) => value.len() > 0 && text::trimmed(value) == value,
            None => true,
        },
{
    lemma_first_value_is_trimmed(text::lines_of(content), key);
}

proof fn lemma_first_value_is_trimmed(lines: Seq<Seq<char>>, key: Seq<char>)
    ensures
        match first_value(lines, key) {
            Some(value) => value.len() > 0 && text::trimmed(value) == value,
            None => true,
        },
    decreases lines.len(),
{
    if lines.len() > 0 {
        if line_value(lines[0], key) is Some {
            let content = text::trimmed(lines[0]);
            let rest = text::trimmed_start(content.skip(key.len() as int), CharSet::WhiteSpace);
            let unquoted = text::trimmed_both(
                text::trimmed_both(
                    without_comment(text::trimmed(rest.skip(1))),
                    CharSet::Only('"'),
                ),
                CharSet::Only('\''),
            );
            text::lemma_trimmed_both(unquoted, CharSet::WhiteSpace);
        } else {
            lemma_first_value_is_trimmed(lines.drop_first(), key);
        }
    }
}

/// The first line with a value for a key decides; lines without one change nothing.
pub proof fn law_first_value_decides(
    before: Seq<Seq<char>>,
    after: Seq<Seq<char>>,
    key: Seq<char>,
)
    ensures
        first_value(before + after, key) == match first_value(before, key) {
            Some(value) => Some(value),
            None => first_value(after, key),
        },
    decreases before.len(),
{
    if before.len() == 0 {
        assert(before + after == after);
    } else {
        assert((before + after)[0] == before[0]);
        assert((before + after).drop_first() == before.drop_first() + after);
        law_first_value_decides(before.drop_first(), after, key);
    }
}

/// Whether a text can be a key: it begins neither with white space nor as a comment does.
pub open spec fn is_key(key: Seq<char>) -> bool {
    key.len() > 0 && !text::is_white_space(key[0]) && key[0] != '#'
}

/// Whether a text can stand between quotes as a value: it is not empty, holds no `"`, and neither
/// begins nor ends with white space or with `'`.
pub open spec fn is_plain_value(value: Seq<char>) -> bool {
    &&& value.len() > 0
    &&& !value.contains('"')
    &&& !text::is_white_space(value[0]) && !text::is_white_space(value.last())
    &&& value[0] != '\'' && value.last() != '\''
}

/// Whether a text is empty or white space.
pub open spec fn is_blank(s: Seq<char>) -> bool {
    text::consists_of(s, CharSet::WhiteSpace)
}

/// The line `<key> = "<value>"`, with `before` and `after` around the sign, and `tail` behind it.
pub open spec fn setting(
    key: Seq<char>,
    before: Seq<char>,
    after: Seq<char>,
    value: Seq<char>,
    tail: Seq<char>,
) -> Seq<char> {
    key + before + seq!['='] + after + in_quotes(value) + tail
}

/// A value between quotes.
pub open spec fn in_quotes(value: Seq<char>) -> Seq<char> {
    seq!['"'] + value + seq!['"']
}

/// Whether nothing but white space or a comment, with white space in front of it or not, stands in
/// a text.
pub open spec fn is_comment_tail(tail: Seq<char>) -> bool {
    let rest = text::trimmed_start(tail, CharSet::WhiteSpace);
    rest.len() == 0 || rest[0] == '#'
}

proof fn lemma_comment_comes_off(value: Seq<char>, tail: Seq<char>)
    requires
        !value.contains('"'),
        is_comment_tail(tail),
        tail.len() > 0 ==> !text::is_white_space(tail.last()),
    ensures
        without_comment(in_quotes(value) + tail) == in_quotes(value),
{
    let given = in_quotes(value) + tail;
    assert forall|k: int| 0 <= k < value.len() implies given.skip(1)[k] != '"' by {
        assert(given[k + 1] == value[k]);
        assert(value.contains(value[k]));
    }
    assert(given.skip(1)[value.len() as int] == '"');
    text::lemma_length_before(given.skip(1), '"', value.len());
    assert(given.skip(value.len() + 2int) == tail);
    assert(given.take(value.len() + 2int) == in_quotes(value));
    let rest = text::trimmed_start(tail, CharSet::WhiteSpace);
    if rest.len() > 0 {
        assert(rest.take(1) == seq!['#']);
    } else if tail.len() > 0 {
        text::lemma_trimmed_start(tail, CharSet::WhiteSpace);
        assert(tail.take(tail.len() as int) == tail);
        assert(CharSet::WhiteSpace.has(tail[tail.len() - 1]));
    } else {
        assert(given == in_quotes(value));
    }
}

proof fn lemma_quotes_come_off(value: Seq<char>)
    requires
        is_plain_value(value),
    ensures
        text::trimmed_both(
            text::trimmed_both(in_quotes(value), CharSet::Only('"')),
            CharSet::Only('\''),
        ) == value,
        text::trimmed(value) == value,
{
    let double = CharSet::Only('"');
    let open = value + seq!['"'];
    assert(value.contains(value[0]) && value.contains(value.last()));
    assert(in_quotes(value).drop_first() == open);
    assert(open[0] == value[0]);
    assert(text::trimmed_start(open, double) == open);
    assert(text::trimmed_start(in_quotes(value), double) == open);
    assert(open.drop_last() == value);
    assert(text::trimmed_end(value, double) == value);
    assert(text::trimmed_end(open, double) == value);
}

/// What is left of the tail of a line when the white space at the end of the line is gone.
proof fn lemma_tail_kept(head: Seq<char>, tail: Seq<char>) -> (kept: Seq<char>)
    requires
        head.len() > 0,
        !text::is_white_space(head.last()),
        is_comment_tail(tail),
    ensures
        text::trimmed_end(head + tail, CharSet::WhiteSpace) == head + kept,
        is_comment_tail(kept),
        kept.len() > 0 ==> !text::is_white_space(kept.last()),
{
    let white = CharSet::WhiteSpace;
    let line = head + tail;
    let content = text::trimmed_end(line, white);
    let rest = text::trimmed_start(tail, white);
    text::lemma_trimmed_start(tail, white);
    text::lemma_trimmed_end(line, white);
    lemma_trimmed_end_keeps(line, white, head.len());
    let kept = tail.take(content.len() - head.len());
    assert(content == head + kept);
    let blank = tail.take(tail.len() - rest.len());
    if kept.len() > 0 {
        assert(kept.last() == content.last());
        if rest.len() == 0 {
            assert(blank[kept.len() - 1] == kept.last());
        } else {
            assert(line[(head.len() + blank.len()) as int] == rest[0]);
            lemma_trimmed_end_keeps(line, white, head.len() + blank.len() + 1);
            let words = kept.skip(blank.len() as int);
            assert(kept == blank + words);
            assert(words[0] == rest[0]);
            text::lemma_trimmed_start_of(blank, words, white);
        }
    } else {
        assert(text::trimmed_start(kept, white) == kept);
    }
    kept
}

/// What is written into the settings file as `<key> = "<value>"`, with any white space around the
/// sign and with or without a comment behind it, is read back as it was.
pub proof fn law_written_setting_is_read_back(
    key: Seq<char>,
    before: Seq<char>,
    after: Seq<char>,
    value: Seq<char>,
    tail: Seq<char>,
)
    requires
        is_key(key),
        is_blank(before),
        is_blank(after),
        is_plain_value(value),
        is_comment_tail(tail),
    ensures
        line_value(setting(key, before, after, value, tail), key) == Some(value),
{
    let white = CharSet::WhiteSpace;
    let line = setting(key, before, after, value, tail);
    let head = key + before + seq!['='] + after + in_quotes(value);
    assert(line == head + tail);
    assert(head.last() == '"');
    let kept = lemma_tail_kept(head, tail);
    let content = text::trimmed(line);
    assert(line[0] == key[0]);
    assert(text::trimmed_start(line, white) == line);
    let given = in_quotes(value) + kept;
    let behind_sign = after + given;
    let behind_key = seq!['='] + behind_sign;
    assert(content == key + (before + behind_key));
    assert(content.take(key.len() as int) == key);
    assert(content.take(1)[0] == key[0]);
    assert(content.skip(key.len() as int) == before + behind_key);
    text::lemma_trimmed_start_of(before, behind_key, white);
    assert(behind_key.take(1) == seq!['=']);
    assert(behind_key.skip(1) == behind_sign);
    assert(given[0] == '"');
    text::lemma_trimmed_start_of(after, given, white);
    assert(given.last() == (if kept.len() > 0 {
        kept.last()
    } else {
        '"'
    }));
    assert(text::trimmed(behind_sign) == given);
    lemma_comment_comes_off(value, kept);
    lemma_quotes_come_off(value);
}

proof fn lemma_trimmed_end_keeps(s: Seq<char>, set: CharSet, kept: nat)
    requires
        0 < kept <= s.len(),
        !set.has(s[kept - 1]),
    ensures
        text::trimmed_end(s, set).len() >= kept,
    decreases s.len(),
{
    if set.has(s.last()) {
        lemma_trimmed_end_keeps(s.drop_last(), set, kept);
    }
}

/// What a setting resolves to does not end with a slash.
pub proof fn law_resolved_address_has_no_slash_at_its_end(
    env: Option<&str>,
    configured: Option<Seq<char>>,
)
    ensures
        match resolved(env, configured) {
            Some(address) => address.len() > 0 ==> address.last() != '/',
            None => true,
        },
{
    if env is Some {
        text::lemma_trimmed_end(text::trimmed(env->0@), CharSet::Only('/'));
    }
    if configured is Some {
        text::lemma_trimmed_end(configured->0, CharSet::Only('/'));
    }
}

/// Where the variable of the environment is set and not blank, the settings file does not matter.
pub proof fn law_environment_comes_first(
    env: &str,
    one: Option<Seq<char>>,
    other: Option<Seq<char>>,
)
    requires
        text::trimmed(env@).len() > 0,
    ensures
        resolved(Some(env), one) == resolved(Some(env), other),
        resolved(Some(env), one) is Some,
{
}

/// A variable of the environment that is blank counts as not set.
pub proof fn law_blank_variable_is_ignored(env: &str, configured: Option<Seq<char>>)
    requires
        text::trimmed(env@).len() == 0,
    ensures
        resolved(Some(env), configured) == resolved(None, configured),
{
}

/// The cloud address is the default where neither the environment nor the settings file names one.
pub proof fn law_default_comes_last(content: Option<&str>)
    requires
        configured(content, "api_base"@) is None,
    ensures
        api_base(None, content) == DEFAULT_API_BASE@,
{
    reveal_strlit("https://agents.deeplan.ai");
}

/// The shell's own files are in a directory of their own: below the application data on Windows,
/// below `.config` in the user's directory elsewhere.
pub proof fn law_own_files_have_their_directory(platform: Platform, env: HostEnv, name: Seq<char>)
    ensures
        match if platform == Platform::Windows {
            env.app_data
        } else {
            env.home
        } {
            Some(base) => {
                let above = if platform == Platform::Windows {
                    base@
                } else {
                    platform::path_below(platform, base@, ".config"@)
                };
                let dir = platform::path_below(platform, above, "talon-pilot-studio"@);
                &&& config_dir(platform, env) == Some(dir)
                &&& config_file(platform, env, name) == Some(
                    platform::path_below(platform, dir, name),
                )
            },
            None => config_dir(platform, env) is None && config_file(platform, env, name) is None,
        },
{
}

/// A variable of the environment that is not blank is what a setting resolves to, without the
/// white space around it and the slashes behind it, and with nothing else changed.
pub proof fn law_environment_is_taken_as_it_is(env: &str, configured: Option<Seq<char>>) -> (off:
    Seq<char>)
    requires
        text::trimmed(env@).len() > 0,
    ensures
        resolved(Some(env), configured) is Some,
        text::trimmed(env@) == resolved(Some(env), configured)->0 + off,
        text::consists_of(off, CharSet::Only('/')),
{
    lemma_slashes_come_off(text::trimmed(env@))
}

/// Without a variable of the environment, a setting resolves to what the settings file gives it,
/// without the slashes behind it, and to nothing where the file gives it nothing.
pub proof fn law_file_is_taken_as_it_is(value: Seq<char>) -> (off: Seq<char>)
    ensures
        resolved(None, Some(value)) is Some,
        value == resolved(None, Some(value))->0 + off,
        text::consists_of(off, CharSet::Only('/')),
        resolved(None, None) is None,
{
    lemma_slashes_come_off(value)
}

proof fn lemma_slashes_come_off(address: Seq<char>) -> (off: Seq<char>)
    ensures
        address == without_slashes(address) + off,
        text::consists_of(off, CharSet::Only('/')),
{
    text::lemma_trimmed_end(address, CharSet::Only('/'));
    text::lemma_trimmed_off_the_end(address, CharSet::Only('/'));
    let off = address.skip(without_slashes(address).len() as int);
    assert(address == without_slashes(address) + off);
    off
}

/// The cloud address is what its setting resolves to, where it does.
pub proof fn law_api_base_is_its_setting(env: Option<&str>, content: Option<&str>)
    ensures
        match resolved(env, configured(content, "api_base"@)) {
            Some(address) => api_base(env, content) == address,
            None => api_base(env, content) == DEFAULT_API_BASE@,
        },
{
    reveal_strlit("https://agents.deeplan.ai");
}

/// A settings file gives a key what its text does, and one that could not be read gives nothing.
pub proof fn law_file_gives_what_its_text_does(text: &str, key: Seq<char>)
    ensures
        configured(Some(text), key) == config_value(text@, key),
        configured(None, key) is None,
{
}

proof fn lemma_first_value_at(lines: Seq<Seq<char>>, key: Seq<char>, i: int)
    requires
        0 <= i <= lines.len(),
        forall|k: int| 0 <= k < i ==> line_value(#[trigger] lines[k], key) is None,
    ensures
        first_value(lines, key) == first_value(lines.skip(i), key),
    decreases i,
{
    if i == 0 {
        assert(lines.skip(0) == lines);
    } else {
        assert(line_value(lines[0], key) is None);
        let rest = lines.drop_first();
        assert forall|k: int| 0 <= k < i - 1 implies line_value(#[trigger] rest[k], key) is None by {
            assert(rest[k] == lines[k + 1]);
        }
        lemma_first_value_at(rest, key, i - 1);
        assert(rest.skip(i - 1) == lines.skip(i));
    }
}

/// The first line of a settings file that gives a key a value gives it to the file, and a file
/// without such a line gives none.
pub proof fn law_first_line_with_a_value_decides(content: Seq<char>, key: Seq<char>, i: int)
    requires
        0 <= i <= text::lines_of(content).len(),
        forall|k: int|
            0 <= k < i ==> line_value(#[trigger] text::lines_of(content)[k], key) is None,
        i < text::lines_of(content).len() ==> line_value(text::lines_of(content)[i], key) is Some,
    ensures
        i < text::lines_of(content).len() ==> config_value(content, key) == line_value(
            text::lines_of(content)[i],
            key,
        ),
        i == text::lines_of(content).len() ==> config_value(content, key) is None,
{
    let lines = text::lines_of(content);
    lemma_first_value_at(lines, key, i);
    if i < lines.len() {
        assert(lines.skip(i)[0] == lines[i]);
    }
}

/// A line gives a key a value only where the key stands at its beginning, followed by the sign,
/// and the value stands behind that.
pub proof fn law_value_stands_in_its_line(line: Seq<char>, key: Seq<char>) -> (parts: (
    Seq<char>,
    Seq<char>,
    Seq<char>,
))
    requires
        line_value(line, key) is Some,
    ensures
        is_blank(parts.0),
        text::trimmed(line) == key + parts.0 + seq!['='] + parts.1 + line_value(line, key)->0
            + parts.2,
{
    let content = text::trimmed(line);
    let behind_key = content.skip(key.len() as int);
    let rest = text::trimmed_start(behind_key, CharSet::WhiteSpace);
    text::lemma_trimmed_start(behind_key, CharSet::WhiteSpace);
    let blank = behind_key.take(behind_key.len() - rest.len());
    let given = rest.skip(1);
    let value = line_value(line, key)->0;
    let (front, end) = lemma_value_stands_in_what_is_given(given);
    assert(rest.take(1) == seq!['=']);
    assert(rest == seq!['='] + given);
    assert(behind_key == blank + rest);
    assert(content.take(key.len() as int) == key);
    assert(content == key + behind_key);
    assert(content == key + blank + seq!['='] + front + value + end);
    (blank, front, end)
}

proof fn lemma_value_stands_in_what_is_given(given: Seq<char>) -> (around: (Seq<char>, Seq<char>))
    ensures
        ({
            let unquoted = text::trimmed_both(
                text::trimmed_both(without_comment(text::trimmed(given)), CharSet::Only('"')),
                CharSet::Only('\''),
            );
            given == around.0 + text::trimmed(unquoted) + around.1
        }),
{
    let (g0, g1) = text::law_trimming_takes_off_the_ends(given, CharSet::WhiteSpace);
    let trimmed = text::trimmed(given);
    let bare = without_comment(trimmed);
    let tail = lemma_comment_stands_behind(trimmed);
    let (d0, d1) = text::law_trimming_takes_off_the_ends(bare, CharSet::Only('"'));
    let once = text::trimmed_both(bare, CharSet::Only('"'));
    let (s0, s1) = text::law_trimming_takes_off_the_ends(once, CharSet::Only('\''));
    let twice = text::trimmed_both(once, CharSet::Only('\''));
    let (w0, w1) = text::law_trimming_takes_off_the_ends(twice, CharSet::WhiteSpace);
    let value = text::trimmed(twice);
    lemma_wrapped(once, s0, twice, s1, w0, value, w1);
    lemma_wrapped(bare, d0, once, d1, s0 + w0, value, w1 + s1);
    assert(trimmed == Seq::<char>::empty() + bare + tail);
    lemma_wrapped(trimmed, seq![], bare, tail, d0 + (s0 + w0), value, w1 + s1 + d1);
    lemma_wrapped(
        given,
        g0,
        trimmed,
        g1,
        Seq::<char>::empty() + (d0 + (s0 + w0)),
        value,
        w1 + s1 + d1 + tail,
    );
    (g0 + (Seq::<char>::empty() + (d0 + (s0 + w0))), w1 + s1 + d1 + tail + g1)
}

proof fn lemma_wrapped(
    outer: Seq<char>,
    left: Seq<char>,
    inner: Seq<char>,
    right: Seq<char>,
    front: Seq<char>,
    value: Seq<char>,
    end: Seq<char>,
)
    requires
        outer == left + inner + right,
        inner == front + value + end,
    ensures
        outer == left + front + value + (end + right),
{
    assert(outer == left + front + value + (end + right));
}

proof fn lemma_comment_stands_behind(value: Seq<char>) -> (tail: Seq<char>)
    ensures
        value == without_comment(value) + tail,
{
    let bare = without_comment(value);
    let tail = value.skip(bare.len() as int);
    if bare != value {
        lemma_length_before_is_short(value.skip(1), value[0]);
    }
    assert(value == bare + tail);
    tail
}

proof fn lemma_length_before_is_short(s: Seq<char>, c: char)
    ensures
        text::length_before(s, c) <= s.len(),
    decreases s.len(),
{
    if s.len() > 0 {
        lemma_length_before_is_short(s.drop_first(), c);
    }
}

/// A value without quotes, with anything inside it, is read back as it was, whatever white space
/// stands around the sign.
pub proof fn law_bare_setting_is_read_back(
    key: Seq<char>,
    before: Seq<char>,
    after: Seq<char>,
    value: Seq<char>,
)
    requires
        is_key(key),
        is_blank(before),
        is_blank(after),
        value.len() > 0,
        !text::is_white_space(value[0]) && !text::is_white_space(value.last()),
        !is_quote(value[0]) && !is_quote(value.last()),
    ensures
        line_value(key + before + seq!['='] + after + value, key) == Some(value),
{
    lemma_behind_the_sign(key, before, after, value);
    assert(text::trimmed_both(value, CharSet::Only('"')) == value);
    assert(text::trimmed_both(value, CharSet::Only('\'')) == value);
    assert(text::trimmed(value) == value);
}

/// A value between single quotes, with anything inside it but these, is read back as it was.
pub proof fn law_single_quoted_setting_is_read_back(
    key: Seq<char>,
    before: Seq<char>,
    after: Seq<char>,
    value: Seq<char>,
)
    requires
        is_key(key),
        is_blank(before),
        is_blank(after),
        value.len() > 0,
        !text::is_white_space(value[0]) && !text::is_white_space(value.last()),
        !value.contains('\''),
    ensures
        line_value(key + before + seq!['='] + after + seq!['\''] + value + seq!['\''], key) == Some(
            value,
        ),
{
    let single = CharSet::Only('\'');
    let given = seq!['\''] + value + seq!['\''];
    assert(key + before + seq!['='] + after + seq!['\''] + value + seq!['\''] == key + before
        + seq!['='] + after + given);
    lemma_behind_the_sign(key, before, after, given);
    assert forall|k: int| 0 <= k < value.len() implies given.skip(1)[k] != '\'' by {
        assert(given[k + 1] == value[k]);
        assert(value.contains(value[k]));
    }
    assert(given.skip(1)[value.len() as int] == '\'');
    text::lemma_length_before(given.skip(1), '\'', value.len());
    let behind = given.skip(value.len() + 2int);
    assert(behind.len() == 0);
    assert(text::trimmed_start(behind, CharSet::WhiteSpace) == behind);
    assert(without_comment(given) == given);
    assert(text::trimmed_both(given, CharSet::Only('"')) == given);
    let open = value + seq!['\''];
    assert(value.contains(value[0]) && value.contains(value.last()));
    assert(given.drop_first() == open);
    assert(open[0] == value[0]);
    assert(text::trimmed_start(open, single) == open);
    assert(text::trimmed_start(given, single) == open);
    assert(open.drop_last() == value);
    assert(text::trimmed_end(value, single) == value);
    assert(text::trimmed_end(open, single) == value);
    assert(text::trimmed(value) == value);
}

proof fn lemma_behind_the_sign(
    key: Seq<char>,
    before: Seq<char>,
    after: Seq<char>,
    given: Seq<char>,
)
    requires
        is_key(key),
        is_blank(before),
        is_blank(after),
        given.len() > 0,
        !text::is_white_space(given[0]) && !text::is_white_space(given.last()),
    ensures
        ({
            let line = key + before + seq!['='] + after + given;
            let unquoted = text::trimmed_both(
                text::trimmed_both(without_comment(given), CharSet::Only('"')),
                CharSet::Only('\''),
            );
            line_value(line, key) == if text::trimmed(unquoted).len() == 0 {
                None
            } else {
                Some(text::trimmed(unquoted))
            }
        }),
{
    let white = CharSet::WhiteSpace;
    let line = key + before + seq!['='] + after + given;
    let behind_sign = after + given;
    let behind_key = seq!['='] + behind_sign;
    assert(line[0] == key[0]);
    assert(line.last() == given.last());
    assert(text::trimmed_start(line, white) == line);
    assert(text::trimmed_end(line, white) == line);
    let content = text::trimmed(line);
    assert(content == key + (before + behind_key));
    assert(content.take(key.len() as int) == key);
    assert(content.take(1)[0] == key[0]);
    assert(content.skip(key.len() as int) == before + behind_key);
    text::lemma_trimmed_start_of(before, behind_key, white);
    assert(behind_key.take(1) == seq!['=']);
    assert(behind_key.skip(1) == behind_sign);
    text::lemma_trimmed_start_of(after, given, white);
    assert(text::trimmed_end(given, white) == given);
    assert(text::trimmed(behind_sign) == given);
}

/// A comment may stand behind a value between single quotes as well, and takes nothing from it.
pub proof fn law_single_quoted_setting_may_have_a_comment(
    key: Seq<char>,
    before: Seq<char>,
    after: Seq<char>,
    value: Seq<char>,
    comment: Seq<char>,
)
    requires
        is_key(key),
        is_blank(before),
        is_blank(after),
        value.len() > 0,
        !text::is_white_space(value[0]) && !text::is_white_space(value.last()),
        !value.contains('\''),
        comment.len() > 0 ==> !text::is_white_space(comment.last()),
    ensures
        line_value(
            key + before + seq!['='] + after + (seq!['\''] + value + seq!['\'', '#'] + comment),
            key,
        ) == Some(value),
{
    let single = CharSet::Only('\'');
    let quoted = seq!['\''] + value + seq!['\''];
    let given = seq!['\''] + value + seq!['\'', '#'] + comment;
    assert(given.last() == (if comment.len() > 0 {
        comment.last()
    } else {
        '#'
    }));
    lemma_behind_the_sign(key, before, after, given);
    assert forall|k: int| 0 <= k < value.len() implies given.skip(1)[k] != '\'' by {
        assert(given[k + 1] == value[k]);
        assert(value.contains(value[k]));
    }
    assert(given.skip(1)[value.len() as int] == '\'');
    text::lemma_length_before(given.skip(1), '\'', value.len());
    let behind = given.skip(value.len() + 2int);
    assert(behind[0] == '#');
    assert(text::trimmed_start(behind, CharSet::WhiteSpace) == behind);
    assert(behind.take(1) == seq!['#']);
    assert(given.take(value.len() + 2int) == quoted);
    assert(without_comment(given) == quoted);
    assert(text::trimmed_both(quoted, CharSet::Only('"')) == quoted);
    let open = value + seq!['\''];
    assert(value.contains(value[0]) && value.contains(value.last()));
    assert(quoted.drop_first() == open);
    assert(open[0] == value[0]);
    assert(text::trimmed_start(open, single) == open);
    assert(text::trimmed_start(quoted, single) == open);
    assert(open.drop_last() == value);
    assert(text::trimmed_end(value, single) == value);
    assert(text::trimmed_end(open, single) == value);
    assert(text::trimmed(value) == value);
}

} // verus!
