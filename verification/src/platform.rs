//! The operating systems that the shell runs on, and the paths that it forms on them.

use vstd::prelude::*;
use vstd::string::*;

use crate::paths;
use crate::text;
use crate::text::same_text;

verus! {

/// An operating system, as far as the shell's decisions depend on it.
#[derive(Clone, Copy, Debug, PartialEq, Eq, Structural)]
pub enum Platform {
    Windows,
    MacOs,
    Linux,
    /// Another Unix.
    Other,
}

/// The platform with the name `os` (`"windows"`, `"macos"`, `"linux"`).
pub open spec fn platform_named(os: Seq<char>) -> Platform {
    if os == "windows"@ {
        Platform::Windows
    } else if os == "macos"@ {
        Platform::MacOs
    } else if os == "linux"@ {
        Platform::Linux
    } else {
        Platform::Other
    }
}

/// Finds the platform by the name that the compiler gives it.
pub fn platform_of(os: &str) -> (platform: Platform)
    ensures
        platform == platform_named(os@),
{
    if same_text(os, "windows") {
        Platform::Windows
    } else if same_text(os, "macos") {
        Platform::MacOs
    } else if same_text(os, "linux") {
        Platform::Linux
    } else {
        Platform::Other
    }
}

/// The environment variables from which the shell derives its directories.
pub struct HostEnv {
    /// `HOME`
    pub home: Option<String>,
    /// `USERPROFILE`
    pub user_profile: Option<String>,
    /// `LOCALAPPDATA`
    pub local_app_data: Option<String>,
    /// `APPDATA`
    pub app_data: Option<String>,
}

/// Whether `c` separates the components of a path.
pub open spec fn is_separator(platform: Platform, c: char) -> bool {
    c == '/' || (platform == Platform::Windows && c == '\\')
}

/// Whether `base` is a Windows drive without a root, such as `C:`.
pub open spec fn is_bare_drive(platform: Platform, base: Seq<char>) -> bool {
    &&& platform == Platform::Windows
    &&& base.len() == 2
    &&& base[1] == ':'
    &&& ('a' <= base[0] <= 'z' || 'A' <= base[0] <= 'Z')
}

/// What stands between `base` and a component that is appended to it: nothing after an empty
/// path, a separator or a bare drive, and the platform's separator otherwise.
pub open spec fn separator_after(platform: Platform, base: Seq<char>) -> Seq<char> {
    if base.len() == 0 || is_separator(platform, base.last()) || is_bare_drive(platform, base) {
        seq![]
    } else if platform == Platform::Windows {
        seq!['\\']
    } else {
        seq!['/']
    }
}

/// The path `base` with the relative path `name` below it. A path on Windows that is taken
/// literally is rebuilt from its components and those of `name`; another is kept as it is.
pub open spec fn path_below(platform: Platform, base: Seq<char>, name: Seq<char>) -> Seq<char> {
    if platform == Platform::Windows && paths::is_verbatim(base) && name.len() > 0 {
        paths::literal_below(base, name)
    } else {
        base + separator_after(platform, base) + name
    }
}

/// Appends the relative path `name` to `base`.
pub fn join_path(platform: Platform, base: &str, name: &str) -> (path: String)
    ensures
        path@ == path_below(platform, base@, name@),
{
    let windows = matches!(platform, Platform::Windows);
    let n: usize = base.unicode_len();
    if windows && !name.is_empty() {
        if let Some(path) = paths::join_literal(base, name) {
            return path;
        }
    }
    let mut path = base.to_owned();
    if n > 0 {
        let last = base.get_char(n - 1);
        let separated = last == '/' || (windows && last == '\\');
        let bare_drive = if windows && n == 2 && last == ':' {
            let drive = base.get_char(0);
            ('a' <= drive && drive <= 'z') || ('A' <= drive && drive <= 'Z')
        } else {
            false
        };
        if !separated && !bare_drive {
            path.push(
                if windows {
                    '\\'
                } else {
                    '/'
                },
            );
        }
    }
    path.append(name);
    path
}

/// The path that is reached from `base` by way of `names`, each below the one before it.
pub open spec fn descended(platform: Platform, base: Seq<char>, names: Seq<Seq<char>>) -> Seq<char>
    decreases names.len(),
{
    if names.len() == 0 {
        base
    } else {
        path_below(platform, descended(platform, base, names.drop_last()), names.last())
    }
}

/// Whether a path is `base` or lies below it.
pub open spec fn lies_below(platform: Platform, path: Seq<char>, base: Seq<char>) -> bool {
    exists|names: Seq<Seq<char>>| path == #[trigger] descended(platform, base, names)
}

/// What lies below a directory that lies below another lies below that one too.
pub proof fn lemma_below_stays_below(
    platform: Platform,
    path: Seq<char>,
    base: Seq<char>,
    name: Seq<char>,
)
    requires
        lies_below(platform, path, base),
    ensures
        lies_below(platform, path_below(platform, path, name), base),
{
    let names = choose|names: Seq<Seq<char>>| path == #[trigger] descended(platform, base, names);
    assert(names.push(name).drop_last() == names);
    assert(path_below(platform, path, name) == descended(platform, base, names.push(name)));
}

/// A directory lies below itself.
pub proof fn lemma_lies_below_itself(platform: Platform, base: Seq<char>)
    ensures
        lies_below(platform, base, base),
{
    assert(base == descended(platform, base, seq![]));
}

/// What lies below a directory begins with its path, unless that is taken literally on Windows. (A
/// path shorter than the mark of such a path may become one.)
pub proof fn law_what_lies_below_begins_with_its_base(
    platform: Platform,
    base: Seq<char>,
    names: Seq<Seq<char>>,
)
    requires
        platform != Platform::Windows || (base.len() >= 4 && !paths::is_verbatim(base)),
    ensures
        text::begins_with(descended(platform, base, names), base),
    decreases names.len(),
{
    if names.len() == 0 {
        assert(base.take(base.len() as int) == base);
    } else {
        let above = descended(platform, base, names.drop_last());
        law_what_lies_below_begins_with_its_base(platform, base, names.drop_last());
        if platform == Platform::Windows {
            assert(forall|k: int| 0 <= k < base.len() ==> above.take(base.len() as int)[k]
                == #[trigger] above[k]);
            assert(above[0] == base[0] && above[1] == base[1] && above[2] == base[2] && above[3]
                == base[3]);
        }
        let path = path_below(platform, above, names.last());
        assert(path.take(base.len() as int) == above.take(base.len() as int));
    }
}

/// Each of three names stands for its platform, and every other name for another Unix.
pub proof fn law_platforms_have_one_name_each(os: Seq<char>)
    ensures
        platform_named(os) == Platform::Windows <==> os == "windows"@,
        platform_named(os) == Platform::MacOs <==> os == "macos"@,
        platform_named(os) == Platform::Linux <==> os == "linux"@,
{
    reveal_strlit("windows");
    reveal_strlit("macos");
    reveal_strlit("linux");
    assert("windows"@.len() == 7);
    assert("macos"@[0] != "linux"@[0]);
}

/// A slash separates everywhere, a backslash on Windows, and nothing else does.
pub proof fn law_separators_of_the_platforms(platform: Platform, c: char)
    ensures
        is_separator(platform, c) <==> c == '/' || (c == '\\' && platform == Platform::Windows),
{
}

/// Appending on Unix puts one slash between the two, where none is there and there is something
/// in front.
pub proof fn law_unix_path_is_base_slash_name(
    platform: Platform,
    base: Seq<char>,
    name: Seq<char>,
)
    requires
        platform != Platform::Windows,
    ensures
        base.len() == 0 || base.last() == '/' ==> path_below(platform, base, name) == base + name,
        base.len() > 0 && base.last() != '/' ==> path_below(platform, base, name) == base
            + seq!['/'] + name,
{
    if base.len() == 0 || base.last() == '/' {
        assert(base + Seq::<char>::empty() + name == base + name);
    }
}

/// Appending on Windows to a path that is not taken literally puts one backslash between the two,
/// where no separator is there, something is in front, and that is more than a drive.
pub proof fn law_windows_path_is_base_backslash_name(base: Seq<char>, name: Seq<char>)
    requires
        !paths::is_verbatim(base),
    ensures
        base.len() == 0 || base.last() == '/' || base.last() == '\\' ==> path_below(
            Platform::Windows,
            base,
            name,
        ) == base + name,
        base.len() == 2 && base[1] == ':' && ('a' <= base[0] <= 'z' || 'A' <= base[0] <= 'Z')
            ==> path_below(Platform::Windows, base, name) == base + name,
        base.len() > 0 && base.last() != '/' && base.last() != '\\' && !(base.len() == 2 && base[1]
            == ':' && ('a' <= base[0] <= 'z' || 'A' <= base[0] <= 'Z')) ==> path_below(Platform::Windows, base, name) == base + seq!['\\'] + name,
{
    assert(base + Seq::<char>::empty() + name == base + name);
}

/// Appending a plain name to a path on Windows that is taken literally keeps the volume, and ends
/// with the name behind a backslash.
pub proof fn law_literal_path_ends_with_the_name(base: Seq<char>, name: Seq<char>)
    requires
        paths::is_verbatim(base),
        paths::is_plain_name(Platform::Windows, name),
    ensures
        ({
            let path = path_below(Platform::Windows, base, name);
            let volume = paths::volume_length(Platform::Windows, base) as int;
            &&& path.len() >= volume + 1 + name.len()
            &&& path.take(volume) == base.take(volume)
            &&& path[volume] == '\\'
            &&& path.skip(path.len() - name.len()) == name
            &&& path[path.len() - name.len() - 1] == '\\'
        }),
{
    let platform = Platform::Windows;
    let path = path_below(platform, base, name);
    let head = paths::above(platform, base);
    let volume = paths::volume_length(platform, base) as int;
    paths::lemma_plain_name_is_appended(platform, base, name);
    paths::lemma_literal_volume(base);
    assert(path == head + name);
    assert(path.take(volume) == base.take(volume));
    assert(path.skip(path.len() - name.len()) == name);
    assert(head.last() == '\\');
}

} // verus!
