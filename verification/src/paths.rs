//! The components of paths: the name of the file that a path leads to, and the directory that it
//! lies in.

use vstd::prelude::*;
use vstd::string::*;

use crate::platform;
use crate::platform::Platform;
use crate::text;

verus! {

/// The characters that separate the components of a path.
#[derive(Clone, Copy, Debug, PartialEq, Eq, Structural)]
pub enum Separators {
    /// `/`, as on Unix.
    Slash,
    /// `/` and `\`, as on Windows.
    Either,
    /// `\` alone, as in a path on Windows that is taken literally. In such a path `.` is a
    /// component like any other.
    Backslash,
}

impl Separators {
    /// Whether `c` separates components.
    pub open spec fn has(self, c: char) -> bool {
        match self {
            Separators::Slash => c == '/',
            Separators::Either => c == '/' || c == '\\',
            Separators::Backslash => c == '\\',
        }
    }

    fn contains(self, c: char) -> (r: bool)
        ensures
            r == self.has(c),
    {
        match self {
            Separators::Slash => c == '/',
            Separators::Either => c == '/' || c == '\\',
            Separators::Backslash => c == '\\',
        }
    }
}

/// Whether a path on Windows is taken literally: whether it begins with `\\?\`.
pub open spec fn is_verbatim(path: Seq<char>) -> bool {
    path.len() >= 4 && path[0] == '\\' && path[1] == '\\' && path[2] == '?' && path[3] == '\\'
}

/// What separates the components of a path.
pub open spec fn separators(platform: Platform, path: Seq<char>) -> Separators {
    if platform != Platform::Windows {
        Separators::Slash
    } else if is_verbatim(path) {
        Separators::Backslash
    } else {
        Separators::Either
    }
}

/// The position behind the last separator of a path.
pub open spec fn segment_start(seps: Separators, path: Seq<char>) -> nat
    decreases path.len(),
{
    if path.len() == 0 || seps.has(path.last()) {
        path.len()
    } else {
        segment_start(seps, path.drop_last())
    }
}

/// The number of characters before the first separator of a path.
pub open spec fn segment_length(seps: Separators, path: Seq<char>) -> nat
    decreases path.len(),
{
    if path.len() == 0 || seps.has(path[0]) {
        0
    } else {
        1 + segment_length(seps, path.drop_first())
    }
}

/// The number of characters of the second segment of a path, which is 0 where there is none.
pub open spec fn second_length(seps: Separators, path: Seq<char>) -> nat {
    let first = segment_length(seps, path);
    if first < path.len() {
        segment_length(seps, path.skip(first + 1int))
    } else {
        0
    }
}

/// Whether a path begins with a drive, such as `C:`.
pub open spec fn has_drive(path: Seq<char>) -> bool {
    path.len() >= 2 && path[1] == ':' && ('a' <= path[0] <= 'z' || 'A' <= path[0] <= 'Z')
}

/// The length of the volume in what follows `\\?\`: `UNC\server\share`, a drive that stands
/// alone, or any segment.
pub open spec fn verbatim_length(rest: Seq<char>) -> nat {
    let seps = Separators::Backslash;
    if rest.len() >= 4 && rest[0] == 'U' && rest[1] == 'N' && rest[2] == 'C'
        && Separators::Either.has(rest[3]) {
        let server = segment_length(seps, rest.skip(4));
        let share = second_length(seps, rest.skip(4));
        if share > 0 {
            4 + server + 1 + share
        } else {
            4 + server
        }
    } else if has_drive(rest) && (rest.len() == 2 || Separators::Either.has(rest[2])) {
        2
    } else {
        segment_length(seps, rest)
    }
}

/// The length of what names a volume on Windows at the start of a path: a drive such as `C:`, a
/// share `\\server\share` of which neither part is empty, a device such as `\\.\COM42`, or what
/// follows `\\?\`.
pub open spec fn volume_length(platform: Platform, path: Seq<char>) -> nat {
    let seps = Separators::Either;
    if platform != Platform::Windows || path.len() < 2 {
        0
    } else if !(seps.has(path[0]) && seps.has(path[1])) {
        if has_drive(path) {
            2
        } else {
            0
        }
    } else if is_verbatim(path) {
        4 + verbatim_length(path.skip(4))
    } else if path.len() >= 4 && path[2] == '.' && seps.has(path[3]) {
        4 + segment_length(seps, path.skip(4))
    } else {
        let server = segment_length(seps, path.skip(2));
        let share = second_length(seps, path.skip(2));
        if server > 0 && share > 0 {
            2 + server + 1 + share
        } else {
            0
        }
    }
}

/// Whether a path has a root behind its volume. Either separator makes one on Windows.
pub open spec fn is_rooted(platform: Platform, path: Seq<char>) -> bool {
    let volume = volume_length(platform, path) as int;
    volume < path.len() && platform::is_separator(platform, path[volume])
}

/// The part of a path that names its volume and its root, where it has them.
pub open spec fn root_of(platform: Platform, path: Seq<char>) -> Seq<char> {
    let volume = volume_length(platform, path) as int;
    if is_rooted(platform, path) {
        path.take(volume + 1)
    } else {
        path.take(volume)
    }
}

/// The last segment of a path that is neither empty nor skipped, unless it is `..`. A `.` is
/// skipped; in a path that is taken literally it is a component without a name.
pub open spec fn last_name(seps: Separators, path: Seq<char>) -> Option<Seq<char>>
    decreases path.len(),
{
    if path.len() == 0 {
        None
    } else if seps.has(path.last()) {
        last_name(seps, path.drop_last())
    } else {
        let name = path.skip(segment_start(seps, path) as int);
        if name == seq!['.'] {
            if seps == Separators::Backslash {
                None
            } else {
                last_name(seps, path.drop_last())
            }
        } else if name == seq!['.', '.'] {
            None
        } else {
            Some(name)
        }
    }
}

/// The name of the file that a path leads to.
pub open spec fn file_name(platform: Platform, path: Seq<char>) -> Option<Seq<char>> {
    last_name(
        separators(platform, path),
        path.skip(root_of(platform, path).len() as int),
    )
}

proof fn lemma_segment_start(seps: Separators, path: Seq<char>, start: nat)
    requires
        start <= path.len(),
        forall|k: int| start <= k < path.len() ==> !seps.has(#[trigger] path[k]),
        start > 0 ==> seps.has(path[start - 1]),
    ensures
        segment_start(seps, path) == start,
    decreases path.len() - start,
{
    if start < path.len() {
        assert(!seps.has(path[path.len() - 1]));
        lemma_segment_start(seps, path.drop_last(), start);
    }
}

proof fn lemma_segment_length(seps: Separators, path: Seq<char>, n: nat)
    requires
        n <= path.len(),
        forall|k: int| 0 <= k < n ==> !seps.has(#[trigger] path[k]),
        n < path.len() ==> seps.has(path[n as int]),
    ensures
        segment_length(seps, path) == n,
    decreases n,
{
    if n > 0 {
        assert(!seps.has(path[0]));
        assert forall|k: int| 0 <= k < n - 1 implies !seps.has(#[trigger] path.drop_first()[k]) by {
            assert(!seps.has(path[k + 1]));
        }
        lemma_segment_length(seps, path.drop_first(), (n - 1) as nat);
    }
}

fn is_literal(path: &Vec<char>) -> (r: bool)
    ensures
        r == is_verbatim(path@),
{
    path.len() >= 4 && path[0] == '\\' && path[1] == '\\' && path[2] == '?' && path[3] == '\\'
}

fn separators_of(platform: Platform, path: &Vec<char>) -> (seps: Separators)
    ensures
        seps == separators(platform, path@),
{
    if !matches!(platform, Platform::Windows) {
        Separators::Slash
    } else if is_literal(path) {
        Separators::Backslash
    } else {
        Separators::Either
    }
}

/// The position of the first separator of `path` from `start` on, or its end.
fn find_separator(seps: Separators, path: &Vec<char>, start: usize) -> (end: usize)
    requires
        start <= path@.len(),
    ensures
        start <= end <= path@.len(),
        end - start == segment_length(seps, path@.skip(start as int)),
{
    let mut end: usize = start;
    while end < path.len() && !seps.contains(path[end])
        invariant
            start <= end <= path@.len(),
            forall|k: int| start <= k < end ==> !seps.has(#[trigger] path@[k]),
        decreases path@.len() - end,
    {
        end = end + 1;
    }
    proof {
        let rest = path@.skip(start as int);
        assert forall|k: int| 0 <= k < end - start implies !seps.has(#[trigger] rest[k]) by {
            assert(rest[k] == path@[start + k]);
        }
        lemma_segment_length(seps, rest, (end - start) as nat);
    }
    end
}

/// The ends of the first two segments of `path` from `start` on. Where there is no second one, or
/// it is empty, its end is that of the first.
fn find_two(seps: Separators, path: &Vec<char>, start: usize) -> (ends: (usize, usize))
    requires
        start <= path@.len(),
    ensures
        start <= ends.0 <= ends.1 <= path@.len(),
        ends.0 - start == segment_length(seps, path@.skip(start as int)),
        ({
            let second = second_length(seps, path@.skip(start as int));
            ends.1 - ends.0 == if second > 0 {
                1 + second
            } else {
                0
            }
        }),
{
    let first = find_separator(seps, path, start);
    if first == path.len() {
        return (first, first);
    }
    let second = find_separator(seps, path, first + 1);
    assert(path@.skip(start as int).skip(first - start + 1) == path@.skip(first + 1));
    if second == first + 1 {
        (first, first)
    } else {
        (first, second)
    }
}

fn begins_with_drive(path: &Vec<char>, start: usize) -> (r: bool)
    requires
        start <= path@.len(),
    ensures
        r == has_drive(path@.skip(start as int)),
{
    if path.len() - start < 2 {
        return false;
    }
    let drive = path[start];
    path[start + 1] == ':' && (('a' <= drive && drive <= 'z') || ('A' <= drive && drive <= 'Z'))
}

/// The position behind the volume of a path that is taken literally.
fn literal_volume_end(path: &Vec<char>) -> (end: usize)
    requires
        path@.len() >= 4,
    ensures
        end <= path@.len(),
        end == 4 + verbatim_length(path@.skip(4)),
{
    let ghost rest = path@.skip(4);
    let seps = Separators::Backslash;
    if path.len() >= 8 && path[4] == 'U' && path[5] == 'N' && path[6] == 'C'
        && Separators::Either.contains(path[7]) {
        assert(rest.skip(4) == path@.skip(8));
        find_two(seps, path, 8).1
    } else if begins_with_drive(path, 4) && (path.len() == 6 || Separators::Either.contains(
        path[6],
    )) {
        6
    } else {
        find_separator(seps, path, 4)
    }
}

/// The position behind what names a volume.
fn volume_end(platform: Platform, path: &Vec<char>) -> (end: usize)
    ensures
        end <= path@.len(),
        end == volume_length(platform, path@),
{
    let seps = Separators::Either;
    if !matches!(platform, Platform::Windows) || path.len() < 2 {
        return 0;
    }
    if !(seps.contains(path[0]) && seps.contains(path[1])) {
        assert(path@.skip(0) == path@);
        return if begins_with_drive(path, 0) {
            2
        } else {
            0
        };
    }
    if is_literal(path) {
        return literal_volume_end(path);
    }
    if path.len() >= 4 && path[2] == '.' && seps.contains(path[3]) {
        return find_separator(seps, path, 4);
    }
    let (server, share) = find_two(seps, path, 2);
    if server > 2 && share > server {
        share
    } else {
        0
    }
}

/// The position behind the volume and the root, and whether there is a root.
fn root_end(platform: Platform, path: &Vec<char>) -> (r: (usize, bool))
    ensures
        r.0 <= path@.len(),
        root_of(platform, path@) == path@.take(r.0 as int),
        r.1 == is_rooted(platform, path@),
{
    let volume = volume_end(platform, path);
    let rooted = volume < path.len() && (path[volume] == '/' || (path[volume] == '\\' && matches!(
        platform,
        Platform::Windows
    )));
    if rooted {
        (volume + 1, true)
    } else {
        (volume, false)
    }
}

/// The start of the last segment of `path` between `start` and `end`.
fn find_segment(seps: Separators, path: &Vec<char>, start: usize, end: usize) -> (begin: usize)
    requires
        start <= end <= path@.len(),
    ensures
        start <= begin <= end,
        begin - start == segment_start(seps, path@.subrange(start as int, end as int)),
        start < end && !seps.has(path@[end - 1]) ==> begin < end,
{
    let mut begin: usize = end;
    while begin > start && !seps.contains(path[begin - 1])
        invariant
            start <= begin <= end <= path@.len(),
            forall|k: int| begin <= k < end ==> !seps.has(#[trigger] path@[k]),
        decreases begin,
    {
        begin = begin - 1;
    }
    proof {
        let whole = path@.subrange(start as int, end as int);
        assert forall|k: int| begin - start <= k < whole.len() implies !seps.has(
            #[trigger] whole[k],
        ) by {
            assert(whole[k] == path@[start + k]);
        }
        lemma_segment_start(seps, whole, (begin - start) as nat);
    }
    begin
}

/// Finds the name of the file that a path leads to.
pub fn file_name_of(platform: Platform, path: &Vec<char>) -> (name: Option<Vec<char>>)
    ensures
        match name {
            Some(n) => file_name(platform, path@) == Some(n@),
            None => file_name(platform, path@) is None,
        },
{
    let seps = separators_of(platform, path);
    let (start, _) = root_end(platform, path);
    let ghost local = path@.skip(start as int);
    let mut end: usize = path.len();
    assert(path@.subrange(start as int, end as int) == local);
    while end > start
        invariant
            start <= end <= path@.len(),
            last_name(seps, local) == last_name(seps, path@.subrange(start as int, end as int)),
            file_name(platform, path@) == last_name(seps, local),
        decreases end - start,
    {
        let ghost here = path@.subrange(start as int, end as int);
        assert(here.drop_last() == path@.subrange(start as int, end - 1));
        if seps.contains(path[end - 1]) {
            end = end - 1;
        } else {
            let begin = find_segment(seps, path, start, end);
            let ghost found = path@.subrange(begin as int, end as int);
            assert(here.skip(begin - start) == found);
            if end - begin == 1 && path[begin] == '.' {
                assert(found == seq!['.']);
                if matches!(seps, Separators::Backslash) {
                    return None;
                }
                end = end - 1;
            } else if end - begin == 2 && path[begin] == '.' && path[begin + 1] == '.' {
                assert(found == seq!['.', '.']);
                return None;
            } else {
                proof {
                    if found == seq!['.'] {
                        assert(found.len() == 1 && found[0] == '.');
                    }
                    if found == seq!['.', '.'] {
                        assert(found.len() == 2 && found[0] == '.' && found[1] == '.');
                    }
                }
                let mut name: Vec<char> = Vec::new();
                for i in begin..end
                    invariant
                        begin <= i <= end <= path@.len(),
                        name@ == path@.subrange(begin as int, i as int),
                {
                    name.push(path[i]);
                }
                return Some(name);
            }
        }
    }
    None
}

/// A path behind its root without the empty segments and the segments `.` at its end. A `.` is
/// kept where the path begins with it and has no root, and where the path is taken literally.
pub open spec fn without_tail(seps: Separators, body: Seq<char>, rooted: bool) -> Seq<char>
    decreases body.len(),
{
    if body.len() == 0 {
        body
    } else if seps.has(body.last()) {
        without_tail(seps, body.drop_last(), rooted)
    } else {
        let start = segment_start(seps, body);
        if body.skip(start as int) == seq!['.'] && (rooted || start > 0) && seps
            != Separators::Backslash {
            without_tail(seps, body.drop_last(), rooted)
        } else {
            body
        }
    }
}

/// The directory that the last component of a path lies in. A path that consists of a root, and
/// the empty path, have none; that of a single component is empty.
pub open spec fn parent(platform: Platform, path: Seq<char>) -> Option<Seq<char>> {
    let seps = separators(platform, path);
    let root = root_of(platform, path);
    let rooted = is_rooted(platform, path);
    let body = without_tail(seps, path.skip(root.len() as int), rooted);
    if body.len() == 0 {
        None
    } else {
        let start = segment_start(seps, body);
        Some(root + without_tail(seps, body.take(start as int), rooted))
    }
}

/// The end of `path` between `start` and `end` without the tail of it.
fn find_tail(seps: Separators, path: &Vec<char>, start: usize, end: usize, rooted: bool) -> (r:
    usize)
    requires
        start <= end <= path@.len(),
    ensures
        start <= r <= end,
        path@.subrange(start as int, r as int) == without_tail(
            seps,
            path@.subrange(start as int, end as int),
            rooted,
        ),
{
    let ghost whole = path@.subrange(start as int, end as int);
    let literal = matches!(seps, Separators::Backslash);
    let mut r: usize = end;
    while r > start
        invariant
            start <= r <= end <= path@.len(),
            literal == (seps == Separators::Backslash),
            without_tail(seps, whole, rooted) == without_tail(
                seps,
                path@.subrange(start as int, r as int),
                rooted,
            ),
            whole == path@.subrange(start as int, end as int),
        decreases r,
    {
        let ghost here = path@.subrange(start as int, r as int);
        assert(here.drop_last() == path@.subrange(start as int, r - 1));
        if !seps.contains(path[r - 1]) {
            let begin = find_segment(seps, path, start, r);
            let ghost found = here.skip(begin - start);
            if !(r - begin == 1 && path[begin] == '.' && (rooted || begin > start) && !literal) {
                proof {
                    if found == seq!['.'] {
                        assert(found.len() == 1 && found[0] == '.');
                    }
                }
                return r;
            }
            assert(found == seq!['.']);
        }
        r = r - 1;
    }
    r
}

/// Copies the characters of `path` before `end`.
fn text_before(path: &Vec<char>, end: usize) -> (r: String)
    requires
        end <= path@.len(),
    ensures
        r@ == path@.take(end as int),
{
    let mut out = String::new();
    for i in 0..end
        invariant
            end <= path@.len(),
            out@ == path@.take(i as int),
    {
        out.push(path[i]);
        assert(out@ == path@.take(i + 1));
    }
    out
}

/// Finds the directory that the last component of a path lies in.
pub fn parent_dir(platform: Platform, path: &str) -> (dir: Option<String>)
    ensures
        text::opt_text(dir) == parent(platform, path@),
{
    let chars = text::chars_of(path);
    let seps = separators_of(platform, &chars);
    let (start, rooted) = root_end(platform, &chars);
    let ghost root = root_of(platform, path@);
    assert(path@.skip(start as int) == path@.subrange(start as int, path@.len() as int));
    let end = find_tail(seps, &chars, start, chars.len(), rooted);
    if end == start {
        assert(path@.subrange(start as int, end as int).len() == 0);
        return None;
    }
    let begin = find_segment(seps, &chars, start, end);
    let ghost body = path@.subrange(start as int, end as int);
    assert(body.take(begin - start) == path@.subrange(start as int, begin as int));
    let dir_end = find_tail(seps, &chars, start, begin, rooted);
    assert(root + path@.subrange(start as int, dir_end as int) == path@.take(dir_end as int));
    Some(text_before(&chars, dir_end))
}

/// The components of a path behind its root, with one `\` between any two of them.
pub open spec fn collapsed(seps: Separators, body: Seq<char>) -> Seq<char>
    decreases body.len(),
{
    if body.len() == 0 {
        body
    } else {
        let before = collapsed(seps, body.drop_last());
        let c = body.last();
        if seps.has(c) {
            before
        } else if before.len() > 0 && seps.has(body[body.len() - 2]) {
            before + seq!['\\', c]
        } else {
            before.push(c)
        }
    }
}

/// The components that a component leads to from `body`: `.` and the empty one lead nowhere, `..`
/// leads out of a component that has a name, and any other leads into the one with its name.
pub open spec fn entered(body: Seq<char>, component: Seq<char>) -> Seq<char> {
    if component.len() == 0 || component == seq!['.'] {
        body
    } else if component == seq!['.', '.'] {
        let start = segment_start(Separators::Backslash, body) as int;
        let last = body.skip(start);
        if body.len() == 0 || last == seq!['.'] || last == seq!['.', '.'] {
            body
        } else if start > 0 {
            body.take(start - 1)
        } else {
            seq![]
        }
    } else if body.len() == 0 {
        component
    } else {
        body + seq!['\\'] + component
    }
}

/// The components that the relative path `name` leads to from `body`.
pub open spec fn all_entered(body: Seq<char>, name: Seq<char>) -> Seq<char>
    decreases name.len(),
{
    let length = segment_length(Separators::Either, name);
    if length < name.len() {
        all_entered(entered(body, name.take(length as int)), name.skip(length + 1int))
    } else {
        entered(body, name)
    }
}

/// The path with a volume, a root or none, and these components. They begin behind a `\`, which is
/// the root where there is one.
pub open spec fn rebuilt(volume: Seq<char>, rooted: bool, body: Seq<char>) -> Seq<char> {
    if rooted || body.len() > 0 {
        volume + seq!['\\'] + body
    } else {
        volume
    }
}

/// The path on Windows `base`, which is taken literally, with the relative path `name` below it.
/// It is rebuilt with `\` alone: in such a path no other character separates.
pub open spec fn literal_below(base: Seq<char>, name: Seq<char>) -> Seq<char> {
    let platform = Platform::Windows;
    let body = base.skip(root_of(platform, base).len() as int);
    rebuilt(
        base.take(volume_length(platform, base) as int),
        is_rooted(platform, base),
        all_entered(collapsed(Separators::Backslash, body), name),
    )
}

fn collapse(path: &Vec<char>, start: usize) -> (out: Vec<char>)
    requires
        start <= path@.len(),
    ensures
        out@ == collapsed(Separators::Backslash, path@.skip(start as int)),
{
    let seps = Separators::Backslash;
    let ghost body = path@.skip(start as int);
    let mut out: Vec<char> = Vec::new();
    assert(body.take(0) == Seq::<char>::empty());
    for i in start..path.len()
        invariant
            start <= path@.len(),
            body == path@.skip(start as int),
            out@ == collapsed(seps, body.take(i - start)),
            seps == Separators::Backslash,
    {
        let ghost here = body.take(i - start + 1);
        let ghost before = out@;
        assert(here.drop_last() == body.take(i - start));
        assert(here.last() == path@[i as int]);
        if !seps.contains(path[i]) {
            if out.len() > 0 {
                assert(i > start);
                assert(here[here.len() - 2] == path@[i - 1]);
                if seps.contains(path[i - 1]) {
                    out.push('\\');
                }
            }
            out.push(path[i]);
            assert(before.push('\\').push(path@[i as int]) == before + seq!['\\', path@[i as int]]);
        }
        assert(out@ == collapsed(seps, here));
    }
    assert(body.take(path@.len() - start) == body);
    out
}

/// Whether the characters of `name` between `start` and `end` are dots, as many as `count`.
fn is_dots(name: &Vec<char>, start: usize, end: usize, count: usize) -> (r: bool)
    requires
        start <= end <= name@.len(),
        1 <= count <= 2,
    ensures
        r == (name@.subrange(start as int, end as int) == if count == 1 {
            seq!['.']
        } else {
            seq!['.', '.']
        }),
{
    let ghost found = name@.subrange(start as int, end as int);
    proof {
        if found == seq!['.'] {
            assert(found.len() == 1 && found[0] == '.');
        }
        if found == seq!['.', '.'] {
            assert(found.len() == 2 && found[0] == '.' && found[1] == '.');
        }
    }
    if count == 1 {
        let r = end - start == 1 && name[start] == '.';
        assert(r ==> found == seq!['.']);
        r
    } else {
        let r = end - start == 2 && name[start] == '.' && name[start + 1] == '.';
        assert(r ==> found == seq!['.', '.']);
        r
    }
}

fn enter(body: &mut Vec<char>, name: &Vec<char>, start: usize, end: usize)
    requires
        start <= end <= name@.len(),
    ensures
        final(body)@ == entered(old(body)@, name@.subrange(start as int, end as int)),
{
    let ghost component = name@.subrange(start as int, end as int);
    if start == end || is_dots(name, start, end, 1) {
        assert(component.len() == 0 || component == seq!['.']);
        return;
    }
    if is_dots(name, start, end, 2) {
        assert(component.len() == 2);
        if body.len() > 0 {
            let last = find_segment(Separators::Backslash, body, 0, body.len());
            assert(body@.subrange(0, body@.len() as int) == body@);
            assert(body@.subrange(last as int, body@.len() as int) == body@.skip(last as int));
            if !is_dots(body, last, body.len(), 1) && !is_dots(body, last, body.len(), 2) {
                if last > 0 {
                    body.truncate(last - 1);
                } else {
                    body.truncate(0);
                }
            }
        }
        return;
    }
    let ghost before = body@;
    if body.len() > 0 {
        body.push('\\');
    }
    let ghost above = body@;
    for i in start..end
        invariant
            start <= end <= name@.len(),
            body@ == above + name@.subrange(start as int, i as int),
    {
        body.push(name[i]);
        assert(body@ == above + name@.subrange(start as int, i + 1));
    }
    assert(body@ == entered(before, component));
}

fn enter_all(body: Vec<char>, name: &Vec<char>) -> (out: Vec<char>)
    ensures
        out@ == all_entered(body@, name@),
{
    let seps = Separators::Either;
    let ghost whole = all_entered(body@, name@);
    let mut out = body;
    let mut start: usize = 0;
    assert(name@.skip(0) == name@);
    loop
        invariant_except_break
            start <= name@.len(),
            seps == Separators::Either,
            whole == all_entered(out@, name@.skip(start as int)),
        ensures
            out@ == whole,
        decreases name@.len() - start,
    {
        let ghost rest = name@.skip(start as int);
        let end = find_separator(seps, name, start);
        enter(&mut out, name, start, end);
        if end == name.len() {
            assert(name@.subrange(start as int, end as int) == rest);
            break;
        }
        assert(name@.subrange(start as int, end as int) == rest.take(end - start));
        assert(rest.skip(end - start + 1) == name@.skip(end + 1));
        start = end + 1;
    }
    out
}

/// Appends the relative path `name` to the path on Windows `base`, where that is taken literally.
pub fn join_literal(base: &str, name: &str) -> (path: Option<String>)
    ensures
        text::opt_text(path) == (if is_verbatim(base@) {
            Some(literal_below(base@, name@))
        } else {
            None
        }),
{
    let chars = text::chars_of(base);
    if !is_literal(&chars) {
        return None;
    }
    let platform = Platform::Windows;
    let volume = volume_end(platform, &chars);
    let (start, rooted) = root_end(platform, &chars);
    assert(root_of(platform, base@).len() == start);
    let body = enter_all(collapse(&chars, start), &text::chars_of(name));
    let mut path = text_before(&chars, volume);
    let ghost head = path@;
    if rooted || body.len() > 0 {
        path.push('\\');
        let ghost above = path@;
        for i in 0..body.len()
            invariant
                path@ == above + body@.take(i as int),
        {
            path.push(body[i]);
            assert(path@ == above + body@.take(i + 1));
        }
        assert(body@.take(body@.len() as int) == body@);
        assert(path@ == head + seq!['\\'] + body@);
    }
    Some(path)
}

/// Whether a text is the name of a file: not empty, neither `.` nor `..`, and without a separator.
pub open spec fn is_plain_name(platform: Platform, name: Seq<char>) -> bool {
    &&& name.len() > 0
    &&& name != seq!['.']
    &&& name != seq!['.', '.']
    &&& forall|k: int| 0 <= k < name.len() ==> !platform::is_separator(platform, #[trigger] name[k])
}

proof fn lemma_plain_name_is_one_segment(name: Seq<char>)
    requires
        is_plain_name(Platform::Windows, name),
    ensures
        segment_length(Separators::Either, name) == name.len(),
{
    assert forall|k: int| 0 <= k < name.len() implies !Separators::Either.has(
        #[trigger] name[k],
    ) by {
        assert(!platform::is_separator(Platform::Windows, name[k]));
    }
    lemma_segment_length(Separators::Either, name, name.len());
}

/// The path `base` as it stands above what is appended to it.
pub open spec fn above(platform: Platform, base: Seq<char>) -> Seq<char> {
    if platform == Platform::Windows && is_verbatim(base) {
        let body = collapsed(
            Separators::Backslash,
            base.skip(root_of(platform, base).len() as int),
        );
        let volume = base.take(volume_length(platform, base) as int);
        if body.len() > 0 {
            volume + seq!['\\'] + body + seq!['\\']
        } else {
            volume + seq!['\\']
        }
    } else {
        base + platform::separator_after(platform, base)
    }
}

/// A plain name stands at the end of the path that it was appended to.
pub proof fn lemma_plain_name_is_appended(platform: Platform, base: Seq<char>, name: Seq<char>)
    requires
        is_plain_name(platform, name),
    ensures
        platform::path_below(platform, base, name) == above(platform, base) + name,
        above(platform, base).len() > 0 ==> {
            ||| separators(platform, platform::path_below(platform, base, name)).has(
                above(platform, base).last(),
            )
            ||| platform::is_bare_drive(platform, base)
            ||| !is_verbatim(base) && is_verbatim(platform::path_below(platform, base, name))
        },
{
    if platform == Platform::Windows && is_verbatim(base) {
        lemma_plain_name_is_one_segment(name);
        let path = platform::path_below(platform, base, name);
        let volume = base.take(volume_length(platform, base) as int);
        lemma_literal_volume(base);
        assert(path == above(platform, base) + name);
        assert(path[0] == base[0] && path[1] == base[1] && path[2] == base[2] && path[3]
            == base[3]);
    }
}

/// The volume of a path that is taken literally holds the mark of such a path, and a separator
/// follows it, or nothing.
pub proof fn lemma_literal_volume(path: Seq<char>)
    requires
        is_verbatim(path),
    ensures
        4 <= volume_length(Platform::Windows, path) <= path.len(),
        volume_length(Platform::Windows, path) < path.len() ==> Separators::Either.has(
            path[volume_length(Platform::Windows, path) as int],
        ),
{
    let rest = path.skip(4);
    let seps = Separators::Backslash;
    lemma_segment_ends(seps, rest);
    if rest.len() >= 4 {
        let more = rest.skip(4);
        lemma_segment_ends(seps, more);
        let first = segment_length(seps, more) as int;
        if first < more.len() {
            lemma_segment_ends(seps, more.skip(first + 1));
        }
    }
}

/// A segment ends at a separator, or at the end of the path, and holds no separator.
proof fn lemma_segment_ends(seps: Separators, path: Seq<char>)
    ensures
        segment_length(seps, path) <= path.len(),
        segment_length(seps, path) < path.len() ==> seps.has(
            path[segment_length(seps, path) as int],
        ),
        forall|k: int| 0 <= k < segment_length(seps, path) ==> !seps.has(#[trigger] path[k]),
    decreases path.len(),
{
    if path.len() > 0 && !seps.has(path[0]) {
        let rest = path.drop_first();
        lemma_segment_ends(seps, rest);
        assert forall|k: int| 0 <= k < segment_length(seps, path) implies !seps.has(
            #[trigger] path[k],
        ) by {
            if k > 0 {
                assert(path[k] == rest[k - 1]);
            }
        }
    }
}

/// The file `<dir>/<name>` has the name `name`, unless the name has become part of what names a
/// volume: the file `share` in `\\server` is `\\server\share`.
pub proof fn law_file_name_of_a_path_below(platform: Platform, dir: Seq<char>, name: Seq<char>)
    requires
        is_plain_name(platform, name),
        volume_length(platform, platform::path_below(platform, dir, name)) + name.len()
            <= platform::path_below(platform, dir, name).len(),
    ensures
        file_name(platform, platform::path_below(platform, dir, name)) == Some(name),
{
    let path = platform::path_below(platform, dir, name);
    let head = above(platform, dir);
    lemma_plain_name_is_appended(platform, dir, name);
    lemma_name_behind_root(platform, head, name);
}

/// A segment does not reach past a separator.
proof fn lemma_segment_stops(seps: Separators, path: Seq<char>, k: int)
    requires
        0 <= k < path.len(),
        seps.has(path[k]),
    ensures
        segment_length(seps, path) <= k,
{
    lemma_segment_ends(seps, path);
}

/// Two segments do not reach past the later of two separators.
proof fn lemma_two_segments_stop(seps: Separators, path: Seq<char>, j: int, k: int)
    requires
        0 <= j < k < path.len(),
        seps.has(path[j]),
        seps.has(path[k]),
    ensures
        segment_length(seps, path) + 1 + second_length(seps, path) <= k,
{
    lemma_segment_stops(seps, path, j);
    let first = segment_length(seps, path) as int;
    let rest = path.skip(first + 1);
    assert(rest[k - first - 1] == path[k]);
    lemma_segment_stops(seps, rest, k - first - 1);
}

/// What is collapsed ends as it did: `c`, a separator and a name without one.
proof fn lemma_collapsed_end(body: Seq<char>, c: char, name: Seq<char>)
    requires
        body.len() >= name.len() + 2,
        name.len() > 0,
        body.skip(body.len() - name.len()) == name,
        body[body.len() - name.len() - 1] == '\\',
        body[body.len() - name.len() - 2] == c,
        c != '\\',
        forall|k: int| 0 <= k < name.len() ==> #[trigger] name[k] != '\\',
    ensures
        ({
            let out = collapsed(Separators::Backslash, body);
            &&& out.len() >= name.len() + 2
            &&& out.skip(out.len() - name.len()) == name
            &&& out[out.len() - name.len() - 1] == '\\'
            &&& out[out.len() - name.len() - 2] == c
        }),
    decreases name.len(),
{
    let seps = Separators::Backslash;
    let n = body.len() as int;
    let before = body.drop_last();
    let out = collapsed(seps, body);
    assert(body.last() == name.last());
    assert(name[name.len() - 1] != '\\');
    if name.len() == 1 {
        let inner = before.drop_last();
        assert(before.last() == '\\');
        assert(inner.last() == c);
        let text = collapsed(seps, inner);
        assert(text.len() > 0 && text.last() == c);
        assert(collapsed(seps, before) == text);
        assert(out == text + seq!['\\', name[0]]);
        assert(out.skip(out.len() - 1) == name);
    } else {
        let shorter = name.drop_last();
        assert(before.skip(before.len() - shorter.len()) == shorter);
        lemma_collapsed_end(before, c, shorter);
        let text = collapsed(seps, before);
        assert(body[n - 2] == name[name.len() - 2]);
        assert(name[name.len() - 2] != '\\');
        assert(out == text.push(name.last()));
        assert(out.skip(out.len() - name.len()) == name) by {
            assert forall|k: int| 0 <= k < name.len() implies out.skip(out.len() - name.len())[k]
                == name[k] by {
                if k < name.len() - 1 {
                    assert(text.skip(text.len() - shorter.len())[k] == shorter[k]);
                }
            }
        }
    }
}

proof fn lemma_collapsed_plain(name: Seq<char>)
    requires
        forall|k: int| 0 <= k < name.len() ==> #[trigger] name[k] != '\\',
    ensures
        collapsed(Separators::Backslash, name) == name,
    decreases name.len(),
{
    if name.len() > 0 {
        let before = name.drop_last();
        lemma_collapsed_plain(before);
        assert(name[name.len() - 1] != '\\');
        if name.len() > 1 {
            assert(name[name.len() - 2] != '\\');
        }
        assert(before.push(name.last()) == name);
    }
}

/// Whether a path ends with `c`, a `\` and a name.
pub open spec fn ends_with_name(path: Seq<char>, c: char, name: Seq<char>) -> bool {
    &&& path.len() >= name.len() + 2
    &&& path.skip(path.len() - name.len()) == name
    &&& path[path.len() - name.len() - 1] == '\\'
    &&& path[path.len() - name.len() - 2] == c
}

/// A path on Windows that is taken literally, without the separator in front of what is appended.
proof fn lemma_literal_above(path: Seq<char>)
    requires
        is_verbatim(path),
        !Separators::Either.has(path.last()),
    ensures
        above(Platform::Windows, path).len() > 4,
        above(Platform::Windows, path).last() == '\\',
        above(Platform::Windows, path)[above(Platform::Windows, path).len() - 2] == path.last(),
{
    let platform = Platform::Windows;
    lemma_literal_volume(path);
    let volume = volume_length(platform, path) as int;
    let root = root_of(platform, path).len() as int;
    let body = path.skip(root);
    if body.len() == 0 {
        assert(!is_rooted(platform, path)) by {
            if is_rooted(platform, path) {
                assert(path.last() == path[volume]);
            }
        }
        assert(path.take(volume) == path);
    } else {
        assert(body.last() == path.last());
        assert(collapsed(Separators::Backslash, body).last() == path.last());
    }
}

/// What a name is appended to ends as the path did that it stands for.
proof fn lemma_literal_above_keeps_name(path: Seq<char>, c: char, name: Seq<char>)
    requires
        is_verbatim(path),
        is_plain_name(Platform::Windows, name),
        ends_with_name(path, c, name),
        !Separators::Either.has(c),
    ensures
        ends_with_name(above(Platform::Windows, path).drop_last(), c, name),
        above(Platform::Windows, path).last() == '\\',
        is_verbatim(above(Platform::Windows, path)),
{
    let platform = Platform::Windows;
    lemma_literal_volume(path);
    let volume = volume_length(platform, path) as int;
    let root = root_of(platform, path).len() as int;
    let body = path.skip(root);
    let at = path.len() - name.len();
    let kept = above(platform, path).drop_last();
    assert forall|k: int| 0 <= k < name.len() implies #[trigger] name[k] != '\\' && path[at + k]
        == name[k] by {
        assert(!platform::is_separator(platform, name[k]));
        assert(path.skip(at)[k] == path[at + k]);
    }
    assert(volume <= at - 1 || volume == path.len()) by {
        if at - 1 < volume < path.len() {
            assert(path[volume] == name[volume - at]);
            assert(!platform::is_separator(platform, name[volume - at]));
        }
    }
    if volume == path.len() {
        assert(path.take(volume) == path);
        assert(kept == path);
    } else if volume == at - 1 {
        assert(body == name);
        lemma_collapsed_plain(name);
        assert(kept == path.take(volume) + seq!['\\'] + name);
        assert(kept.skip(kept.len() - name.len()) == name);
        assert(kept[volume - 1] == c);
    } else {
        assert(root <= at - 2);
        assert(body.skip(body.len() - name.len()) == name);
        lemma_collapsed_end(body, c, name);
        let out = collapsed(Separators::Backslash, body);
        assert(kept == path.take(volume) + seq!['\\'] + out);
        assert(kept.skip(kept.len() - name.len()) == out.skip(out.len() - name.len()));
    }
    let whole = above(platform, path);
    assert(whole[0] == path[0] && whole[1] == path[1] && whole[2] == path[2] && whole[3]
        == path[3]);
}

/// Two names and a third below a directory on Windows: the third is no part of a volume.
pub proof fn lemma_third_name_is_no_volume(
    base: Seq<char>,
    first: Seq<char>,
    second: Seq<char>,
    third: Seq<char>,
)
    requires
        is_plain_name(Platform::Windows, first),
        is_plain_name(Platform::Windows, second),
        is_plain_name(Platform::Windows, third),
        first.len() >= 3,
        first.last() != 'C',
        first.last() != '?',
    ensures
        ({
            let platform = Platform::Windows;
            let dir = platform::path_below(
                platform,
                platform::path_below(platform, base, first),
                second,
            );
            let path = platform::path_below(platform, dir, third);
            volume_length(platform, path) + third.len() <= path.len()
        }),
{
    let platform = Platform::Windows;
    let one = platform::path_below(platform, base, first);
    let two = platform::path_below(platform, one, second);
    let path = platform::path_below(platform, two, third);
    lemma_plain_name_is_appended(platform, base, first);
    lemma_plain_name_is_appended(platform, one, second);
    lemma_plain_name_is_appended(platform, two, third);
    let c = first.last();
    assert(!platform::is_separator(platform, first[first.len() - 1]));
    assert(one.last() == c);
    assert(!platform::is_separator(platform, second[second.len() - 1]));
    assert(two.last() == second.last());
    if is_verbatim(one) {
        lemma_literal_above(one);
        let head = above(platform, one);
        assert(two == head + second);
        assert(two.skip(two.len() - second.len()) == second);
        assert(ends_with_name(two, c, second));
        lemma_literal_volume(one);
        assert(two[0] == one[0] && two[1] == one[1] && two[2] == one[2] && two[3] == one[3]);
    } else {
        assert(two == one + seq!['\\'] + second);
        assert(two.skip(two.len() - second.len()) == second);
        assert(ends_with_name(two, c, second));
    }
    if is_verbatim(two) {
        lemma_literal_above_keeps_name(two, c, second);
        lemma_literal_third(above(platform, two), c, second, third);
    } else {
        assert(!is_verbatim(one));
        assert(path == two + seq!['\\'] + third);
        lemma_third_behind_two(one, second, third);
    }
}

/// The same where the directory is taken literally.
proof fn lemma_literal_third(head: Seq<char>, c: char, second: Seq<char>, third: Seq<char>)
    requires
        is_verbatim(head),
        head.last() == '\\',
        ends_with_name(head.drop_last(), c, second),
        c != 'C',
        c != '?',
        !Separators::Either.has(c),
        is_plain_name(Platform::Windows, second),
        is_plain_name(Platform::Windows, third),
    ensures
        volume_length(Platform::Windows, head + third) <= head.len(),
{
    let path = head + third;
    let seps = Separators::Backslash;
    let rest = path.skip(4);
    let end = head.len() - 1;
    let at = end - second.len();
    let name = head.drop_last();
    assert(is_verbatim(path));
    assert(path[end] == '\\' && path[at - 1] == '\\' && path[at - 2] == c);
    assert forall|k: int| at <= k < end implies !Separators::Either.has(#[trigger] path[k]) by {
        assert(name.skip(at)[k - at] == path[k]);
        assert(!platform::is_separator(Platform::Windows, second[k - at]));
    }
    assert(path[3] == '\\');
    assert(end >= 4) by {
        if end == 3 {
            assert(path[at - 2] == '\\' || path[at - 1] == '?');
        }
    }
    assert(rest[end - 4] == '\\');
    lemma_segment_stops(seps, rest, end - 4);
    if rest.len() >= 4 && rest[0] == 'U' && rest[1] == 'N' && rest[2] == 'C'
        && Separators::Either.has(rest[3]) {
        assert(path[4] == 'U' && path[5] == 'N' && path[6] == 'C');
        assert(at - 1 != 7);
        assert(at - 1 > 7) by {
            if at - 1 < 7 {
                if end > 7 {
                    assert(Separators::Either.has(path[7]));
                } else if end == 7 {
                    assert(at - 1 <= 3);
                    assert(path[2] == '?');
                } else {
                    assert(path[end] == 'U' || path[end] == 'N' || path[end] == 'C');
                }
            }
        }
        let more = rest.skip(4);
        assert(more[at - 1 - 8] == '\\' && more[end - 8] == '\\');
        lemma_two_segments_stop(seps, more, at - 1 - 8, end - 8);
    }
}

/// The same where it is not.
proof fn lemma_third_behind_two(one: Seq<char>, second: Seq<char>, third: Seq<char>)
    requires
        one.len() >= 3,
        second.len() > 0,
        !is_verbatim(one + seq!['\\'] + second + seq!['\\'] + third),
    ensures
        volume_length(Platform::Windows, one + seq!['\\'] + second + seq!['\\'] + third)
            <= one.len() + second.len() + 2,
{
    let path = one + seq!['\\'] + second + seq!['\\'] + third;
    let seps = Separators::Either;
    let j = one.len() as int;
    let k = j + second.len() + 1;
    assert(path[j] == '\\' && path[k] == '\\');
    lemma_two_segments_stop(seps, path.skip(2), j - 2, k - 2);
    lemma_segment_stops(seps, path.skip(4), k - 4);
}

/// A path that ends with a plain name behind a separator, a volume or nothing has that name.
proof fn lemma_name_behind_root(platform: Platform, head: Seq<char>, name: Seq<char>)
    requires
        is_plain_name(platform, name),
        volume_length(platform, head + name) <= head.len(),
        volume_length(platform, head + name) == head.len() || separators(
            platform,
            head + name,
        ).has(head.last()),
    ensures
        file_name(platform, head + name) == Some(name),
{
    let path = head + name;
    let seps = separators(platform, path);
    let volume = volume_length(platform, path) as int;
    let root = root_of(platform, path).len() as int;
    assert(path[head.len() as int] == name[0]);
    assert(!platform::is_separator(platform, name[0]));
    assert(root <= head.len());
    let body = path.skip(root);
    assert forall|k: int| head.len() - root <= k < body.len() implies !seps.has(
        #[trigger] body[k],
    ) by {
        assert(body[k] == name[k + root - head.len()]);
        assert(!platform::is_separator(platform, name[k + root - head.len()]));
    }
    if root < head.len() {
        assert(body[head.len() - root - 1] == head.last());
    }
    lemma_segment_start(seps, body, (head.len() - root) as nat);
    assert(body.skip(head.len() - root) == name);
    assert(body.last() == name.last());
    assert(!seps.has(body.last()));
}

/// What separates the components of a path: a slash on Unix, either character on Windows, and the
/// backslash alone in a path on Windows that begins with the mark of a literal one.
pub proof fn law_separators_of_a_path(platform: Platform, path: Seq<char>, c: char)
    ensures
        separators(platform, path).has(c) <==> if platform != Platform::Windows {
            c == '/'
        } else if path.len() >= 4 && path.take(4) == seq!['\\', '\\', '?', '\\'] {
            c == '\\'
        } else {
            c == '/' || c == '\\'
        },
{
    if path.len() >= 4 {
        let mark = seq!['\\', '\\', '?', '\\'];
        assert(path.take(4) == mark <==> is_verbatim(path)) by {
            if is_verbatim(path) {
                assert(path.take(4) == mark);
            }
            if path.take(4) == mark {
                assert(path.take(4)[0] == path[0] && path.take(4)[1] == path[1]);
                assert(path.take(4)[2] == path[2] && path.take(4)[3] == path[3]);
            }
        }
    }
}

/// The last component of a path decides its name: a plain one is the name, `..` has none, and
/// separators behind it change nothing. A `.` is passed over, except in a literal path.
pub proof fn law_last_component_is_the_name(
    seps: Separators,
    head: Seq<char>,
    name: Seq<char>,
    sep: char,
)
    requires
        head.len() == 0 || seps.has(head.last()),
        name.len() > 0,
        forall|k: int| 0 <= k < name.len() ==> !seps.has(#[trigger] name[k]),
        seps.has(sep),
    ensures
        name != seq!['.'] && name != seq!['.', '.'] ==> last_name(seps, head + name) == Some(name),
        name == seq!['.', '.'] ==> last_name(seps, head + name) is None,
        name == seq!['.'] && seps != Separators::Backslash ==> last_name(seps, head + name)
            == last_name(seps, head),
        name == seq!['.'] && seps == Separators::Backslash ==> last_name(seps, head + name) is None,
        last_name(seps, (head + name).push(sep)) == last_name(seps, head + name),
        last_name(seps, head.push(sep)) == last_name(seps, head),
        last_name(seps, Seq::empty()) is None,
{
    let path = head + name;
    assert(path.last() == name.last());
    assert(!seps.has(name[name.len() - 1]));
    assert forall|k: int| head.len() <= k < path.len() implies !seps.has(#[trigger] path[k]) by {
        assert(path[k] == name[k - head.len()]);
    }
    lemma_segment_start(seps, path, head.len());
    assert(path.skip(head.len() as int) == name);
    if name == seq!['.'] {
        assert(path.drop_last() == head);
        assert(seq!['.'].len() != seq!['.', '.'].len());
    }
    assert(path.push(sep).drop_last() == path);
    assert(head.push(sep).drop_last() == head);
}

/// The name of a file on Unix is the last plain component of its path, whatever stands before it
/// and whatever separators follow it.
pub proof fn law_unix_file_name(platform: Platform, dir: Seq<char>, name: Seq<char>)
    requires
        platform != Platform::Windows,
        is_plain_name(platform, name),
    ensures
        file_name(platform, name) == Some(name),
        file_name(platform, dir + seq!['/'] + name) == Some(name),
        file_name(platform, dir + seq!['/'] + name + seq!['/']) == Some(name),
        file_name(platform, dir + seq!['/', '.', '.']) is None,
        file_name(platform, Seq::empty()) is None,
{
    let seps = Separators::Slash;
    assert forall|k: int| 0 <= k < name.len() implies !seps.has(#[trigger] name[k]) by {
        assert(!platform::is_separator(platform, name[k]));
    }
    assert(name.skip(0) == name);
    law_last_component_is_the_name(seps, seq![], name, '/');
    assert(Seq::<char>::empty() + name == name);
    assert(Seq::<char>::empty().skip(0) == Seq::<char>::empty());
    let head = (dir + seq!['/']).skip(1);
    let path = dir + seq!['/'] + name;
    let up = dir + seq!['/', '.', '.'];
    let dots = seq!['.', '.'];
    if path[0] == '/' {
        assert(path.skip(1) == head + name);
        assert((path + seq!['/']).skip(1) == (head + name).push('/'));
        assert(up.skip(1) == head + dots);
        law_last_component_is_the_name(seps, head, name, '/');
        law_last_component_is_the_name(seps, head, dots, '/');
    } else {
        let whole = dir + seq!['/'];
        assert(path.skip(0) == whole + name);
        assert((path + seq!['/']).skip(0) == (whole + name).push('/'));
        assert(up.skip(0) == whole + dots);
        law_last_component_is_the_name(seps, whole, name, '/');
        law_last_component_is_the_name(seps, whole, dots, '/');
    }
}

/// The directory of a file is what stands before its name, where that is more than a root and ends
/// neither with a separator nor with `.`, and where the name does not become part of what names a
/// volume.
pub proof fn law_parent_is_what_stands_before_the_name(
    platform: Platform,
    dir: Seq<char>,
    sep: char,
    name: Seq<char>,
)
    requires
        is_plain_name(platform, name),
        volume_length(platform, dir) < dir.len(),
        root_of(platform, dir).len() < dir.len(),
        ({
            let path = dir + seq![sep] + name;
            let seps = separators(platform, dir);
            &&& separators(platform, path) == seps
            &&& volume_length(platform, path) == volume_length(platform, dir)
            &&& seps.has(sep)
            &&& !seps.has(dir.last())
            &&& dir.last() != '.'
        }),
    ensures
        parent(platform, dir + seq![sep] + name) == Some(dir),
{
    let path = dir + seq![sep] + name;
    let seps = separators(platform, dir);
    let root = root_of(platform, dir);
    let volume = volume_length(platform, dir) as int;
    assert(path[volume] == dir[volume]);
    assert(is_rooted(platform, path) == is_rooted(platform, dir));
    assert(root_of(platform, path) == root);
    let body = dir.skip(root.len() as int);
    assert(path.skip(root.len() as int) == body + seq![sep] + name);
    assert(body.last() == dir.last());
    assert forall|k: int| 0 <= k < name.len() implies !seps.has(#[trigger] name[k]) by {
        assert(!platform::is_separator(platform, name[k]));
    }
    lemma_last_component_comes_off(seps, body, sep, name, is_rooted(platform, dir));
    assert(root + body == dir);
}

proof fn lemma_last_component_comes_off(
    seps: Separators,
    body: Seq<char>,
    sep: char,
    name: Seq<char>,
    rooted: bool,
)
    requires
        name.len() > 0 && name != seq!['.'],
        forall|k: int| 0 <= k < name.len() ==> !seps.has(#[trigger] name[k]),
        seps.has(sep),
        body.len() > 0 && !seps.has(body.last()) && body.last() != '.',
    ensures
        ({
            let all = body + seq![sep] + name;
            &&& without_tail(seps, all, rooted) == all
            &&& segment_start(seps, all) == body.len() + 1
            &&& without_tail(seps, all.take(body.len() + 1int), rooted) == body
        }),
{
    let all = body + seq![sep] + name;
    let start = (body.len() + 1) as nat;
    assert forall|k: int| start <= k < all.len() implies !seps.has(#[trigger] all[k]) by {
        assert(all[k] == name[k - start]);
    }
    lemma_segment_start(seps, all, start);
    assert(all.skip(start as int) == name);
    assert(all.last() == name[name.len() - 1]);
    assert(all.take(start as int).drop_last() == body);
    assert(all.take(start as int).last() == sep);
    lemma_segment_starts_inside(seps, body);
    let last = body.skip(segment_start(seps, body) as int);
    assert(last.last() == body.last());
    assert(seq!['.'].last() == '.');
    assert(without_tail(seps, body, rooted) == body);
}

proof fn lemma_segment_starts_inside(seps: Separators, path: Seq<char>)
    ensures
        segment_start(seps, path) <= path.len(),
        path.len() > 0 && !seps.has(path.last()) ==> segment_start(seps, path) < path.len(),
    decreases path.len(),
{
    if path.len() > 0 && !seps.has(path.last()) {
        lemma_segment_starts_inside(seps, path.drop_last());
    }
}

/// On Unix the directory of a file is what stands before the slash before its name, the root where
/// nothing else does, and the empty path where the name stands alone. A root has none.
pub proof fn law_unix_parent(platform: Platform, dir: Seq<char>, name: Seq<char>)
    requires
        platform != Platform::Windows,
        is_plain_name(platform, name),
    ensures
        dir.len() > 0 && dir.last() != '/' && dir.last() != '.' ==> parent(
            platform,
            dir + seq!['/'] + name,
        ) == Some(dir),
        parent(platform, seq!['/'] + name) == Some(seq!['/']),
        parent(platform, name) == Some(Seq::<char>::empty()),
        parent(platform, seq!['/']) is None,
        parent(platform, Seq::empty()) is None,
{
    let seps = Separators::Slash;
    if dir.len() > 0 && dir.last() != '/' && dir.last() != '.' {
        assert(dir.len() == 1 ==> dir[0] == dir.last());
        law_parent_is_what_stands_before_the_name(platform, dir, '/', name);
    }
    assert forall|k: int| 0 <= k < name.len() implies !seps.has(#[trigger] name[k]) by {
        assert(!platform::is_separator(platform, name[k]));
    }
    assert(!seps.has(name[name.len() - 1]));
    lemma_segment_start(seps, name, 0);
    assert(name.skip(0) == name);
    assert(without_tail(seps, name, true) == name);
    assert(without_tail(seps, name, false) == name);
    let below = seq!['/'] + name;
    assert(below.skip(1) == name);
    assert(below.take(1) == seq!['/']);
    assert(name.take(0) == Seq::<char>::empty());
    assert(without_tail(seps, name.take(0), true) == Seq::<char>::empty());
    assert(without_tail(seps, name.take(0), false) == Seq::<char>::empty());
    assert(seq!['/'] + Seq::<char>::empty() == seq!['/']);
    assert(Seq::<char>::empty() + Seq::<char>::empty() == Seq::<char>::empty());
    assert(seq!['/'].skip(1) == Seq::<char>::empty());
    assert(Seq::<char>::empty().skip(0) == Seq::<char>::empty());
}

/// A path on Windows that begins with no two separators has the drive for its volume, where it
/// begins with one, and none otherwise. On Unix no path has one.
pub proof fn law_volume_of_an_ordinary_path(path: Seq<char>, platform: Platform)
    ensures
        platform != Platform::Windows ==> volume_length(platform, path) == 0,
        path.len() >= 2 && path[1] == ':' && ('a' <= path[0] <= 'z' || 'A' <= path[0] <= 'Z')
            ==> volume_length(Platform::Windows, path) == 2,
        path.len() < 2 || (path[1] != ':' && path[1] != '/' && path[1] != '\\') ==> volume_length(
            Platform::Windows,
            path,
        ) == 0,
{
}

/// A path on Windows below a share has the server and the share for its volume, whatever follows.
pub proof fn law_volume_of_a_share(server: Seq<char>, share: Seq<char>, rest: Seq<char>)
    requires
        server.len() > 0 && server != seq!['?'] && server != seq!['.'],
        share.len() > 0,
        forall|k: int| 0 <= k < server.len() ==> !Separators::Either.has(#[trigger] server[k]),
        forall|k: int| 0 <= k < share.len() ==> !Separators::Either.has(#[trigger] share[k]),
        rest.len() > 0 ==> Separators::Either.has(rest[0]),
    ensures
        volume_length(
            Platform::Windows,
            seq!['\\', '\\'] + server + seq!['\\'] + share + rest,
        ) == 3 + server.len() + share.len(),
{
    let seps = Separators::Either;
    let path = seq!['\\', '\\'] + server + seq!['\\'] + share + rest;
    let behind = path.skip(2);
    assert(behind == server + seq!['\\'] + share + rest);
    assert forall|k: int| 0 <= k < server.len() implies !seps.has(#[trigger] behind[k]) by {
        assert(behind[k] == server[k]);
    }
    lemma_segment_length(seps, behind, server.len());
    let second = behind.skip(server.len() + 1int);
    assert(second == share + rest);
    assert forall|k: int| 0 <= k < share.len() implies !seps.has(#[trigger] second[k]) by {
        assert(second[k] == share[k]);
    }
    lemma_segment_length(seps, second, share.len());
    assert(path[2] == server[0]);
    if server.len() > 1 {
        assert(path[3] == server[1]);
        assert(!seps.has(server[1]));
    } else {
        assert(server == seq![server[0]]);
    }
}

/// A component leads into what it names, `.` and the empty one lead nowhere, and `..` leads back
/// out of the component before it and not out of the root.
pub proof fn law_components_lead_in_and_out(body: Seq<char>, component: Seq<char>)
    requires
        is_plain_name(Platform::Windows, component),
    ensures
        entered(Seq::empty(), component) == component,
        body.len() > 0 ==> entered(body, component) == body + seq!['\\'] + component,
        entered(body, seq!['.']) == body,
        entered(body, Seq::empty()) == body,
        entered(Seq::empty(), seq!['.', '.']) == Seq::<char>::empty(),
        entered(entered(body, component), seq!['.', '.']) == body,
{
    let seps = Separators::Backslash;
    let inside = entered(body, component);
    let start = (inside.len() - component.len()) as nat;
    assert(seq!['.'].len() != seq!['.', '.'].len());
    assert forall|k: int| start <= k < inside.len() implies !seps.has(#[trigger] inside[k]) by {
        assert(inside[k] == component[k - start]);
        assert(!platform::is_separator(Platform::Windows, component[k - start]));
    }
    lemma_segment_start(seps, inside, start);
    assert(inside.skip(start as int) == component);
    if body.len() > 0 {
        assert(inside.take(start - 1) == body);
    }
}

/// The components of a relative path lead one after another, whichever separator stands between
/// them.
pub proof fn law_components_lead_in_turn(
    body: Seq<char>,
    component: Seq<char>,
    sep: char,
    rest: Seq<char>,
)
    requires
        sep == '/' || sep == '\\',
        forall|k: int| 0 <= k < component.len() ==> !Separators::Either.has(#[trigger] component[k]),
    ensures
        all_entered(body, component) == entered(body, component),
        all_entered(body, component + seq![sep] + rest) == all_entered(
            entered(body, component),
            rest,
        ),
{
    let seps = Separators::Either;
    let name = component + seq![sep] + rest;
    lemma_segment_length(seps, component, component.len());
    assert forall|k: int| 0 <= k < component.len() implies !seps.has(#[trigger] name[k]) by {
        assert(name[k] == component[k]);
    }
    lemma_segment_length(seps, name, component.len());
    assert(name.take(component.len() as int) == component);
    assert(name.skip(component.len() + 1int) == rest);
}

/// Whether no separator stands at either end of a path or beside another.
pub open spec fn is_tidy(seps: Separators, body: Seq<char>) -> bool {
    &&& body.len() > 0 ==> !seps.has(body[0]) && !seps.has(body.last())
    &&& forall|k: int| 0 < k < body.len() && seps.has(#[trigger] body[k]) ==> !seps.has(body[k - 1])
}

proof fn lemma_tidy_start_is_kept(body: Seq<char>, n: int)
    requires
        is_tidy(Separators::Backslash, body),
        0 <= n <= body.len(),
    ensures
        collapsed(Separators::Backslash, body.take(n)) == if n > 0 && Separators::Backslash.has(
            body[n - 1],
        ) {
            body.take(n - 1)
        } else {
            body.take(n)
        },
    decreases n,
{
    let seps = Separators::Backslash;
    let part = body.take(n);
    if n > 0 {
        lemma_tidy_start_is_kept(body, n - 1);
        assert(part.drop_last() == body.take(n - 1));
        assert(part.last() == body[n - 1]);
        if n > 1 {
            assert(part[n - 2] == body[n - 2]);
            if seps.has(body[n - 1]) {
                assert(!seps.has(body[n - 2]));
            } else if seps.has(body[n - 2]) {
                assert(n - 2 > 0);
                assert(!seps.has(body[n - 3]));
                assert(body.take(n - 2) + seq!['\\', body[n - 1]] == part);
            } else {
                assert(body.take(n - 1).push(body[n - 1]) == part);
            }
        } else {
            assert(body.take(0).push(body[0]) == part);
        }
    } else {
        assert(part == Seq::<char>::empty());
    }
}

/// A literal path with tidy components keeps them, and a plain name comes behind a backslash.
pub proof fn law_tidy_literal_path_is_kept(base: Seq<char>, name: Seq<char>)
    requires
        is_verbatim(base),
        is_plain_name(Platform::Windows, name),
        ({
            let volume = volume_length(Platform::Windows, base) as int;
            &&& volume + 1 < base.len()
            &&& base[volume] == '\\'
            &&& is_tidy(Separators::Backslash, base.skip(volume + 1))
        }),
    ensures
        platform::path_below(Platform::Windows, base, name) == base + seq!['\\'] + name,
{
    let platform = Platform::Windows;
    let volume = volume_length(platform, base) as int;
    let body = base.skip(volume + 1);
    assert(root_of(platform, base) == base.take(volume + 1));
    lemma_tidy_start_is_kept(body, body.len() as int);
    assert(body.take(body.len() as int) == body);
    assert(!Separators::Backslash.has(body.last()));
    assert(collapsed(Separators::Backslash, body) == body);
    lemma_plain_name_is_appended(platform, base, name);
    assert(base.take(volume) + seq!['\\'] + body + seq!['\\'] == base + seq!['\\']);
}

/// A path on Windows that begins with a device has the device for its volume, whatever follows.
pub proof fn law_volume_of_a_device(device: Seq<char>, rest: Seq<char>)
    requires
        forall|k: int| 0 <= k < device.len() ==> !Separators::Either.has(#[trigger] device[k]),
        rest.len() > 0 ==> Separators::Either.has(rest[0]),
    ensures
        volume_length(Platform::Windows, seq!['\\', '\\', '.', '\\'] + device + rest) == 4
            + device.len(),
{
    let seps = Separators::Either;
    let path = seq!['\\', '\\', '.', '\\'] + device + rest;
    let behind = path.skip(4);
    assert(behind == device + rest);
    assert forall|k: int| 0 <= k < device.len() implies !seps.has(#[trigger] behind[k]) by {
        assert(behind[k] == device[k]);
    }
    lemma_segment_length(seps, behind, device.len());
}

/// A path on Windows with a server and no share has no volume.
pub proof fn law_server_alone_is_no_volume(server: Seq<char>)
    requires
        server.len() > 0 && server[0] != '?' && server[0] != '.',
        forall|k: int| 0 <= k < server.len() ==> !Separators::Either.has(#[trigger] server[k]),
    ensures
        volume_length(Platform::Windows, seq!['\\', '\\'] + server) == 0,
{
    let path = seq!['\\', '\\'] + server;
    assert(path.skip(2) == server);
    assert(path[2] == server[0]);
    lemma_segment_length(Separators::Either, server, server.len());
}

/// A literal path has its drive for its volume, where a separator or nothing follows the drive.
pub proof fn law_volume_of_a_literal_drive(drive: char, rest: Seq<char>)
    requires
        'a' <= drive <= 'z' || 'A' <= drive <= 'Z',
        rest.len() > 0 ==> rest[0] == '/' || rest[0] == '\\',
    ensures
        volume_length(
            Platform::Windows,
            seq!['\\', '\\', '?', '\\', drive, ':'] + rest,
        ) == 6,
{
    let path = seq!['\\', '\\', '?', '\\', drive, ':'] + rest;
    let behind = path.skip(4);
    assert(behind == seq![drive, ':'] + rest);
    assert(behind[0] == drive && behind[1] == ':');
    if rest.len() > 0 {
        assert(behind[2] == rest[0]);
    }
}

/// A literal path to a share has the server and the share for its volume.
pub proof fn law_volume_of_a_literal_share(server: Seq<char>, share: Seq<char>, rest: Seq<char>)
    requires
        share.len() > 0,
        forall|k: int| 0 <= k < server.len() ==> (#[trigger] server[k]) != '\\',
        forall|k: int| 0 <= k < share.len() ==> (#[trigger] share[k]) != '\\',
        rest.len() > 0 ==> rest[0] == '\\',
    ensures
        volume_length(
            Platform::Windows,
            seq!['\\', '\\', '?', '\\', 'U', 'N', 'C', '\\'] + server + seq!['\\'] + share + rest,
        ) == 9 + server.len() + share.len(),
{
    let seps = Separators::Backslash;
    let path = seq!['\\', '\\', '?', '\\', 'U', 'N', 'C', '\\'] + server + seq!['\\'] + share
        + rest;
    let named = path.skip(4);
    assert(named[0] == 'U' && named[1] == 'N' && named[2] == 'C' && named[3] == '\\');
    let behind = named.skip(4);
    assert(behind == server + seq!['\\'] + share + rest);
    assert forall|k: int| 0 <= k < server.len() implies !seps.has(#[trigger] behind[k]) by {
        assert(behind[k] == server[k]);
    }
    lemma_segment_length(seps, behind, server.len());
    let second = behind.skip(server.len() + 1int);
    assert(second == share + rest);
    assert forall|k: int| 0 <= k < share.len() implies !seps.has(#[trigger] second[k]) by {
        assert(second[k] == share[k]);
    }
    lemma_segment_length(seps, second, share.len());
}

} // verus!
