//! Text helpers with exact contracts over sequences of characters: trimming, prefixes, lines,
//! joining and decimal numbers.

use vstd::prelude::*;
use vstd::string::*;

verus! {

/// `String::push` appends one character to the end of the text.
pub assume_specification[ String::push ](s: &mut String, c: char)
    ensures
        final(s)@ == old(s)@.push(c),
;

/// The characters with the Unicode property `White_Space`.
pub open spec fn is_white_space(c: char) -> bool {
    let u = c as u32;
    ||| 0x09 <= u <= 0x0d
    ||| u == 0x20
    ||| u == 0x85
    ||| u == 0xa0
    ||| u == 0x1680
    ||| 0x2000 <= u <= 0x200a
    ||| u == 0x2028
    ||| u == 0x2029
    ||| u == 0x202f
    ||| u == 0x205f
    ||| u == 0x3000
}

/// A set of characters that trimming removes.
#[derive(Clone, Copy)]
pub enum CharSet {
    /// Every character with the Unicode property `White_Space`.
    WhiteSpace,
    /// One character.
    Only(char),
}

impl CharSet {
    /// Whether `c` belongs to the set.
    pub open spec fn has(self, c: char) -> bool {
        match self {
            CharSet::WhiteSpace => is_white_space(c),
            CharSet::Only(one) => c == one,
        }
    }

    /// Tests whether `c` belongs to the set.
    pub fn contains(&self, c: char) -> (found: bool)
        ensures
            found == self.has(c),
    {
        match self {
            CharSet::WhiteSpace => {
                let u: u32 = c as u32;
                (0x09 <= u && u <= 0x0d) || u == 0x20 || u == 0x85 || u == 0xa0 || u == 0x1680 || (
                0x2000 <= u && u <= 0x200a) || u == 0x2028 || u == 0x2029 || u == 0x202f || u
                    == 0x205f || u == 0x3000
            },
            CharSet::Only(one) => c == *one,
        }
    }
}

/// `s` without its leading characters of `set`.
pub open spec fn trimmed_start(s: Seq<char>, set: CharSet) -> Seq<char>
    decreases s.len(),
{
    if s.len() > 0 && set.has(s[0]) {
        trimmed_start(s.drop_first(), set)
    } else {
        s
    }
}

/// `s` without its trailing characters of `set`.
pub open spec fn trimmed_end(s: Seq<char>, set: CharSet) -> Seq<char>
    decreases s.len(),
{
    if s.len() > 0 && set.has(s.last()) {
        trimmed_end(s.drop_last(), set)
    } else {
        s
    }
}

/// `s` without its leading and trailing characters of `set`.
pub open spec fn trimmed_both(s: Seq<char>, set: CharSet) -> Seq<char> {
    trimmed_end(trimmed_start(s, set), set)
}

/// `s` without leading and trailing white space.
pub open spec fn trimmed(s: Seq<char>) -> Seq<char> {
    trimmed_both(s, CharSet::WhiteSpace)
}

/// Whether a text consists of characters of `set`.
pub open spec fn consists_of(s: Seq<char>, set: CharSet) -> bool {
    forall|k: int| 0 <= k < s.len() ==> set.has(#[trigger] s[k])
}

/// Trimming at the start leaves the end of a text, which begins with no character of the set.
pub proof fn lemma_trimmed_start(s: Seq<char>, set: CharSet)
    ensures
        trimmed_start(s, set).len() <= s.len(),
        trimmed_start(s, set) == s.skip(s.len() - trimmed_start(s, set).len()),
        trimmed_start(s, set).len() > 0 ==> !set.has(trimmed_start(s, set)[0]),
        consists_of(s.take(s.len() - trimmed_start(s, set).len()), set),
    decreases s.len(),
{
    if s.len() > 0 && set.has(s[0]) {
        let rest = s.drop_first();
        lemma_trimmed_start(rest, set);
        let trimmed = s.take(s.len() - trimmed_start(s, set).len());
        let trimmed_rest = rest.take(rest.len() - trimmed_start(rest, set).len());
        assert forall|k: int| 0 <= k < trimmed.len() implies set.has(#[trigger] trimmed[k]) by {
            if k > 0 {
                assert(trimmed[k] == trimmed_rest[k - 1]);
            }
        }
    }
}

/// Trimming at the start takes off what stands before the first character that is none of the set.
pub proof fn lemma_trimmed_start_of(blank: Seq<char>, rest: Seq<char>, set: CharSet)
    requires
        consists_of(blank, set),
        rest.len() > 0 ==> !set.has(rest[0]),
    ensures
        trimmed_start(blank + rest, set) == rest,
    decreases blank.len(),
{
    let s = blank + rest;
    if blank.len() > 0 {
        assert(set.has(blank[0]));
        assert(s.drop_first() == blank.drop_first() + rest);
        assert forall|k: int| 0 <= k < blank.len() - 1 implies set.has(
            #[trigger] blank.drop_first()[k],
        ) by {
            assert(set.has(blank[k + 1]));
        }
        lemma_trimmed_start_of(blank.drop_first(), rest, set);
    } else {
        assert(s == rest);
    }
}

/// Trimming at the end leaves the start of a text, which ends with no character of the set.
pub proof fn lemma_trimmed_end(s: Seq<char>, set: CharSet)
    ensures
        trimmed_end(s, set).len() <= s.len(),
        trimmed_end(s, set) == s.take(trimmed_end(s, set).len() as int),
        trimmed_end(s, set).len() > 0 ==> !set.has(trimmed_end(s, set).last()),
    decreases s.len(),
{
    if s.len() > 0 && set.has(s.last()) {
        lemma_trimmed_end(s.drop_last(), set);
    }
}

/// A text that has been trimmed has nothing left to trim.
pub proof fn lemma_trimmed_both(s: Seq<char>, set: CharSet)
    ensures
        trimmed_both(s, set).len() > 0 ==> !set.has(trimmed_both(s, set)[0]) && !set.has(
            trimmed_both(s, set).last(),
        ),
        trimmed_both(trimmed_both(s, set), set) == trimmed_both(s, set),
{
    lemma_trimmed_start(s, set);
    lemma_trimmed_end(trimmed_start(s, set), set);
}

/// The characters of a text as a vector.
pub fn chars_of(s: &str) -> (chars: Vec<char>)
    ensures
        chars@ == s@,
{
    let mut chars: Vec<char> = Vec::new();
    for c in it: s.chars()
        invariant
            chars@ == s@.take(it.index() as int),
            it.seq() == s@,
    {
        chars.push(c);
    }
    chars
}

/// Removes the leading characters of `set`.
pub fn trim_start_set<'a>(s: &'a str, set: CharSet) -> (r: &'a str)
    ensures
        r@ == trimmed_start(s@, set),
{
    let chars = chars_of(s);
    let mut start: usize = 0;
    assert(s@.skip(0) == s@);
    while start < chars.len() && set.contains(chars[start])
        invariant
            start <= chars.len(),
            chars@ == s@,
            trimmed_start(s@, set) == trimmed_start(s@.skip(start as int), set),
        decreases chars.len() - start,
    {
        assert(s@.skip(start as int).drop_first() == s@.skip(start + 1));
        start = start + 1;
    }
    assert(s@.skip(start as int) == s@.subrange(start as int, chars.len() as int));
    s.substring_char(start, chars.len())
}

/// Removes the trailing characters of `set`.
pub fn trim_end_set<'a>(s: &'a str, set: CharSet) -> (r: &'a str)
    ensures
        r@ == trimmed_end(s@, set),
{
    let chars = chars_of(s);
    let mut end: usize = chars.len();
    assert(s@.take(end as int) == s@);
    while end > 0 && set.contains(chars[end - 1])
        invariant
            end <= chars.len(),
            chars@ == s@,
            trimmed_end(s@, set) == trimmed_end(s@.take(end as int), set),
        decreases end,
    {
        assert(s@.take(end as int).drop_last() == s@.take(end - 1));
        end = end - 1;
    }
    assert(s@.take(end as int) == s@.subrange(0, end as int));
    s.substring_char(0, end)
}

/// Removes leading and trailing characters of `set`.
pub fn trim_set<'a>(s: &'a str, set: CharSet) -> (r: &'a str)
    ensures
        r@ == trimmed_both(s@, set),
{
    trim_end_set(trim_start_set(s, set), set)
}

/// Removes leading and trailing white space.
pub fn trim<'a>(s: &'a str) -> (r: &'a str)
    ensures
        r@ == trimmed(s@),
{
    trim_set(s, CharSet::WhiteSpace)
}

/// Whether `s` begins with `prefix`.
pub open spec fn begins_with(s: Seq<char>, prefix: Seq<char>) -> bool {
    prefix.len() <= s.len() && s.take(prefix.len() as int) == prefix
}

/// What follows `prefix` in a text that begins with it.
pub fn strip_prefix<'a>(s: &'a str, prefix: &str) -> (r: Option<&'a str>)
    ensures
        match r {
            Some(rest) => begins_with(s@, prefix@) && rest@ == s@.skip(prefix@.len() as int),
            None => !begins_with(s@, prefix@),
        },
{
    let chars = chars_of(s);
    let head = chars_of(prefix);
    if head.len() > chars.len() {
        return None;
    }
    let mut i: usize = 0;
    while i < head.len()
        invariant
            i <= head.len() <= chars.len(),
            chars@ == s@,
            head@ == prefix@,
            forall|k: int| 0 <= k < i ==> chars[k] == head[k],
        decreases head.len() - i,
    {
        if chars[i] != head[i] {
            assert(s@.take(prefix@.len() as int)[i as int] != prefix@[i as int]);
            return None;
        }
        i = i + 1;
    }
    assert(s@.take(prefix@.len() as int) == prefix@);
    assert(s@.skip(prefix@.len() as int) == s@.subrange(head.len() as int, chars.len() as int));
    Some(s.substring_char(head.len(), chars.len()))
}

/// Tests whether a text begins with `prefix`.
pub fn starts_with(s: &str, prefix: &str) -> (r: bool)
    ensures
        r == begins_with(s@, prefix@),
{
    strip_prefix(s, prefix).is_some()
}

/// Tests whether two texts hold the same characters.
pub fn same_text(a: &str, b: &str) -> (r: bool)
    ensures
        r == (a@ == b@),
{
    match strip_prefix(a, b) {
        Some(rest) => {
            proof {
                assert(a@ == b@ + rest@);
                if rest@.len() == 0 {
                    assert(a@ == b@);
                }
            }
            rest.is_empty()
        },
        None => {
            proof {
                if a@ == b@ {
                    assert(a@.take(b@.len() as int) == b@);
                }
            }
            false
        },
    }
}

/// The number of characters of `s` before its first `c`, or all of them.
pub open spec fn length_before(s: Seq<char>, c: char) -> nat
    decreases s.len(),
{
    if s.len() == 0 || s[0] == c {
        0
    } else {
        1 + length_before(s.drop_first(), c)
    }
}

/// The number of characters of the first line of `s`.
pub open spec fn line_length(s: Seq<char>) -> nat {
    length_before(s, '\n')
}

/// The lines of `s`: the pieces between line feeds. A line feed at the end opens no further line.
pub open spec fn lines_of(s: Seq<char>) -> Seq<Seq<char>>
    decreases s.len(),
{
    if s.len() == 0 {
        seq![]
    } else if line_length(s) < s.len() {
        seq![s.take(line_length(s) as int)] + lines_of(s.skip(line_length(s) + 1int))
    } else {
        seq![s]
    }
}

/// The characters before the first `c` are those that are no `c`.
pub proof fn lemma_length_before(s: Seq<char>, c: char, n: nat)
    requires
        n <= s.len(),
        forall|k: int| 0 <= k < n ==> s[k] != c,
        n < s.len() ==> s[n as int] == c,
    ensures
        length_before(s, c) == n,
    decreases n,
{
    if n > 0 {
        assert forall|k: int| 0 <= k < n - 1 implies s.drop_first()[k] != c by {
            assert(s[k + 1] != c);
        }
        lemma_length_before(s.drop_first(), c, (n - 1) as nat);
    }
}

/// Splits a text into its lines.
pub fn lines<'a>(s: &'a str) -> (r: Vec<&'a str>)
    ensures
        r@.len() == lines_of(s@).len(),
        forall|i: int| 0 <= i < r@.len() ==> (#[trigger] r@[i])@ == lines_of(s@)[i],
{
    let chars = chars_of(s);
    let mut out: Vec<&'a str> = Vec::new();
    let ghost mut seen: Seq<Seq<char>> = seq![];
    let mut start: usize = 0;
    let mut i: usize = 0;
    assert(s@.skip(0) == s@);
    assert(seen + lines_of(s@) == lines_of(s@));
    while i < chars.len()
        invariant
            start <= i <= chars.len(),
            chars@ == s@,
            forall|k: int| start <= k < i ==> chars[k] != '\n',
            lines_of(s@) == seen + lines_of(s@.skip(start as int)),
            out@.len() == seen.len(),
            forall|k: int| 0 <= k < out@.len() ==> (#[trigger] out@[k])@ == seen[k],
        decreases chars.len() - i,
    {
        if chars[i] == '\n' {
            let line = s.substring_char(start, i);
            proof {
                let rest = s@.skip(start as int);
                lemma_length_before(rest, '\n', (i - start) as nat);
                assert(rest.take(i - start) == line@);
                assert(rest.skip(i - start + 1) == s@.skip(i + 1));
                assert(seen + (seq![line@] + lines_of(s@.skip(i + 1))) == (seen + seq![line@])
                    + lines_of(s@.skip(i + 1)));
                seen = seen.push(line@);
                assert(seen == seen.drop_last() + seq![line@]);
            }
            out.push(line);
            start = i + 1;
        }
        i = i + 1;
    }
    if start < chars.len() {
        let line = s.substring_char(start, chars.len());
        proof {
            let rest = s@.skip(start as int);
            lemma_length_before(rest, '\n', rest.len());
            assert(rest == line@);
        }
        out.push(line);
    } else {
        assert(s@.skip(start as int).len() == 0);
    }
    out
}

/// The text that an optional string holds.
pub open spec fn opt_text(value: Option<String>) -> Option<Seq<char>> {
    match value {
        Some(text) => Some(text@),
        None => None,
    }
}

/// A result with the text of its error.
pub open spec fn error_text<T>(result: Result<T, String>) -> Result<T, Seq<char>> {
    match result {
        Ok(value) => Ok(value),
        Err(error) => Err(error@),
    }
}

/// A result with the texts of its value and of its error.
pub open spec fn result_text(result: Result<String, String>) -> Result<Seq<char>, Seq<char>> {
    match result {
        Ok(value) => Ok(value@),
        Err(error) => Err(error@),
    }
}

/// The texts that a sequence of strings holds.
pub open spec fn texts(list: Seq<String>) -> Seq<Seq<char>> {
    Seq::new(list.len(), |i: int| list[i]@)
}

/// The texts that a sequence of string slices holds.
pub open spec fn slices(list: Seq<&str>) -> Seq<Seq<char>> {
    Seq::new(list.len(), |i: int| list[i]@)
}

/// Copies a list of string slices into owned strings.
pub fn words(list: &[&str]) -> (r: Vec<String>)
    ensures
        texts(r@) == slices(list@),
{
    let mut out: Vec<String> = Vec::new();
    for i in 0..list.len()
        invariant
            out@.len() == i,
            forall|k: int| 0 <= k < i ==> (#[trigger] out@[k])@ == list@[k]@,
    {
        out.push(list[i].to_owned());
    }
    assert(texts(out@) == slices(list@));
    out
}

/// Every part in turn, each with `sep` in front of it.
pub open spec fn each_after(sep: Seq<char>, parts: Seq<Seq<char>>) -> Seq<char>
    decreases parts.len(),
{
    if parts.len() == 0 {
        seq![]
    } else {
        each_after(sep, parts.drop_last()) + sep + parts.last()
    }
}

/// The parts in turn, with `sep` between any two of them.
pub open spec fn joined(parts: Seq<Seq<char>>, sep: Seq<char>) -> Seq<char> {
    if parts.len() == 0 {
        seq![]
    } else {
        parts[0] + each_after(sep, parts.drop_first())
    }
}

/// Joins texts with a separator between them.
pub fn join(parts: &Vec<String>, sep: &str) -> (r: String)
    ensures
        r@ == joined(texts(parts@), sep@),
{
    let ghost all = texts(parts@);
    if parts.len() == 0 {
        return String::new();
    }
    let mut out = parts[0].clone();
    assert(all.drop_first().take(0).len() == 0);
    for i in 1..parts.len()
        invariant
            all == texts(parts@),
            parts@.len() > 0,
            out@ == all[0] + each_after(sep@, all.drop_first().take(i - 1)),
    {
        let ghost before = all.drop_first().take(i - 1);
        let ghost after = all.drop_first().take(i as int);
        out.append(sep);
        out.append(parts[i].as_str());
        assert(after.drop_last() == before);
        assert(after.last() == all[i as int]);
        assert(out@ == all[0] + (each_after(sep@, before) + sep@ + all[i as int]));
    }
    assert(all.drop_first().take(parts@.len() - 1) == all.drop_first());
    out
}

/// The character of a decimal digit.
pub open spec fn digit_char(d: nat) -> char {
    (0x30 + d) as char
}

/// A natural number in decimal notation.
pub open spec fn decimal(n: nat) -> Seq<char>
    decreases n,
{
    if n < 10 {
        seq![digit_char(n)]
    } else {
        decimal(n / 10).push(digit_char(n % 10))
    }
}

/// An integer in decimal notation, with a minus sign in front of a negative one.
pub open spec fn signed_decimal(n: int) -> Seq<char> {
    if n < 0 {
        seq!['-'] + decimal((-n) as nat)
    } else {
        decimal(n as nat)
    }
}

/// Writes a natural number in decimal notation.
pub fn decimal_text(n: u64) -> (r: String)
    ensures
        r@ == decimal(n as nat),
    decreases n,
{
    let digits: [char; 10] = ['0', '1', '2', '3', '4', '5', '6', '7', '8', '9'];
    let mut out = if n < 10 {
        String::new()
    } else {
        decimal_text(n / 10)
    };
    out.push(digits[(n % 10) as usize]);
    out
}

/// Writes an integer in decimal notation.
pub fn signed_decimal_text(n: i128) -> (r: String)
    requires
        -u64::MAX <= n <= u64::MAX,
    ensures
        r@ == signed_decimal(n as int),
{
    if n < 0 {
        let mut out = String::new();
        out.push('-');
        out.append(decimal_text((-n) as u64).as_str());
        out
    } else {
        decimal_text(n as u64)
    }
}

/// A text begins with another where something, or nothing, follows the other in it.
pub proof fn law_beginning_is_followed_by_the_rest(s: Seq<char>, prefix: Seq<char>)
    ensures
        begins_with(s, prefix) <==> exists|rest: Seq<char>| s == #[trigger] (prefix + rest),
{
    if begins_with(s, prefix) {
        assert(s == prefix + s.skip(prefix.len() as int));
    }
    if exists|rest: Seq<char>| s == #[trigger] (prefix + rest) {
        let rest = choose|rest: Seq<char>| s == #[trigger] (prefix + rest);
        assert(s.take(prefix.len() as int) == prefix);
    }
}

/// Trimming takes characters of the set off both ends, all that are there, and nothing else.
pub proof fn law_trimming_takes_off_the_ends(s: Seq<char>, set: CharSet) -> (ends: (
    Seq<char>,
    Seq<char>,
))
    ensures
        consists_of(ends.0, set),
        consists_of(ends.1, set),
        s == ends.0 + trimmed_both(s, set) + ends.1,
        trimmed_both(s, set).len() > 0 ==> !set.has(trimmed_both(s, set)[0]) && !set.has(
            trimmed_both(s, set).last(),
        ),
{
    let inner = trimmed_start(s, set);
    lemma_trimmed_start(s, set);
    lemma_trimmed_end(inner, set);
    lemma_trimmed_both(s, set);
    let head = s.take(s.len() - inner.len());
    let tail = inner.skip(trimmed_end(inner, set).len() as int);
    lemma_trimmed_off_the_end(inner, set);
    assert(s == head + trimmed_both(s, set) + tail);
    (head, tail)
}

/// Trimming at the end takes off characters of the set.
pub proof fn lemma_trimmed_off_the_end(s: Seq<char>, set: CharSet)
    ensures
        consists_of(s.skip(trimmed_end(s, set).len() as int), set),
    decreases s.len(),
{
    lemma_trimmed_end(s, set);
    if s.len() > 0 && set.has(s.last()) {
        let shorter = s.drop_last();
        lemma_trimmed_off_the_end(shorter, set);
        lemma_trimmed_end(shorter, set);
        let n = trimmed_end(s, set).len() as int;
        let off = s.skip(n);
        assert forall|k: int| 0 <= k < off.len() implies set.has(#[trigger] off[k]) by {
            if k < off.len() - 1 {
                assert(off[k] == shorter.skip(n)[k]);
            }
        }
    }
}

/// Nothing joined is nothing, one part joined is itself, and a further part comes behind the
/// separator.
pub proof fn law_joining_puts_the_separator_between(
    parts: Seq<Seq<char>>,
    part: Seq<char>,
    sep: Seq<char>,
)
    ensures
        joined(seq![], sep) == Seq::<char>::empty(),
        joined(seq![part], sep) == part,
        parts.len() > 0 ==> joined(parts.push(part), sep) == joined(parts, sep) + sep + part,
{
    assert(seq![part].drop_first().len() == 0);
    assert(joined(seq![part], sep) == part);
    if parts.len() > 0 {
        let more = parts.push(part);
        assert(more.drop_first().drop_last() == parts.drop_first());
        assert(more.drop_first().last() == part);
        assert(more[0] == parts[0]);
        assert(joined(more, sep) == joined(parts, sep) + sep + part);
    }
}

/// The number that decimal digits stand for.
pub open spec fn decimal_value(digits: Seq<char>) -> nat
    decreases digits.len(),
{
    if digits.len() == 0 {
        0
    } else {
        decimal_value(digits.drop_last()) * 10 + (digits.last() as u32 - 0x30) as nat
    }
}

/// Decimal notation is read back as the number that was written, consists of digits, and has no
/// zero in front.
pub proof fn law_decimal_is_read_back(n: nat)
    ensures
        decimal_value(decimal(n)) == n,
        decimal(n).len() > 0,
        forall|i: int| 0 <= i < decimal(n).len() ==> '0' <= #[trigger] decimal(n)[i] <= '9',
        n > 0 ==> decimal(n)[0] != '0',
        n == 0 ==> decimal(n).len() == 1,
    decreases n,
{
    if n < 10 {
        assert(decimal(n).drop_last() == Seq::<char>::empty());
        assert(decimal_value(decimal(n).drop_last()) == 0);
    } else {
        law_decimal_is_read_back(n / 10);
        assert(decimal(n).drop_last() == decimal(n / 10));
        assert forall|i: int| 0 <= i < decimal(n).len() implies '0' <= #[trigger] decimal(n)[i]
            <= '9' by {
            if i < decimal(n).len() - 1 {
                assert(decimal(n)[i] == decimal(n / 10)[i]);
            }
        }
        assert(decimal(n)[0] == decimal(n / 10)[0]);
    }
}

/// A negative number is written as the positive one behind a minus sign.
pub proof fn law_sign_stands_in_front(n: int)
    ensures
        n >= 0 ==> signed_decimal(n) == decimal(n as nat),
        n < 0 ==> signed_decimal(n) == seq!['-'] + decimal((-n) as nat),
{
}

/// The lines of a text hold no line feed, and the text is its lines with a line feed between any
/// two of them, and perhaps one behind the last.
pub proof fn law_lines_are_the_text(s: Seq<char>)
    ensures
        forall|i: int| 0 <= i < lines_of(s).len() ==> !(#[trigger] lines_of(s)[i]).contains('\n'),
        s.len() == 0 <==> lines_of(s).len() == 0,
        s.len() > 0 && s.last() != '\n' ==> joined(lines_of(s), seq!['\n']) == s,
        s.len() > 0 && s.last() == '\n' ==> joined(lines_of(s), seq!['\n']).push('\n') == s,
    decreases s.len(),
{
    let sep = seq!['\n'];
    if s.len() > 0 {
        lemma_line_ends(s);
        let n = line_length(s) as int;
        let first = s.take(n);
        assert(!first.contains('\n'));
        if n < s.len() {
            let rest = s.skip(n + 1);
            law_lines_are_the_text(rest);
            let lines = lines_of(s);
            assert(lines == seq![first] + lines_of(rest));
            assert forall|i: int| 0 <= i < lines.len() implies !(#[trigger] lines[i]).contains(
                '\n',
            ) by {
                if i > 0 {
                    assert(lines[i] == lines_of(rest)[i - 1]);
                }
            }
            lemma_joined_front(first, lines_of(rest), sep);
            if rest.len() == 0 {
                assert(lines == seq![first]);
                law_joining_puts_the_separator_between(seq![], first, sep);
                assert(s == first.push('\n'));
            } else {
                assert(s == first + sep + rest);
                assert(s.last() == rest.last());
                if s.last() == '\n' {
                    assert(joined(lines, sep).push('\n') == first + sep + joined(
                        lines_of(rest),
                        sep,
                    ).push('\n'));
                }
            }
        } else {
            assert(first == s);
            assert(lines_of(s) == seq![s]);
            law_joining_puts_the_separator_between(seq![], s, sep);
        }
    }
}

proof fn lemma_line_ends(s: Seq<char>)
    ensures
        line_length(s) <= s.len(),
        line_length(s) < s.len() ==> s[line_length(s) as int] == '\n',
        forall|k: int| 0 <= k < line_length(s) ==> s[k] != '\n',
    decreases s.len(),
{
    if s.len() > 0 && s[0] != '\n' {
        lemma_line_ends(s.drop_first());
        assert forall|k: int| 0 <= k < line_length(s) implies s[k] != '\n' by {
            if k > 0 {
                assert(s[k] == s.drop_first()[k - 1]);
            }
        }
    }
}

proof fn lemma_joined_front(first: Seq<char>, rest: Seq<Seq<char>>, sep: Seq<char>)
    ensures
        rest.len() > 0 ==> joined(seq![first] + rest, sep) == first + sep + joined(rest, sep),
    decreases rest.len(),
{
    let all = seq![first] + rest;
    if rest.len() > 0 {
        assert(all.drop_first() == rest);
        let tail = rest.drop_first();
        lemma_each_after_front(sep, rest);
        assert(joined(all, sep) == first + sep + joined(rest, sep));
    }
}

proof fn lemma_each_after_front(sep: Seq<char>, parts: Seq<Seq<char>>)
    requires
        parts.len() > 0,
    ensures
        each_after(sep, parts) == sep + parts[0] + each_after(sep, parts.drop_first()),
    decreases parts.len(),
{
    if parts.len() == 1 {
        assert(each_after(sep, parts.drop_last()) == Seq::<char>::empty());
        assert(each_after(sep, parts.drop_first()) == Seq::<char>::empty());
        assert(each_after(sep, parts) == sep + parts[0] + each_after(sep, parts.drop_first()));
    } else {
        let shorter = parts.drop_last();
        let rest = parts.drop_first();
        lemma_each_after_front(sep, shorter);
        assert(shorter.drop_first() == rest.drop_last());
        assert(shorter[0] == parts[0]);
        assert(rest.last() == parts.last());
        assert(each_after(sep, rest) == each_after(sep, rest.drop_last()) + sep + rest.last());
        assert(each_after(sep, parts) == sep + parts[0] + each_after(sep, rest));
    }
}

/// What is kept of a value in a contract is the text that it holds, and which of the two it is.
pub proof fn law_texts_are_those_of_the_values(
    option: Option<String>,
    result: Result<String, String>,
    list: Seq<String>,
    words: Seq<&str>,
    i: int,
)
    ensures
        slices(words).len() == words.len(),
        0 <= i < words.len() ==> slices(words)[i] == words[i]@,
        match option {
            Some(s) => opt_text(option) == Some(s@),
            None => opt_text(option) is None,
        },
        match result {
            Ok(s) => result_text(result) == Ok::<_, Seq<char>>(s@),
            Err(e) => result_text(result) == Err::<Seq<char>, _>(e@),
        },
        texts(list).len() == list.len(),
        0 <= i < list.len() ==> texts(list)[i] == list[i]@,
{
}

/// A result whose value is no text keeps it, and its error's text.
pub proof fn law_error_text_keeps_the_value<T>(result: Result<T, String>)
    ensures
        match result {
            Ok(value) => error_text(result) == Ok::<T, Seq<char>>(value),
            Err(e) => error_text(result) == Err::<T, _>(e@),
        },
{
}

/// A set of one character holds that one alone, and trimming without a set takes off white space.
pub proof fn law_sets_hold_what_they_name(s: Seq<char>, c: char, other: char)
    ensures
        CharSet::Only(c).has(other) <==> other == c,
        CharSet::WhiteSpace.has(c) <==> is_white_space(c),
        trimmed(s) == trimmed_both(s, CharSet::WhiteSpace),
{
}

/// A text without a character of the set at either end is left as it is by trimming, so that
/// trimming twice is trimming once.
pub proof fn law_trimming_twice_is_trimming_once(s: Seq<char>, set: CharSet)
    ensures
        s.len() == 0 || (!set.has(s[0]) && !set.has(s.last())) ==> trimmed_both(s, set) == s,
        trimmed_both(trimmed_both(s, set), set) == trimmed_both(s, set),
{
    let ends = law_trimming_takes_off_the_ends(s, set);
}

/// The first place of a character in a text is where it stands with none of it before.
pub proof fn law_length_before_is_the_first_place(s: Seq<char>, c: char)
    ensures
        length_before(s, c) <= s.len(),
        length_before(s, c) < s.len() ==> s[length_before(s, c) as int] == c,
        !s.take(length_before(s, c) as int).contains(c),
    decreases s.len(),
{
    if s.len() > 0 && s[0] != c {
        let rest = s.drop_first();
        law_length_before_is_the_first_place(rest, c);
        let head = s.take(length_before(s, c) as int);
        let shorter = rest.take(length_before(rest, c) as int);
        assert forall|k: int| 0 <= k < head.len() implies head[k] != c by {
            if k > 0 {
                assert(head[k] == shorter[k - 1]);
                assert(shorter.contains(shorter[k - 1]));
            }
        }
    }
}

} // verus!
