//! Text in HTML: the five characters that have a meaning there are written as entities.

use vstd::prelude::*;
use vstd::string::*;

use crate::text;

verus! {

/// How a character is written in HTML.
pub open spec fn entity(c: char) -> Seq<char> {
    if c == '&' {
        "&amp;"@
    } else if c == '<' {
        "&lt;"@
    } else if c == '>' {
        "&gt;"@
    } else if c == '"' {
        "&quot;"@
    } else if c == '\'' {
        "&#39;"@
    } else {
        seq![c]
    }
}

/// How a text is written in HTML.
pub open spec fn escaped(s: Seq<char>) -> Seq<char>
    decreases s.len(),
{
    if s.len() == 0 {
        seq![]
    } else {
        entity(s[0]) + escaped(s.drop_first())
    }
}

/// Escapes a short text, such as a version number, for HTML.
pub fn escape_html(s: &str) -> (r: String)
    ensures
        r@ == escaped(s@),
{
    let chars = text::chars_of(s);
    let mut out = String::new();
    assert(s@.skip(0) == s@);
    for i in 0..chars.len()
        invariant
            chars@ == s@,
            out@ + escaped(s@.skip(i as int)) == escaped(s@),
    {
        let ghost before = out@;
        let c = chars[i];
        assert(s@.skip(i as int).drop_first() == s@.skip(i + 1));
        if c == '&' {
            out.append("&amp;");
        } else if c == '<' {
            out.append("&lt;");
        } else if c == '>' {
            out.append("&gt;");
        } else if c == '"' {
            out.append("&quot;");
        } else if c == '\'' {
            out.append("&#39;");
        } else {
            out.push(c);
            assert(out@ == before + seq![c]);
        }
        assert(out@ == before + entity(c));
        assert(before + (entity(c) + escaped(s@.skip(i + 1))) == (before + entity(c)) + escaped(
            s@.skip(i + 1),
        ));
    }
    assert(s@.skip(s@.len() as int).len() == 0);
    out
}

/// Whether a character has a meaning in HTML text or in a quoted attribute, other than to start
/// an entity.
pub open spec fn is_markup(c: char) -> bool {
    c == '<' || c == '>' || c == '"' || c == '\''
}

proof fn lemma_entity(c: char)
    ensures
        entity(c).len() > 0,
        forall|i: int| 0 <= i < entity(c).len() ==> !is_markup(#[trigger] entity(c)[i]),
        entity(c)[0] == (if is_markup(c) {
            '&'
        } else {
            c
        }),
        c == '&' ==> entity(c).len() > 1 && entity(c)[1] == 'a',
        c == '<' ==> entity(c).len() > 1 && entity(c)[1] == 'l',
        c == '>' ==> entity(c).len() > 1 && entity(c)[1] == 'g',
        c == '"' ==> entity(c).len() > 1 && entity(c)[1] == 'q',
        c == '\'' ==> entity(c).len() > 1 && entity(c)[1] == '#',
{
    reveal_strlit("&amp;");
    reveal_strlit("&lt;");
    reveal_strlit("&gt;");
    reveal_strlit("&quot;");
    reveal_strlit("&#39;");
}

/// Escaped text holds none of `<`, `>`, `"` and `'`: it can open no tag and end no attribute.
pub proof fn law_escaped_text_holds_no_markup(s: Seq<char>)
    ensures
        forall|i: int| 0 <= i < escaped(s).len() ==> !is_markup(#[trigger] escaped(s)[i]),
    decreases s.len(),
{
    if s.len() > 0 {
        lemma_entity(s[0]);
        law_escaped_text_holds_no_markup(s.drop_first());
        let head = entity(s[0]);
        assert forall|i: int| 0 <= i < escaped(s).len() implies !is_markup(
            #[trigger] escaped(s)[i],
        ) by {
            if i >= head.len() {
                assert(escaped(s)[i] == escaped(s.drop_first())[i - head.len()]);
            } else {
                assert(escaped(s)[i] == head[i]);
            }
        }
    }
}

/// Different texts stay different: escaping loses nothing.
pub proof fn law_escaping_loses_nothing(a: Seq<char>, b: Seq<char>)
    requires
        escaped(a) == escaped(b),
    ensures
        a == b,
    decreases a.len(),
{
    if a.len() > 0 {
        lemma_entity(a[0]);
    }
    if b.len() > 0 {
        lemma_entity(b[0]);
    }
    if a.len() > 0 && b.len() > 0 {
        let (ea, eb) = (entity(a[0]), entity(b[0]));
        let (ra, rb) = (escaped(a.drop_first()), escaped(b.drop_first()));
        assert(escaped(a)[0] == ea[0] && escaped(b)[0] == eb[0]);
        if ea[0] == '&' {
            assert(escaped(a)[1] == ea[1] && escaped(b)[1] == eb[1]);
        }
        assert(a[0] == b[0]);
        assert(ra == escaped(a).skip(ea.len() as int));
        assert(rb == escaped(b).skip(eb.len() as int));
        law_escaping_loses_nothing(a.drop_first(), b.drop_first());
        assert(a == seq![a[0]] + a.drop_first());
        assert(b == seq![b[0]] + b.drop_first());
    } else {
        assert(a.len() == b.len());
        assert(a == b);
    }
}

/// `s` with every `c` replaced by `by`.
pub open spec fn replaced(s: Seq<char>, c: char, by: Seq<char>) -> Seq<char>
    decreases s.len(),
{
    if s.len() == 0 {
        seq![]
    } else if s[0] == c {
        by + replaced(s.drop_first(), c, by)
    } else {
        seq![s[0]] + replaced(s.drop_first(), c, by)
    }
}

proof fn lemma_replaced_concat(a: Seq<char>, b: Seq<char>, c: char, by: Seq<char>)
    ensures
        replaced(a + b, c, by) == replaced(a, c, by) + replaced(b, c, by),
    decreases a.len(),
{
    if a.len() == 0 {
        assert(a + b == b);
        assert(replaced(a, c, by) + replaced(b, c, by) == replaced(b, c, by));
    } else {
        assert((a + b).drop_first() == a.drop_first() + b);
        lemma_replaced_concat(a.drop_first(), b, c, by);
        assert(replaced(a + b, c, by) == replaced(a, c, by) + replaced(b, c, by));
    }
}

proof fn lemma_replaced_absent(s: Seq<char>, c: char, by: Seq<char>)
    requires
        forall|i: int| 0 <= i < s.len() ==> s[i] != c,
    ensures
        replaced(s, c, by) == s,
    decreases s.len(),
{
    if s.len() > 0 {
        lemma_replaced_absent(s.drop_first(), c, by);
        assert(s == seq![s[0]] + s.drop_first());
    }
}

/// `s` with the five characters replaced one after another, the ampersand first.
pub open spec fn replaced_in_turn(s: Seq<char>) -> Seq<char> {
    replaced(
        replaced(
            replaced(
                replaced(replaced(s, '&', "&amp;"@), '<', "&lt;"@),
                '>',
                "&gt;"@,
            ),
            '"',
            "&quot;"@,
        ),
        '\'',
        "&#39;"@,
    )
}

proof fn lemma_replaced_in_turn_one(c: char)
    ensures
        replaced_in_turn(seq![c]) == entity(c),
{
    reveal_strlit("&amp;");
    reveal_strlit("&lt;");
    reveal_strlit("&gt;");
    reveal_strlit("&quot;");
    reveal_strlit("&#39;");
    let s = seq![c];
    assert(s.drop_first().len() == 0);
    assert forall|d: char, by: Seq<char>| #[trigger] replaced(s, d, by) == (if c == d {
        by
    } else {
        s
    }) by {
        reveal_with_fuel(replaced, 2);
        assert(by + Seq::<char>::empty() == by);
        assert(s + Seq::<char>::empty() == s);
    }
    let s1 = replaced(s, '&', "&amp;"@);
    if c == '&' {
        lemma_replaced_absent(s1, '<', "&lt;"@);
    }
    let s2 = replaced(s1, '<', "&lt;"@);
    if c == '&' || c == '<' {
        lemma_replaced_absent(s2, '>', "&gt;"@);
    }
    let s3 = replaced(s2, '>', "&gt;"@);
    if c == '&' || c == '<' || c == '>' {
        lemma_replaced_absent(s3, '"', "&quot;"@);
    }
    let s4 = replaced(s3, '"', "&quot;"@);
    if c == '&' || c == '<' || c == '>' || c == '"' {
        lemma_replaced_absent(s4, '\'', "&#39;"@);
    }
}

/// Escaping is the same as replacing the five characters one after another, the ampersand first.
pub proof fn law_escaping_is_replacing_in_turn(s: Seq<char>)
    ensures
        escaped(s) == replaced_in_turn(s),
    decreases s.len(),
{
    if s.len() > 0 {
        let (head, rest) = (seq![s[0]], s.drop_first());
        assert(s == head + rest);
        law_escaping_is_replacing_in_turn(rest);
        lemma_replaced_in_turn_one(s[0]);
        lemma_replaced_concat(head, rest, '&', "&amp;"@);
        let (h1, r1) = (replaced(head, '&', "&amp;"@), replaced(rest, '&', "&amp;"@));
        lemma_replaced_concat(h1, r1, '<', "&lt;"@);
        let (h2, r2) = (replaced(h1, '<', "&lt;"@), replaced(r1, '<', "&lt;"@));
        lemma_replaced_concat(h2, r2, '>', "&gt;"@);
        let (h3, r3) = (replaced(h2, '>', "&gt;"@), replaced(r2, '>', "&gt;"@));
        lemma_replaced_concat(h3, r3, '"', "&quot;"@);
        let (h4, r4) = (replaced(h3, '"', "&quot;"@), replaced(r3, '"', "&quot;"@));
        lemma_replaced_concat(h4, r4, '\'', "&#39;"@);
    } else {
        let empty = Seq::<char>::empty();
        assert(s == empty);
    }
}

} // verus!
