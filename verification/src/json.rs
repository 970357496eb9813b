//! JSON: string literals, objects, and single members of a document.

use vstd::prelude::*;
use vstd::string::*;
use vstd::utf8::*;

use crate::text;

verus! {

/// The hexadecimal digit for `n`, in lower case.
pub open spec fn hex_digit(n: int) -> char {
    if n < 10 {
        (0x30 + n) as char
    } else {
        (0x61 + (n - 10)) as char
    }
}

/// How a character is written inside a JSON string.
pub open spec fn escaped_char(c: char) -> Seq<char> {
    let u = c as u32;
    if c == '"' || c == '\\' {
        seq!['\\', c]
    } else if u == 0x08 {
        seq!['\\', 'b']
    } else if u == 0x09 {
        seq!['\\', 't']
    } else if u == 0x0a {
        seq!['\\', 'n']
    } else if u == 0x0c {
        seq!['\\', 'f']
    } else if u == 0x0d {
        seq!['\\', 'r']
    } else if u < 0x20 {
        seq!['\\', 'u', '0', '0', hex_digit(u as int / 16), hex_digit(u as int % 16)]
    } else {
        seq![c]
    }
}

/// How a text is written inside a JSON string.
pub open spec fn escaped_text(s: Seq<char>) -> Seq<char>
    decreases s.len(),
{
    if s.len() == 0 {
        seq![]
    } else {
        escaped_char(s[0]) + escaped_text(s.drop_first())
    }
}

/// The JSON string with the value `s`.
pub open spec fn string_literal(s: Seq<char>) -> Seq<char> {
    seq!['"'] + escaped_text(s) + seq!['"']
}

/// Calls `serde_json::to_string` on a string, which quotes it and escapes the quote, the
/// backslash and the control characters, and never fails on one.
#[verifier::external_body]
pub(crate) fn quote(s: &str) -> (r: Option<String>)
    ensures
        text::opt_text(r) == Some(string_literal(s@)),
{
    serde_json::to_string(s).ok()
}

/// The value of a member of an object.
#[derive(Debug)]
pub enum Field {
    Text(String),
    List(Vec<String>),
}

/// The model of a member's value.
pub enum FieldView {
    Text(Seq<char>),
    List(Seq<Seq<char>>),
}

impl View for Field {
    type V = FieldView;

    open spec fn view(&self) -> FieldView {
        match self {
            Field::Text(s) => FieldView::Text(s@),
            Field::List(list) => FieldView::List(text::texts(list@)),
        }
    }
}

/// The models of an object's members.
pub open spec fn members(fields: Seq<(String, Field)>) -> Seq<(Seq<char>, FieldView)> {
    Seq::new(fields.len(), |i: int| (fields[i].0@, fields[i].1@))
}

/// Whether the first characters of the members' names ascend, and with them the names.
pub open spec fn names_ascend(fields: Seq<(Seq<char>, FieldView)>) -> bool {
    &&& forall|i: int| 0 <= i < fields.len() ==> (#[trigger] fields[i]).0.len() > 0
    &&& forall|i: int, j: int|
        0 <= i < j < fields.len() ==> (#[trigger] fields[i]).0[0] < (#[trigger] fields[j]).0[0]
}

/// The JSON strings with these values.
pub open spec fn string_literals(list: Seq<Seq<char>>) -> Seq<Seq<char>> {
    Seq::new(list.len(), |i: int| string_literal(list[i]))
}

/// An object on one line.
pub open spec fn compact_object(fields: Seq<(Seq<char>, FieldView)>) -> Seq<char> {
    let parts = Seq::new(
        fields.len(),
        |i: int|
            string_literal(fields[i].0) + ":"@ + match fields[i].1 {
                FieldView::Text(s) => string_literal(s),
                FieldView::List(list) => "["@ + text::joined(string_literals(list), ","@) + "]"@,
            },
    );
    "{"@ + text::joined(parts, ","@) + "}"@
}

/// An object with every member, and every item of a list, on a line of its own.
pub open spec fn pretty_object(fields: Seq<(Seq<char>, FieldView)>) -> Seq<char> {
    let parts = Seq::new(
        fields.len(),
        |i: int|
            string_literal(fields[i].0) + ": "@ + match fields[i].1 {
                FieldView::Text(s) => string_literal(s),
                FieldView::List(list) => if list.len() == 0 {
                    "[]"@
                } else {
                    "[\n    "@ + text::joined(string_literals(list), ",\n    "@) + "\n  ]"@
                },
            },
    );
    if fields.len() == 0 {
        "{}"@
    } else {
        "{\n  "@ + text::joined(parts, ",\n  "@) + "\n}"@
    }
}

/// Calls `serde_json::to_string` on a `serde_json::Value` with these members, which never fails
/// on one. A `serde_json::Map` lists its members by ascending name or, where the crate is built
/// so, as they were inserted; the two are the same where the names ascend.
#[verifier::external_body]
pub(crate) fn write_object(fields: Vec<(String, Field)>) -> (r: Option<String>)
    requires
        names_ascend(members(fields@)),
    ensures
        text::opt_text(r) == Some(compact_object(members(fields@))),
{
    let value = |field| match field {
        Field::Text(s) => serde_json::Value::from(s),
        Field::List(list) => serde_json::Value::from(list),
    };
    let object: serde_json::Map<String, serde_json::Value> = fields.into_iter().map(
        |(key, field)| (key, value(field)),
    ).collect();
    serde_json::to_string(&serde_json::Value::Object(object)).ok()
}

/// Calls `serde_json::to_vec_pretty` on a `serde_json::Value` with these members, which never
/// fails on one and indents by two spaces. The order of the members is as for `write_object`.
#[verifier::external_body]
pub(crate) fn write_pretty_object(fields: Vec<(String, Field)>) -> (r: Option<Vec<u8>>)
    requires
        names_ascend(members(fields@)),
    ensures
        opt_bytes(r) == Some(encode_utf8(pretty_object(members(fields@)))),
{
    let value = |field| match field {
        Field::Text(s) => serde_json::Value::from(s),
        Field::List(list) => serde_json::Value::from(list),
    };
    let object: serde_json::Map<String, serde_json::Value> = fields.into_iter().map(
        |(key, field)| (key, value(field)),
    ).collect();
    serde_json::to_vec_pretty(&serde_json::Value::Object(object)).ok()
}

/// The bytes of an optional vector.
pub open spec fn opt_bytes(value: Option<Vec<u8>>) -> Option<Seq<u8>> {
    match value {
        Some(bytes) => Some(bytes@),
        None => None,
    }
}

/// The JSON of the member `key` of the object in a JSON document. There is none where the bytes
/// are no JSON, where they hold something else than an object, and where the object has no such
/// member.
pub uninterp spec fn json_member(json: Seq<u8>, key: Seq<char>) -> Option<Seq<u8>>;

/// The truth value that a JSON document consists of. There is none where the bytes are no JSON
/// and where they hold something else.
pub uninterp spec fn json_bool(json: Seq<u8>) -> Option<bool>;

/// Calls `serde_json::from_slice`, `Value::get`, and `serde_json::to_vec` on the member that was
/// found. The result is a function of the arguments alone.
#[verifier::external_body]
pub(crate) fn member(json: &[u8], key: &str) -> (r: Option<Vec<u8>>)
    ensures
        opt_bytes(r) == json_member(json@, key@),
{
    let value: serde_json::Value = serde_json::from_slice(json).ok()?;
    serde_json::to_vec(value.get(key)?).ok()
}

/// Calls `serde_json::from_slice` and `Value::as_bool`. The result is a function of the bytes
/// alone.
#[verifier::external_body]
pub(crate) fn as_bool(json: &[u8]) -> (r: Option<bool>)
    ensures
        r == json_bool(json@),
{
    let value: serde_json::Value = serde_json::from_slice(json).ok()?;
    value.as_bool()
}

/// The position at which a string that is being read ends, from position `i` inside it: a
/// backslash takes the next character along, and the next quote ends the string.
pub open spec fn string_end(s: Seq<char>, i: int) -> int
    decreases s.len() + 1 - i,
{
    if i < 0 || i >= s.len() || s[i] == '"' {
        i
    } else if s[i] == '\\' {
        string_end(s, i + 2)
    } else {
        string_end(s, i + 1)
    }
}

proof fn lemma_string_end(prefix: Seq<char>, s: Seq<char>)
    ensures
        string_end(prefix + escaped_text(s) + seq!['"'], prefix.len() as int) == prefix.len()
            + escaped_text(s).len(),
    decreases s.len(),
{
    reveal_with_fuel(string_end, 8);
    let all = prefix + escaped_text(s) + seq!['"'];
    if s.len() == 0 {
        assert(all[prefix.len() as int] == '"');
    } else {
        let head = escaped_char(s[0]);
        let next = prefix + head;
        assert(all == next + escaped_text(s.drop_first()) + seq!['"']);
        lemma_string_end(next, s.drop_first());
        assert forall|k: int| 0 <= k < head.len() implies all[prefix.len() + k] == head[k] by {}
        assert(string_end(all, prefix.len() as int) == string_end(all, next.len() as int));
    }
}

/// A reader that starts behind the opening quote of a string literal finds its end exactly at the
/// closing quote, whatever the value is: nothing in a value can leave the literal.
pub proof fn law_value_cannot_leave_its_literal(s: Seq<char>)
    ensures
        string_end(string_literal(s), 1) == string_literal(s).len() - 1,
{
    lemma_string_end(seq!['"'], s);
}

/// A string literal holds no control character, and so no line break.
pub proof fn law_literal_holds_no_control_character(s: Seq<char>)
    ensures
        forall|i: int|
            0 <= i < string_literal(s).len() ==> (#[trigger] string_literal(s)[i]) as u32 >= 0x20,
    decreases s.len(),
{
    if s.len() > 0 {
        let rest = s.drop_first();
        law_literal_holds_no_control_character(rest);
        let head = escaped_char(s[0]);
        assert forall|i: int| 0 <= i < string_literal(s).len() implies (#[trigger] string_literal(
            s,
        )[i]) as u32 >= 0x20 by {
            if 1 <= i < 1 + head.len() {
                assert(string_literal(s)[i] == head[i - 1]);
            } else if i >= 1 + head.len() {
                assert(string_literal(s)[i] == string_literal(rest)[i - head.len()]);
            }
        }
    }
}

} // verus!
