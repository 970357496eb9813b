//! Bytes as base64 text.

use base64::Engine;
use vstd::prelude::*;

verus! {

/// The character of the standard base64 alphabet for a group of six bits.
pub open spec fn sextet_char(n: int) -> char {
    if n < 26 {
        (0x41 + n) as char
    } else if n < 52 {
        (0x61 + (n - 26)) as char
    } else if n < 62 {
        (0x30 + (n - 52)) as char
    } else if n == 62 {
        '+'
    } else {
        '/'
    }
}

/// The standard base64 text of `bytes`, padded with `=`: four characters
/// for every three bytes.
pub open spec fn standard_base64(bytes: Seq<u8>) -> Seq<char>
    decreases bytes.len(),
{
    if bytes.len() == 0 {
        seq![]
    } else if bytes.len() == 1 {
        seq![sextet_char(bytes[0] as int / 4), sextet_char(bytes[0] as int % 4 * 16), '=', '=']
    } else if bytes.len() == 2 {
        seq![
            sextet_char(bytes[0] as int / 4),
            sextet_char(bytes[0] as int % 4 * 16 + bytes[1] as int / 16),
            sextet_char(bytes[1] as int % 16 * 4),
            '=',
        ]
    } else {
        seq![
            sextet_char(bytes[0] as int / 4),
            sextet_char(bytes[0] as int % 4 * 16 + bytes[1] as int / 16),
            sextet_char(bytes[1] as int % 16 * 4 + bytes[2] as int / 64),
            sextet_char(bytes[2] as int % 64),
        ] + standard_base64(bytes.skip(3))
    }
}

/// Calls `encode` of the `base64` crate's engine `general_purpose::STANDARD`, which returns the
/// standard alphabet's text with padding. The call panics where that text is too long for a
/// string, so the text is required to fit.
#[verifier::external_body]
pub(crate) fn encode_base64(bytes: &[u8]) -> (r: String)
    requires
        (bytes@.len() + 2) / 3 * 4 <= isize::MAX,
    ensures
        r@ == standard_base64(bytes@),
{
    base64::engine::general_purpose::STANDARD.encode(bytes)
}

/// Whether `c` may stand in base64 text.
pub open spec fn is_base64_char(c: char) -> bool {
    'A' <= c <= 'Z' || 'a' <= c <= 'z' || '0' <= c <= '9' || c == '+' || c == '/' || c == '='
}

/// Base64 text holds only letters, digits, `+`, `/` and `=`, so that nothing in it can end a
/// quoted attribute.
pub proof fn law_base64_holds_only_its_alphabet(bytes: Seq<u8>)
    ensures
        forall|i: int|
            0 <= i < standard_base64(bytes).len() ==> is_base64_char(
                #[trigger] standard_base64(bytes)[i],
            ),
    decreases bytes.len(),
{
    if bytes.len() >= 3 {
        law_base64_holds_only_its_alphabet(bytes.skip(3));
        let rest = standard_base64(bytes.skip(3));
        assert forall|i: int| 0 <= i < standard_base64(bytes).len() implies is_base64_char(
            #[trigger] standard_base64(bytes)[i],
        ) by {
            if i >= 4 {
                assert(standard_base64(bytes)[i] == rest[i - 4]);
            }
        }
    }
}

} // verus!
