//! Small facts about text that the moderation rules depend on.
use vstd::prelude::*;
use vstd::string::StrSliceExecFns;
use vstd::string::StringExecFns;
use vstd::utf8::encode_utf8;

verus! {

/// Whether a character has the Unicode `White_Space` property, the test that
/// `char::is_whitespace` and `str::trim` go by: the 25 code points U+0009 to
/// U+000D, U+0020, U+0085, U+00A0, U+1680, U+2000 to U+200A, U+2028, U+2029,
/// U+202F, U+205F and U+3000.
pub open spec fn white_space(c: char) -> bool {
    let n = c as u32;
    (0x9 <= n <= 0xd) || n == 0x20 || n == 0x85 || n == 0xa0 || n == 0x1680 || (0x2000 <= n
        <= 0x200a) || n == 0x2028 || n == 0x2029 || n == 0x202f || n == 0x205f || n == 0x3000
}

/// Whether a character is white space.
pub fn is_white_space(c: char) -> (r: bool)
    ensures
        r == white_space(c),
{
    let n = c as u32;
    (0x9 <= n && n <= 0xd) || n == 0x20 || n == 0x85 || n == 0xa0 || n == 0x1680 || (0x2000 <= n
        && n <= 0x200a) || n == 0x2028 || n == 0x2029 || n == 0x202f || n == 0x205f || n == 0x3000
}

/// Text that holds nothing but white space (the empty text included).
pub open spec fn blank(s: Seq<char>) -> bool {
    forall|i: int| 0 <= i < s.len() ==> white_space(#[trigger] s[i])
}

/// Whether `s` is empty or consists only of white space.
pub fn is_blank(s: &str) -> (r: bool)
    ensures
        r == blank(s@),
{
    let mut all_space = true;
    for c in it: s.chars()
        invariant
            it.seq() == s@,
            all_space == (forall|j: int| 0 <= j < it.index() ==> white_space(#[trigger] s@[j])),
    {
        if !is_white_space(c) {
            all_space = false;
        }
    }
    all_space
}

/// Whether two texts are the same sequence of characters.
pub fn same_text(a: &str, b: &str) -> (r: bool)
    ensures
        r == (a@ == b@),
{
    let x = a.to_owned();
    let y = b.to_owned();
    x == y
}

/// The JSON string literal that stands for a text: quoted, with the
/// characters JSON requires escaped.
pub uninterp spec fn json_string_literal(s: Seq<char>) -> Seq<char>;

/// Relies on `serde_json::to_string` applied to a `str`: the JSON string
/// literal for the text. Serialising a `str` cannot fail (the documented
/// failures are a `Serialize` impl that fails and a map with non-string keys).
#[verifier::external_body]
fn quote_json(s: &str) -> (r: String)
    ensures
        r@ == json_string_literal(s@),
{
    serde_json::to_string(s).unwrap_or_default()
}

/// The JSON document that reports an error: an object whose one member,
/// `error`, holds the message.
pub open spec fn error_document(message: Seq<char>) -> Seq<char> {
    "{\"error\":"@ + json_string_literal(message) + "}"@
}

/// The UTF-8 bytes of the JSON error document whose message is already
/// written as the JSON string literal `literal`.
pub fn error_json_from_literal(literal: &str) -> (r: Vec<u8>)
    ensures
        r@ == encode_utf8("{\"error\":"@ + literal@ + "}"@),
{
    let mut doc = "{\"error\":".to_owned();
    doc.append(literal);
    doc.append("}");
    doc.as_str().as_bytes_vec()
}

/// The UTF-8 bytes of the JSON document that reports `message`.
pub fn error_json(message: &str) -> (r: Vec<u8>)
    ensures
        r@ == encode_utf8(error_document(message@)),
{
    let quoted = quote_json(message);
    error_json_from_literal(quoted.as_str())
}

} // verus!
