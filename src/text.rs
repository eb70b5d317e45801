//! Header text as the `http` crate judges it.
use vstd::prelude::*;

verus! {

/// A byte that a header value may hold when it is read as text: a tab or a
/// visible ASCII character.
pub open spec fn visible_ascii(b: u8) -> bool {
    b == 9 || (32 <= b && b < 127)
}

/// The bytes of a header value all read as text.
pub open spec fn is_text_value(v: Seq<u8>) -> bool {
    forall|i: int| 0 <= i < v.len() ==> visible_ascii(#[trigger] v[i])
}

/// The characters that the bytes of an ASCII header value stand for.
pub open spec fn ascii_chars(v: Seq<u8>) -> Seq<char> {
    v.map_values(|b: u8| b as char)
}

/// A character that a header value built from a string may hold: a tab, or
/// anything from the space upward but DEL.
pub open spec fn value_char_ok(c: char) -> bool {
    c == '\t' || (' ' <= c && c != '\x7f')
}

/// A string that can be made into a header value.
pub open spec fn is_value_string(s: Seq<char>) -> bool {
    forall|i: int| 0 <= i < s.len() ==> value_char_ok(#[trigger] s[i])
}

/// The name that `http` makes of a string when it parses it as a header
/// name (lower-cased), or `None` where the string is no header name.
pub uninterp spec fn parsed_header_name(s: Seq<char>) -> Option<Seq<char>>;

/// Relies on `http::HeaderValue::from_bytes` and `http::HeaderValue::to_str`:
/// the value reads as a string exactly when every byte is a tab or visible
/// ASCII, and the string then holds those bytes.
#[verifier::external_body]
pub(crate) fn header_value_text(v: &[u8]) -> (r: Option<String>)
    ensures
        r is Some <==> is_text_value(v@),
        r matches Some(s) ==> s@ == ascii_chars(v@),
{
    match http::HeaderValue::from_bytes(v) {
        Ok(h) => h.to_str().ok().map(|s| s.to_string()),
        Err(_) => None,
    }
}

/// Relies on `http::HeaderValue::from_str`: it accepts a string exactly when
/// every byte of it is a tab, or at least 32 and not 127, which for a UTF-8
/// string is a condition on its characters.
#[verifier::external_body]
pub(crate) fn header_value_accepts(s: &str) -> (r: bool)
    ensures
        r == is_value_string(s@),
{
    http::HeaderValue::from_str(s).is_ok()
}

/// Relies on `http::HeaderName::from_bytes`: it parses and lower-cases a
/// header name, and refuses the empty one.
#[verifier::external_body]
pub(crate) fn header_name_parse(s: &str) -> (r: Option<String>)
    ensures
        r matches Some(n) ==> parsed_header_name(s@) == Some(n@),
        r is None ==> parsed_header_name(s@) is None,
        s@.len() == 0 ==> r is None,
{
    match http::header::HeaderName::from_bytes(s.as_bytes()) {
        Ok(n) => Some(n.as_str().to_string()),
        Err(_) => None,
    }
}

} // verus!
