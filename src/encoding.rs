//! Percent-encoding, Base64 and cookie parsing, as the outside crates do them.
use vstd::prelude::*;
use vstd::utf8::encode_utf8;

verus! {

/// Bytes that percent-encoding leaves as they are: ASCII letters and digits,
/// `-`, `.`, `_` and `~`.
pub open spec fn is_unreserved(b: u8) -> bool {
    (48 <= b && b <= 57) || (65 <= b && b <= 90) || (97 <= b && b <= 122) || b == 45 || b == 46
        || b == 95 || b == 126
}

/// The upper-case hexadecimal digit of `d`, below sixteen.
pub open spec fn hex_digit(d: u8) -> char {
    if d < 10 {
        ((48 + d) as u8) as char
    } else {
        ((55 + d) as u8) as char
    }
}

/// Each byte of `bytes` as it is when unreserved, else as `%` and two
/// upper-case hexadecimal digits.
pub open spec fn percent_encoded(bytes: Seq<u8>) -> Seq<char>
    decreases bytes.len(),
{
    if bytes.len() == 0 {
        Seq::empty()
    } else {
        let b = bytes[0];
        let head = if is_unreserved(b) {
            seq![b as char]
        } else {
            seq!['%', hex_digit(b / 16), hex_digit(b % 16)]
        };
        head + percent_encoded(bytes.drop_first())
    }
}

/// Relies on `urlencoding::encode`: every byte of the text's UTF-8 encoding
/// but ASCII letters, digits, `-`, `.`, `_` and `~` becomes `%` and two
/// upper-case hexadecimal digits.
#[verifier::external_body]
pub(crate) fn url_encode(s: &str) -> (r: String)
    ensures
        r@ == percent_encoded(encode_utf8(s@)),
{
    urlencoding::encode(s).into_owned()
}

/// The padded standard Base64 text of `bytes`.
pub uninterp spec fn base64_standard_of(bytes: Seq<u8>) -> Seq<char>;

/// Relies on base64's `BASE64_STANDARD` engine: `encode` gives the padded
/// standard Base64 text of the bytes, and nothing for no bytes.
#[verifier::external_body]
pub(crate) fn base64_standard(s: &str) -> (r: String)
    ensures
        r@ == base64_standard_of(encode_utf8(s@)),
        s@.len() == 0 ==> r@.len() == 0,
{
    base64::Engine::encode(&base64::prelude::BASE64_STANDARD, s.as_bytes())
}

/// The value of the cookie that the header value `s` sets, if it parses.
pub uninterp spec fn parsed_cookie_value(s: Seq<char>) -> Option<Seq<char>>;

/// Relies on `cookie::Cookie::parse` and `Cookie::value`: the cookie's value,
/// neither percent-decoded nor unquoted, or nothing when `s` does not parse.
#[verifier::external_body]
pub(crate) fn parse_cookie_value(s: &str) -> (r: Option<String>)
    ensures
        match r {
            Some(v) => parsed_cookie_value(s@) == Some(v@),
            None => parsed_cookie_value(s@) is None,
        },
{
    match cookie::Cookie::parse(s) {
        Ok(c) => Some(c.value().to_string()),
        Err(_) => None,
    }
}

} // verus!
