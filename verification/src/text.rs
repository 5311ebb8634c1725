use regex::Regex;
use vstd::prelude::*;

verus! {

/// Equality of two string slices, by `str`'s `PartialEq::eq` of std: the result is
/// true exactly when both hold the same characters.
#[verifier::external_body]
pub(crate) fn str_eq(a: &str, b: &str) -> (same: bool)
    ensures
        same == (a@ == b@),
{
    a == b
}

/// What `str::to_lowercase` of std makes of a text: each character replaced by
/// its lower-case form as Unicode defines it.
pub uninterp spec fn lowercase(s: Seq<char>) -> Seq<char>;

/// The lower-case form of a text, by `str::to_lowercase` of std.
#[verifier::external_body]
pub(crate) fn to_lowercase(s: &str) -> (lower: String)
    ensures
        lower@ == lowercase(s@),
{
    s.to_lowercase()
}

/// The value of a hexadecimal digit, in either case.
pub open spec fn hex_digit_value(c: char) -> Option<u8> {
    if '0' <= c <= '9' {
        Some((c as u8 - '0' as u8) as u8)
    } else if 'a' <= c <= 'f' {
        Some((c as u8 - 'a' as u8 + 10) as u8)
    } else if 'A' <= c <= 'F' {
        Some((c as u8 - 'A' as u8 + 10) as u8)
    } else {
        None
    }
}

/// Whether a text is forty hexadecimal digits, which write twenty bytes.
pub open spec fn is_hex_of_twenty_bytes(text: Seq<char>) -> bool {
    text.len() == 40 && forall|i: int| 0 <= i < 40 ==> hex_digit_value(#[trigger] text[i]) is Some
}

/// The byte that the digits at the places `2 * i` and `2 * i + 1` write.
pub open spec fn hex_byte_at(text: Seq<char>, i: int) -> int {
    16 * (hex_digit_value(text[2 * i])->0) + (hex_digit_value(text[2 * i + 1])->0)
}

/// Reads forty hexadecimal digits as twenty bytes, with `hex::decode_to_slice`
/// of the hex crate: each pair of digits writes one byte, the first digit its
/// upper half. Any other text is refused.
#[verifier::external_body]
pub(crate) fn decode_hex_of_twenty_bytes(text: &str) -> (decoded: Option<[u8; 20]>)
    ensures
        match decoded {
            Some(bytes) => is_hex_of_twenty_bytes(text@) && forall|i: int|
                0 <= i < 20 ==> #[trigger] bytes@[i] == hex_byte_at(text@, i),
            None => !is_hex_of_twenty_bytes(text@),
        },
{
    let mut bytes = [0u8; 20];
    match hex::decode_to_slice(text, &mut bytes) {
        Ok(()) => Some(bytes),
        Err(_) => None,
    }
}

/// The bytes that a text writes in base64 with the standard alphabet and
/// padding, as the base64 crate reads it; `None` for a text that it refuses.
pub uninterp spec fn base64_decoded(text: Seq<char>) -> Option<Seq<u8>>;

/// Reads a text in base64 with `base64::decode` of the base64 crate.
#[verifier::external_body]
pub(crate) fn decode_base64(text: &str) -> (decoded: Option<Vec<u8>>)
    ensures
        match decoded {
            Some(bytes) => base64_decoded(text@) == Some(bytes@),
            None => base64_decoded(text@) is None,
        },
{
    base64::decode(text).ok()
}

/// What the regex crate finds for a named group: the text that the group
/// `group` took in the leftmost match of the expression `pattern` in `text`. It
/// is `None` where `pattern` is no valid expression, where it matches nowhere in
/// `text`, and where the group took no part in the match.
pub uninterp spec fn named_capture(
    pattern: Seq<char>,
    group: Seq<char>,
    text: Seq<char>,
) -> Option<Seq<char>>;

/// Searches `text` for `pattern` with `Regex::captures` of the regex crate and
/// hands out what the group `group` took, as `Captures::name` gives it.
#[verifier::external_body]
pub(crate) fn capture_named(pattern: &str, group: &str, text: &str) -> (found: Option<String>)
    ensures
        match found {
            Some(taken) => named_capture(pattern@, group@, text@) == Some(taken@),
            None => named_capture(pattern@, group@, text@) is None,
        },
{
    let expression = Regex::new(pattern).ok()?;
    let captures = expression.captures(text)?;
    let taken = captures.name(group)?;
    Some(taken.as_str().to_string())
}

} // verus!
