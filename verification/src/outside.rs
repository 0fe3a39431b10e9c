//! The calls this library makes into other crates and into parts of the standard
//! library that have no specification. Each is a thin wrapper whose contract is
//! taken on trust; everything built on top of them is verified.

use vstd::prelude::*;
use vstd::string::*;
use vstd::utf8::encode_utf8;

verus! {

/// The lowercase form of a character sequence, as `str::to_lowercase` computes it.
pub uninterp spec fn lowercase_of(s: Seq<char>) -> Seq<char>;

/// The uppercase form of a character sequence, as `str::to_uppercase` computes it.
pub uninterp spec fn uppercase_of(s: Seq<char>) -> Seq<char>;

/// Whether a character has the Unicode `White_Space` property.
pub uninterp spec fn is_space(c: char) -> bool;

/// Trusted: `str::to_lowercase`. The result is the Unicode lowercase mapping of
/// the input, which is a function of the input alone; it is named, not spelled out.
#[verifier::external_body]
pub(crate) fn to_lowercase(s: &str) -> (r: String)
    ensures
        r@ == lowercase_of(s@),
{
    s.to_lowercase()
}

/// Trusted: `str::to_uppercase`. The result is the Unicode uppercase mapping of
/// the input, which is a function of the input alone; it is named, not spelled out.
#[verifier::external_body]
pub(crate) fn to_uppercase(s: &str) -> (r: String)
    ensures
        r@ == uppercase_of(s@),
{
    s.to_uppercase()
}

/// Trusted: `char::is_whitespace`. The answer depends on the character alone.
#[verifier::external_body]
pub(crate) fn char_is_whitespace(c: char) -> (r: bool)
    ensures
        r == is_space(c),
{
    c.is_whitespace()
}

/// Trusted: `String::push` appends exactly the given character.
pub assume_specification[ String::push ](s: &mut String, c: char)
    ensures
        final(s)@ == old(s)@.push(c),
;

/// What `regex` answers when `pattern` is searched for in `text`: `None` when
/// the pattern does not compile, otherwise whether a match exists.
pub uninterp spec fn regex_search(pattern: Seq<char>, text: Seq<char>) -> Option<bool>;

/// The capture groups of the leftmost match of `pattern` in `text`, group 0
/// first; `None` when the pattern does not compile or nothing matches. A group
/// that took no part in the match is `None`.
pub uninterp spec fn capture_groups(pattern: Seq<char>, text: Seq<char>) -> Option<
    Seq<Option<Seq<char>>>,
>;

/// The instant an RFC 3339 timestamp denotes, in whole seconds since the Unix
/// epoch; `None` when the text is not such a timestamp.
pub uninterp spec fn rfc3339_seconds(s: Seq<char>) -> Option<i64>;

/// The RFC 3339 text (UTC) of an instant given in seconds since the Unix epoch;
/// `None` when the instant lies outside the calendar range `chrono` supports.
pub uninterp spec fn rfc3339_text(secs: i64) -> Option<Seq<char>>;

/// Whether a byte stands for itself in a percent-encoded string: letters,
/// digits, `-`, `.`, `_` and `~`.
pub open spec fn is_unreserved(b: u8) -> bool {
    (48 <= b <= 57) || (65 <= b <= 90) || (97 <= b <= 122) || b == 45 || b == 46 || b == 95 || b
        == 126
}

/// The uppercase hexadecimal digit of a value below sixteen.
pub open spec fn hex_digit(d: u8) -> char {
    if d < 10 {
        (48 + d) as u8 as char
    } else {
        (55 + d) as u8 as char
    }
}

/// The encoding of one byte: itself, or `%` and its two hexadecimal digits.
pub open spec fn encoded_byte(b: u8) -> Seq<char> {
    if is_unreserved(b) {
        seq![b as char]
    } else {
        seq!['%', hex_digit(b / 16), hex_digit(b % 16)]
    }
}

/// The encodings of a sequence of bytes, one after the other.
pub open spec fn encoded_bytes(bytes: Seq<u8>) -> Seq<char>
    decreases bytes.len(),
{
    if bytes.len() == 0 {
        Seq::empty()
    } else {
        encoded_bytes(bytes.drop_last()) + encoded_byte(bytes.last())
    }
}

/// The percent-encoded form of a string: the encodings of the bytes of its
/// UTF-8 form.
pub open spec fn percent_encoded(s: Seq<char>) -> Seq<char> {
    encoded_bytes(encode_utf8(s))
}

/// The character views of a list of optional strings.
pub open spec fn groups_view(v: Seq<Option<String>>) -> Seq<Option<Seq<char>>> {
    Seq::new(
        v.len(),
        |i: int|
            match v[i] {
                Some(s) => Some(s@),
                None => None,
            },
    )
}

/// Trusted: `regex::Regex::new` followed by `Regex::is_match`. Both depend on
/// their arguments alone; the answer is named, not spelled out. A pattern that
/// does not compile gives `None`.
#[verifier::external_body]
pub(crate) fn regex_is_match(pattern: &str, text: &str) -> (r: Option<bool>)
    ensures
        r == regex_search(pattern@, text@),
{
    match regex::Regex::new(pattern) {
        Ok(re) => Some(re.is_match(text)),
        Err(_) => None,
    }
}

/// Trusted: `regex::Regex::new` followed by `Regex::captures`, with every group
/// of the leftmost match copied out as text. Nothing is claimed about how many
/// groups there are or what they hold.
#[verifier::external_body]
pub(crate) fn regex_captures(pattern: &str, text: &str) -> (r: Option<Vec<Option<String>>>)
    ensures
        match r {
            Some(v) => capture_groups(pattern@, text@) == Some(groups_view(v@)),
            None => capture_groups(pattern@, text@) is None,
        },
{
    match regex::Regex::new(pattern) {
        Err(_) => None,
        Ok(re) => match re.captures(text) {
            None => None,
            Some(caps) => Some(caps.iter().map(|m| m.map(|x| x.as_str().to_string())).collect()),
        },
    }
}

/// Trusted: `chrono::DateTime::parse_from_rfc3339` followed by
/// `DateTime::timestamp`. The instant is named, not spelled out.
#[verifier::external_body]
pub(crate) fn parse_rfc3339(s: &str) -> (r: Option<i64>)
    ensures
        r == rfc3339_seconds(s@),
{
    match chrono::DateTime::parse_from_rfc3339(s) {
        Ok(dt) => Some(dt.timestamp()),
        Err(_) => None,
    }
}

/// Trusted: `chrono::DateTime::from_timestamp` followed by
/// `DateTime::to_rfc3339`. An instant outside the supported range gives `None`.
#[verifier::external_body]
pub(crate) fn format_rfc3339(secs: i64) -> (r: Option<String>)
    ensures
        match r {
            Some(s) => rfc3339_text(secs) == Some(s@),
            None => rfc3339_text(secs) is None,
        },
{
    match chrono::DateTime::from_timestamp(secs, 0) {
        Some(dt) => Some(dt.to_rfc3339()),
        None => None,
    }
}

/// Trusted: `urlencoding::encode`. Every byte of the UTF-8 form that is not a
/// letter, a digit or one of `-`, `.`, `_`, `~` is written as `%` and two
/// uppercase hexadecimal digits.
#[verifier::external_body]
pub(crate) fn percent_encode(s: &str) -> (r: String)
    ensures
        r@ == percent_encoded(s@),
{
    urlencoding::encode(s).into_owned()
}

/// Trusted: `uuid::Uuid::new_v4`, written out as text. The value is random, so
/// nothing is claimed about it.
#[verifier::external_body]
pub(crate) fn fresh_id() -> (r: String) {
    uuid::Uuid::new_v4().to_string()
}

} // verus!
