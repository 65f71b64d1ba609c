//! The calls that leave this library: pattern matching, hashing, percent
//! encoding and a few text functions of the standard library. Verus takes the
//! contract of each on trust; nothing else in the library is unproved.

use vstd::prelude::*;
use crate::text::bytes_of;

verus! {

/// One match of a pattern: the byte offsets of the whole match in the text,
/// and the text of the pattern's first group where it took part.
#[derive(Clone, Debug)]
pub struct Capture {
    pub start: usize,
    pub end: usize,
    pub group: Option<String>,
}

/// A match as the contracts see it: start, end, and the first group's text.
pub type SpanView = (int, int, Option<Seq<char>>);

pub open spec fn capture_view(c: Capture) -> SpanView {
    (
        c.start as int,
        c.end as int,
        match c.group {
            Some(g) => Some(g@),
            None => None,
        },
    )
}

pub open spec fn captures_view(v: Seq<Capture>) -> Seq<SpanView> {
    Seq::new(v.len(), |i: int| capture_view(v[i]))
}

/// All matches of `pattern` in `text`, leftmost first and without overlap, as
/// the `regex` crate finds them; `None` where it does not accept `pattern`.
pub uninterp spec fn pattern_matches(pattern: Seq<char>, text: Seq<char>) -> Option<Seq<SpanView>>;

/// The lowercase form of a text as the standard library defines it.
pub uninterp spec fn lowercase_text(s: Seq<char>) -> Seq<char>;

/// The SHA-256 digest of `data` in lowercase hexadecimal.
pub uninterp spec fn sha256_hex(data: Seq<u8>) -> Seq<char>;

/// The text that a byte string decodes to, each ill-formed part replaced by U+FFFD.
pub uninterp spec fn lossy_text(data: Seq<u8>) -> Seq<char>;

/// Bytes that percent-encoding leaves as they are: letters, digits, `-`, `.`, `_`, `~`.
pub open spec fn is_unreserved(b: u8) -> bool {
    ||| 0x30 <= b <= 0x39
    ||| 0x41 <= b <= 0x5a
    ||| 0x61 <= b <= 0x7a
    ||| b == 0x2d
    ||| b == 0x2e
    ||| b == 0x5f
    ||| b == 0x7e
}

/// The upper-case hexadecimal digit for a value below 16.
pub open spec fn hex_digit(d: u8) -> char {
    if d < 10 {
        (0x30 + d) as char
    } else {
        (0x41 + d - 10) as char
    }
}

pub open spec fn encoded_byte(b: u8) -> Seq<char> {
    if is_unreserved(b) {
        seq![b as char]
    } else {
        seq!['%', hex_digit(b / 16), hex_digit(b % 16)]
    }
}

/// The percent-encoding of a byte string.
pub open spec fn percent_encoding(data: Seq<u8>) -> Seq<char>
    decreases data.len(),
{
    if data.len() == 0 {
        Seq::empty()
    } else {
        percent_encoding(data.drop_last()) + encoded_byte(data.last())
    }
}

/// `s` with every occurrence of `from` replaced by `to`, found from the left
/// and without overlap.
pub open spec fn substituted(s: Seq<char>, from: Seq<char>, to: Seq<char>) -> Seq<char>
    decreases s.len(),
{
    if from.len() == 0 || s.len() < from.len() {
        s
    } else if s.take(from.len() as int) == from {
        to + substituted(s.skip(from.len() as int), from, to)
    } else {
        seq![s[0]] + substituted(s.skip(1), from, to)
    }
}

/// `regex::Regex::new` and `Regex::captures_iter`: compiles `pattern` and
/// lists every match in `text` with `Match::start`, `Match::end` of the whole
/// match and the text of group 1. The contract only names the result.
#[verifier::external_body]
pub(crate) fn find_captures(pattern: &str, text: &str) -> (r: Option<Vec<Capture>>)
    ensures
        match r {
            Some(v) => pattern_matches(pattern@, text@) == Some(captures_view(v@)),
            None => pattern_matches(pattern@, text@).is_none(),
        },
{
    let re = regex::Regex::new(pattern).ok()?;
    Some(
        re.captures_iter(text).map(
            |c| Capture {
                start: c.get_match().start(),
                end: c.get_match().end(),
                group: c.get(1).map(|m| m.as_str().to_string()),
            },
        ).collect(),
    )
}

/// `urlencoding::encode`: every byte of the text's UTF-8 form but letters,
/// digits, `-`, `.`, `_` and `~` becomes `%` and two upper-case hex digits.
#[verifier::external_body]
pub(crate) fn percent_encode(s: &str) -> (r: String)
    ensures
        r@ == percent_encoding(bytes_of(s@)),
{
    urlencoding::encode(s).into_owned()
}

/// `sha2::Sha256` over `data`, formatted with `{:x}`. The contract only
/// names the result.
#[verifier::external_body]
pub(crate) fn sha256_hex_digest(data: &[u8]) -> (r: String)
    ensures
        r@ == sha256_hex(data@),
{
    format!("{:x}", <sha2::Sha256 as sha2::Digest>::digest(data))
}

/// `str::to_lowercase`. The contract only names the result.
#[verifier::external_body]
pub(crate) fn lowercase(s: &str) -> (r: String)
    ensures
        r@ == lowercase_text(s@),
{
    s.to_lowercase()
}

/// `String::push`: the character is added at the end of the text.
#[verifier::external_body]
pub(crate) fn push_char(text: &mut String, c: char)
    ensures
        final(text)@ == old(text)@.push(c),
{
    text.push(c)
}

/// `str::replace` with a text as the pattern: every occurrence of `from`,
/// found from the left and without overlap, gives way to `to`.
#[verifier::external_body]
pub(crate) fn replace_all(s: &str, from: &str, to: &str) -> (r: String)
    requires
        from@.len() > 0,
    ensures
        r@ == substituted(s@, from@, to@),
{
    s.replace(from, to)
}

/// `String::from_utf8_lossy`. The contract only names the result.
#[verifier::external_body]
pub(crate) fn decode_lossy(data: &[u8]) -> (r: String)
    ensures
        r@ == lossy_text(data@),
{
    String::from_utf8_lossy(data).into_owned()
}

} // verus!
