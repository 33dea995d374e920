//! The text encodings the backends speak, each computed by the crate that
//! owns it. Every executable function here is a trusted boundary: its body
//! is one call into another crate and its contract is taken on faith.

use vstd::prelude::*;

verus! {

/// The longest text, in bytes, handed to the base64 codec. Past it the
/// codec's own size computations may overflow.
pub const MAX_CODED_LEN: usize = 0x3fff_ffff;

/// How many bytes `text` takes, as the machine counts them.
pub open spec fn byte_len(text: Seq<char>) -> usize {
    vstd::utf8::encode_utf8(text).len() as usize
}

/// Whether `c` is one of `0-9`, `a-f`, `A-F`.
pub open spec fn is_hex_digit(c: char) -> bool {
    ('0' <= c && c <= '9') || ('a' <= c && c <= 'f') || ('A' <= c && c <= 'F')
}

/// The number a hexadecimal digit stands for.
pub open spec fn hex_digit_value(c: char) -> int {
    if '0' <= c && c <= '9' {
        c as int - '0' as int
    } else if 'a' <= c && c <= 'f' {
        c as int - 'a' as int + 10
    } else {
        c as int - 'A' as int + 10
    }
}

/// The lower-case hexadecimal digit for `n` in `0..16`.
pub open spec fn hex_digit(n: int) -> char {
    if n < 10 {
        ('0' as int + n) as char
    } else {
        ('a' as int + n - 10) as char
    }
}

/// Whether `text` is a whole number of bytes written in hexadecimal.
pub open spec fn is_hex_text(text: Seq<char>) -> bool {
    &&& text.len() % 2 == 0
    &&& forall|i: int| 0 <= i < text.len() ==> is_hex_digit(#[trigger] text[i])
}

/// The bytes that hexadecimal `text` writes, two digits to a byte, high
/// digit first.
pub open spec fn hex_decoded(text: Seq<char>) -> Seq<u8> {
    Seq::new(
        text.len() / 2,
        |i: int| (16 * hex_digit_value(text[2 * i]) + hex_digit_value(text[2 * i + 1])) as u8,
    )
}

/// `bytes` written in lower-case hexadecimal.
pub open spec fn hex_encoded(bytes: Seq<u8>) -> Seq<char> {
    Seq::new(
        2 * bytes.len(),
        |i: int|
            if i % 2 == 0 {
                hex_digit(bytes[i / 2] as int / 16)
            } else {
                hex_digit(bytes[i / 2] as int % 16)
            },
    )
}

/// The digit for a number below sixteen is a hexadecimal digit and stands
/// for that number.
pub proof fn lemma_hex_digit(n: int)
    requires
        0 <= n < 16,
    ensures
        is_hex_digit(hex_digit(n)),
        hex_digit_value(hex_digit(n)) == n,
{
}

/// Bytes written in hexadecimal read back as the same bytes.
pub proof fn law_hex_round_trip(bytes: Seq<u8>)
    ensures
        is_hex_text(hex_encoded(bytes)),
        hex_decoded(hex_encoded(bytes)) == bytes,
{
    let text = hex_encoded(bytes);
    assert forall|i: int| 0 <= i < text.len() implies is_hex_digit(#[trigger] text[i]) by {
        lemma_hex_digit(bytes[i / 2] as int / 16);
        lemma_hex_digit(bytes[i / 2] as int % 16);
    }
    assert forall|i: int| 0 <= i < bytes.len() implies hex_decoded(text)[i] == bytes[i] by {
        lemma_hex_digit(bytes[i] as int / 16);
        lemma_hex_digit(bytes[i] as int % 16);
    }
}

/// What the base64 codec reads out of `text` with its standard alphabet:
/// the bytes, or nothing where it rejects the text.
pub uninterp spec fn base64_decoded(text: Seq<char>) -> Option<Seq<u8>>;

/// The base64 text, standard alphabet and padded, of the bytes of `text`.
pub uninterp spec fn base64_encoded(text: Seq<char>) -> Seq<char>;

/// Whether the URI parser accepts `text`.
pub uninterp spec fn uri_parses(text: Seq<char>) -> bool;

/// Whether the regular expression `pattern` compiles and matches somewhere
/// in `text`.
pub uninterp spec fn pattern_found(pattern: Seq<char>, text: Seq<char>) -> bool;

/// What the group named `group` of the regular expression `pattern` holds
/// in the leftmost match within `text`: nothing where the pattern does not
/// compile, does not match, or the group took no part in the match.
pub uninterp spec fn pattern_group(pattern: Seq<char>, group: Seq<char>, text: Seq<char>) -> Option<
    Seq<char>,
>;

/// `text` with every occurrence of `from` replaced by `to`, as the standard
/// library replaces them.
pub uninterp spec fn text_replaced(text: Seq<char>, from: Seq<char>, to: Seq<char>) -> Seq<char>;

/// Whether `pattern` stands somewhere in `text`.
pub open spec fn occurs_in(pattern: Seq<char>, text: Seq<char>) -> bool {
    exists|i: int|
        0 <= i && i + pattern.len() <= text.len() && #[trigger] text.subrange(
            i,
            i + pattern.len(),
        ) == pattern
}

/// `text` without the white space at its ends, as the standard library
/// trims it.
pub uninterp spec fn text_trimmed(text: Seq<char>) -> Seq<char>;

/// Whether every character of `text` may stand in an HTTP header value:
/// anything but the control characters, the tab excepted.
pub open spec fn is_header_text(text: Seq<char>) -> bool {
    forall|i: int|
        0 <= i < text.len() ==> {
            let c = #[trigger] text[i];
            (c as int >= 32 && c as int != 127) || c as int == 9
        }
}

/// What is written in hexadecimal may stand in a header value.
pub proof fn lemma_hex_text_is_header_text(text: Seq<char>)
    requires
        is_hex_text(text),
    ensures
        is_header_text(text),
{
    assert forall|i: int| 0 <= i < text.len() implies {
        let c = #[trigger] text[i];
        (c as int >= 32 && c as int != 127) || c as int == 9
    } by {
        assert(is_hex_digit(text[i]));
    }
}

/// Whether `text` has the shape of a generated identifier: it is not empty
/// and starts with the letter `c`.
pub open spec fn is_fresh_label(text: Seq<char>) -> bool {
    text.len() > 0 && text[0] == 'c'
}

/// The characters of an option's text, where there is one.
pub open spec fn opt_text(text: Option<String>) -> Option<Seq<char>> {
    match text {
        Some(t) => Some(t@),
        None => None,
    }
}

/// `hex::FromHexError`, why a text is no hexadecimal. It is only ever told
/// apart from success.
#[verifier::external_type_specification]
#[verifier::external_body]
pub struct ExFromHexError(hex::FromHexError);

/// `base64::DecodeError`, why a text is no base64. It is only ever told
/// apart from success.
#[verifier::external_type_specification]
#[verifier::external_body]
pub struct ExDecodeError(base64::DecodeError);

/// `hex::decode`. Succeeds exactly on an even number of hexadecimal digits,
/// either case, and then returns the bytes they write.
#[verifier::external_body]
pub(crate) fn hex_decode(text: &str) -> (bytes: Result<Vec<u8>, hex::FromHexError>)
    ensures
        bytes is Ok <==> is_hex_text(text@),
        bytes matches Ok(b) ==> b@ == hex_decoded(text@),
{
    hex::decode(text)
}

/// `hex::encode`. Two lower-case digits for each byte, high digit first.
#[verifier::external_body]
pub(crate) fn hex_encode(bytes: &Vec<u8>) -> (text: String)
    ensures
        text@ == hex_encoded(bytes@),
{
    hex::encode(bytes)
}

/// `base64::decode`. The outcome depends on the text alone; the call
/// panics only on lengths near the top of `usize`, which are left out.
#[verifier::external_body]
pub(crate) fn base64_decode(text: &str) -> (bytes: Result<Vec<u8>, base64::DecodeError>)
    requires
        text.len() <= MAX_CODED_LEN,
    ensures
        bytes is Ok <==> base64_decoded(text@) is Some,
        bytes matches Ok(b) ==> base64_decoded(text@) == Some(b@),
{
    base64::decode(text)
}

/// `base64::encode` on the bytes of a text. The outcome depends on the text
/// alone; the call panics only on lengths near the top of `usize`, which
/// are left out.
#[verifier::external_body]
pub(crate) fn base64_encode(text: &str) -> (coded: String)
    requires
        text.len() <= MAX_CODED_LEN,
    ensures
        coded@ == base64_encoded(text@),
{
    base64::encode(text)
}

/// `http::Uri::from_maybe_shared`. Says whether the text parsed.
#[verifier::external_body]
pub(crate) fn uri_accepts(text: &str) -> (accepted: bool)
    ensures
        accepted == uri_parses(text@),
{
    http::Uri::from_maybe_shared(text.to_owned()).is_ok()
}

/// `http::HeaderValue::from_str`. It refuses a text exactly when one of its
/// bytes is a control character other than the tab.
#[verifier::external_body]
pub(crate) fn header_value_accepts(text: &str) -> (accepted: bool)
    ensures
        accepted == is_header_text(text@),
{
    http::HeaderValue::from_str(text).is_ok()
}

/// `regex::Regex::new` and `Regex::is_match`. False where the pattern does
/// not compile.
#[verifier::external_body]
pub(crate) fn pattern_matches(pattern: &str, text: &str) -> (found: bool)
    ensures
        found == pattern_found(pattern@, text@),
{
    match regex::Regex::new(pattern) {
        Ok(re) => re.is_match(text),
        Err(_) => false,
    }
}

/// `regex::Regex::new`, `Regex::captures` and `Captures::name`. The text
/// that the named group matched.
#[verifier::external_body]
pub(crate) fn pattern_capture(pattern: &str, group: &str, text: &str) -> (found: Option<String>)
    ensures
        opt_text(found) == pattern_group(pattern@, group@, text@),
{
    let re = match regex::Regex::new(pattern) {
        Ok(re) => re,
        Err(_) => return None,
    };
    let captures = match re.captures(text) {
        Some(captures) => captures,
        None => return None,
    };
    match captures.name(group) {
        Some(found) => Some(found.as_str().to_owned()),
        None => None,
    }
}

/// `str::replace` of the standard library.
#[verifier::external_body]
pub(crate) fn replace_all(text: &str, from: &str, to: &str) -> (replaced: String)
    ensures
        replaced@ == text_replaced(text@, from@, to@),
{
    text.replace(from, to)
}

/// `str::contains` of the standard library, with a text as the pattern.
/// It says whether the pattern stands somewhere in the text.
#[verifier::external_body]
pub(crate) fn text_contains(text: &str, pattern: &str) -> (found: bool)
    ensures
        found == occurs_in(pattern@, text@),
{
    text.contains(pattern)
}

/// `str::trim` of the standard library.
#[verifier::external_body]
pub(crate) fn trim<'a>(text: &'a str) -> (trimmed: &'a str)
    ensures
        trimmed@ == text_trimmed(text@),
{
    text.trim()
}

/// `cuid::cuid`. A fresh identifier: the letter `c`, then what the clock,
/// a counter, the host's name and chance give, so only its first letter is
/// promised. Nothing comes back where the generator reports an error. On a
/// host whose name cannot be had the generator does not report but panics;
/// no input decides that, so no precondition can leave it out.
#[verifier::external_body]
pub(crate) fn fresh_cuid() -> (id: Option<String>)
    ensures
        id matches Some(text) ==> is_fresh_label(text@),
{
    match cuid::cuid() {
        Ok(id) => Some(id),
        Err(_) => None,
    }
}

} // verus!
