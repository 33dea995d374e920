//! Small verified routines on text: comparison, decimal numbers, and the
//! shape of a URL.

use vstd::prelude::*;
use vstd::string::is_ascii_spec_bytes;
use vstd::utf8::{encode_utf8, encode_utf8_decode_utf8};

verus! {

/// Whether two texts hold the same characters. They do exactly when their
/// bytes are the same, since the bytes of a text decode to its characters.
pub fn text_eq(a: &str, b: &str) -> (same: bool)
    ensures
        same == (a@ == b@),
{
    let x = a.as_bytes();
    let y = b.as_bytes();
    proof {
        encode_utf8_decode_utf8(a@);
        encode_utf8_decode_utf8(b@);
    }
    if x.len() != y.len() {
        return false;
    }
    let mut i: usize = 0;
    while i < x.len()
        invariant
            i <= x@.len(),
            x@.len() == y@.len(),
            x@ == encode_utf8(a@),
            y@ == encode_utf8(b@),
            forall|k: int| 0 <= k < i ==> x@[k] == y@[k],
        decreases x@.len() - i,
    {
        if x[i] != y[i] {
            return false;
        }
        i = i + 1;
    }
    assert(x@ =~= y@);
    true
}

/// Whether `c` is one of `0` to `9`.
pub open spec fn is_digit(c: char) -> bool {
    '0' <= c && c <= '9'
}

/// The number a decimal digit stands for.
pub open spec fn digit_value(c: char) -> nat {
    (c as int - '0' as int) as nat
}

/// The decimal digit for `d` in `0..10`.
pub open spec fn digit_char(d: nat) -> char {
    ('0' as int + d) as char
}

/// Whether every character of `s` is a decimal digit.
pub open spec fn all_digits(s: Seq<char>) -> bool {
    forall|i: int| 0 <= i < s.len() ==> is_digit(#[trigger] s[i])
}

/// The number that a run of decimal digits writes.
pub open spec fn digits_value(s: Seq<char>) -> nat
    decreases s.len(),
{
    if s.len() == 0 {
        0
    } else {
        10 * digits_value(s.drop_last()) + digit_value(s.last())
    }
}

/// `n` written in decimal, without leading zeros.
pub open spec fn decimal_digits(n: nat) -> Seq<char>
    decreases n,
{
    if n < 10 {
        seq![digit_char(n)]
    } else {
        decimal_digits(n / 10).push(digit_char(n % 10))
    }
}

/// The integer that `s` writes in decimal: an optional sign, then one digit
/// or more, and nothing else. Nothing for any other text.
pub open spec fn decimal_value(s: Seq<char>) -> Option<int> {
    if s.len() == 0 {
        None
    } else if s[0] == '+' || s[0] == '-' {
        let digits = s.subrange(1, s.len() as int);
        if digits.len() > 0 && all_digits(digits) {
            Some(
                if s[0] == '-' {
                    -(digits_value(digits) as int)
                } else {
                    digits_value(digits) as int
                },
            )
        } else {
            None
        }
    } else if all_digits(s) {
        Some(digits_value(s) as int)
    } else {
        None
    }
}

/// The value of `s` as an unsigned number no larger than `max`. A minus
/// sign is never accepted, not even before zero.
pub open spec fn decimal_unsigned(s: Seq<char>, max: int) -> Option<int> {
    match decimal_value(s) {
        Some(v) => if s[0] != '-' && v <= max {
            Some(v)
        } else {
            None
        },
        None => None,
    }
}

/// The value of `s` as a signed number within `min..=max`.
pub open spec fn decimal_signed(s: Seq<char>, min: int, max: int) -> Option<int> {
    match decimal_value(s) {
        Some(v) => if min <= v && v <= max {
            Some(v)
        } else {
            None
        },
        None => None,
    }
}

/// Whether `s` starts with a scheme: at least one character, then `://`.
pub open spec fn has_scheme(s: Seq<char>) -> bool {
    exists|i: int| scheme_ends_at(s, i)
}

/// Whether `://` stands at `i` in `s`, with something before it.
pub open spec fn scheme_ends_at(s: Seq<char>, i: int) -> bool {
    0 < i && i + 3 <= s.len() && s[i] == ':' && s[i + 1] == '/' && s[i + 2] == '/'
}

/// The bytes of a text that is all ASCII, one for each character; nothing
/// for a text that holds anything else.
pub fn ascii_bytes(text: &str) -> (bytes: Option<&[u8]>)
    ensures
        bytes is Some <==> vstd::string::is_ascii(text),
        bytes matches Some(b) ==> {
            &&& b@.len() == text@.len()
            &&& forall|i: int| 0 <= i < text@.len() ==> #[trigger] b@[i] == text@[i] as u8
        },
{
    if text.is_ascii() {
        proof {
            is_ascii_spec_bytes(text);
        }
        Some(text.as_bytes())
    } else {
        None
    }
}

proof fn lemma_not_ascii_not_decimal(s: Seq<char>)
    requires
        !vstd::utf8::is_ascii_chars(s),
    ensures
        decimal_value(s) is None,
{
    let i = choose|i: int| 0 <= i < s.len() && !('\0' <= #[trigger] s[i] <= '\u{7f}');
    if i > 0 {
        let digits = s.subrange(1, s.len() as int);
        assert(digits[i - 1] == s[i]);
    }
}

/// Whether `s` is all ASCII and starts with a scheme.
pub open spec fn has_scheme_ascii(s: Seq<char>) -> bool {
    vstd::utf8::is_ascii_chars(s) && has_scheme(s)
}

/// Whether an ASCII text starts with a scheme, such as `https://`.
pub fn starts_with_scheme(text: &str) -> (found: bool)
    ensures
        found == has_scheme_ascii(text@),
{
    let bytes = match ascii_bytes(text) {
        Some(bytes) => bytes,
        None => {
            return false;
        },
    };
    let n = bytes.len();
    if n < 4 {
        assert forall|i: int| !scheme_ends_at(text@, i) by {}
        return false;
    }
    let mut i: usize = 1;
    while i <= n - 3
        invariant
            1 <= i,
            4 <= n,
            vstd::utf8::is_ascii_chars(text@),
            n == bytes@.len(),
            n == text@.len(),
            forall|k: int| 0 <= k < text@.len() ==> #[trigger] bytes@[k] == text@[k] as u8,
            forall|k: int| 0 < k < i ==> !scheme_ends_at(text@, k),
        decreases n - i,
    {
        if bytes[i] == 58u8 && bytes[i + 1] == 47u8 && bytes[i + 2] == 47u8 {
            assert(scheme_ends_at(text@, i as int));
            return true;
        }
        assert(!scheme_ends_at(text@, i as int));
        i = i + 1;
    }
    assert forall|k: int| !scheme_ends_at(text@, k) by {}
    false
}

/// The text of one decimal digit.
fn digit_text(d: u64) -> (text: &'static str)
    requires
        d < 10,
    ensures
        text@ == seq![digit_char(d as nat)],
{
    proof {
        reveal_strlit("0");
        reveal_strlit("1");
        reveal_strlit("2");
        reveal_strlit("3");
        reveal_strlit("4");
        reveal_strlit("5");
        reveal_strlit("6");
        reveal_strlit("7");
        reveal_strlit("8");
        reveal_strlit("9");
    }
    let text = if d == 0 {
        "0"
    } else if d == 1 {
        "1"
    } else if d == 2 {
        "2"
    } else if d == 3 {
        "3"
    } else if d == 4 {
        "4"
    } else if d == 5 {
        "5"
    } else if d == 6 {
        "6"
    } else if d == 7 {
        "7"
    } else if d == 8 {
        "8"
    } else {
        "9"
    };
    text
}

/// `n` written in decimal, without leading zeros.
pub fn decimal_text(n: u64) -> (text: String)
    ensures
        text@ == decimal_digits(n as nat),
    decreases n,
{
    if n < 10 {
        digit_text(n).to_owned()
    } else {
        let head = decimal_text(n / 10);
        let text = head.concat(digit_text(n % 10));
        text
    }
}

/// A number written in decimal is a run of digits that writes the number.
pub proof fn lemma_decimal_digits(n: nat)
    ensures
        decimal_digits(n).len() > 0,
        all_digits(decimal_digits(n)),
        digits_value(decimal_digits(n)) == n,
    decreases n,
{
    let digits = decimal_digits(n);
    if n < 10 {
        assert(digits_value(digits.drop_last()) == 0);
    } else {
        lemma_decimal_digits(n / 10);
        let head = decimal_digits(n / 10);
        assert(digits.drop_last() =~= head);
        assert forall|i: int| 0 <= i < digits.len() implies is_digit(#[trigger] digits[i]) by {}
    }
}

/// What this library writes in decimal it reads back as the same number.
pub proof fn law_decimal_round_trip(n: nat)
    ensures
        decimal_value(decimal_digits(n)) == Some(n as int),
        n <= u64::MAX ==> decimal_unsigned(decimal_digits(n), u64::MAX as int) == Some(n as int),
{
    lemma_decimal_digits(n);
}

/// The largest magnitude that the parsers tell apart; anything above it is
/// out of range for every type they serve.
pub const MAX_MAGNITUDE: u128 = 0xffff_ffff_ffff_ffff;

/// Reads an optional sign and a run of digits. Returns whether the sign is
/// a minus, and the magnitude, which is exact up to [`MAX_MAGNITUDE`] and
/// only known to exceed it beyond.
fn parse_sign_magnitude(text: &str) -> (parts: Option<(bool, u128)>)
    ensures
        parts is Some <==> decimal_value(text@) is Some,
        parts matches Some((minus, magnitude)) ==> {
            let v = decimal_value(text@)->0;
            let size = if v < 0 {
                -v
            } else {
                v
            };
            &&& minus == (text@[0] == '-')
            &&& size <= MAX_MAGNITUDE ==> magnitude == size
            &&& size > MAX_MAGNITUDE ==> magnitude > MAX_MAGNITUDE
        },
{
    let bytes = match ascii_bytes(text) {
        Some(bytes) => bytes,
        None => {
            proof {
                lemma_not_ascii_not_decimal(text@);
            }
            return None;
        },
    };
    let n = bytes.len();
    if n == 0 {
        return None;
    }
    let signed = bytes[0] == 43u8 || bytes[0] == 45u8;
    let minus = bytes[0] == 45u8;
    let start: usize = if signed {
        1
    } else {
        0
    };
    let ghost digits = text@.subrange(start as int, n as int);
    if start == n {
        return None;
    }
    let mut magnitude: u128 = 0;
    let mut i: usize = start;
    while i < n
        invariant
            start <= i <= n,
            start < n,
            signed == (text@[0] == '+' || text@[0] == '-'),
            start == (if signed { 1usize } else { 0usize }),
            !signed ==> digits == text@,
            n == bytes@.len(),
            n == text@.len(),
            digits == text@.subrange(start as int, n as int),
            forall|k: int| 0 <= k < text@.len() ==> #[trigger] bytes@[k] == text@[k] as u8,
            vstd::utf8::is_ascii_chars(text@),
            all_digits(text@.subrange(start as int, i as int)),
            ({
                let value = digits_value(text@.subrange(start as int, i as int));
                &&& value <= MAX_MAGNITUDE ==> magnitude == value
                &&& value > MAX_MAGNITUDE ==> magnitude > MAX_MAGNITUDE
            }),
            magnitude <= 0xffff_ffff_ffff_ffff_ffff,
        decreases n - i,
    {
        let b = bytes[i];
        if b < 48u8 || b > 57u8 {
            assert(digits[i - start] == text@[i as int]);
            return None;
        }
        let ghost before = text@.subrange(start as int, i as int);
        let ghost after = text@.subrange(start as int, i as int + 1);
        assert(after.drop_last() =~= before);
        assert forall|k: int| 0 <= k < after.len() implies is_digit(#[trigger] after[k]) by {}
        if magnitude <= MAX_MAGNITUDE {
            magnitude = magnitude * 10 + (b - 48u8) as u128;
        }
        i = i + 1;
    }
    Some((minus, magnitude))
}

/// Reads a `u64` written in decimal: an optional `+`, then digits.
pub fn parse_u64(text: &str) -> (value: Option<u64>)
    ensures
        value is Some <==> decimal_unsigned(text@, u64::MAX as int) is Some,
        value matches Some(v) ==> decimal_unsigned(text@, u64::MAX as int) == Some(v as int),
{
    match parse_sign_magnitude(text) {
        Some((minus, magnitude)) => {
            if !minus && magnitude <= u64::MAX as u128 {
                Some(magnitude as u64)
            } else {
                None
            }
        },
        None => None,
    }
}

/// Reads a `u32` written in decimal: an optional `+`, then digits.
pub fn parse_u32(text: &str) -> (value: Option<u32>)
    ensures
        value is Some <==> decimal_unsigned(text@, u32::MAX as int) is Some,
        value matches Some(v) ==> decimal_unsigned(text@, u32::MAX as int) == Some(v as int),
{
    match parse_sign_magnitude(text) {
        Some((minus, magnitude)) => {
            if !minus && magnitude <= u32::MAX as u128 {
                Some(magnitude as u32)
            } else {
                None
            }
        },
        None => None,
    }
}

/// Reads an `i64` written in decimal: an optional sign, then digits.
pub fn parse_i64(text: &str) -> (value: Option<i64>)
    ensures
        value is Some <==> decimal_signed(text@, i64::MIN as int, i64::MAX as int) is Some,
        value matches Some(v) ==> decimal_signed(text@, i64::MIN as int, i64::MAX as int) == Some(
            v as int,
        ),
{
    match parse_sign_magnitude(text) {
        Some((minus, magnitude)) => {
            if !minus && magnitude <= i64::MAX as u128 {
                Some(magnitude as i64)
            } else if minus && magnitude <= 0x8000_0000_0000_0000u128 {
                Some((0i128 - magnitude as i128) as i64)
            } else {
                None
            }
        },
        None => None,
    }
}

/// Reads an `i32` written in decimal: an optional sign, then digits.
pub fn parse_i32(text: &str) -> (value: Option<i32>)
    ensures
        value is Some <==> decimal_signed(text@, i32::MIN as int, i32::MAX as int) is Some,
        value matches Some(v) ==> decimal_signed(text@, i32::MIN as int, i32::MAX as int) == Some(
            v as int,
        ),
{
    match parse_sign_magnitude(text) {
        Some((minus, magnitude)) => {
            if !minus && magnitude <= i32::MAX as u128 {
                Some(magnitude as i32)
            } else if minus && magnitude <= 0x8000_0000u128 {
                Some((0i128 - magnitude as i128) as i32)
            } else {
                None
            }
        },
        None => None,
    }
}

} // verus!
