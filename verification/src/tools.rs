//! Unit conversions and the reading of numbers and encodings out of what a
//! node answers.

use vstd::prelude::*;
use crate::codec::{
    base64_decode, base64_decoded, byte_len, hex_encode, hex_encoded, text_trimmed, trim,
    MAX_CODED_LEN,
};
use crate::error::{Error, ErrorView};
use crate::text::{
    decimal_signed, decimal_unsigned, parse_i32, parse_i64, parse_u32, parse_u64,
};

verus! {

/// Millisatoshis in one satoshi.
pub const MSAT_PER_SAT: u64 = 1000;

/// The amount `sat` expressed in millisatoshis.
pub fn sat_to_msat(sat: &u64) -> (msat: u64)
    requires
        *sat * MSAT_PER_SAT <= u64::MAX,
    ensures
        msat == *sat * MSAT_PER_SAT,
{
    *sat * MSAT_PER_SAT
}

/// The whole satoshis contained in `msat`; the remainder is dropped.
pub fn msat_to_sat(msat: &u64) -> (sat: u64)
    ensures
        sat == *msat / MSAT_PER_SAT,
{
    *msat / MSAT_PER_SAT
}

/// What is reported of text that is not base64.
pub const NOT_BASE64: &'static str = "coudln't convert from base64 to hex";

/// What [`convert_base64_to_hex`] makes of a text: the hexadecimal of its
/// bytes where it is base64 and within [`MAX_CODED_LEN`], nothing
/// otherwise.
pub open spec fn base64_in_hex(text: Seq<char>) -> Option<Seq<char>> {
    if byte_len(text) <= MAX_CODED_LEN {
        match base64_decoded(text) {
            Some(bytes) => Some(hex_encoded(bytes)),
            None => None,
        }
    } else {
        None
    }
}

/// Turns base64 text into the hexadecimal text of the same bytes.
pub fn convert_base64_to_hex(hex: &str) -> (converted: Result<String, Error>)
    ensures
        match base64_in_hex(hex@) {
            Some(text) => converted matches Ok(h) && h@ == text,
            None => converted matches Err(e) && e@ == ErrorView::ConversionError(NOT_BASE64@),
        },
{
    if hex.len() > MAX_CODED_LEN {
        return Err(Error::ConversionError(NOT_BASE64.to_owned()));
    }
    match base64_decode(hex) {
        Ok(bytes) => Ok(hex_encode(&bytes)),
        Err(_) => Err(Error::ConversionError(NOT_BASE64.to_owned())),
    }
}

/// A type of number that can be read out of decimal text.
pub trait Number: Sized {
    /// The number that `text` writes, where it writes one of this type: an
    /// optional sign, then digits, and a value within the type's range. An
    /// unsigned type takes no minus sign.
    spec fn written(text: Seq<char>) -> Option<Self>;

    /// Reads the number that `text` writes.
    fn read(text: &str) -> (value: Option<Self>)
        ensures
            value == Self::written(text@),
    ;
}

impl Number for u64 {
    open spec fn written(text: Seq<char>) -> Option<u64> {
        match decimal_unsigned(text, u64::MAX as int) {
            Some(v) => Some(v as u64),
            None => None,
        }
    }

    fn read(text: &str) -> (value: Option<u64>) {
        parse_u64(text)
    }
}

impl Number for u32 {
    open spec fn written(text: Seq<char>) -> Option<u32> {
        match decimal_unsigned(text, u32::MAX as int) {
            Some(v) => Some(v as u32),
            None => None,
        }
    }

    fn read(text: &str) -> (value: Option<u32>) {
        parse_u32(text)
    }
}

impl Number for i64 {
    open spec fn written(text: Seq<char>) -> Option<i64> {
        match decimal_signed(text, i64::MIN as int, i64::MAX as int) {
            Some(v) => Some(v as i64),
            None => None,
        }
    }

    fn read(text: &str) -> (value: Option<i64>) {
        parse_i64(text)
    }
}

impl Number for i32 {
    open spec fn written(text: Seq<char>) -> Option<i32> {
        match decimal_signed(text, i32::MIN as int, i32::MAX as int) {
            Some(v) => Some(v as i32),
            None => None,
        }
    }

    fn read(text: &str) -> (value: Option<i32>) {
        parse_i32(text)
    }
}

/// Reads a number out of text, white space at either end set aside.
pub fn parse_number<T: Number>(text: &str) -> (number: Result<T, Error>)
    ensures
        match T::written(text_trimmed(text@)) {
            Some(n) => number matches Ok(v) && v == n,
            None => number matches Err(e) && e@ == ErrorView::ConversionError(
                "couldn't convert string to integer"@,
            ),
        },
{
    match T::read(trim(text)) {
        Some(n) => Ok(n),
        None => Err(Error::from_parse_int_failure()),
    }
}

} // verus!
