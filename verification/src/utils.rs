//! Amount resolution and encoding helpers shared by the backends.

use core::ops::{Div, Mul};
use vstd::prelude::*;
use vstd::std_specs::ops::{DivSpec, MulSpec};
use crate::codec::{
    base64_decode, base64_decoded, byte_len, hex_encode, hex_encoded, MAX_CODED_LEN,
};
use crate::error::{Error, ErrorView};

verus! {

/// A satoshi amount in millisatoshis.
pub fn sat_to_msat<T>(sat: T) -> (msat: T) where T: Mul<u64, Output = T>
    requires
        sat.mul_req(1_000u64),
    ensures
        T::obeys_mul_spec() ==> msat == sat.mul_spec(1_000u64),
{
    sat * 1_000u64
}

/// A millisatoshi amount in whole satoshis.
pub fn msat_to_sat<T>(msat: T) -> (sat: T) where T: Div<u64, Output = T>
    requires
        msat.div_req(1_000u64),
    ensures
        T::obeys_div_spec() ==> sat == msat.div_spec(1_000u64),
{
    msat / 1_000u64
}

/// An amount in millisatoshis, from what was given in either unit: the
/// satoshi amount times a thousand where there is one, else the
/// millisatoshi amount.
pub fn get_amount_msat<T>(sat: Option<T>, msat: Option<T>) -> (amount: Option<T>) where
    T: Mul<u64, Output = T> + Div<u64, Output = T>,

    requires
        sat matches Some(s) ==> s.mul_req(1_000u64),
    ensures
        amount is None <==> sat is None && msat is None,
        sat matches Some(s) ==> <T as MulSpec<u64>>::obeys_mul_spec() ==> amount == Some(
            s.mul_spec(1_000u64),
        ),
        sat is None ==> amount == msat,
{
    match (sat, msat) {
        (Some(sat), _) => Some(sat_to_msat(sat)),
        (_, Some(msat)) => Some(msat),
        (None, None) => None,
    }
}

/// An amount in satoshis, from what was given in either unit: the satoshi
/// amount where there is one, else the whole satoshis of the millisatoshi
/// amount.
pub fn get_amount_sat<T>(sat: Option<T>, msat: Option<T>) -> (amount: Option<T>) where
    T: Mul<u64, Output = T> + Div<u64, Output = T>,

    requires
        sat is None ==> (msat matches Some(m) ==> m.div_req(1_000u64)),
    ensures
        amount is None <==> sat is None && msat is None,
        sat is Some ==> amount == sat,
        sat is None ==> (msat matches Some(m) ==> <T as DivSpec<u64>>::obeys_div_spec() ==> amount
            == Some(m.div_spec(1_000u64))),
{
    match (sat, msat) {
        (Some(sat), _) => Some(sat),
        (_, Some(msat)) => Some(msat_to_sat(msat)),
        (None, None) => None,
    }
}

/// `n` cut down to its low 64 bits, read as a signed number.
pub open spec fn wrapped_i64(n: int) -> i64 {
    let low = n % 0x1_0000_0000_0000_0000;
    if low < 0x8000_0000_0000_0000 {
        low as i64
    } else {
        (low - 0x1_0000_0000_0000_0000) as i64
    }
}

/// `n` cut down to its low 32 bits, read as a signed number.
pub open spec fn wrapped_i32(n: int) -> i32 {
    let low = n % 0x1_0000_0000;
    if low < 0x8000_0000 {
        low as i32
    } else {
        (low - 0x1_0000_0000) as i32
    }
}

/// `n` cut down to its low 32 bits.
pub open spec fn low_u32(n: int) -> u32 {
    (n % 0x1_0000_0000) as u32
}

/// The low 64 bits of `n`, read as a signed number.
pub fn wrap_i64(n: u128) -> (wrapped: i64)
    ensures
        wrapped == wrapped_i64(n as int),
{
    let low: u64 = (n % 0x1_0000_0000_0000_0000u128) as u64;
    if low < 0x8000_0000_0000_0000u64 {
        low as i64
    } else {
        let rest: i64 = (low - 0x8000_0000_0000_0000u64) as i64;
        rest + i64::MIN
    }
}

/// The low 32 bits of `n`, read as a signed number.
pub fn wrap_i32(n: u128) -> (wrapped: i32)
    ensures
        wrapped == wrapped_i32(n as int),
{
    let low: u32 = (n % 0x1_0000_0000u128) as u32;
    if low < 0x8000_0000u32 {
        low as i32
    } else {
        let rest: i32 = (low - 0x8000_0000u32) as i32;
        rest + i32::MIN
    }
}

/// What [`b64_to_hex`] makes of a text: the hexadecimal of its bytes where
/// it is base64 and within [`MAX_CODED_LEN`], nothing otherwise.
pub open spec fn base64_as_hex(b64: Seq<char>) -> Option<Seq<char>> {
    if byte_len(b64) <= MAX_CODED_LEN {
        match base64_decoded(b64) {
            Some(bytes) => Some(hex_encoded(bytes)),
            None => None,
        }
    } else {
        None
    }
}

/// Turns base64 text into the hexadecimal text of the same bytes.
pub fn b64_to_hex(b64: &str) -> (hex: Result<String, Error>)
    ensures
        match base64_as_hex(b64@) {
            Some(text) => hex matches Ok(h) && h@ == text,
            None => hex matches Err(e) && e@ == ErrorView::ConversionError(
                "couldn't convert base64 to hex"@,
            ),
        },
{
    if b64.len() > MAX_CODED_LEN {
        return Err(Error::from_base64_failure());
    }
    match base64_decode(b64) {
        Ok(bytes) => Ok(hex_encode(&bytes)),
        Err(_) => Err(Error::from_base64_failure()),
    }
}

} // verus!
