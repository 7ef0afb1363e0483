//! The JSON form of the values the cache holds: lists of names and a
//! timestamp. The encoding is `serde_json`'s; this module gives it names to
//! state contracts with and maps its failures to `CacheError`.

use vstd::prelude::*;
use crate::error::CacheError;

verus! {

#[verifier::external_type_specification]
#[verifier::external_body]
pub struct ExJsonError(serde_json::Error);

/// The JSON bytes that stand for a list of names.
pub uninterp spec fn names_json(names: Seq<Seq<char>>) -> Seq<u8>;

/// The list of names that JSON bytes stand for, if they stand for one.
pub uninterp spec fn json_names(bytes: Seq<u8>) -> Option<Seq<Seq<char>>>;

/// The digits of a number, the first digit first.
pub open spec fn decimal_digits(number: nat) -> Seq<u8>
    decreases number,
{
    if number < 10 {
        seq![(48 + number) as u8]
    } else {
        decimal_digits(number / 10).push((48 + number % 10) as u8)
    }
}

/// The JSON bytes that stand for a number of seconds: its digits, with a
/// minus sign before them where it is below zero.
pub open spec fn seconds_json(seconds: int) -> Seq<u8> {
    if seconds < 0 {
        seq![45u8] + decimal_digits((-seconds) as nat)
    } else {
        decimal_digits(seconds as nat)
    }
}

/// The number of seconds that JSON bytes stand for, if they stand for one.
pub uninterp spec fn json_seconds(bytes: Seq<u8>) -> Option<int>;

/// `serde_json::to_vec` on a list of strings. The serializer fails only
/// where a value's own `Serialize` fails or a map has keys that are no
/// strings; a list of strings has neither, so the call succeeds.
#[verifier::external_body]
fn names_to_vec(names: &Vec<String>) -> (r: Result<Vec<u8>, serde_json::Error>)
    ensures
        match r {
            Ok(bytes) => bytes@ == names_json(names.deep_view()),
            Err(_) => false,
        },
{
    serde_json::to_vec(names)
}

/// `serde_json::from_slice` read as a list of strings: the list the bytes
/// stand for, or the parser's error where they stand for none.
#[verifier::external_body]
fn names_from_slice(bytes: &[u8]) -> (r: Result<Vec<String>, serde_json::Error>)
    ensures
        match r {
            Ok(names) => json_names(bytes@) == Some(names.deep_view()),
            Err(_) => json_names(bytes@).is_none(),
        },
{
    serde_json::from_slice::<Vec<String>>(bytes)
}

/// `serde_json::to_vec` on an `i64`, which has no failing case either and
/// writes the number in decimal, as JSON writes an integer.
#[verifier::external_body]
fn seconds_to_vec(seconds: i64) -> (r: Result<Vec<u8>, serde_json::Error>)
    ensures
        match r {
            Ok(bytes) => bytes@ == seconds_json(seconds as int),
            Err(_) => false,
        },
{
    serde_json::to_vec(&seconds)
}

/// `serde_json::from_slice` read as an `i64`.
#[verifier::external_body]
fn seconds_from_slice(bytes: &[u8]) -> (r: Result<i64, serde_json::Error>)
    ensures
        match r {
            Ok(seconds) => json_seconds(bytes@) == Some(seconds as int),
            Err(_) => json_seconds(bytes@).is_none(),
        },
{
    serde_json::from_slice::<i64>(bytes)
}

/// The parser's own description of an error, through its `Display`.
#[verifier::external_body]
fn describe(error: &serde_json::Error) -> String {
    format!("{}", error)
}

/// Encodes a list of names.
pub fn encode_names(names: &Vec<String>) -> (bytes: Vec<u8>)
    ensures
        bytes@ == names_json(names.deep_view()),
{
    match names_to_vec(names) {
        Ok(bytes) => bytes,
        Err(_) => Vec::new(),
    }
}

/// Decodes a list of names stored under `key`. Bytes that are no list of
/// names give `DeserializeFailure` with that key.
pub fn decode_names(key: &str, bytes: &Vec<u8>) -> (r: Result<Vec<String>, CacheError>)
    ensures
        match r {
            Ok(names) => json_names(bytes@) == Some(names.deep_view()),
            Err(e) => json_names(bytes@).is_none() && e.is_deserialize_of(key@),
        },
{
    match names_from_slice(bytes.as_slice()) {
        Ok(names) => Ok(names),
        Err(e) => Err(
            CacheError::DeserializeFailure { key: String::from_str(key), cause: describe(&e) },
        ),
    }
}

/// Encodes a timestamp.
pub fn encode_seconds(seconds: i64) -> (bytes: Vec<u8>)
    ensures
        bytes@ == seconds_json(seconds as int),
{
    match seconds_to_vec(seconds) {
        Ok(bytes) => bytes,
        Err(_) => Vec::new(),
    }
}

/// Decodes a timestamp stored under `key`.
pub fn decode_seconds(key: &str, bytes: &Vec<u8>) -> (r: Result<i64, CacheError>)
    ensures
        match r {
            Ok(seconds) => json_seconds(bytes@) == Some(seconds as int),
            Err(e) => json_seconds(bytes@).is_none() && e.is_deserialize_of(key@),
        },
{
    match seconds_from_slice(bytes.as_slice()) {
        Ok(seconds) => Ok(seconds),
        Err(e) => Err(
            CacheError::DeserializeFailure { key: String::from_str(key), cause: describe(&e) },
        ),
    }
}

} // verus!
