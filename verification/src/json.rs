//! A reference strategy over JSON text.

use crate::strategy::{present_or_absent, Strategy};
use serde::{Deserialize, Serialize};
use vstd::prelude::*;

verus! {

/// The error of `serde_json`, carried through as an opaque value.
#[verifier::external_type_specification]
#[verifier::external_body]
pub struct ExJsonError(serde_json::Error);

/// Calls `serde_json::to_string`. Nothing is claimed of what it returns:
/// whether it is a text or an error, and which, rests on how `T` serializes
/// itself.
#[verifier::external_body]
fn json_to_string<T: ?Sized + Serialize>(value: &T) -> (result: Result<String, serde_json::Error>) {
    serde_json::to_string(value)
}

/// Calls `serde_json::from_str`. Nothing is claimed of what it returns:
/// whether it is a value or an error, and which, rests on how `T`
/// deserializes itself.
#[verifier::external_body]
fn json_from_str<'a, T: Deserialize<'a>>(s: &'a str) -> (result: Result<T, serde_json::Error>) {
    serde_json::from_str::<T>(s)
}

/// Whether the JSON backend, asked to write `value`, can answer `result`.
/// Only a call of the backend with this `value` shows that it can.
pub closed spec fn json_writes<T: ?Sized + Serialize>(
    value: &T,
    result: Result<String, serde_json::Error>,
) -> bool {
    call_ensures(json_to_string::<T>, (value,), result)
}

/// Whether the JSON backend, asked to read `s` as a `T`, can answer `result`.
/// Only a call of the backend with this `s` shows that it can.
pub closed spec fn json_reads<'a, T: Deserialize<'a>>(
    s: &'a str,
    result: Result<T, serde_json::Error>,
) -> bool {
    call_ensures(json_from_str::<T>, (s,), result)
}

/// Hands `value` to the JSON backend once. The text that the backend wrote
/// is returned as it is; every error of the backend gives `None`.
pub fn encode_json<T>(value: &T) -> (encoded: Option<String>) where T: ?Sized + Serialize
    ensures
        exists|result: Result<String, serde_json::Error>| #[trigger]
            json_writes(value, result) && encoded == match result {
                Ok(text) => Some(text),
                Err(_) => None,
            },
{
    let result = json_to_string(value);
    assert(json_writes(value, result));
    present_or_absent(result)
}

/// Hands `s` to the JSON backend once. The value that the backend read is
/// returned as it is; every error of the backend gives `None`.
pub fn decode_json<'a, T>(s: &'a str) -> (decoded: Option<T>) where T: Deserialize<'a>
    ensures
        exists|result: Result<T, serde_json::Error>| #[trigger]
            json_reads(s, result) && decoded == match result {
                Ok(value) => Some(value),
                Err(_) => None,
            },
{
    let result = json_from_str::<T>(s);
    assert(json_reads(s, result));
    present_or_absent(result)
}

/// The strategy that writes and reads JSON, by `encode_json` and
/// `decode_json`.
pub struct JsonStrategy;

impl Strategy for JsonStrategy {
    fn serialize<T>(&self, value: &T) -> (encoded: Option<String>) where T: ?Sized + Serialize {
        encode_json(value)
    }

    fn deserialize<'a, T>(&self, s: &'a str) -> (decoded: Option<T>) where T: Deserialize<'a> {
        decode_json::<T>(s)
    }
}

} // verus!
