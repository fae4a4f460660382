//! The parser stage: raw file bytes to a flat string map, through
//! serde_json.

use vstd::prelude::*;
use crate::errors::ParseError;
use crate::flat_map::KeyValueMap;

verus! {

/// The error type of serde_json, carried only long enough to be turned
/// into a message.
#[verifier::external_type_specification]
#[verifier::external_body]
pub struct ExJsonError(serde_json::Error);

/// What serde_json makes of a byte string: the flat map of the JSON object
/// the bytes spell, or nothing when they do not spell exactly one JSON
/// object whose values are all strings.
pub uninterp spec fn json_flat_map_of(bytes: Seq<u8>) -> Option<Map<Seq<char>, Seq<char>>>;

/// Relies on serde_json::from_slice deserializing into a string-to-string
/// map: the outcome is a function of the bytes alone, a repeated member
/// name keeps the last value, and the map handed back has each key once.
#[verifier::external_body]
fn decode_flat_map(bytes: &Vec<u8>) -> (r: Result<KeyValueMap, serde_json::Error>)
    ensures
        match r {
            Ok(m) => m.wf() && json_flat_map_of(bytes@) == Some(m@),
            Err(_) => json_flat_map_of(bytes@) is None,
        },
{
    match serde_json::from_slice::<std::collections::HashMap<String, String>>(bytes.as_slice()) {
        Ok(m) => Ok(KeyValueMap { entries: m.into_iter().collect() }),
        Err(e) => Err(e),
    }
}

/// Relies on serde_json::Error's Display impl for the text describing a
/// decode failure.
#[verifier::external_body]
fn json_error_message(e: &serde_json::Error) -> (r: String) {
    e.to_string()
}

/// Decodes the bytes of one input file into its flat string map, or
/// reports that they do not spell one, with the decoder's account of why.
pub fn parse_flat_map(bytes: &Vec<u8>) -> (r: Result<KeyValueMap, ParseError>)
    ensures
        match r {
            Ok(m) => m.wf() && json_flat_map_of(bytes@) == Some(m@),
            Err(e) => e is DecodeFailed && json_flat_map_of(bytes@) is None,
        },
{
    match decode_flat_map(bytes) {
        Ok(m) => Ok(m),
        Err(e) => {
            let cause = json_error_message(&e);
            Err(ParseError::DecodeFailed { cause })
        },
    }
}

} // verus!
