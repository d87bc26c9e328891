//! What both backends share: JSON values go out as text and come back as
//! text.
//!
//! A value that cannot be written, and a text that cannot be read, are
//! failures of the backend call; the failure carries the message of the
//! JSON library unchanged.

use crate::error::CommandError;
use crate::json::{
    error_message, json_of, json_parse, json_text, parse_text, to_text, Json,
};
use serde_json::Value;
use vstd::prelude::*;

verus! {

/// Whether `value` reads back: the text written for it spells a value with
/// the model of `value`. This is a matter between the writer and the reader
/// of the JSON library, and is proved of no value here; where it holds of
/// the values a caller supplies, the bindings hand those values over whole.
pub open spec fn reads_back(value: Value) -> bool {
    json_text(value) matches Ok(text) && spells(text, json_of(value))
}

/// Whether `text` is JSON text for `value`.
pub open spec fn spells(text: Seq<char>, value: Json) -> bool {
    json_parse(text) matches Ok(read) && read == value
}

/// Writes `value` as compact JSON text.
pub fn encode(value: &Value) -> (r: Result<String, CommandError>)
    ensures
        match json_text(*value) {
            Ok(text) => r matches Ok(written) && written@ == text,
            Err(message) => r matches Err(CommandError::BackendInvocation(shown)) && shown@
                == message,
        },
{
    match to_text(value) {
        Ok(text) => Ok(text),
        Err(e) => Err(CommandError::BackendInvocation(error_message(&e))),
    }
}

/// Reads the JSON value that `text` spells.
pub fn decode(text: &str) -> (r: Result<Value, CommandError>)
    ensures
        match json_parse(text@) {
            Ok(read) => r matches Ok(value) && json_of(value) == read,
            Err(message) => r matches Err(CommandError::BackendInvocation(shown)) && shown@
                == message,
        },
{
    match parse_text(text) {
        Ok(value) => Ok(value),
        Err(e) => Err(CommandError::BackendInvocation(error_message(&e))),
    }
}

} // verus!
