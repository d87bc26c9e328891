//! The boundary to `serde_json`.
//!
//! JSON values travel through the bridge as `serde_json::Value`. The verifier
//! cannot look inside one, so this module gives every value a mathematical
//! model, [`Json`], and states for each `serde_json` function the bridge
//! calls what that function does in terms of the model. Those statements are
//! taken on trust from the source of `serde_json`; everything else in the
//! crate is proved from them.

use serde_json::Value;
use vstd::prelude::*;

verus! {

/// `serde_json::Value`: a JSON value. The verifier knows it by [`json_of`]
/// alone.
#[verifier::external_type_specification]
#[verifier::external_body]
pub struct ExValue(serde_json::Value);

/// `serde_json::Map`: the fields of a JSON object. The verifier knows it by
/// [`entries_of`] alone.
#[verifier::external_type_specification]
#[verifier::external_body]
#[verifier::reject_recursive_types(K)]
#[verifier::reject_recursive_types(V)]
pub struct ExMap<K, V>(serde_json::Map<K, V>);

/// `serde_json::Error`: why a text could not be read, or a value not
/// written. The verifier knows it by [`error_text`] alone.
#[verifier::external_type_specification]
#[verifier::external_body]
pub struct ExError(serde_json::Error);

/// The model of a JSON number.
pub enum JsonNumber {
    /// A number stored as an integer.
    Integer(int),
    /// A number stored in binary floating point, named by its bit pattern.
    Binary64(int),
}

/// The model of a JSON value: what a `serde_json::Value` holds, with the
/// fields of an object as a map from key to value.
#[verifier::ext_equal]
pub enum Json {
    Null,
    Bool(bool),
    Number(JsonNumber),
    String(Seq<char>),
    Array(Seq<Json>),
    Object(Fields),
}

/// The fields of a JSON object, by key.
pub type Fields = Map<Seq<char>, Json>;

impl Json {
    /// The fields of an object; no fields for any other value.
    pub open spec fn fields(self) -> Fields {
        match self {
            Json::Object(fields) => fields,
            _ => Map::empty(),
        }
    }

    /// The value under `key`, where this is an object that has the key.
    pub open spec fn field(self, key: Seq<char>) -> Option<Json> {
        match self {
            Json::Object(fields) => if fields.contains_key(key) {
                Some(fields[key])
            } else {
                None
            },
            _ => None,
        }
    }

    /// The truth value, where this is a boolean.
    pub open spec fn as_bool(self) -> Option<bool> {
        match self {
            Json::Bool(b) => Some(b),
            _ => None,
        }
    }

    /// The text, where this is a string.
    pub open spec fn as_text(self) -> Option<Seq<char>> {
        match self {
            Json::String(text) => Some(text),
            _ => None,
        }
    }
}

/// The model of `v`.
pub uninterp spec fn json_of(v: serde_json::Value) -> Json;

/// The fields held by `m`, each value by its model.
pub uninterp spec fn entries_of(m: serde_json::Map<String, serde_json::Value>) -> Fields;

/// The compact JSON text that `serde_json::to_string` writes for `v`, or
/// the message of the error that it reports. The text belongs to the value
/// as `serde_json` holds it: nothing is said here of the order in which the
/// fields of an object are written.
pub uninterp spec fn json_text(v: serde_json::Value) -> Result<Seq<char>, Seq<char>>;

/// The value that `serde_json::from_str` reads from `text`, or the message
/// of the error that it reports.
pub uninterp spec fn json_parse(text: Seq<char>) -> Result<Json, Seq<char>>;

/// The message that `e` displays.
pub uninterp spec fn error_text(e: serde_json::Error) -> Seq<char>;

/// `Value::Null`: the JSON null.
#[verifier::external_body]
pub(crate) fn null_value() -> (v: Value)
    ensures
        json_of(v) == Json::Null,
{
    Value::Null
}

/// `Value::Bool`: the JSON boolean `b`.
#[verifier::external_body]
pub(crate) fn bool_value(b: bool) -> (v: Value)
    ensures
        json_of(v) == Json::Bool(b),
{
    Value::Bool(b)
}

/// `Value::Number` of `Number::from(n)`: the JSON integer `n`.
#[verifier::external_body]
pub(crate) fn number_value(n: u64) -> (v: Value)
    ensures
        json_of(v) == Json::Number(JsonNumber::Integer(n as int)),
{
    Value::Number(serde_json::Number::from(n))
}

/// `Value::String`: the JSON string with the text of `s`.
#[verifier::external_body]
pub(crate) fn string_value(s: String) -> (v: Value)
    ensures
        json_of(v) == Json::String(s@),
{
    Value::String(s)
}

/// `Value::Object`: the JSON object with the fields of `m`.
#[verifier::external_body]
pub(crate) fn object_value(m: serde_json::Map<String, Value>) -> (v: Value)
    ensures
        json_of(v) == Json::Object(entries_of(m)),
{
    Value::Object(m)
}

/// `Value::clone`: a value with the same model.
pub assume_specification[ <serde_json::Value as Clone>::clone ](v: &serde_json::Value) -> (r:
    serde_json::Value)
    ensures
        json_of(r) == json_of(*v),
;

/// `Value::get` with a string key: the value under `key` where `v` is an
/// object that has the key, nothing otherwise.
#[verifier::external_body]
pub(crate) fn get_field<'a>(v: &'a Value, key: &str) -> (r: Option<&'a Value>)
    ensures
        match r {
            Some(found) => json_of(*v).field(key@) == Some(json_of(*found)),
            None => json_of(*v).field(key@) is None,
        },
{
    v.get(key)
}

/// `Value::as_bool`: the truth value of a boolean, nothing for any other
/// value.
#[verifier::external_body]
pub(crate) fn as_bool(v: &Value) -> (r: Option<bool>)
    ensures
        r == json_of(*v).as_bool(),
{
    v.as_bool()
}

/// `Value::as_str`: the text of a string, nothing for any other value.
#[verifier::external_body]
pub(crate) fn as_str(v: &Value) -> (r: Option<&str>)
    ensures
        match r {
            Some(text) => json_of(*v).as_text() == Some(text@),
            None => json_of(*v).as_text() is None,
        },
{
    v.as_str()
}

/// `Value::as_object`: the fields of an object, nothing for any other value.
#[verifier::external_body]
pub(crate) fn as_object(v: &Value) -> (r: Option<&serde_json::Map<String, Value>>)
    ensures
        match r {
            Some(m) => json_of(*v) == Json::Object(entries_of(*m)),
            None => !(json_of(*v) is Object),
        },
{
    v.as_object()
}

/// `Value::as_object_mut`: the fields of an object, open to change; what the
/// fields become is what the object holds afterwards. Nothing for any other
/// value, which then stays as it is.
#[verifier::external_body]
pub(crate) fn as_object_mut(v: &mut Value) -> (r: Option<&mut serde_json::Map<String, Value>>)
    ensures
        match r {
            Some(m) => json_of(*old(v)) == Json::Object(entries_of(*m)) && json_of(*final(v))
                == Json::Object(entries_of(*final(m))),
            None => !(json_of(*old(v)) is Object) && json_of(*final(v)) == json_of(*old(v)),
        },
{
    v.as_object_mut()
}

/// `Map::new`: a map without fields.
#[verifier::external_body]
pub(crate) fn empty_map() -> (m: serde_json::Map<String, Value>)
    ensures
        entries_of(m) == Fields::empty(),
{
    serde_json::Map::new()
}

/// `Map::insert`: afterwards `key` holds `value`, whether or not the key was
/// there before; every other field is untouched.
#[verifier::external_body]
pub(crate) fn map_insert(m: &mut serde_json::Map<String, Value>, key: String, value: Value)
    ensures
        entries_of(*final(m)) == entries_of(*old(m)).insert(key@, json_of(value)),
{
    m.insert(key, value);
}

/// `Map::extend` with the fields of another map: the fields of `other` are
/// added, and replace fields of the same key.
#[verifier::external_body]
pub(crate) fn map_extend(
    m: &mut serde_json::Map<String, Value>,
    other: serde_json::Map<String, Value>,
)
    ensures
        entries_of(*final(m)) == entries_of(*old(m)).union_prefer_right(entries_of(other)),
{
    m.extend(other);
}

/// `Map::clone`: a map with the same fields.
pub assume_specification[ <serde_json::Map<String, serde_json::Value> as Clone>::clone ](
    m: &serde_json::Map<String, serde_json::Value>,
) -> (r: serde_json::Map<String, serde_json::Value>)
    ensures
        entries_of(r) == entries_of(*m),
;

/// `serde_json::to_string` on a value: its compact JSON text. The same
/// value always gives the same text, or the same error.
#[verifier::external_body]
pub(crate) fn to_text(v: &Value) -> (r: Result<String, serde_json::Error>)
    ensures
        match r {
            Ok(text) => json_text(*v) matches Ok(written) && written == text@,
            Err(e) => json_text(*v) matches Err(message) && message == error_text(e),
        },
{
    serde_json::to_string(v)
}

/// `serde_json::from_str` into a value: the value that `text` spells. The
/// same text always gives the same value, or the same error.
#[verifier::external_body]
pub(crate) fn parse_text(text: &str) -> (r: Result<Value, serde_json::Error>)
    ensures
        match r {
            Ok(v) => json_parse(text@) matches Ok(read) && read == json_of(v),
            Err(e) => json_parse(text@) matches Err(message) && message == error_text(e),
        },
{
    serde_json::from_str::<Value>(text)
}

/// `to_string` on an error of `serde_json`: the message it displays.
#[verifier::external_body]
pub(crate) fn error_message(e: &serde_json::Error) -> (r: String)
    ensures
        r@ == error_text(*e),
{
    e.to_string()
}

} // verus!
