use serde_json::{Number, Value};
use wallet_bridge::backend::{decode, encode};
use wallet_bridge::embedded::{marshal_arguments, search_path, Platform};
use wallet_bridge::error::CommandError;
use wallet_bridge::handlers::{confirm_transaction, get_wallet_name, sign_typed_message};

fn text(s: &str) -> Value {
    Value::String(s.to_string())
}

fn object(pairs: Vec<(&str, Value)>) -> Value {
    let mut map = serde_json::Map::new();
    for (key, value) in pairs {
        map.insert(key.to_string(), value);
    }
    Value::Object(map)
}

fn pair(key: &str, json: &str) -> (String, String) {
    (key.to_string(), json.to_string())
}

#[test]
fn platform_folders() {
    assert_eq!(Platform::Windows.runtime_folder(), "windows");
    assert_eq!(Platform::Linux.runtime_folder(), "linux");
    assert_eq!(Platform::MacOs.runtime_folder(), "macos");
}

#[test]
fn search_path_joins_with_a_semicolon() {
    assert_eq!(
        search_path("/opt/app/python-runtime/linux", "/opt/app/python_client"),
        "/opt/app/python-runtime/linux;/opt/app/python_client"
    );
    assert_eq!(search_path("", ""), ";");
}

#[test]
fn arguments_are_marshalled_as_json_text_in_order() {
    let request = confirm_transaction(
        "1234".to_string(),
        "tx-3".to_string(),
        Some("0xfeed".to_string()),
        Some(7),
    );
    assert_eq!(
        marshal_arguments(&request),
        Ok(vec![
            pair("pin", "\"1234\""),
            pair("transaction_id", "\"tx-3\""),
            pair("transaction_hash", "\"0xfeed\""),
            pair("nonce", "7"),
        ])
    );
}

#[test]
fn nested_arguments_are_marshalled_whole() {
    let request = sign_typed_message(
        "1".to_string(),
        object(vec![("name", text("Bubbl")), ("chainId", Value::Number(Number::from(1u64)))]),
        Value::Array(vec![Value::Bool(true), Value::Null]),
        "Mail".to_string(),
        text("a \"b\""),
        None,
        None,
    );
    assert_eq!(
        marshal_arguments(&request),
        Ok(vec![
            pair("pin", "\"1\""),
            pair("domain", "{\"chainId\":1,\"name\":\"Bubbl\"}"),
            pair("types", "[true,null]"),
            pair("primary_type", "\"Mail\""),
            pair("message", "\"a \\\"b\\\"\""),
        ])
    );
}

#[test]
fn no_arguments_marshal_to_an_empty_list() {
    assert_eq!(marshal_arguments(&get_wallet_name()), Ok(vec![]));
}

#[test]
fn encode_writes_compact_json() {
    assert_eq!(encode(&Value::Null), Ok("null".to_string()));
    assert_eq!(encode(&text("x")), Ok("\"x\"".to_string()));
    assert_eq!(
        encode(&object(vec![("b", Value::Bool(false)), ("a", Value::Array(vec![]))])),
        Ok("{\"a\":[],\"b\":false}".to_string())
    );
}

#[test]
fn decode_reads_what_the_interpreter_wrote() {
    assert_eq!(
        decode("{\"status\": \"ok\", \"count\": 2}"),
        Ok(object(vec![("status", text("ok")), ("count", Value::Number(Number::from(2u64)))]))
    );
    assert_eq!(decode(" true "), Ok(Value::Bool(true)));
}

#[test]
fn decode_failure_carries_the_parser_message() {
    for bad in vec!["", "{", "{\"a\":}", "nul", "[1,]", "{\"a\":1} trailing"] {
        let expected = serde_json::from_str::<Value>(bad).unwrap_err().to_string();
        let failed = decode(bad);
        assert_eq!(failed, Err(CommandError::BackendInvocation(expected.clone())));
        assert_eq!(failed.unwrap_err().message(), expected);
    }
}

#[test]
fn decode_then_encode_round_trips() {
    let value = object(vec![
        ("pin", text("1234")),
        ("nested", object(vec![("list", Value::Array(vec![Value::Null, Value::Bool(true)]))])),
    ]);
    let written = encode(&value).unwrap();
    assert_eq!(decode(&written), Ok(value));
}

#[test]
fn marshalled_arguments_read_back_whole() {
    let domain = object(vec![
        ("name", text("Bubbl \"quoted\" \u{e9}\n")),
        ("chainId", Value::Number(Number::from(u64::MAX))),
        ("nested", object(vec![("list", Value::Array(vec![Value::Null, Value::Bool(false), text("")]))])),
    ]);
    let types = Value::Array(vec![
        Value::Array(vec![]),
        object(vec![]),
        Value::Number(Number::from(-5i64)),
        Value::Array(vec![text("b"), text("a"), text("b")]),
    ]);
    let message = Value::Null;
    let request = sign_typed_message(
        "1234".to_string(),
        domain.clone(),
        types.clone(),
        "Mail".to_string(),
        message.clone(),
        Some("owner".to_string()),
        None,
    );
    let written = marshal_arguments(&request).unwrap();
    let keys: Vec<&str> = written.iter().map(|(key, _)| key.as_str()).collect();
    assert_eq!(keys, vec!["pin", "domain", "types", "primary_type", "message", "role"]);
    let read: Vec<Value> = written.iter().map(|(_, json)| decode(json).unwrap()).collect();
    assert_eq!(
        read,
        vec![text("1234"), domain, types, text("Mail"), message, text("owner")]
    );
}
