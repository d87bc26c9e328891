use serde_json::{Number, Value};
use wallet_bridge::handlers::{
    confirm_transaction, disconnect_usb, fail_transaction, get_all_transactions, get_file,
    get_llm_response, get_public_key, get_transaction, get_wallet_name, init_wallet,
    is_wallet_exists, sign_personal_message, sign_typed_message, FetchPlan, FileProbe,
};
use wallet_bridge::request::{Argument, Operation, OperationRequest};

fn text(s: &str) -> Value {
    Value::String(s.to_string())
}

fn object(pairs: Vec<(&str, Value)>) -> Value {
    let mut map = serde_json::Map::new();
    for (key, value) in pairs {
        map.insert(key.to_string(), value);
    }
    Value::Object(map)
}

fn arg(key: &str, value: Value) -> Argument {
    Argument { key: key.to_string(), value }
}

fn keys(request: &OperationRequest) -> Vec<String> {
    request.arguments().iter().map(|a| a.key.clone()).collect()
}

#[test]
fn init_wallet_sends_pin_name_and_flag() {
    let request = init_wallet("1234".to_string(), Some("acct1".to_string()), Some(true));
    assert_eq!(request.operation(), Operation::InitWallet);
    assert_eq!(request.operation().label(), "init_wallet");
    assert_eq!(
        request.arguments(),
        &vec![arg("pin", text("1234")), arg("name", text("acct1")), arg("new_wallet", Value::Bool(true))]
    );
    assert_eq!(
        request.to_object(),
        object(vec![("pin", text("1234")), ("name", text("acct1")), ("new_wallet", Value::Bool(true))])
    );
}

#[test]
fn init_wallet_omits_what_was_not_supplied() {
    let request = init_wallet("1234".to_string(), None, None);
    assert_eq!(request.arguments(), &vec![arg("pin", text("1234"))]);
    let request = init_wallet("1234".to_string(), None, Some(false));
    assert_eq!(
        request.arguments(),
        &vec![arg("pin", text("1234")), arg("new_wallet", Value::Bool(false))]
    );
}

#[test]
fn sign_typed_message_without_role_and_transaction_omits_the_keys() {
    let domain = object(vec![("name", text("Bubbl")), ("chainId", Value::Number(Number::from(1u64)))]);
    let types = object(vec![("Mail", Value::Array(vec![text("to")]))]);
    let message = object(vec![("to", text("0xabc"))]);
    let request = sign_typed_message(
        "1234".to_string(),
        domain.clone(),
        types.clone(),
        "Mail".to_string(),
        message.clone(),
        None,
        None,
    );
    assert_eq!(request.operation(), Operation::SignTypedData);
    assert_eq!(request.operation().label(), "sign_typed_data");
    assert_eq!(keys(&request), vec!["pin", "domain", "types", "primary_type", "message"]);
    let body = request.to_object();
    let fields = body.as_object().unwrap();
    assert!(!fields.contains_key("role"));
    assert!(!fields.contains_key("transaction_id"));
    assert_eq!(fields.len(), 5);
    assert_eq!(fields["domain"], domain);
    assert_eq!(fields["types"], types);
    assert_eq!(fields["message"], message);
}

#[test]
fn sign_typed_message_with_role_and_transaction() {
    let request = sign_typed_message(
        "1234".to_string(),
        Value::Null,
        Value::Null,
        "Mail".to_string(),
        Value::Null,
        Some("owner".to_string()),
        Some("tx-9".to_string()),
    );
    assert_eq!(
        request.arguments(),
        &vec![
            arg("pin", text("1234")),
            arg("domain", Value::Null),
            arg("types", Value::Null),
            arg("primary_type", text("Mail")),
            arg("message", Value::Null),
            arg("role", text("owner")),
            arg("transaction_id", text("tx-9")),
        ]
    );
}

#[test]
fn sign_personal_message_arguments() {
    let request =
        sign_personal_message("1234".to_string(), "hello".to_string(), None, Some("tx-2".to_string()));
    assert_eq!(request.operation(), Operation::SignPersonalMessage);
    assert_eq!(
        request.arguments(),
        &vec![arg("pin", text("1234")), arg("message", text("hello")), arg("transaction_id", text("tx-2"))]
    );
    let request =
        sign_personal_message("1234".to_string(), "hello".to_string(), Some("owner".to_string()), None);
    assert_eq!(keys(&request), vec!["pin", "message", "role"]);
}

#[test]
fn confirm_transaction_sends_the_nonce_as_a_number() {
    let request = confirm_transaction(
        "1234".to_string(),
        "tx-3".to_string(),
        Some("0xfeed".to_string()),
        Some(7),
    );
    assert_eq!(request.operation(), Operation::ConfirmTransaction);
    assert_eq!(
        request.arguments(),
        &vec![
            arg("pin", text("1234")),
            arg("transaction_id", text("tx-3")),
            arg("transaction_hash", text("0xfeed")),
            arg("nonce", Value::Number(Number::from(7u64))),
        ]
    );
}

#[test]
fn confirm_transaction_with_the_largest_nonce() {
    let request = confirm_transaction("p".to_string(), "t".to_string(), None, Some(u64::MAX));
    assert_eq!(keys(&request), vec!["pin", "transaction_id", "nonce"]);
    assert_eq!(request.arguments()[2].value.as_u64(), Some(u64::MAX));
}

#[test]
fn confirm_transaction_without_hash_and_nonce() {
    let request = confirm_transaction("p".to_string(), "t".to_string(), None, None);
    assert_eq!(request.arguments(), &vec![arg("pin", text("p")), arg("transaction_id", text("t"))]);
}

#[test]
fn transaction_handlers_carry_the_identifier() {
    let failed = fail_transaction("tx-4".to_string());
    assert_eq!(failed.operation(), Operation::FailTransaction);
    assert_eq!(failed.arguments(), &vec![arg("transaction_id", text("tx-4"))]);
    let asked = get_transaction("tx-5".to_string());
    assert_eq!(asked.operation(), Operation::GetTransaction);
    assert_eq!(asked.arguments(), &vec![arg("transaction_id", text("tx-5"))]);
}

#[test]
fn get_public_key_with_and_without_role() {
    let plain = get_public_key(None);
    assert_eq!(plain.operation(), Operation::GetPublicKey);
    assert!(plain.arguments().is_empty());
    let owner = get_public_key(Some("owner".to_string()));
    assert_eq!(owner.arguments(), &vec![arg("role", text("owner"))]);
}

#[test]
fn handlers_without_arguments() {
    let cases = vec![
        (disconnect_usb(), Operation::DisconnectUsb, "disconnect_usb"),
        (is_wallet_exists(), Operation::IsWalletExists, "is_wallet_exists"),
        (get_wallet_name(), Operation::GetWalletName, "get_wallet_name"),
        (get_all_transactions(), Operation::GetAllTransactions, "get_all_transactions"),
    ];
    for (request, operation, label) in cases {
        assert_eq!(request.operation(), operation);
        assert_eq!(request.operation().label(), label);
        assert!(request.arguments().is_empty());
        assert_eq!(request.to_object(), Value::Object(serde_json::Map::new()));
    }
}

#[test]
fn get_llm_response_arguments() {
    let request = get_llm_response(
        "/m.gguf".to_string(),
        "may I?".to_string(),
        Some("".to_string()),
        Some(false),
    );
    assert_eq!(request.operation(), Operation::GenerateResponse);
    assert_eq!(request.operation().label(), "generate_response");
    assert_eq!(
        request.arguments(),
        &vec![
            arg("model_path", text("/m.gguf")),
            arg("user_prompt", text("may I?")),
            arg("system_prompt", text("")),
            arg("is_chat", Value::Bool(false)),
        ]
    );
    let short = get_llm_response("/m.gguf".to_string(), "may I?".to_string(), None, None);
    assert_eq!(keys(&short), vec!["model_path", "user_prompt"]);
}

#[test]
fn get_file_asks_the_backend_for_a_missing_file() {
    match get_file("model.bin".to_string(), "/data".to_string(), FileProbe::Missing) {
        FetchPlan::Fetch(request) => {
            assert_eq!(request.operation(), Operation::GetFile);
            assert_eq!(
                request.arguments(),
                &vec![arg("filename", text("model.bin")), arg("file_save_location", text("/data"))]
            );
        }
        FetchPlan::AlreadyThere(_) => panic!("a missing file was reported as present"),
    }
}

#[test]
fn get_file_skips_the_backend_for_a_file_that_is_there() {
    let probe = FileProbe::Found { path: Some("/data/model.bin".to_string()) };
    match get_file("model.bin".to_string(), "/data".to_string(), probe) {
        FetchPlan::AlreadyThere(reply) => assert_eq!(
            reply,
            object(vec![
                ("status", text("exists")),
                ("message", text("File already exists. Skipping Python call.")),
                ("path", text("/data/model.bin")),
            ])
        ),
        FetchPlan::Fetch(_) => panic!("the backend was asked for a file that is there"),
    }
}

#[test]
fn get_file_twice_asks_the_backend_once() {
    let first = get_file("model.bin".to_string(), "/data".to_string(), FileProbe::Missing);
    assert!(matches!(first, FetchPlan::Fetch(_)));
    let probe = FileProbe::Found { path: Some("/data/model.bin".to_string()) };
    let second = get_file("model.bin".to_string(), "/data".to_string(), probe);
    match second {
        FetchPlan::AlreadyThere(reply) => assert_eq!(reply["status"], text("exists")),
        FetchPlan::Fetch(_) => panic!("the backend was asked a second time"),
    }
}

#[test]
fn get_file_reports_an_unwritable_path_as_null() {
    match get_file("model.bin".to_string(), "/data".to_string(), FileProbe::Found { path: None }) {
        FetchPlan::AlreadyThere(reply) => {
            assert_eq!(reply["path"], Value::Null);
            assert_eq!(reply["status"], text("exists"));
            assert_eq!(reply.as_object().unwrap().len(), 3);
        }
        FetchPlan::Fetch(_) => panic!("the backend was asked for a file that is there"),
    }
}
