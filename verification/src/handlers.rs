//! The command handlers: one per operation that a caller can invoke.
//!
//! A handler shapes what the caller supplied into the request that goes to
//! the backend. Required arguments are always part of the request; an
//! optional argument is part of it only when the caller supplied one, and is
//! never sent as null. What the backend answers to the request is the result
//! of the command, unchanged: no handler looks into it.

use crate::json::{
    bool_value, empty_map, entries_of, json_of, map_insert, null_value, number_value,
    object_value, string_value, Json, JsonNumber,
};
use crate::request::{put, supplied, Arguments, Operation, OperationRequest, RequestModel};
use crate::session::{after_connect, SessionContext};
use serde_json::Value;
use vstd::prelude::*;

verus! {

/// The JSON string for a text that may be absent.
pub open spec fn text_model(value: Option<String>) -> Option<Json> {
    match value {
        Some(text) => Some(Json::String(text@)),
        None => None,
    }
}

/// The JSON boolean for a flag that may be absent.
pub open spec fn flag_model(value: Option<bool>) -> Option<Json> {
    match value {
        Some(flag) => Some(Json::Bool(flag)),
        None => None,
    }
}

/// The JSON integer for a number that may be absent.
pub open spec fn number_model(value: Option<u64>) -> Option<Json> {
    match value {
        Some(n) => Some(Json::Number(JsonNumber::Integer(n as int))),
        None => None,
    }
}

/// The arguments with `value` under `key`, or unchanged where `value` is
/// absent.
pub open spec fn put_supplied(args: Arguments, key: Seq<char>, value: Option<Json>) -> Arguments {
    match value {
        Some(value) => put(args, key, value),
        None => args,
    }
}

/// The request with the text `value` under `key`.
fn with_text(request: OperationRequest, key: &str, value: String) -> (r: OperationRequest)
    ensures
        r@.operation == request@.operation,
        r@.args == put(request@.args, key@, Json::String(value@)),
{
    request.with(String::from_str(key), string_value(value))
}

/// The request with the text `value` under `key`, if there is one.
fn with_optional_text(request: OperationRequest, key: &str, value: Option<String>) -> (r:
    OperationRequest)
    ensures
        r@.operation == request@.operation,
        r@.args == put_supplied(request@.args, key@, text_model(value)),
{
    match value {
        Some(text) => request.with(String::from_str(key), string_value(text)),
        None => request,
    }
}

/// The request with the flag `value` under `key`, if there is one.
fn with_optional_flag(request: OperationRequest, key: &str, value: Option<bool>) -> (r:
    OperationRequest)
    ensures
        r@.operation == request@.operation,
        r@.args == put_supplied(request@.args, key@, flag_model(value)),
{
    match value {
        Some(flag) => request.with(String::from_str(key), bool_value(flag)),
        None => request,
    }
}

/// The request with the number `value` under `key`, if there is one.
fn with_optional_number(request: OperationRequest, key: &str, value: Option<u64>) -> (r:
    OperationRequest)
    ensures
        r@.operation == request@.operation,
        r@.args == put_supplied(request@.args, key@, number_model(value)),
{
    match value {
        Some(n) => request.with(String::from_str(key), number_value(n)),
        None => request,
    }
}

/// The request that signs typed data.
pub open spec fn typed_signing_request(
    pin: Seq<char>,
    domain: Json,
    types: Json,
    primary_type: Seq<char>,
    message: Json,
    role: Option<Json>,
    transaction_id: Option<Json>,
) -> RequestModel {
    RequestModel {
        operation: Operation::SignTypedData,
        args: seq![
            ("pin"@, Json::String(pin)),
            ("domain"@, domain),
            ("types"@, types),
            ("primary_type"@, Json::String(primary_type)),
            ("message"@, message),
        ] + supplied("role"@, role) + supplied("transaction_id"@, transaction_id),
    }
}

/// Signs typed data: the domain, the type schema, the name of the primary
/// type and the message body, under the wallet's `pin`.
pub fn sign_typed_message(
    pin: String,
    domain: Value,
    types: Value,
    primary_type: String,
    message: Value,
    role: Option<String>,
    transaction_id: Option<String>,
) -> (r: OperationRequest)
    ensures
        r@ == typed_signing_request(
            pin@,
            json_of(domain),
            json_of(types),
            primary_type@,
            json_of(message),
            text_model(role),
            text_model(transaction_id),
        ),
{
    proof {
        lemma_key_lengths();
    }
    let r = OperationRequest::new(Operation::SignTypedData);
    let r = with_text(r, "pin", pin);
    let r = r.with(String::from_str("domain"), domain);
    let r = r.with(String::from_str("types"), types);
    let r = with_text(r, "primary_type", primary_type);
    let r = r.with(String::from_str("message"), message);
    let r = with_optional_text(r, "role", role);
    let r = with_optional_text(r, "transaction_id", transaction_id);
    assert(r@.args =~= typed_signing_request(
        pin@,
        json_of(domain),
        json_of(types),
        primary_type@,
        json_of(message),
        text_model(role),
        text_model(transaction_id),
    ).args);
    r
}

/// The request that signs a plain-text message.
pub open spec fn personal_signing_request(
    pin: Seq<char>,
    message: Seq<char>,
    role: Option<Json>,
    transaction_id: Option<Json>,
) -> RequestModel {
    RequestModel {
        operation: Operation::SignPersonalMessage,
        args: seq![("pin"@, Json::String(pin)), ("message"@, Json::String(message))] + supplied(
            "role"@,
            role,
        ) + supplied("transaction_id"@, transaction_id),
    }
}

/// Signs a plain-text message under the wallet's `pin`.
pub fn sign_personal_message(
    pin: String,
    message: String,
    role: Option<String>,
    transaction_id: Option<String>,
) -> (r: OperationRequest)
    ensures
        r@ == personal_signing_request(pin@, message@, text_model(role), text_model(transaction_id)),
{
    proof {
        lemma_key_lengths();
    }
    let r = OperationRequest::new(Operation::SignPersonalMessage);
    let r = with_text(r, "pin", pin);
    let r = with_text(r, "message", message);
    let r = with_optional_text(r, "role", role);
    let r = with_optional_text(r, "transaction_id", transaction_id);
    assert(r@.args =~= personal_signing_request(
        pin@,
        message@,
        text_model(role),
        text_model(transaction_id),
    ).args);
    r
}

/// The request that asks the decision model.
pub open spec fn decision_request(
    model_path: Seq<char>,
    user_prompt: Seq<char>,
    system_prompt: Option<Json>,
    is_chat: Option<Json>,
) -> RequestModel {
    RequestModel {
        operation: Operation::GenerateResponse,
        args: seq![
            ("model_path"@, Json::String(model_path)),
            ("user_prompt"@, Json::String(user_prompt)),
        ] + supplied("system_prompt"@, system_prompt) + supplied("is_chat"@, is_chat),
    }
}

/// Asks the decision model at `model_path` about `user_prompt`.
pub fn get_llm_response(
    model_path: String,
    user_prompt: String,
    system_prompt: Option<String>,
    is_chat: Option<bool>,
) -> (r: OperationRequest)
    ensures
        r@ == decision_request(
            model_path@,
            user_prompt@,
            text_model(system_prompt),
            flag_model(is_chat),
        ),
{
    proof {
        lemma_key_lengths();
    }
    let r = OperationRequest::new(Operation::GenerateResponse);
    let r = with_text(r, "model_path", model_path);
    let r = with_text(r, "user_prompt", user_prompt);
    let r = with_optional_text(r, "system_prompt", system_prompt);
    let r = with_optional_flag(r, "is_chat", is_chat);
    assert(r@.args =~= decision_request(
        model_path@,
        user_prompt@,
        text_model(system_prompt),
        flag_model(is_chat),
    ).args);
    r
}

/// What the caller found where the fetched file would be stored.
#[derive(Debug)]
pub enum FileProbe {
    /// No file of that name is there.
    Missing,
    /// A file of that name is there; `path` is its full path, if the path
    /// can be written as text.
    Found { path: Option<String> },
}

/// What a file fetch does next.
#[derive(Debug)]
pub enum FetchPlan {
    /// The file is there already: this is the answer, and the backend is not
    /// asked.
    AlreadyThere(Value),
    /// The file is not there: ask the backend.
    Fetch(OperationRequest),
}

/// The answer for a file that is there already.
pub open spec fn existing_file_reply(path: Option<Json>) -> Json {
    Json::Object(
        map![
            "status"@ => Json::String("exists"@),
            "message"@ => Json::String("File already exists. Skipping Python call."@),
            "path"@ => match path {
                Some(path) => path,
                None => Json::Null,
            },
        ],
    )
}

/// The request that fetches a file.
pub open spec fn fetch_request(filename: Seq<char>, file_save_location: Seq<char>) -> RequestModel {
    RequestModel {
        operation: Operation::GetFile,
        args: seq![
            ("filename"@, Json::String(filename)),
            ("file_save_location"@, Json::String(file_save_location)),
        ],
    }
}

/// Fetches the file `filename` into the directory `file_save_location`,
/// unless `probe` says that a file of that name is there already. No check
/// is made of what the file holds.
pub fn get_file(filename: String, file_save_location: String, probe: FileProbe) -> (r: FetchPlan)
    ensures
        match probe {
            FileProbe::Found { path } => r matches FetchPlan::AlreadyThere(reply) && json_of(reply)
                == existing_file_reply(text_model(path)),
            FileProbe::Missing => r matches FetchPlan::Fetch(request) && request@ == fetch_request(
                filename@,
                file_save_location@,
            ),
        },
{
    match probe {
        FileProbe::Found { path } => {
            let mut fields = empty_map();
            map_insert(&mut fields, String::from_str("status"), string_value(String::from_str("exists")));
            map_insert(
                &mut fields,
                String::from_str("message"),
                string_value(String::from_str("File already exists. Skipping Python call.")),
            );
            let shown = match path {
                Some(text) => string_value(text),
                None => null_value(),
            };
            map_insert(&mut fields, String::from_str("path"), shown);
            assert(Json::Object(entries_of(fields)) == existing_file_reply(text_model(path)));
            FetchPlan::AlreadyThere(object_value(fields))
        },
        FileProbe::Missing => {
            proof {
                lemma_key_lengths();
            }
            let r = OperationRequest::new(Operation::GetFile);
            let r = with_text(r, "filename", filename);
            let r = with_text(r, "file_save_location", file_save_location);
            assert(r@.args =~= fetch_request(filename@, file_save_location@).args);
            FetchPlan::Fetch(r)
        },
    }
}

/// Confirms a transaction that was signed before, with the hash and the
/// nonce it got on the chain where the caller supplies them.
pub fn confirm_transaction(
    pin: String,
    transaction_id: String,
    transaction_hash: Option<String>,
    nonce: Option<u64>,
) -> (r: OperationRequest)
    ensures
        r@.operation == Operation::ConfirmTransaction,
        r@.args == seq![
            ("pin"@, Json::String(pin@)),
            ("transaction_id"@, Json::String(transaction_id@)),
        ] + supplied("transaction_hash"@, text_model(transaction_hash)) + supplied(
            "nonce"@,
            number_model(nonce),
        ),
{
    proof {
        lemma_key_lengths();
    }
    let r = OperationRequest::new(Operation::ConfirmTransaction);
    let r = with_text(r, "pin", pin);
    let r = with_text(r, "transaction_id", transaction_id);
    let r = with_optional_text(r, "transaction_hash", transaction_hash);
    let r = with_optional_number(r, "nonce", nonce);
    assert(r@.args =~= seq![
        ("pin"@, Json::String(pin@)),
        ("transaction_id"@, Json::String(transaction_id@)),
    ] + supplied("transaction_hash"@, text_model(transaction_hash)) + supplied(
        "nonce"@,
        number_model(nonce),
    ));
    r
}

/// Opens the wallet under `pin`, or creates it where `new_wallet` says so.
pub fn init_wallet(pin: String, name: Option<String>, new_wallet: Option<bool>) -> (r:
    OperationRequest)
    ensures
        r@.operation == Operation::InitWallet,
        r@.args == seq![("pin"@, Json::String(pin@))] + supplied("name"@, text_model(name))
            + supplied("new_wallet"@, flag_model(new_wallet)),
{
    proof {
        lemma_key_lengths();
    }
    let r = OperationRequest::new(Operation::InitWallet);
    let r = with_text(r, "pin", pin);
    let r = with_optional_text(r, "name", name);
    let r = with_optional_flag(r, "new_wallet", new_wallet);
    assert(r@.args =~= seq![("pin"@, Json::String(pin@))] + supplied("name"@, text_model(name))
        + supplied("new_wallet"@, flag_model(new_wallet)));
    r
}

/// Asks for the public key, of the given role where the caller names one.
pub fn get_public_key(role: Option<String>) -> (r: OperationRequest)
    ensures
        r@.operation == Operation::GetPublicKey,
        r@.args == supplied("role"@, text_model(role)),
{
    let r = OperationRequest::new(Operation::GetPublicKey);
    let r = with_optional_text(r, "role", role);
    assert(r@.args =~= supplied("role"@, text_model(role)));
    r
}

/// Marks a transaction as failed.
pub fn fail_transaction(transaction_id: String) -> (r: OperationRequest)
    ensures
        r@.operation == Operation::FailTransaction,
        r@.args == seq![("transaction_id"@, Json::String(transaction_id@))],
{
    let r = OperationRequest::new(Operation::FailTransaction);
    let r = with_text(r, "transaction_id", transaction_id);
    assert(r@.args =~= seq![("transaction_id"@, Json::String(transaction_id@))]);
    r
}

/// Asks for one transaction.
pub fn get_transaction(transaction_id: String) -> (r: OperationRequest)
    ensures
        r@.operation == Operation::GetTransaction,
        r@.args == seq![("transaction_id"@, Json::String(transaction_id@))],
{
    let r = OperationRequest::new(Operation::GetTransaction);
    let r = with_text(r, "transaction_id", transaction_id);
    assert(r@.args =~= seq![("transaction_id"@, Json::String(transaction_id@))]);
    r
}

/// Selects `model_path` as the session context and connects the backend.
/// The context is set before the backend is asked, and stays set whatever
/// the backend answers.
pub fn connect(session: &mut SessionContext, model_path: String) -> (r: OperationRequest)
    ensures
        final(session)@ == after_connect(old(session)@, model_path@),
        r@.operation == Operation::Connect,
        r@.args == Arguments::empty(),
{
    session.set(model_path);
    OperationRequest::new(Operation::Connect)
}

/// Disconnects the backend. The session context stays as it is.
pub fn disconnect_usb() -> (r: OperationRequest)
    ensures
        r@.operation == Operation::DisconnectUsb,
        r@.args == Arguments::empty(),
{
    OperationRequest::new(Operation::DisconnectUsb)
}

/// Asks whether a wallet exists.
pub fn is_wallet_exists() -> (r: OperationRequest)
    ensures
        r@.operation == Operation::IsWalletExists,
        r@.args == Arguments::empty(),
{
    OperationRequest::new(Operation::IsWalletExists)
}

/// Asks for the wallet's name.
pub fn get_wallet_name() -> (r: OperationRequest)
    ensures
        r@.operation == Operation::GetWalletName,
        r@.args == Arguments::empty(),
{
    OperationRequest::new(Operation::GetWalletName)
}

/// Asks for all transactions.
pub fn get_all_transactions() -> (r: OperationRequest)
    ensures
        r@.operation == Operation::GetAllTransactions,
        r@.args == Arguments::empty(),
{
    OperationRequest::new(Operation::GetAllTransactions)
}

/// The lengths of the argument names. Names of different length are
/// different names, which is how the handlers know that no request of
/// theirs holds a key twice.
proof fn lemma_key_lengths()
    ensures
        "pin"@.len() == 3,
        "name"@.len() == 4,
        "new_wallet"@.len() == 10,
        "role"@.len() == 4,
        "message"@.len() == 7,
        "transaction_id"@.len() == 14,
        "domain"@.len() == 6,
        "types"@.len() == 5,
        "primary_type"@.len() == 12,
        "transaction_hash"@.len() == 16,
        "nonce"@.len() == 5,
        "filename"@.len() == 8,
        "file_save_location"@.len() == 18,
        "model_path"@.len() == 10,
        "user_prompt"@.len() == 11,
        "system_prompt"@.len() == 13,
        "is_chat"@.len() == 7,
{
    reveal_strlit("pin");
    reveal_strlit("name");
    reveal_strlit("new_wallet");
    reveal_strlit("role");
    reveal_strlit("message");
    reveal_strlit("transaction_id");
    reveal_strlit("domain");
    reveal_strlit("types");
    reveal_strlit("primary_type");
    reveal_strlit("transaction_hash");
    reveal_strlit("nonce");
    reveal_strlit("filename");
    reveal_strlit("file_save_location");
    reveal_strlit("model_path");
    reveal_strlit("user_prompt");
    reveal_strlit("system_prompt");
    reveal_strlit("is_chat");
}

} // verus!
