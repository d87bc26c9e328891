//! The binding of operations to a local HTTP service.
//!
//! Pure reads are `GET` requests without a body; everything else is a `POST`
//! whose body is the JSON object of the arguments. An operation on one
//! transaction names the transaction in the path, not in the body. An
//! optional argument that the caller left out is left out of the body too.

use crate::backend::{decode, encode, reads_back};
use crate::error::CommandError;
use crate::json::{as_str, json_of, json_parse, json_text, Json};
use crate::request::{
    as_fields, has_key, keys_distinct, lemma_fields_of_distinct_keys, Operation, OperationRequest,
    RequestModel,
};
use serde_json::Value;
use vstd::prelude::*;

verus! {

/// The HTTP method of a request.
#[derive(Debug, Clone, Copy, PartialEq, Eq)]
pub enum HttpMethod {
    Get,
    Post,
}

/// An HTTP request to the service, relative to its base address.
#[derive(Debug)]
pub struct HttpRequest {
    pub method: HttpMethod,
    pub path: String,
    /// The JSON body; a `GET` has none.
    pub body: Option<Value>,
}

/// What an HTTP request says.
#[verifier::ext_equal]
pub struct HttpModel {
    pub method: HttpMethod,
    pub path: Seq<char>,
    pub body: Option<Json>,
}

impl View for HttpRequest {
    type V = HttpModel;

    open spec fn view(&self) -> HttpModel {
        HttpModel {
            method: self.method,
            path: self.path@,
            body: match self.body {
                Some(body) => Some(json_of(body)),
                None => None,
            },
        }
    }
}

/// Whether the operation only reads.
pub open spec fn is_read(operation: Operation) -> bool {
    operation == Operation::IsWalletExists || operation == Operation::GetWalletName || operation
        == Operation::GetPublicKey || operation == Operation::GetTransaction || operation
        == Operation::GetAllTransactions
}

/// The argument that the operation's path names, if it names one.
pub open spec fn path_argument(operation: Operation) -> Option<&'static str> {
    match operation {
        Operation::GetPublicKey => Some("role"),
        Operation::ConfirmTransaction => Some("transaction_id"),
        Operation::FailTransaction => Some("transaction_id"),
        Operation::GetTransaction => Some("transaction_id"),
        _ => None,
    }
}

/// The path of the operation, before the argument that it may name.
pub open spec fn path_stem(operation: Operation) -> Seq<char> {
    match operation {
        Operation::GetPublicKey => "/public_key"@,
        Operation::SignTypedData => "/sign_typed_message"@,
        _ => "/"@ + operation.name(),
    }
}

/// The HTTP request for `request`, or the argument that keeps it from
/// having one.
///
/// The path is the operation's stem, followed by `/` and the text of the
/// argument that the path names. The role of a public key may be absent,
/// and the path is then the stem alone; a transaction identifier may not.
/// A read has no body. The body of any other operation holds every argument
/// but the one in the path.
pub open spec fn bind_spec(request: RequestModel) -> Result<HttpModel, CommandError> {
    let fields = as_fields(request.args);
    let method = if is_read(request.operation) {
        HttpMethod::Get
    } else {
        HttpMethod::Post
    };
    let stem = path_stem(request.operation);
    match path_argument(request.operation) {
        None => Ok(
            HttpModel {
                method,
                path: stem,
                body: if is_read(request.operation) {
                    None
                } else {
                    Some(Json::Object(fields))
                },
            },
        ),
        Some(name) => match Json::Object(fields).field(name@) {
            Some(Json::String(text)) => Ok(
                HttpModel {
                    method,
                    path: stem + "/"@ + text,
                    body: if is_read(request.operation) {
                        None
                    } else {
                        Some(Json::Object(fields.remove(name@)))
                    },
                },
            ),
            Some(_) => Err(CommandError::InvalidArgument(name)),
            None => if request.operation == Operation::GetPublicKey {
                Ok(HttpModel { method, path: stem, body: None })
            } else {
                Err(CommandError::InvalidArgument(name))
            },
        },
    }
}

/// Whether the operation only reads.
fn is_read_operation(operation: Operation) -> (r: bool)
    ensures
        r == is_read(operation),
{
    match operation {
        Operation::IsWalletExists => true,
        Operation::GetWalletName => true,
        Operation::GetPublicKey => true,
        Operation::GetTransaction => true,
        Operation::GetAllTransactions => true,
        _ => false,
    }
}

/// The argument that the operation's path names, if it names one.
fn path_argument_of(operation: Operation) -> (r: Option<&'static str>)
    ensures
        r == path_argument(operation),
{
    match operation {
        Operation::GetPublicKey => Some("role"),
        Operation::ConfirmTransaction => Some("transaction_id"),
        Operation::FailTransaction => Some("transaction_id"),
        Operation::GetTransaction => Some("transaction_id"),
        _ => None,
    }
}

/// The path of the operation, before the argument that it may name.
fn path_stem_of(operation: Operation) -> (r: String)
    ensures
        r@ == path_stem(operation),
{
    match operation {
        Operation::GetPublicKey => String::from_str("/public_key"),
        Operation::SignTypedData => String::from_str("/sign_typed_message"),
        _ => {
            let mut stem = String::from_str("/");
            stem.append(operation.label());
            stem
        },
    }
}

/// The HTTP request that carries `request` to the service.
pub fn bind(request: &OperationRequest) -> (r: Result<HttpRequest, CommandError>)
    ensures
        match bind_spec(request@) {
            Ok(http) => r matches Ok(bound) && bound@ == http,
            Err(e) => r matches Err(failure) && failure == e,
        },
{
    let operation = request.operation();
    let read = is_read_operation(operation);
    let method = if read {
        HttpMethod::Get
    } else {
        HttpMethod::Post
    };
    let mut path = path_stem_of(operation);
    match path_argument_of(operation) {
        None => {
            let body = if read {
                None
            } else {
                Some(request.to_object())
            };
            Ok(HttpRequest { method, path, body })
        },
        Some(name) => {
            let key = String::from_str(name);
            match request.get(&key) {
                Some(value) => match as_str(value) {
                    Some(text) => {
                        path.append("/");
                        path.append(text);
                        let body = if read {
                            None
                        } else {
                            Some(request.to_object_without(&key))
                        };
                        Ok(HttpRequest { method, path, body })
                    },
                    None => Err(CommandError::InvalidArgument(name)),
                },
                None => match operation {
                    Operation::GetPublicKey => Ok(HttpRequest { method, path, body: None }),
                    _ => Err(CommandError::InvalidArgument(name)),
                },
            }
        },
    }
}

impl HttpRequest {
    /// The body as it goes over the wire: compact JSON text. A request
    /// without a body has none.
    pub fn body_text(&self) -> (r: Result<Option<String>, CommandError>)
        ensures
            match self.body {
                None => r matches Ok(None),
                Some(body) => match json_text(body) {
                    Ok(text) => r matches Ok(Some(written)) && written@ == text,
                    Err(message) => r matches Err(CommandError::BackendInvocation(shown))
                        && shown@ == message,
                },
            },
    {
        match &self.body {
            None => Ok(None),
            Some(body) => match encode(body) {
                Ok(text) => Ok(Some(text)),
                Err(e) => Err(e),
            },
        }
    }
}

/// Whether the status code says that the service did what was asked.
pub open spec fn is_success(status: u16) -> bool {
    200 <= status < 300
}

/// The result of a call from what the service answered: the JSON value of
/// the body where the status is a success and the body is JSON. Any other
/// status is a failure of the backend with the body as its message; a body
/// that is no JSON is a failure with the message of the JSON library.
pub fn read_response(status: u16, body: &str) -> (r: Result<Value, CommandError>)
    ensures
        if is_success(status) {
            match json_parse(body@) {
                Ok(read) => r matches Ok(value) && json_of(value) == read,
                Err(message) => r matches Err(CommandError::BackendInvocation(shown)) && shown@
                    == message,
            }
        } else {
            r matches Err(CommandError::BackendInvocation(shown)) && shown@ == body@
        },
{
    if 200 <= status && status < 300 {
        decode(body)
    } else {
        Err(CommandError::BackendInvocation(String::from_str(body)))
    }
}

/// The body of a request holds the arguments and nothing else: each
/// argument but the one that the path names is a field of the body, under
/// its key and with its value, and every field of the body is such an
/// argument.
pub proof fn lemma_body_holds_the_arguments(request: RequestModel)
    requires
        keys_distinct(request.args),
        bind_spec(request) matches Ok(http) && http.body is Some,
    ensures
        bind_spec(request) matches Ok(http) && http.body matches Some(Json::Object(fields)) && {
            let in_path = |key: Seq<char>|
                path_argument(request.operation) matches Some(name) && name@ == key;
            &&& forall|i: int|
                0 <= i < request.args.len() && !in_path((#[trigger] request.args[i]).0)
                    ==> fields.contains_key(request.args[i].0) && fields[request.args[i].0]
                    == request.args[i].1
            &&& forall|key: Seq<char>| #[trigger]
                fields.contains_key(key) ==> has_key(request.args, key) && !in_path(key)
        },
{
    lemma_fields_of_distinct_keys(request.args);
}

/// The service is sent the arguments of the request and nothing else. Where
/// the body reads back, what the service reads is an object that holds each
/// argument but the one that the path names, under its key and with its
/// value, and no field besides.
pub proof fn lemma_body_arrives_whole(request: RequestModel, body: Value)
    requires
        keys_distinct(request.args),
        bind_spec(request) matches Ok(http) && http.body == Some(json_of(body)),
        reads_back(body),
    ensures
        json_text(body) matches Ok(text) && json_parse(text) matches Ok(Json::Object(fields)) && {
            let in_path = |key: Seq<char>|
                path_argument(request.operation) matches Some(name) && name@ == key;
            &&& forall|i: int|
                0 <= i < request.args.len() && !in_path((#[trigger] request.args[i]).0)
                    ==> fields.contains_key(request.args[i].0) && fields[request.args[i].0]
                    == request.args[i].1
            &&& forall|key: Seq<char>| #[trigger]
                fields.contains_key(key) ==> has_key(request.args, key) && !in_path(key)
        },
{
    lemma_body_holds_the_arguments(request);
}

} // verus!
