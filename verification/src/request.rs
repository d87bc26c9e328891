//! Operation requests: the name of a backend operation and its named
//! arguments.
//!
//! A request keeps its arguments in the order they were given and never
//! holds a key twice: [`OperationRequest::with`] replaces the value of a key
//! that is already there.

use crate::json::{empty_map, entries_of, json_of, map_insert, object_value, Fields, Json};
use serde_json::Value;
use vstd::prelude::*;

verus! {

/// The operations a backend offers.
#[derive(Debug, Clone, Copy, PartialEq, Eq)]
pub enum Operation {
    Connect,
    DisconnectUsb,
    IsWalletExists,
    InitWallet,
    GetWalletName,
    GetPublicKey,
    SignPersonalMessage,
    SignTypedData,
    ConfirmTransaction,
    FailTransaction,
    GetTransaction,
    GetAllTransactions,
    GetFile,
    GenerateResponse,
}

impl Operation {
    /// The name under which the backend knows the operation.
    pub open spec fn name(self) -> Seq<char> {
        match self {
            Operation::Connect => "connect"@,
            Operation::DisconnectUsb => "disconnect_usb"@,
            Operation::IsWalletExists => "is_wallet_exists"@,
            Operation::InitWallet => "init_wallet"@,
            Operation::GetWalletName => "get_wallet_name"@,
            Operation::GetPublicKey => "get_public_key"@,
            Operation::SignPersonalMessage => "sign_personal_message"@,
            Operation::SignTypedData => "sign_typed_data"@,
            Operation::ConfirmTransaction => "confirm_transaction"@,
            Operation::FailTransaction => "fail_transaction"@,
            Operation::GetTransaction => "get_transaction"@,
            Operation::GetAllTransactions => "get_all_transactions"@,
            Operation::GetFile => "get_file"@,
            Operation::GenerateResponse => "generate_response"@,
        }
    }

    /// The name under which the backend knows the operation.
    pub fn label(&self) -> (r: &'static str)
        ensures
            r@ == self.name(),
    {
        match self {
            Operation::Connect => "connect",
            Operation::DisconnectUsb => "disconnect_usb",
            Operation::IsWalletExists => "is_wallet_exists",
            Operation::InitWallet => "init_wallet",
            Operation::GetWalletName => "get_wallet_name",
            Operation::GetPublicKey => "get_public_key",
            Operation::SignPersonalMessage => "sign_personal_message",
            Operation::SignTypedData => "sign_typed_data",
            Operation::ConfirmTransaction => "confirm_transaction",
            Operation::FailTransaction => "fail_transaction",
            Operation::GetTransaction => "get_transaction",
            Operation::GetAllTransactions => "get_all_transactions",
            Operation::GetFile => "get_file",
            Operation::GenerateResponse => "generate_response",
        }
    }
}

/// Named arguments in the order given: each a key and the model of its
/// value.
pub type Arguments = Seq<(Seq<char>, Json)>;

/// Whether some argument has the key `key`.
pub open spec fn has_key(args: Arguments, key: Seq<char>) -> bool {
    exists|i: int| 0 <= i < args.len() && (#[trigger] args[i]).0 == key
}

/// Whether no two arguments share a key.
pub open spec fn keys_distinct(args: Arguments) -> bool {
    forall|i: int, j: int|
        0 <= i < j < args.len() ==> (#[trigger] args[i]).0 != (#[trigger] args[j]).0
}

/// The arguments after `key` has been given `value`: the value is replaced
/// in place where the key is there already, and added at the end where it
/// is not.
pub open spec fn put(args: Arguments, key: Seq<char>, value: Json) -> Arguments {
    if has_key(args, key) {
        args.update(choose|i: int| 0 <= i < args.len() && (#[trigger] args[i]).0 == key, (key, value))
    } else {
        args.push((key, value))
    }
}

/// No argument where `value` is absent, one argument under `key` where it
/// is there.
pub open spec fn supplied(key: Seq<char>, value: Option<Json>) -> Arguments {
    match value {
        Some(value) => seq![(key, value)],
        None => Seq::empty(),
    }
}

/// The arguments as the fields of a JSON object. Where a key occurs more
/// than once, the last occurrence gives the value.
pub open spec fn as_fields(args: Arguments) -> Fields
    decreases args.len(),
{
    if args.len() == 0 {
        Map::empty()
    } else {
        as_fields(args.drop_last()).insert(args.last().0, args.last().1)
    }
}

/// What a request says: the operation and its arguments.
#[verifier::ext_equal]
pub struct RequestModel {
    pub operation: Operation,
    pub args: Arguments,
}

/// One named argument.
#[derive(Debug, Clone, PartialEq)]
pub struct Argument {
    pub key: String,
    pub value: Value,
}

impl View for Argument {
    type V = (Seq<char>, Json);

    open spec fn view(&self) -> (Seq<char>, Json) {
        (self.key@, json_of(self.value))
    }
}

/// An operation with its named arguments, no key twice.
#[derive(Debug)]
pub struct OperationRequest {
    operation: Operation,
    args: Vec<Argument>,
}

impl View for OperationRequest {
    type V = RequestModel;

    open spec fn view(&self) -> RequestModel {
        RequestModel { operation: self.named(), args: models(self.held()) }
    }
}

/// The arguments held, each by its model.
pub open spec fn models(args: Seq<Argument>) -> Arguments {
    args.map_values(|a: Argument| a@)
}

impl OperationRequest {
    /// The operation asked for.
    pub closed spec fn named(&self) -> Operation {
        self.operation
    }

    /// The arguments held, in the order given.
    pub closed spec fn held(&self) -> Seq<Argument> {
        self.args@
    }

    #[verifier::type_invariant]
    spec fn well_formed(self) -> bool {
        keys_distinct(self@.args)
    }

    /// A request for `operation` without arguments.
    pub fn new(operation: Operation) -> (r: Self)
        ensures
            r@.operation == operation,
            r@.args == Arguments::empty(),
    {
        let args: Vec<Argument> = Vec::new();
        assert(models(args@) =~= Arguments::empty());
        OperationRequest { operation, args }
    }

    /// Where the argument named `key` stands, if there is one.
    pub fn position(&self, key: &String) -> (r: Option<usize>)
        ensures
            keys_distinct(self@.args),
            match r {
                Some(i) => i < self@.args.len() && self@.args[i as int].0 == key@,
                None => !has_key(self@.args, key@),
            },
    {
        proof {
            use_type_invariant(self);
        }
        let mut i: usize = 0;
        while i < self.args.len()
            invariant
                i <= self.args.len(),
                keys_distinct(self@.args),
                forall|j: int| 0 <= j < i ==> (#[trigger] self@.args[j]).0 != key@,
            decreases self.args.len() - i,
        {
            if self.args[i].key == *key {
                return Some(i);
            }
            i += 1;
        }
        None
    }

    /// The request with `key` given the value `value`: in place where the
    /// request has the key already, at the end where it has not.
    pub fn with(self, key: String, value: Value) -> (r: Self)
        ensures
            r@.operation == self@.operation,
            r@.args == put(self@.args, key@, json_of(value)),
            keys_distinct(r@.args),
    {
        proof {
            use_type_invariant(&self);
        }
        let ghost before = self@.args;
        let found = self.position(&key);
        let operation = self.operation;
        let mut args = self.args;
        match found {
            Some(i) => {
                let ghost chosen = choose|j: int|
                    0 <= j < before.len() && (#[trigger] before[j]).0 == key@;
                assert(chosen == i);
                args[i] = Argument { key, value };
                assert(models(args@) =~= before.update(i as int, (key@, json_of(value))));
                OperationRequest { operation, args }
            },
            None => {
                args.push(Argument { key, value });
                assert(models(args@) =~= before.push((key@, json_of(value))));
                OperationRequest { operation, args }
            },
        }
    }
}

impl OperationRequest {
    /// The operation asked for.
    pub fn operation(&self) -> (r: Operation)
        ensures
            r == self@.operation,
    {
        self.operation
    }

    /// The arguments in the order given.
    pub fn arguments(&self) -> (r: &Vec<Argument>)
        ensures
            r@ == self.held(),
            keys_distinct(self@.args),
    {
        proof {
            use_type_invariant(self);
        }
        &self.args
    }

    /// The value given to `key`, if the request has the key.
    pub fn get(&self, key: &String) -> (r: Option<&Value>)
        ensures
            match r {
                Some(value) => Json::Object(as_fields(self@.args)).field(key@) == Some(
                    json_of(*value),
                ),
                None => Json::Object(as_fields(self@.args)).field(key@) is None,
            },
    {
        proof {
            use_type_invariant(self);
            lemma_fields_of_distinct_keys(self@.args);
        }
        match self.position(key) {
            Some(i) => Some(&self.args[i].value),
            None => None,
        }
    }

    /// The arguments as one JSON object, a field for each.
    pub fn to_object(&self) -> (r: Value)
        ensures
            json_of(r) == Json::Object(as_fields(self@.args)),
    {
        let mut fields = empty_map();
        let mut i: usize = 0;
        assert(self@.args.take(0) =~= Arguments::empty());
        while i < self.args.len()
            invariant
                i <= self.args.len(),
                entries_of(fields) == as_fields(self@.args.take(i as int)),
            decreases self.args.len() - i,
        {
            let argument = &self.args[i];
            map_insert(&mut fields, argument.key.clone(), argument.value.clone());
            proof {
                let next = self@.args.take(i + 1);
                assert(next.drop_last() =~= self@.args.take(i as int));
                assert(next.last() == self@.args[i as int]);
            }
            i += 1;
        }
        assert(self@.args.take(i as int) =~= self@.args);
        object_value(fields)
    }

    /// The arguments as one JSON object, but for the one named `key`.
    pub fn to_object_without(&self, key: &String) -> (r: Value)
        ensures
            json_of(r) == Json::Object(as_fields(self@.args).remove(key@)),
    {
        let mut fields = empty_map();
        let mut i: usize = 0;
        assert(self@.args.take(0) =~= Arguments::empty());
        assert(Fields::empty().remove(key@) =~= Fields::empty());
        while i < self.args.len()
            invariant
                i <= self.args.len(),
                entries_of(fields) == as_fields(self@.args.take(i as int)).remove(key@),
            decreases self.args.len() - i,
        {
            let argument = &self.args[i];
            let ghost earlier = as_fields(self@.args.take(i as int));
            proof {
                let next = self@.args.take(i + 1);
                assert(next.drop_last() =~= self@.args.take(i as int));
                assert(next.last() == self@.args[i as int]);
            }
            if argument.key == *key {
                assert(earlier.insert(key@, argument@.1).remove(key@) =~= earlier.remove(key@));
            } else {
                map_insert(&mut fields, argument.key.clone(), argument.value.clone());
                assert(earlier.insert(argument@.0, argument@.1).remove(key@) =~= earlier.remove(
                    key@,
                ).insert(argument@.0, argument@.1));
            }
            i += 1;
        }
        assert(self@.args.take(i as int) =~= self@.args);
        object_value(fields)
    }
}

/// Arguments with distinct keys lose nothing when they become the fields of
/// an object: the object has a field for each argument, with the argument's
/// value, and no field besides.
pub proof fn lemma_fields_of_distinct_keys(args: Arguments)
    requires
        keys_distinct(args),
    ensures
        forall|i: int|
            0 <= i < args.len() ==> as_fields(args).contains_key((#[trigger] args[i]).0)
                && as_fields(args)[args[i].0] == args[i].1,
        forall|key: Seq<char>| #[trigger] as_fields(args).contains_key(key) ==> has_key(args, key),
    decreases args.len(),
{
    if args.len() > 0 {
        let front = args.drop_last();
        lemma_fields_of_distinct_keys(front);
        assert forall|i: int| 0 <= i < args.len() implies as_fields(args).contains_key(
            (#[trigger] args[i]).0,
        ) && as_fields(args)[args[i].0] == args[i].1 by {
            if i < args.len() - 1 {
                assert(front[i] == args[i]);
                assert(args[i].0 != args.last().0);
            }
        }
        assert forall|key: Seq<char>| #[trigger]
            as_fields(args).contains_key(key) implies has_key(args, key) by {
            if key == args.last().0 {
                assert(args[args.len() - 1].0 == key);
            } else {
                assert(as_fields(front).contains_key(key));
                let i = choose|i: int| 0 <= i < front.len() && (#[trigger] front[i]).0 == key;
                assert(args[i].0 == key);
            }
        }
    }
}

} // verus!
