//! The binding of operations to an embedded interpreter.
//!
//! The interpreter takes each argument as JSON text, under the argument's
//! key, and gives its result back as JSON text. This module writes the
//! arguments and says where the interpreter's files are looked for; to call
//! the interpreter is left to the program around the library.

use crate::backend::{encode, reads_back, spells};
use crate::error::CommandError;
use crate::json::{json_of, json_text};
use crate::request::{Argument, OperationRequest};
use vstd::prelude::*;

verus! {

/// The platforms for which an interpreter is shipped.
#[derive(Debug, Clone, Copy, PartialEq, Eq)]
pub enum Platform {
    Windows,
    Linux,
    MacOs,
}

impl Platform {
    /// The name of the platform's folder among the shipped interpreters.
    pub open spec fn folder(self) -> Seq<char> {
        match self {
            Platform::Windows => "windows"@,
            Platform::Linux => "linux"@,
            Platform::MacOs => "macos"@,
        }
    }

    /// The name of the platform's folder among the shipped interpreters.
    pub fn runtime_folder(&self) -> (r: &'static str)
        ensures
            r@ == self.folder(),
    {
        match self {
            Platform::Windows => "windows",
            Platform::Linux => "linux",
            Platform::MacOs => "macos",
        }
    }
}

/// The module search path for the interpreter: its home, then the
/// directory of the client module, with a semicolon between them.
pub fn search_path(runtime_home: &str, client_dir: &str) -> (r: String)
    ensures
        r@ == runtime_home@ + ";"@ + client_dir@,
{
    let mut path = String::from_str(runtime_home);
    path.append(";");
    path.append(client_dir);
    path
}

/// One argument as the interpreter takes it: the key, and the value as
/// JSON text.
pub type Marshalled = (Seq<char>, Seq<char>);

/// The arguments as the interpreter takes them, or the message of the
/// first one, in order, whose value cannot be written as JSON text.
pub open spec fn marshalled(args: Seq<Argument>) -> Result<Seq<Marshalled>, Seq<char>>
    decreases args.len(),
{
    if args.len() == 0 {
        Ok(Seq::empty())
    } else {
        match marshalled(args.drop_last()) {
            Err(message) => Err(message),
            Ok(front) => match json_text(args.last().value) {
                Ok(text) => Ok(front.push((args.last().key@, text))),
                Err(message) => Err(message),
            },
        }
    }
}

/// The key and the text of each item.
pub open spec fn texts(list: Seq<(String, String)>) -> Seq<Marshalled> {
    list.map_values(|item: (String, String)| (item.0@, item.1@))
}

/// Writes each argument of `request` as JSON text, in the order of the
/// request.
pub fn marshal_arguments(request: &OperationRequest) -> (r: Result<
    Vec<(String, String)>,
    CommandError,
>)
    ensures
        match marshalled(request.held()) {
            Ok(written) => r matches Ok(list) && texts(list@) == written,
            Err(message) => r matches Err(CommandError::BackendInvocation(shown)) && shown@
                == message,
        },
{
    let args = request.arguments();
    let mut list: Vec<(String, String)> = Vec::new();
    let mut i: usize = 0;
    assert(args@.take(0) =~= Seq::<Argument>::empty());
    assert(texts(list@) =~= Seq::<Marshalled>::empty());
    while i < args.len()
        invariant
            i <= args.len(),
            args@ == request.held(),
            marshalled(args@.take(i as int)) matches Ok(written) && written == texts(list@),
        decreases args.len() - i,
    {
        let ghost next = args@.take(i + 1);
        let ghost before = texts(list@);
        proof {
            assert(next.drop_last() =~= args@.take(i as int));
            assert(next.last() == args@[i as int]);
        }
        match encode(&args[i].value) {
            Ok(text) => {
                list.push((args[i].key.clone(), text));
                assert(texts(list@) =~= before.push((args@[i as int].key@, text@)));
            },
            Err(e) => {
                proof {
                    lemma_failure_stays(args@, i + 1);
                }
                return Err(e);
            },
        }
        i += 1;
    }
    assert(args@.take(i as int) =~= args@);
    Ok(list)
}

/// Once an argument has failed, the arguments after it change nothing.
proof fn lemma_failure_stays(args: Seq<Argument>, n: int)
    requires
        0 <= n <= args.len(),
        marshalled(args.take(n)) is Err,
    ensures
        marshalled(args) == marshalled(args.take(n)),
    decreases args.len() - n,
{
    if n < args.len() {
        let next = args.take(n + 1);
        assert(next.drop_last() =~= args.take(n));
        lemma_failure_stays(args, n + 1);
    } else {
        assert(args.take(n) =~= args);
    }
}

/// The interpreter is handed the arguments of the request and nothing else.
/// Where every value reads back, the arguments are written without failure;
/// there is one entry for each argument, in the order of the request and
/// under the argument's key; and the text of each entry spells the
/// argument's value.
pub proof fn lemma_arguments_arrive_whole(args: Seq<Argument>)
    requires
        forall|i: int| 0 <= i < args.len() ==> reads_back((#[trigger] args[i]).value),
    ensures
        marshalled(args) matches Ok(list) && list.len() == args.len() && forall|i: int|
            0 <= i < args.len() ==> (#[trigger] list[i]).0 == args[i].key@ && spells(
                list[i].1,
                json_of(args[i].value),
            ),
    decreases args.len(),
{
    if args.len() > 0 {
        let front = args.drop_last();
        assert forall|i: int| 0 <= i < front.len() implies reads_back(
            (#[trigger] front[i]).value,
        ) by {
            assert(front[i] == args[i]);
        }
        lemma_arguments_arrive_whole(front);
        assert(reads_back(args[args.len() - 1].value));
        let list = marshalled(args)->Ok_0;
        let before = marshalled(front)->Ok_0;
        assert forall|i: int| 0 <= i < args.len() implies (#[trigger] list[i]).0 == args[i].key@
            && spells(list[i].1, json_of(args[i].value)) by {
            if i < args.len() - 1 {
                assert(list[i] == before[i]);
                assert(front[i] == args[i]);
            }
        }
    }
}

} // verus!
