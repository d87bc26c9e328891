//! The gated signing workflow: sign only after the decision subsystem has
//! said yes.
//!
//! One run of the workflow asks the backend at most twice. First the
//! decision model is asked, with the handle of the session context. Its
//! answer must be an object with a boolean field `decision`. On `false` the
//! answer is the result and nothing is signed. On `true` the signing request
//! goes out, tagged with the role of the automated decision, and the fields
//! of the signing result are laid over the decision result. A signing
//! result that is no object is an error, as a failed signing is: a run that
//! was to sign never ends well without a signing result.
//!
//! The workflow is a state machine. [`step`] takes the state and the
//! backend's reply and says what to do next; the program around the library
//! carries the requests to the backend and the replies back.

use crate::error::{CommandError, PayloadField};
use crate::handlers::{
    decision_request, get_llm_response, personal_signing_request, sign_personal_message,
    sign_typed_message, typed_signing_request,
};
use crate::json::{
    as_bool, as_object, as_object_mut, bool_value, empty_map, get_field, json_of, map_extend,
    map_insert, object_value, Json,
};
use crate::request::{OperationRequest, RequestModel};
use crate::session::{required, SessionContext};
use serde_json::Value;
use vstd::prelude::*;

verus! {

/// The role under which a gated signature is attributed.
pub open spec fn decision_role() -> Seq<char> {
    "automated-decision"@
}

/// What is to be signed if the decision is yes.
#[derive(Debug)]
#[allow(inconsistent_fields)]
pub enum SigningPayload {
    /// Typed data. A caller who expects a refusal may leave out the domain,
    /// the type schema or the message body.
    Typed {
        pin: String,
        domain: Option<Value>,
        types: Option<Value>,
        primary_type: String,
        message: Option<Value>,
        transaction_id: String,
    },
    /// A plain-text message.
    Personal { pin: String, message: String, transaction_id: String },
}

impl SigningPayload {
    /// The first part of the payload that signing needs and the caller left
    /// out, in the order domain, types, message.
    pub open spec fn missing(self) -> Option<PayloadField> {
        match self {
            SigningPayload::Typed { domain, types, message, .. } => if domain is None {
                Some(PayloadField::Domain)
            } else if types is None {
                Some(PayloadField::Types)
            } else if message is None {
                Some(PayloadField::Message)
            } else {
                None
            },
            SigningPayload::Personal { .. } => None,
        }
    }

    /// The signing request for a complete payload: that of the plain
    /// handler, with the role of the automated decision and the caller's
    /// transaction identifier.
    pub open spec fn signing_request(self) -> RequestModel {
        match self {
            SigningPayload::Typed { pin, domain, types, primary_type, message, transaction_id } => {
                typed_signing_request(
                    pin@,
                    json_of(domain->0),
                    json_of(types->0),
                    primary_type@,
                    json_of(message->0),
                    Some(Json::String(decision_role())),
                    Some(Json::String(transaction_id@)),
                )
            },
            SigningPayload::Personal { pin, message, transaction_id } => personal_signing_request(
                pin@,
                message@,
                Some(Json::String(decision_role())),
                Some(Json::String(transaction_id@)),
            ),
        }
    }
}

/// What a decision result means for a payload.
pub enum Verdict {
    /// The result has no boolean field `decision`.
    Malformed,
    /// The decision is no.
    Rejected,
    /// The decision is yes, and this part of the payload is absent.
    Incomplete(PayloadField),
    /// The decision is yes: this request goes to the backend.
    Sign(RequestModel),
}

/// Reads the decision result `decision` for `payload`.
pub open spec fn verdict(payload: SigningPayload, decision: Json) -> Verdict {
    match decision.field("decision"@) {
        Some(Json::Bool(false)) => Verdict::Rejected,
        Some(Json::Bool(true)) => match payload.missing() {
            Some(field) => Verdict::Incomplete(field),
            None => Verdict::Sign(payload.signing_request()),
        },
        _ => Verdict::Malformed,
    }
}

/// The decision result with the fields of the signing result laid over it:
/// where both have a key, the signing result's value stands. Both have to
/// be objects; there is no merged result where either is anything else.
pub open spec fn merged(decision: Json, signing: Json) -> Option<Json> {
    match (decision, signing) {
        (Json::Object(decided), Json::Object(signed)) => Some(
            Json::Object(decided.union_prefer_right(signed)),
        ),
        _ => None,
    }
}

/// Lays the fields of `signing` over `decision`. A decision result or a
/// signing result that is no object is an error: the decision result alone
/// never stands for a signature.
pub fn merge_results(decision: Value, signing: &Value) -> (r: Result<Value, CommandError>)
    ensures
        match merged(json_of(decision), json_of(*signing)) {
            Some(both) => r matches Ok(result) && json_of(result) == both,
            None => r matches Err(e) && e == CommandError::ResponseShape,
        },
{
    let signed = match as_object(signing) {
        Some(fields) => fields.clone(),
        None => {
            return Err(CommandError::ResponseShape);
        },
    };
    let mut decision = decision;
    match as_object_mut(&mut decision) {
        None => Err(CommandError::ResponseShape),
        Some(fields) => {
            map_extend(fields, signed);
            Ok(decision)
        },
    }
}

/// Where a run of the workflow stands while the backend works.
#[derive(Debug)]
pub enum GateState {
    /// The decision model has been asked; the payload waits for its answer.
    Deciding(SigningPayload),
    /// The decision was yes and the signing request is out; holds the
    /// decision result.
    Signing(Value),
}

/// What the workflow does next.
#[derive(Debug)]
pub enum GateAction {
    /// Send the request to the backend, and come back in the given state
    /// with its reply.
    Invoke(GateState, OperationRequest),
    /// The run is over with this result.
    Finish(Result<Value, CommandError>),
}

/// Whether `action` is what the workflow does in `state` on `reply`.
///
/// A failed reply ends the run with that failure, in either state. In the
/// deciding state the reply is the decision result, and [`verdict`] says
/// what follows. In the signing state the reply is the signing result, and
/// the run ends with the [`merged`] result.
pub open spec fn step_spec(
    state: GateState,
    reply: Result<Value, CommandError>,
    action: GateAction,
) -> bool {
    match reply {
        Err(failure) => action matches GateAction::Finish(Err(e)) && e == failure,
        Ok(answer) => match state {
            GateState::Deciding(payload) => match verdict(payload, json_of(answer)) {
                Verdict::Malformed => action matches GateAction::Finish(Err(e)) && e
                    == CommandError::MalformedDecisionResult,
                Verdict::Rejected => action matches GateAction::Finish(Ok(result)) && json_of(
                    result,
                ) == json_of(answer),
                Verdict::Incomplete(field) => action matches GateAction::Finish(Err(e)) && e
                    == CommandError::MissingSigningPayload(field),
                Verdict::Sign(request) => action matches GateAction::Invoke(
                    GateState::Signing(kept),
                    sent,
                ) && json_of(kept) == json_of(answer) && sent@ == request,
            },
            GateState::Signing(decision) => match merged(json_of(decision), json_of(answer)) {
                Some(both) => action matches GateAction::Finish(Ok(result)) && json_of(result)
                    == both,
                None => action matches GateAction::Finish(Err(e)) && e
                    == CommandError::ResponseShape,
            },
        },
    }
}

/// Takes the workflow one step further on the backend's `reply`.
pub fn step(state: GateState, reply: Result<Value, CommandError>) -> (r: GateAction)
    ensures
        step_spec(state, reply, r),
{
    let answer = match reply {
        Ok(answer) => answer,
        Err(failure) => {
            return GateAction::Finish(Err(failure));
        },
    };
    match state {
        GateState::Deciding(payload) => {
            let decision = match get_field(&answer, "decision") {
                Some(flag) => as_bool(flag),
                None => None,
            };
            match decision {
                None => GateAction::Finish(Err(CommandError::MalformedDecisionResult)),
                Some(false) => GateAction::Finish(Ok(answer)),
                Some(true) => match signing_request(payload) {
                    Ok(request) => GateAction::Invoke(GateState::Signing(answer), request),
                    Err(field) => GateAction::Finish(
                        Err(CommandError::MissingSigningPayload(field)),
                    ),
                },
            }
        },
        GateState::Signing(decision) => GateAction::Finish(merge_results(decision, &answer)),
    }
}

/// The signing request for `payload`, or the first part of the payload that
/// is absent.
pub fn signing_request(payload: SigningPayload) -> (r: Result<OperationRequest, PayloadField>)
    ensures
        match r {
            Ok(request) => payload.missing() is None && request@ == payload.signing_request(),
            Err(field) => payload.missing() == Some(field),
        },
{
    match payload {
        SigningPayload::Typed { pin, domain, types, primary_type, message, transaction_id } => {
            let domain = match domain {
                Some(domain) => domain,
                None => {
                    return Err(PayloadField::Domain);
                },
            };
            let types = match types {
                Some(types) => types,
                None => {
                    return Err(PayloadField::Types);
                },
            };
            let message = match message {
                Some(message) => message,
                None => {
                    return Err(PayloadField::Message);
                },
            };
            Ok(
                sign_typed_message(
                    pin,
                    domain,
                    types,
                    primary_type,
                    message,
                    Some(String::from_str("automated-decision")),
                    Some(transaction_id),
                ),
            )
        },
        SigningPayload::Personal { pin, message, transaction_id } => Ok(
            sign_personal_message(
                pin,
                message,
                Some(String::from_str("automated-decision")),
                Some(transaction_id),
            ),
        ),
    }
}

/// Starts a run of the workflow: the query for the decision model, and the
/// state in which to wait for its answer. The query names the handle of the
/// session context; without one the run does not start, and no `connect` is
/// made on the caller's behalf.
pub fn start(session: &SessionContext, user_prompt: String, payload: SigningPayload) -> (r: Result<
    (GateState, OperationRequest),
    CommandError,
>)
    ensures
        match required(session@) {
            Ok(handle) => r matches Ok((state, query)) && state == GateState::Deciding(payload)
                && query@ == decision_request(
                handle,
                user_prompt@,
                Some(Json::String(""@)),
                Some(Json::Bool(false)),
            ),
            Err(e) => r matches Err(failure) && failure == e,
        },
{
    let handle = session.require()?;
    let query = get_llm_response(handle, user_prompt, Some(String::from_str("")), Some(false));
    Ok((GateState::Deciding(payload), query))
}

/// Starts the gated signing of typed data.
pub fn llm_sign_typed_message(
    session: &SessionContext,
    pin: String,
    domain: Option<Value>,
    types: Option<Value>,
    primary_type: String,
    message: Option<Value>,
    transaction_id: String,
    user_prompt: String,
) -> (r: Result<(GateState, OperationRequest), CommandError>)
    ensures
        match required(session@) {
            Ok(handle) => r matches Ok((state, query)) && state == GateState::Deciding(
                SigningPayload::Typed { pin, domain, types, primary_type, message, transaction_id },
            ) && query@ == decision_request(
                handle,
                user_prompt@,
                Some(Json::String(""@)),
                Some(Json::Bool(false)),
            ),
            Err(e) => r matches Err(failure) && failure == e,
        },
{
    start(
        session,
        user_prompt,
        SigningPayload::Typed { pin, domain, types, primary_type, message, transaction_id },
    )
}

/// The decision result of a decision subsystem that answers with the bare
/// decision: an object whose only field is `decision`.
pub open spec fn bare_decision(decision: bool) -> Json {
    Json::Object(map!["decision"@ => Json::Bool(decision)])
}

/// The decision result for a decision that was made without the backend.
pub fn internal_decision(decision: bool) -> (r: Value)
    ensures
        json_of(r) == bare_decision(decision),
{
    let mut fields = empty_map();
    map_insert(&mut fields, String::from_str("decision"), bool_value(decision));
    object_value(fields)
}

/// The gated signing of a plain-text message on a decision that was made
/// without the backend: on `false` the run is over with the bare decision
/// as its result; on `true` the signing request goes out, and the bare
/// decision waits for the signing result.
pub fn llm_sign_personal_message(
    pin: String,
    message: String,
    transaction_id: String,
    decision: bool,
) -> (r: GateAction)
    ensures
        if decision {
            r matches GateAction::Invoke(GateState::Signing(kept), sent) && json_of(kept)
                == bare_decision(true) && sent@ == personal_signing_request(
                pin@,
                message@,
                Some(Json::String(decision_role())),
                Some(Json::String(transaction_id@)),
            )
        } else {
            r matches GateAction::Finish(Ok(result)) && json_of(result) == bare_decision(false)
        },
{
    let made = internal_decision(decision);
    step(GateState::Deciding(SigningPayload::Personal { pin, message, transaction_id }), Ok(made))
}

/// A decision of no ends the run at once: the action is no request, so
/// nothing is signed, and the result is the decision result itself, whose
/// field `decision` is `false` and which has no field of a signing result.
pub proof fn lemma_refusal_signs_nothing(payload: SigningPayload, answer: Value, action: GateAction)
    requires
        json_of(answer).field("decision"@) == Some(Json::Bool(false)),
        step_spec(GateState::Deciding(payload), Ok(answer), action),
    ensures
        !(action is Invoke),
        action matches GateAction::Finish(Ok(result)) && json_of(result) == json_of(answer)
            && json_of(result).field("decision"@) == Some(Json::Bool(false)),
{
}

/// A decision of yes on a complete payload sends the signing request, once:
/// the step on the decision sends it, and the step on the signing result
/// ends the run. The result then has every key of the decision result and
/// every key of the signing result and no other; a key of the signing result
/// has the signing result's value, any other key the decision result's. (A
/// signing result that is no object has no keys.)
pub proof fn lemma_acceptance_signs_once_and_merges(
    payload: SigningPayload,
    answer: Value,
    first: GateAction,
    signature: Value,
    second: GateAction,
)
    requires
        json_of(answer).field("decision"@) == Some(Json::Bool(true)),
        payload.missing() is None,
        json_of(signature) is Object,
        step_spec(GateState::Deciding(payload), Ok(answer), first),
        first matches GateAction::Invoke(next, _) && step_spec(next, Ok(signature), second),
    ensures
        first matches GateAction::Invoke(_, sent) && sent@ == payload.signing_request(),
        !(second is Invoke),
        second matches GateAction::Finish(Ok(result)) && json_of(result) is Object && {
            let fields = json_of(result).fields();
            let decided = json_of(answer).fields();
            let signed = json_of(signature).fields();
            &&& forall|key: Seq<char>| #[trigger]
                fields.contains_key(key) <==> decided.contains_key(key) || signed.contains_key(key)
            &&& forall|key: Seq<char>| #[trigger]
                signed.contains_key(key) ==> fields[key] == signed[key]
            &&& forall|key: Seq<char>|
                decided.contains_key(key) && !signed.contains_key(key) ==> #[trigger] fields[key]
                    == decided[key]
        },
{
}

/// A run that was to sign never ends with the decision result alone: where
/// the signing result is no object, the run ends with an error.
pub proof fn lemma_no_success_without_a_signing_result(
    decision: Value,
    signature: Value,
    action: GateAction,
)
    requires
        !(json_of(signature) is Object),
        step_spec(GateState::Signing(decision), Ok(signature), action),
    ensures
        action matches GateAction::Finish(Err(e)) && e == CommandError::ResponseShape,
{
}

/// Once the signing request is out, the workflow sends no further request,
/// whatever the backend replies.
pub proof fn lemma_signing_state_ends_the_run(
    decision: Value,
    reply: Result<Value, CommandError>,
    action: GateAction,
)
    requires
        step_spec(GateState::Signing(decision), reply, action),
    ensures
        action is Finish,
{
}

} // verus!
