//! The ways a command can fail.
//!
//! Every failure ends the call it occurs in; nothing is retried. The caller
//! sees a failure as one line of text, [`CommandError::message`].

use vstd::prelude::*;

verus! {

/// A part of the typed-data signing payload that the caller may leave out
/// when they expect the decision to be a refusal.
#[derive(Debug, Clone, Copy, PartialEq, Eq)]
pub enum PayloadField {
    Domain,
    Types,
    Message,
}

impl PayloadField {
    /// The name of the field as callers write it.
    pub open spec fn name(self) -> Seq<char> {
        match self {
            PayloadField::Domain => "domain"@,
            PayloadField::Types => "types"@,
            PayloadField::Message => "message"@,
        }
    }

    /// The name of the field as callers write it.
    pub fn label(&self) -> (r: &'static str)
        ensures
            r@ == self.name(),
    {
        match self {
            PayloadField::Domain => "domain",
            PayloadField::Types => "types",
            PayloadField::Message => "message",
        }
    }
}

/// Why a command did not produce a result.
#[derive(Debug, Clone, PartialEq, Eq)]
pub enum CommandError {
    /// A required argument is absent or of the wrong kind; holds the
    /// argument's name.
    InvalidArgument(&'static str),
    /// The session context was needed before any `connect` had set it.
    ContextNotInitialized,
    /// The backend failed; holds its message unchanged.
    BackendInvocation(String),
    /// The decision result has no boolean `decision` field.
    MalformedDecisionResult,
    /// The decision was to sign, and this part of the payload is absent.
    MissingSigningPayload(PayloadField),
    /// A result that has to be a JSON object is something else: the decision
    /// result or the signing result of a gated signing.
    ResponseShape,
}

impl CommandError {
    /// The line of text that the caller is shown.
    pub open spec fn text(self) -> Seq<char> {
        match self {
            CommandError::InvalidArgument(name) => "'"@ + name@ + "' is required."@,
            CommandError::ContextNotInitialized => "Model path not set. Please call connect() first."@,
            CommandError::BackendInvocation(message) => message@,
            CommandError::MalformedDecisionResult => "LLM response is missing a valid 'decision' boolean field."@,
            CommandError::MissingSigningPayload(field) => "'"@ + field.name()
                + "' is required when LLM decision is true."@,
            CommandError::ResponseShape => "Internal error: a response is not a JSON object."@,
        }
    }

    /// The line of text that the caller is shown.
    pub fn message(&self) -> (r: String)
        ensures
            r@ == self.text(),
    {
        match self {
            CommandError::InvalidArgument(name) => {
                let mut line = String::from_str("'");
                line.append(name);
                line.append("' is required.");
                line
            },
            CommandError::ContextNotInitialized => String::from_str(
                "Model path not set. Please call connect() first.",
            ),
            CommandError::BackendInvocation(message) => message.clone(),
            CommandError::MalformedDecisionResult => String::from_str(
                "LLM response is missing a valid 'decision' boolean field.",
            ),
            CommandError::MissingSigningPayload(field) => {
                let mut line = String::from_str("'");
                line.append(field.label());
                line.append("' is required when LLM decision is true.");
                line
            },
            CommandError::ResponseShape => String::from_str(
                "Internal error: a response is not a JSON object.",
            ),
        }
    }
}

} // verus!
