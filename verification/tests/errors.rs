use wallet_bridge::error::{CommandError, PayloadField};

#[test]
fn every_error_has_its_line() {
    let cases = vec![
        (CommandError::InvalidArgument("role"), "'role' is required."),
        (
            CommandError::ContextNotInitialized,
            "Model path not set. Please call connect() first.",
        ),
        (CommandError::BackendInvocation("boom".to_string()), "boom"),
        (CommandError::BackendInvocation(String::new()), ""),
        (
            CommandError::MalformedDecisionResult,
            "LLM response is missing a valid 'decision' boolean field.",
        ),
        (
            CommandError::MissingSigningPayload(PayloadField::Domain),
            "'domain' is required when LLM decision is true.",
        ),
        (
            CommandError::MissingSigningPayload(PayloadField::Types),
            "'types' is required when LLM decision is true.",
        ),
        (
            CommandError::MissingSigningPayload(PayloadField::Message),
            "'message' is required when LLM decision is true.",
        ),
        (CommandError::ResponseShape, "Internal error: a response is not a JSON object."),
    ];
    for (error, line) in cases {
        assert_eq!(error.message(), line);
    }
}

#[test]
fn payload_field_labels() {
    assert_eq!(PayloadField::Domain.label(), "domain");
    assert_eq!(PayloadField::Types.label(), "types");
    assert_eq!(PayloadField::Message.label(), "message");
}
