use stargate::dispatch::{dispatch, EngineOutcome, ExecutionError, RequestContext};

#[test]
fn a_request_context_carries_the_payload_and_its_span() {
    let ctx = RequestContext::new(String::from("{\"query\":\"{ hello }\"}"), 7);
    assert_eq!(ctx.query, "{\"query\":\"{ hello }\"}");
    assert_eq!(ctx.span_id, 7);
}

#[test]
fn success_reply_is_ok_with_result_body() {
    let result = String::from("{\"data\":{\"hello\":null}}");
    let reply = dispatch(EngineOutcome::Success(result.clone()));
    assert_eq!(reply.status, 200);
    assert_eq!(reply.body, result);
}

#[test]
fn malformed_request_maps_to_400_with_json_error_body() {
    let outcome = EngineOutcome::Failure(ExecutionError::MalformedRequest(String::from(
        "the request body is not valid JSON",
    )));
    let reply = dispatch(outcome);
    assert_eq!(reply.status, 400);
    assert_eq!(
        reply.body,
        "{\"errors\":[{\"message\":\"the request body is not valid JSON\"}]}"
    );
}

#[test]
fn validation_error_maps_to_400() {
    let outcome = EngineOutcome::Failure(ExecutionError::ValidationError(String::from(
        "unknown field nope on type Query",
    )));
    let reply = dispatch(outcome);
    assert_eq!(reply.status, 400);
    assert_eq!(
        reply.body,
        "{\"errors\":[{\"message\":\"unknown field nope on type Query\"}]}"
    );
}

#[test]
fn execution_failure_maps_to_500() {
    let outcome = EngineOutcome::Failure(ExecutionError::ExecutionFailure(String::from(
        "downstream service unreachable",
    )));
    let reply = dispatch(outcome);
    assert_eq!(reply.status, 500);
    assert_eq!(
        reply.body,
        "{\"errors\":[{\"message\":\"downstream service unreachable\"}]}"
    );
}

#[test]
fn timeout_maps_to_504() {
    let reply = dispatch(EngineOutcome::Failure(ExecutionError::Timeout));
    assert_eq!(reply.status, 504);
    assert_eq!(
        reply.body,
        "{\"errors\":[{\"message\":\"query execution timed out\"}]}"
    );
}

#[test]
fn error_messages_are_escaped_in_the_body() {
    let outcome = EngineOutcome::Failure(ExecutionError::ExecutionFailure(String::from(
        "expected \"String\", got a \\ at line 1\nnear { hello }",
    )));
    let reply = dispatch(outcome);
    assert_eq!(reply.status, 500);
    assert_eq!(
        reply.body,
        "{\"errors\":[{\"message\":\"expected \\\"String\\\", got a \\\\ at line 1\\nnear { hello }\"}]}"
    );
}

#[test]
fn empty_success_body_passes_through() {
    let reply = dispatch(EngineOutcome::Success(String::new()));
    assert_eq!(reply.status, 200);
    assert_eq!(reply.body, "");
}
