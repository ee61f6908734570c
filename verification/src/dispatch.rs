use vstd::prelude::*;

use crate::json::escape_json;
use crate::json::escape_seq;

verus! {

/// Why a request could not be answered with a result.  The engine itself
/// reports validation and execution failures; the decoding in front of it
/// reports malformed payloads; the deadline around the engine call reports
/// timeouts.
pub enum ExecutionError {
    /// The request payload could not be decoded into a query.
    MalformedRequest(String),
    /// The query is not valid against the schema.
    ValidationError(String),
    /// The engine failed internally while resolving the query.
    ExecutionFailure(String),
    /// The engine call exceeded the per-request deadline.
    Timeout,
}

/// One HTTP reply: a status code and a JSON body.
pub struct HttpReply {
    pub status: u16,
    pub body: String,
}

pub open spec fn is_client_error(status: u16) -> bool {
    400 <= status < 500
}

pub open spec fn is_server_error(status: u16) -> bool {
    500 <= status < 600
}

/// The status each error answers with: faults of the request are client
/// errors, faults of the engine or of the deadline are server errors.
pub open spec fn status_of(e: ExecutionError) -> u16 {
    match e {
        ExecutionError::MalformedRequest(_) => 400,
        ExecutionError::ValidationError(_) => 400,
        ExecutionError::ExecutionFailure(_) => 500,
        ExecutionError::Timeout => 504,
    }
}

/// The human-readable message each error carries into its JSON body.
pub open spec fn message_of(e: ExecutionError) -> Seq<char> {
    match e {
        ExecutionError::MalformedRequest(m) => m@,
        ExecutionError::ValidationError(m) => m@,
        ExecutionError::ExecutionFailure(m) => m@,
        ExecutionError::Timeout => "query execution timed out"@,
    }
}

/// The JSON error payload: one error object with the escaped message.
pub open spec fn error_body_of(e: ExecutionError) -> Seq<char> {
    "{\"errors\":[{\"message\":\""@ + escape_seq(message_of(e)) + "\"}]}"@
}

/// The per-request value: the decoded query payload, and the identifier of
/// the trace span that covers this request's engine call.  One is created
/// for each inbound request, owned by that request's handling path alone,
/// and dropped once the reply is sent; no request shares its context with
/// another.
pub struct RequestContext {
    pub query: String,
    pub span_id: u64,
}

impl RequestContext {
    /// Wraps one decoded payload and its span for the trip to the engine.
    pub fn new(query: String, span_id: u64) -> (ctx: RequestContext)
        ensures
            ctx.query@ == query@,
            ctx.span_id == span_id,
    {
        RequestContext { query, span_id }
    }
}

/// What the engine's side of one request came to.
pub enum EngineOutcome {
    /// The engine resolved the query; the field holds its result object,
    /// already serialized as JSON.
    Success(String),
    /// The request failed, before, inside, or around the engine.
    Failure(ExecutionError),
}

/// The status owed for an outcome: a success answers OK.
pub open spec fn status_for(o: EngineOutcome) -> u16 {
    match o {
        EngineOutcome::Success(_) => 200,
        EngineOutcome::Failure(e) => status_of(e),
    }
}

/// The body owed for an outcome: a success answers with the engine's
/// result object unaltered, a failure with the JSON error payload.
pub open spec fn body_for(o: EngineOutcome) -> Seq<char> {
    match o {
        EngineOutcome::Success(result) => result@,
        EngineOutcome::Failure(e) => error_body_of(e),
    }
}

/// The status an error answers with.
pub fn status_code(e: &ExecutionError) -> (status: u16)
    ensures
        status == status_of(*e),
{
    match e {
        ExecutionError::MalformedRequest(_) => 400,
        ExecutionError::ValidationError(_) => 400,
        ExecutionError::ExecutionFailure(_) => 500,
        ExecutionError::Timeout => 504,
    }
}

/// Renders the JSON error payload for `e`.
pub fn error_body(e: &ExecutionError) -> (body: String)
    ensures
        body@ == error_body_of(*e),
{
    let escaped = match e {
        ExecutionError::MalformedRequest(m) => escape_json(m.as_str()),
        ExecutionError::ValidationError(m) => escape_json(m.as_str()),
        ExecutionError::ExecutionFailure(m) => escape_json(m.as_str()),
        ExecutionError::Timeout => escape_json("query execution timed out"),
    };
    let mut body = String::from_str("{\"errors\":[{\"message\":\"");
    body.append(escaped.as_str());
    body.append("\"}]}");
    body
}

/// Turns the outcome of one request into its HTTP reply.  Every outcome
/// is answered: a success as `200` with the result object, a failure with
/// its status and the JSON error payload.
pub fn dispatch(outcome: EngineOutcome) -> (r: HttpReply)
    ensures
        r.status == status_for(outcome),
        r.body@ == body_for(outcome),
{
    match outcome {
        EngineOutcome::Success(result) => HttpReply { status: 200, body: result },
        EngineOutcome::Failure(e) => {
            let status = status_code(&e);
            let body = error_body(&e);
            HttpReply { status, body }
        },
    }
}

/// Faults of the request answer with a client-error status; faults of the
/// engine or of the deadline answer with a server-error status — each
/// exactly, and no error is left unanswered.
pub proof fn lemma_error_status_classes(e: ExecutionError)
    ensures
        is_client_error(status_of(e)) <==> (e is MalformedRequest || e is ValidationError),
        is_server_error(status_of(e)) <==> (e is ExecutionFailure || e is Timeout),
{
}

} // verus!
