use vstd::prelude::*;

use crate::dispatch::EngineOutcome;
use crate::dispatch::HttpReply;
use crate::dispatch::body_for;
use crate::dispatch::dispatch;
use crate::dispatch::status_for;

verus! {

/// The gateway's handle on the execution engine.  It is built exactly once
/// from the published manifest text, after which it only ever lends itself
/// out by shared reference: no method takes the handle mutably, so no
/// request can change the engine another request sees.
pub struct EngineHandle {
    schema: String,
}

impl EngineHandle {
    /// The schema text the engine was built from.
    pub closed spec fn schema(&self) -> Seq<char> {
        self.schema@
    }

    /// Builds the engine from the manifest text, keeping the text exactly
    /// as published: the engine's view of the schema is the manifest's
    /// content, nothing reformatted, added or dropped.
    pub fn build(manifest: &String) -> (h: EngineHandle)
        ensures
            h.schema() == manifest@,
    {
        EngineHandle { schema: manifest.clone() }
    }

    /// A borrow of the schema text, for the host to hand to the engine's
    /// own constructor.
    pub fn schema_text(&self) -> (s: &String)
        ensures
            s@ == self.schema(),
    {
        &self.schema
    }

    /// Answers one request: turns what the engine's side of the call came
    /// to into the HTTP reply owed for it.  Takes the handle by shared
    /// reference: answering a request can never mutate the engine.
    pub fn respond(&self, outcome: EngineOutcome) -> (r: HttpReply)
        ensures
            r.status == status_for(outcome),
            r.body@ == body_for(outcome),
    {
        dispatch(outcome)
    }
}

/// Idempotence at the gateway: the reply is a function of the outcome
/// alone.  Two requests whose engine calls come to the same outcome — in
/// particular, the same well-formed query asked twice against the same,
/// unchanged schema — receive structurally equal replies, whatever engine
/// handle served each, since no handle state besides the outcome enters
/// the reply.
pub proof fn lemma_equal_outcomes_equal_replies(
    a: EngineOutcome,
    b: EngineOutcome,
    ra: HttpReply,
    rb: HttpReply,
)
    requires
        a == b,
        ra.status == status_for(a),
        ra.body@ == body_for(a),
        rb.status == status_for(b),
        rb.body@ == body_for(b),
    ensures
        ra.status == rb.status,
        ra.body@ == rb.body@,
{
}

/// The engine model is content-sensitive, not identity-sensitive: two
/// handles built from manifests with equal text hold equal schemas.
pub proof fn lemma_equal_content_equal_schema(
    m1: Seq<char>,
    m2: Seq<char>,
    h1: EngineHandle,
    h2: EngineHandle,
)
    requires
        m1 == m2,
        h1.schema() == m1,
        h2.schema() == m2,
    ensures
        h1.schema() == h2.schema(),
{
}

} // verus!
