use vstd::prelude::*;

use crate::config::LogFormat;
use crate::dispatch::EngineOutcome;
use crate::dispatch::HttpReply;
use crate::dispatch::body_for;
use crate::dispatch::status_for;
use crate::engine::EngineHandle;
use crate::manifest::ManifestSlot;
use crate::observability::ObservabilityPlan;
use crate::observability::chosen_filter;
use crate::observability::compose;
use crate::observability::is_plan_for;

verus! {

/// How far startup has come.  The phases are strictly ordered: each
/// transition demands the previous phase, so the steps can only ever run
/// in the one order the gateway's invariants need.
#[derive(Clone, Copy, Debug, PartialEq, Eq, Structural)]
pub enum Phase {
    /// Nothing has run yet.
    Fresh,
    /// The observability pipeline is composed and installed.
    ObservabilityReady,
    /// The manifest text is published into its write-once slot.
    ManifestPublished,
    /// The engine is built from the published manifest.
    EngineReady,
}

/// The startup sequence, as a state machine: observability first, then the
/// manifest, then the engine, and only then a serving gateway.  Each step
/// requires the phase the previous step established, so no later step can
/// run before an earlier one has returned successfully.
pub struct Bootstrap {
    phase: Phase,
    plan: Option<ObservabilityPlan>,
    manifest: ManifestSlot,
    engine: Option<EngineHandle>,
}

impl Bootstrap {
    /// The phase the bootstrap has reached.
    pub closed spec fn phase(&self) -> Phase {
        self.phase
    }

    /// Whether the observability pipeline has been installed.
    pub closed spec fn observability_installed(&self) -> bool {
        self.plan is Some
    }

    /// The installed plan.
    pub closed spec fn plan_spec(&self) -> ObservabilityPlan
        recommends
            self.observability_installed(),
    {
        self.plan->0
    }

    /// Whether the manifest text has been published.
    pub closed spec fn manifest_published(&self) -> bool {
        self.manifest.is_published()
    }

    /// The published manifest text.
    pub closed spec fn manifest_content(&self) -> Seq<char>
        recommends
            self.manifest_published(),
    {
        self.manifest.content()
    }

    /// Whether the engine has been built.
    pub closed spec fn engine_built(&self) -> bool {
        self.engine is Some
    }

    /// The bootstrap's invariant: what exists is exactly what the phase
    /// says has been established, and an engine, once built, holds
    /// exactly the published manifest text as its schema.
    pub closed spec fn wf(&self) -> bool {
        &&& (self.observability_installed() <==> self.phase != Phase::Fresh)
        &&& (self.manifest_published() <==> (self.phase == Phase::ManifestPublished || self.phase
            == Phase::EngineReady))
        &&& (self.engine_built() <==> self.phase == Phase::EngineReady)
        &&& (self.engine matches Some(h) ==> h.schema() == self.manifest.content())
    }

    /// A fresh bootstrap: nothing installed, nothing published, no engine.
    pub fn new() -> (b: Bootstrap)
        ensures
            b.wf(),
            b.phase() == Phase::Fresh,
    {
        Bootstrap { phase: Phase::Fresh, plan: None, manifest: ManifestSlot::new(), engine: None }
    }

    /// The phase, for the host to check before it takes a step.
    pub fn current_phase(&self) -> (p: Phase)
        ensures
            p == self.phase(),
    {
        self.phase
    }

    /// Step one: composes the observability plan for the configured format
    /// and the environment's severity override, and records it installed.
    /// Must run first, before the manifest is read and the engine built,
    /// so that both are traced.
    pub fn install_observability(&mut self, format: LogFormat, env_filter: Option<String>)
        requires
            old(self).wf(),
            old(self).phase() == Phase::Fresh,
        ensures
            final(self).wf(),
            final(self).phase() == Phase::ObservabilityReady,
            final(self).observability_installed(),
            is_plan_for(final(self).plan_spec(), format, chosen_filter(env_filter)),
    {
        self.plan = Some(compose(format, env_filter));
        self.phase = Phase::ObservabilityReady;
    }

    /// The installed plan, for the host to interpret: it builds the
    /// exporter, provider, filter and formatting layer the plan names and
    /// installs them as the one process-wide subscriber.
    pub fn plan(&self) -> (p: &ObservabilityPlan)
        requires
            self.observability_installed(),
        ensures
            *p == self.plan_spec(),
    {
        match &self.plan {
            Some(p) => p,
            None => unreached(),
        }
    }

    /// Step two: publishes the manifest text — read from the configured
    /// file by the host — into the write-once slot.  Demands that
    /// observability is already up, and leaves the plan untouched.
    pub fn publish_manifest(&mut self, text: String)
        requires
            old(self).wf(),
            old(self).phase() == Phase::ObservabilityReady,
        ensures
            final(self).wf(),
            final(self).phase() == Phase::ManifestPublished,
            final(self).manifest_published(),
            final(self).manifest_content() == text@,
            final(self).plan_spec() == old(self).plan_spec(),
    {
        self.manifest.publish(text);
        self.phase = Phase::ManifestPublished;
    }

    /// Step three: builds the engine from the published manifest text.
    /// The engine's schema is exactly the published content; the plan and
    /// the manifest stay as they were.
    pub fn build_engine(&mut self)
        requires
            old(self).wf(),
            old(self).phase() == Phase::ManifestPublished,
        ensures
            final(self).wf(),
            final(self).phase() == Phase::EngineReady,
            final(self).engine_built(),
            final(self).manifest_content() == old(self).manifest_content(),
            final(self).plan_spec() == old(self).plan_spec(),
    {
        let engine = EngineHandle::build(self.manifest.read());
        self.engine = Some(engine);
        self.phase = Phase::EngineReady;
    }

    /// The last step: seals the finished bootstrap into a serving gateway.
    /// Only a bootstrap that has reached the final phase can be sealed, so
    /// a gateway — the only thing handlers ever hold — cannot exist before
    /// every startup step has returned successfully.
    pub fn into_gateway(self) -> (g: Gateway)
        requires
            self.wf(),
            self.phase() == Phase::EngineReady,
        ensures
            g.schema() == self.manifest_content(),
            g.plan_spec() == self.plan_spec(),
    {
        let engine = match self.engine {
            Some(engine) => engine,
            None => unreached(),
        };
        let plan = match self.plan {
            Some(plan) => plan,
            None => unreached(),
        };
        Gateway { engine, plan }
    }
}

/// A serving gateway: the built engine and the installed plan, read-only.
/// One is only ever made by `Bootstrap::into_gateway`, so holding one is
/// proof that startup completed in order.
pub struct Gateway {
    engine: EngineHandle,
    plan: ObservabilityPlan,
}

impl Gateway {
    /// The schema the gateway's engine serves.
    pub closed spec fn schema(&self) -> Seq<char> {
        self.engine.schema()
    }

    /// The observability plan the gateway runs under.
    pub closed spec fn plan_spec(&self) -> ObservabilityPlan {
        self.plan
    }

    /// The engine handle, shared read-only with every request handler.
    pub fn engine(&self) -> (h: &EngineHandle)
        ensures
            h.schema() == self.schema(),
    {
        &self.engine
    }

    /// Answers one request from the outcome of its engine call.  Takes the
    /// gateway by shared reference: no request can mutate the engine or
    /// the plan another request sees.
    pub fn respond(&self, outcome: EngineOutcome) -> (r: HttpReply)
        ensures
            r.status == status_for(outcome),
            r.body@ == body_for(outcome),
    {
        self.engine.respond(outcome)
    }
}

/// The ordering law of startup: an engine ready to execute exists only in
/// a bootstrap whose observability pipeline is installed and whose
/// manifest is published — so no handler can reach the engine before both
/// earlier steps have returned successfully.
pub proof fn lemma_engine_ready_implies_initialized(b: Bootstrap)
    requires
        b.wf(),
        b.phase() == Phase::EngineReady,
    ensures
        b.observability_installed(),
        b.manifest_published(),
        b.engine_built(),
{
}

} // verus!
