use vstd::prelude::*;

use crate::config::LogFormat;

verus! {

/// The composed observability pipeline, as data.  The host interprets the
/// plan in one place: it bridges legacy log calls, builds the exporter and
/// the trace provider, stacks the filter and the one formatting layer the
/// plan names, and installs the result as the single process-wide
/// subscriber.  Because the branch on the logging toggle happens here, in
/// the value, the host's wiring code has exactly one install site.
pub struct ObservabilityPlan {
    /// Pre-existing plain log calls are bridged into the tracing system.
    pub bridge_legacy_logs: bool,
    /// Where the distributed-tracing exporter sends its spans.
    pub collector_endpoint: String,
    /// The service identity the exporter tags every span with.
    pub service_name: String,
    /// Every span is recorded; nothing is sampled away.
    pub sample_every_span: bool,
    /// The severity filter: the environment's override, or informational.
    pub filter_directive: String,
    /// Which of the two formatting layers renders log events.
    pub format: LogFormat,
}

/// The severity filter the pipeline runs with: the directive the process
/// environment supplies, or informational when it supplies none.
pub open spec fn chosen_filter(env_filter: Option<String>) -> Seq<char> {
    match env_filter {
        Some(directive) => directive@,
        None => "info"@,
    }
}

/// What a correctly composed plan looks like for a format choice and a
/// filter: legacy logs bridged, the fixed collector endpoint and service
/// identity, every span sampled, and exactly the asked-for format.
pub open spec fn is_plan_for(p: ObservabilityPlan, format: LogFormat, filter: Seq<char>) -> bool {
    &&& p.bridge_legacy_logs
    &&& p.collector_endpoint@ == "http://localhost:14268/api/traces"@
    &&& p.service_name@ == "stargate"@
    &&& p.sample_every_span
    &&& p.filter_directive@ == filter
    &&& p.format == format
}

/// Composes the one observability plan for this configuration.  Exactly
/// one plan comes out whichever format is asked for, so the host installs
/// exactly one subscriber.
pub fn compose(format: LogFormat, env_filter: Option<String>) -> (p: ObservabilityPlan)
    ensures
        is_plan_for(p, format, chosen_filter(env_filter)),
{
    let filter_directive = match env_filter {
        Some(directive) => directive,
        None => String::from_str("info"),
    };
    ObservabilityPlan {
        bridge_legacy_logs: true,
        collector_endpoint: String::from_str("http://localhost:14268/api/traces"),
        service_name: String::from_str("stargate"),
        sample_every_span: true,
        filter_directive,
        format,
    }
}

/// Toggling the structured-logging flag moves only the formatting layer:
/// two plans composed for the same filter but different formats agree on
/// everything else — the log bridge, the exporter target, the service
/// identity, the sampler and the severity filter.
pub proof fn lemma_toggle_changes_only_format(
    structured: ObservabilityPlan,
    plain: ObservabilityPlan,
    filter: Seq<char>,
)
    requires
        is_plan_for(structured, LogFormat::Structured, filter),
        is_plan_for(plain, LogFormat::Plain, filter),
    ensures
        structured.bridge_legacy_logs == plain.bridge_legacy_logs,
        structured.collector_endpoint@ == plain.collector_endpoint@,
        structured.service_name@ == plain.service_name@,
        structured.sample_every_span == plain.sample_every_span,
        structured.filter_directive@ == plain.filter_directive@,
{
}

} // verus!
