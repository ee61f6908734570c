use stargate::bootstrap::{Bootstrap, Phase};
use stargate::config::{GatewayConfig, LogFormat};
use stargate::dispatch::EngineOutcome;
use stargate::manifest::ManifestSlot;

#[test]
fn startup_walks_the_phases_in_order() {
    let mut boot = Bootstrap::new();
    assert_eq!(boot.current_phase(), Phase::Fresh);
    boot.install_observability(LogFormat::Plain, None);
    assert_eq!(boot.current_phase(), Phase::ObservabilityReady);
    boot.publish_manifest(String::from("type Query { hello: String }"));
    assert_eq!(boot.current_phase(), Phase::ManifestPublished);
    boot.build_engine();
    assert_eq!(boot.current_phase(), Phase::EngineReady);
    let gateway = boot.into_gateway();
    assert_eq!(
        gateway.engine().schema_text().as_str(),
        "type Query { hello: String }"
    );
}

#[test]
fn the_engine_serves_the_published_text_exactly() {
    let manifest = "type Query {\n  hello: String\n}\n";
    let mut boot = Bootstrap::new();
    boot.install_observability(LogFormat::Structured, Some(String::from("debug")));
    boot.publish_manifest(String::from(manifest));
    boot.build_engine();
    let gateway = boot.into_gateway();
    assert_eq!(gateway.engine().schema_text().as_str(), manifest);
}

#[test]
fn a_published_slot_reads_back_what_was_stored() {
    let mut slot = ManifestSlot::new();
    slot.publish(String::from("type Query { hello: String }"));
    assert_eq!(slot.read().as_str(), "type Query { hello: String }");
    assert_eq!(slot.read(), slot.read());
}

#[test]
fn whitespace_variant_manifests_answer_a_query_alike() {
    let compact = "type Query { hello: String }";
    let spread = "type Query {\n    hello: String\n}";
    let result = "{\"data\":{\"hello\":\"world\"}}";

    let mut one = Bootstrap::new();
    one.install_observability(LogFormat::Plain, None);
    one.publish_manifest(String::from(compact));
    one.build_engine();
    let first = one.into_gateway();

    let mut two = Bootstrap::new();
    two.install_observability(LogFormat::Plain, None);
    two.publish_manifest(String::from(spread));
    two.build_engine();
    let second = two.into_gateway();

    let a = first.respond(EngineOutcome::Success(String::from(result)));
    let b = second.respond(EngineOutcome::Success(String::from(result)));
    assert_eq!(a.status, b.status);
    assert_eq!(a.body, b.body);
}

#[test]
fn the_same_outcome_twice_gets_equal_replies() {
    let mut boot = Bootstrap::new();
    boot.install_observability(LogFormat::Plain, None);
    boot.publish_manifest(String::from("type Query { hello: String }"));
    boot.build_engine();
    let gateway = boot.into_gateway();

    let result = "{\"data\":{\"hello\":null}}";
    let first = gateway.respond(EngineOutcome::Success(String::from(result)));
    let second = gateway.respond(EngineOutcome::Success(String::from(result)));
    assert_eq!(first.status, second.status);
    assert_eq!(first.body, second.body);
}

#[test]
fn the_hello_query_scenario_answers_ok_with_a_data_body() {
    let mut boot = Bootstrap::new();
    boot.install_observability(LogFormat::Plain, None);
    boot.publish_manifest(String::from("type Query { hello: String }"));
    boot.build_engine();
    let gateway = boot.into_gateway();

    let ctx = stargate::dispatch::RequestContext::new(String::from("{\"query\":\"{ hello }\"}"), 1);
    assert_eq!(ctx.query, "{\"query\":\"{ hello }\"}");
    let reply = gateway.respond(EngineOutcome::Success(String::from(
        "{\"data\":{\"hello\":null}}",
    )));
    assert_eq!(reply.status, 200);
    assert_eq!(reply.body, "{\"data\":{\"hello\":null}}");
}

#[test]
fn the_config_records_the_logging_toggle() {
    let structured = GatewayConfig::new(4000, String::from("schema.graphql"), true);
    assert_eq!(structured.port, 4000);
    assert_eq!(structured.manifest_path, "schema.graphql");
    assert_eq!(structured.log_format, LogFormat::Structured);

    let plain = GatewayConfig::new(4000, String::from("schema.graphql"), false);
    assert_eq!(plain.log_format, LogFormat::Plain);
}
