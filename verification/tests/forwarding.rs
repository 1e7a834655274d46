//! The control-forwarding path: endpoint and body framing, JSON escaping,
//! and the mapping of gateway outcomes.

use heyi_admin::catalog::{EnginePayload, EngineTable};
use heyi_admin::forwarder::{
    build_control_body, build_control_endpoint, classify_gateway_reply, json_escape_str,
    ForwardError, GatewayReply,
};
use heyi_admin::gateway::GatewaySlot;

#[test]
fn endpoint_is_base_engine_action() {
    assert_eq!(
        build_control_endpoint("http://localhost:8080", "start"),
        "http://localhost:8080/engine/start"
    );
    assert_eq!(
        build_control_endpoint("http://localhost:8080", "stop"),
        "http://localhost:8080/engine/stop"
    );
}

#[test]
fn body_is_empty_or_carries_the_model_path() {
    assert_eq!(build_control_body(None), "{}");
    assert_eq!(
        build_control_body(Some("/models/x")),
        "{\"model_path\":\"/models/x\"}"
    );
}

#[test]
fn json_escaping_is_exact() {
    assert_eq!(json_escape_str("plain"), "plain");
    assert_eq!(json_escape_str("a\"b"), "a\\\"b");
    assert_eq!(json_escape_str("a\\b"), "a\\\\b");
    assert_eq!(json_escape_str("a\nb\tc\rd"), "a\\nb\\tc\\rd");
    assert_eq!(json_escape_str("\u{1}"), "\\u0001");
    assert_eq!(json_escape_str("\u{1f}"), "\\u001f");
    assert_eq!(json_escape_str(""), "");
}

#[test]
fn unreachable_gateway_maps_to_bad_gateway() {
    // The gateway is down: transport failure, never an HTTP answer.
    let reply = GatewayReply::TransportFailed("connection refused".to_string());
    let err = classify_gateway_reply(reply).unwrap_err();
    assert_eq!(
        err,
        ForwardError::Unavailable("connection refused".to_string())
    );
    assert_eq!(err.message(), "gateway request failed: connection refused");
    assert_eq!(err.status_code(), 502);
}

#[test]
fn unreachable_gateway_mutates_no_engine_record() {
    let mut engines = EngineTable::new();
    let rec = engines
        .create(
            EnginePayload {
                name: "local".to_string(),
                base_url: "http://e".to_string(),
                kind: "llm".to_string(),
                status: None,
                group_name: None,
                weight: None,
                priority: None,
                enabled: None,
            },
            5,
        )
        .unwrap();
    let before = engines.list();

    // Forwarding fails; the engines catalog is not on that path at all.
    let reply = GatewayReply::TransportFailed("connection refused".to_string());
    assert!(classify_gateway_reply(reply).is_err());

    let after = engines.list();
    assert_eq!(before, after);
    assert_eq!(engines.get(&rec.id).unwrap(), rec);
}

#[test]
fn gateway_error_status_is_carried() {
    let reply = GatewayReply::Http(500, "oops".to_string());
    let err = classify_gateway_reply(reply).unwrap_err();
    assert_eq!(err, ForwardError::GatewayError(500));
    assert_eq!(err.message(), "gateway error: 500");
    assert_eq!(err.status_code(), 502);
}

#[test]
fn success_passes_the_body_through() {
    let reply = GatewayReply::Http(200, "{\"status\":\"started\"}".to_string());
    assert_eq!(
        classify_gateway_reply(reply),
        Ok("{\"status\":\"started\"}".to_string())
    );
    let reply = GatewayReply::Http(204, String::new());
    assert_eq!(classify_gateway_reply(reply), Ok(String::new()));
    let reply = GatewayReply::Http(301, "moved".to_string());
    assert!(classify_gateway_reply(reply).is_err());
}

#[test]
fn gateway_slot_holds_at_most_one_engine() {
    let mut slot = GatewaySlot::new();
    assert_eq!(slot.status_str(), "stopped");
    slot.install(11);
    assert_eq!(slot.status_str(), "running");
    // A second start replaces the held engine; never two.
    slot.install(12);
    assert_eq!(slot.engine, Some(12));
    slot.clear();
    assert_eq!(slot.status_str(), "stopped");
    slot.clear();
    assert_eq!(slot.engine, None);
}
