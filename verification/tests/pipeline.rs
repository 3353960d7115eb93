use hookfreight::config::HookfreightConfig;
use hookfreight::error::{map_error, ApiError, HookfreightError};
use hookfreight::json::JsonValue;
use hookfreight::services::{complete, complete_unit, unwrap_data};
use hookfreight::transport::{decode_body, handle_response, Method};
use hookfreight::Hookfreight;
use std::time::Duration;

fn config(base_url: &str, api_key: Option<&str>) -> HookfreightConfig {
    HookfreightConfig {
        api_key: api_key.map(|k| k.to_string()),
        base_url: base_url.to_string(),
        timeout: Duration::from_secs(5),
    }
}

fn message_obj(text: &str) -> JsonValue {
    JsonValue::Obj(vec![("message".to_string(), JsonValue::Str(text.to_string()))])
}

#[test]
fn default_configuration() {
    let c = HookfreightConfig::default();
    assert_eq!(c.api_key, None);
    assert_eq!(c.base_url, "https://api.hookfreight.com/v1");
    assert_eq!(c.timeout, Duration::from_secs(30));
}

#[test]
fn unwrap_data_takes_the_envelope_value() {
    let payload = JsonValue::Obj(vec![
        ("data".to_string(), JsonValue::Int(9)),
        ("meta".to_string(), JsonValue::Null),
    ]);
    assert_eq!(unwrap_data(payload), JsonValue::Int(9));
}

#[test]
fn unwrap_data_passes_bodies_without_envelope() {
    let payload = JsonValue::Obj(vec![("id".to_string(), JsonValue::Int(4))]);
    assert_eq!(
        unwrap_data(payload),
        JsonValue::Obj(vec![("id".to_string(), JsonValue::Int(4))])
    );
    assert_eq!(unwrap_data(JsonValue::Int(3)), JsonValue::Int(3));
}

#[test]
fn status_codes_map_to_their_kinds() {
    let kinds = [
        (400u16, "Validation"),
        (401, "Authentication"),
        (403, "Permission"),
        (404, "NotFound"),
        (500, "Api"),
        (422, "Api"),
    ];
    for (status, expected) in kinds {
        let e = map_error(status, JsonValue::Null);
        let name = match e {
            HookfreightError::Validation(_) => "Validation",
            HookfreightError::Authentication(_) => "Authentication",
            HookfreightError::Permission(_) => "Permission",
            HookfreightError::NotFound(_) => "NotFound",
            HookfreightError::Api(_) => "Api",
            HookfreightError::Connection(_) => "Connection",
        };
        assert_eq!(name, expected, "status {status}");
    }
}

#[test]
fn api_error_extracts_the_server_message() {
    let e = ApiError::new(400, message_obj("bad input"));
    assert_eq!(e.server_message, Some("bad input".to_string()));
    assert_eq!(e.message(), "bad input");
}

#[test]
fn api_error_without_message_uses_the_generic_text() {
    let e = ApiError::new(500, JsonValue::Str("oops".to_string()));
    assert_eq!(e.server_message, None);
    assert_eq!(e.message(), "API request failed with status 500");
}

#[test]
fn decode_empty_body_as_empty_object() {
    assert_eq!(
        decode_body("", "application/json", None),
        JsonValue::Obj(vec![])
    );
}

#[test]
fn decode_json_body_takes_the_parsed_value() {
    let parsed = JsonValue::Obj(vec![("ok".to_string(), JsonValue::Bool(true))]);
    let expected = JsonValue::Obj(vec![("ok".to_string(), JsonValue::Bool(true))]);
    assert_eq!(
        decode_body("{\"ok\":true}", "application/json; charset=utf-8", Some(parsed)),
        expected
    );
}

#[test]
fn content_type_is_matched_case_insensitively() {
    assert_eq!(
        decode_body("1", "Application/JSON", Some(JsonValue::Int(1))),
        JsonValue::Int(1)
    );
}

#[test]
fn unparsable_json_body_falls_back_to_raw_text() {
    assert_eq!(
        decode_body("not json", "application/json", None),
        JsonValue::Str("not json".to_string())
    );
}

#[test]
fn non_json_body_stays_raw_text() {
    let parsed = JsonValue::Int(1);
    assert_eq!(
        decode_body("1", "text/plain", Some(parsed)),
        JsonValue::Str("1".to_string())
    );
}

#[test]
fn success_response_returns_decoded_body() {
    let parsed = JsonValue::Obj(vec![("id".to_string(), JsonValue::Int(2))]);
    let expected = JsonValue::Obj(vec![("id".to_string(), JsonValue::Int(2))]);
    let r = handle_response(200, "application/json", "{\"id\":2}", Some(parsed));
    assert_eq!(r.unwrap(), expected);
}

#[test]
fn failure_response_classifies_by_status() {
    let r = handle_response(404, "application/json", "{}", Some(JsonValue::Obj(vec![])));
    assert!(matches!(r, Err(HookfreightError::NotFound(_))));
}

#[test]
fn client_shares_one_transport_between_services() {
    let client = Hookfreight::new(config("https://x.test/v1/", Some("secret-key"))).unwrap();
    assert_eq!(client.apps.http.base_url, "https://x.test/v1");
    assert_eq!(client.events.http.base_url, "https://x.test/v1");
    assert_eq!(client.apps.http.api_key, Some("secret-key".to_string()));
}

#[test]
fn request_plans_carry_the_standard_headers() {
    let client = Hookfreight::new(config("https://x.test/v1", Some("secret-key"))).unwrap();
    let plan = client.apps.create(&JsonValue::Obj(vec![(
        "name".to_string(),
        JsonValue::Str("shop".to_string()),
    )]));
    assert_eq!(plan.method, Method::Post);
    assert_eq!(plan.url, "https://x.test/v1/apps");
    assert_eq!(plan.content_type, "application/json");
    assert_eq!(plan.user_agent, "hookfreight-rust/0.1.0");
    assert_eq!(plan.authorization, Some("Bearer secret-key".to_string()));
    assert_eq!(plan.body, Some("{\"name\":\"shop\"}".to_string()));
}

#[test]
fn empty_api_key_sends_no_authorization() {
    let client = Hookfreight::new(config("https://x.test/v1", Some(""))).unwrap();
    let plan = client.events.get("ev_1");
    assert_eq!(plan.authorization, None);
    assert_eq!(plan.url, "https://x.test/v1/events/ev_1");
    let client = Hookfreight::new(config("https://x.test/v1", None)).unwrap();
    assert_eq!(client.deliveries.queue_stats().authorization, None);
}

#[test]
fn service_paths_are_composed() {
    let client = Hookfreight::new(config("https://x.test/v1", None)).unwrap();
    assert_eq!(client.endpoints.list("app_1", None).url, "https://x.test/v1/apps/app_1/endpoints");
    assert_eq!(client.endpoints.get("ep_1").url, "https://x.test/v1/endpoints/ep_1");
    assert_eq!(
        client.events.list_by_endpoint("ep_1", None).url,
        "https://x.test/v1/endpoints/ep_1/events"
    );
    assert_eq!(client.events.replay("ev_1").url, "https://x.test/v1/events/ev_1/replay");
    assert_eq!(
        client.deliveries.list_by_event("ev_1", None).url,
        "https://x.test/v1/events/ev_1/deliveries"
    );
    assert_eq!(client.deliveries.retry("d_1").url, "https://x.test/v1/deliveries/d_1/retry");
    assert_eq!(client.deliveries.retry("d_1").method, Method::Post);
    assert_eq!(
        client.deliveries.queue_stats().url,
        "https://x.test/v1/deliveries/queue/stats"
    );
}

#[test]
fn listing_deliveries_clamps_the_limit_end_to_end() {
    let client = Hookfreight::new(config("https://x.test/v1", None)).unwrap();
    let params = vec![("limit".to_string(), JsonValue::Int(5000))];
    let plan = client.deliveries.list(Some(&params));
    assert_eq!(plan.method, Method::Get);
    assert_eq!(plan.url, "https://x.test/v1/deliveries");
    assert_eq!(plan.query, Some(vec![("limit".to_string(), "1000".to_string())]));

    let inner = JsonValue::Arr(vec![JsonValue::Int(1), JsonValue::Int(2)]);
    let body = JsonValue::Obj(vec![(
        "data".to_string(),
        JsonValue::Arr(vec![JsonValue::Int(1), JsonValue::Int(2)]),
    )]);
    let r = complete(200, "application/json", "{\"data\":[1,2]}", Some(body));
    assert_eq!(r.unwrap(), inner);
}

#[test]
fn listing_events_clamps_to_fifty() {
    let client = Hookfreight::new(config("https://x.test/v1", None)).unwrap();
    let params = vec![("limit".to_string(), JsonValue::Int(5000))];
    let plan = client.events.list(Some(&params));
    assert_eq!(plan.url, "https://x.test/v1/events");
    assert_eq!(plan.query, Some(vec![("limit".to_string(), "50".to_string())]));
}

#[test]
fn missing_app_fails_with_not_found_and_the_server_text() {
    let client = Hookfreight::new(config("https://x.test/v1", None)).unwrap();
    let plan = client.apps.get("missing");
    assert_eq!(plan.url, "https://x.test/v1/apps/missing");

    let r = complete(
        404,
        "application/json",
        "{\"message\":\"not found\"}",
        Some(message_obj("not found")),
    );
    match r {
        Err(HookfreightError::NotFound(e)) => {
            assert_eq!(e.status, 404);
            assert_eq!(e.message(), "not found");
        },
        other => panic!("expected a NotFound error, got {other:?}"),
    }
}

#[test]
fn fire_and_forget_operations_report_only_success() {
    assert!(complete_unit(204, "", "", None).is_ok());
    let r = complete_unit(500, "application/json", "{}", Some(JsonValue::Obj(vec![])));
    assert!(matches!(r, Err(HookfreightError::Api(_))));
}

#[test]
fn connection_error_message_is_its_description() {
    let e = HookfreightError::Connection("dns failure".to_string());
    assert_eq!(e.message(), "dns failure");
}
