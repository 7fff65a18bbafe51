use robson::idempotency::{compute_idempotency_key, is_nondeterministic_key, normalize_payload, JsonValue};

fn new_uuid_v7() -> u128 {
    uuid::Uuid::now_v7().as_u128()
}

#[test]
fn test_compute_idempotency_key_deterministic() {
    let tenant_id = new_uuid_v7();
    let stream_key = "position:test";
    let command_id = Some(new_uuid_v7());
    let payload = r#"{"position_id":"pos123","price":"95000.00","symbol":"BTCUSDT"}"#;

    let key1 = compute_idempotency_key(tenant_id, stream_key, command_id, payload);
    let key2 = compute_idempotency_key(tenant_id, stream_key, command_id, payload);

    assert_eq!(key1, key2, "Idempotency key should be deterministic");
    assert!(key1.starts_with("idem_"), "Key should have idem_ prefix");
}

#[test]
fn test_idempotency_key_different_for_different_payloads() {
    let tenant_id = new_uuid_v7();
    let stream_key = "position:test";
    let command_id = Some(new_uuid_v7());

    let payload1 = r#"{"position_id":"pos123","price":"95000"}"#;
    let payload2 = r#"{"position_id":"pos123","price":"96000"}"#;

    let key1 = compute_idempotency_key(tenant_id, stream_key, command_id, payload1);
    let key2 = compute_idempotency_key(tenant_id, stream_key, command_id, payload2);

    assert_ne!(key1, key2, "Different payloads should have different keys");
}

#[test]
fn test_nondeterministic_keys_are_dropped() {
    for key in ["occurred_at", "created_at", "ingested_at", "timestamp", "actor_id", "actor_type", "user_id", "request_id"] {
        assert!(is_nondeterministic_key(key), "{key} must be dropped");
    }
    for key in ["position_id", "symbol", "price", "order_id", "at", "trace_id"] {
        assert!(!is_nondeterministic_key(key), "{key} must be kept");
    }
}

#[test]
fn test_idempotency_key_known_digest() {
    let tenant = 0x0123456789abcdef0123456789abcdef_u128;
    let payload = r#"{"position_id":"pos123"}"#;
    assert_eq!(
        compute_idempotency_key(tenant, "position:test", None, payload),
        "idem_6e9f2b3bb0129cf51668070000bbf096f98362297b25228cea38bdf93f09d5d4"
    );
    assert_eq!(
        compute_idempotency_key(tenant, "position:test", Some(0x11112222333344445555666677778888), payload),
        "idem_0848702db19b87235362bd63b4bc6d17cd2268caa13d7880c3897317e4b4e064"
    );
}

fn text(s: &str) -> JsonValue {
    JsonValue::Text(s.to_string())
}

fn object(fields: Vec<(&str, JsonValue)>) -> JsonValue {
    JsonValue::Object(fields.into_iter().map(|(k, v)| (k.to_string(), v)).collect())
}

fn keys(value: &JsonValue) -> Vec<String> {
    match value {
        JsonValue::Object(fields) => fields.iter().map(|(k, _)| k.clone()).collect(),
        _ => Vec::new(),
    }
}

#[test]
fn test_normalize_payload_removes_timestamps() {
    let payload = object(vec![
        ("position_id", text("pos123")),
        ("symbol", text("BTCUSDT")),
        ("price", text("95000.00")),
        ("occurred_at", text("2024-01-15T10:00:00Z")),
        ("created_at", text("2024-01-15T10:00:00Z")),
    ]);
    let normalized = keys(&normalize_payload(payload));
    assert!(normalized.contains(&"position_id".to_string()));
    assert!(normalized.contains(&"symbol".to_string()));
    assert!(normalized.contains(&"price".to_string()));
    assert!(!normalized.contains(&"occurred_at".to_string()));
    assert!(!normalized.contains(&"created_at".to_string()));
}

#[test]
fn test_normalize_payload_removes_actor() {
    let payload = object(vec![
        ("order_id", text("order123")),
        ("actor_type", text("CLI")),
        ("actor_id", text("user456")),
    ]);
    let normalized = keys(&normalize_payload(payload));
    assert!(normalized.contains(&"order_id".to_string()));
    assert!(!normalized.contains(&"actor_type".to_string()));
    assert!(!normalized.contains(&"actor_id".to_string()));
}

#[test]
fn test_normalize_payload_nested_objects_not_arrays() {
    let payload = object(vec![
        ("user_id", text("u1")),
        ("order", object(vec![("filled_at", text("t")), ("qty", JsonValue::Number("1.5".to_string()))])),
        ("fills", JsonValue::Array(vec![object(vec![("filled_at", text("t"))])])),
        ("note", JsonValue::Null),
    ]);
    let expected = object(vec![
        ("order", object(vec![("qty", JsonValue::Number("1.5".to_string()))])),
        ("fills", JsonValue::Array(vec![object(vec![("filled_at", text("t"))])])),
        ("note", JsonValue::Null),
    ]);
    assert_eq!(normalize_payload(payload), expected);
    // Values that are not objects are kept as they are.
    assert_eq!(normalize_payload(text("x")), text("x"));
}

#[test]
fn test_dropped_field_does_not_change_normalized_payload() {
    let plain = object(vec![("position_id", text("pos123")), ("price", text("95000"))]);
    let with_request = object(vec![
        ("position_id", text("pos123")),
        ("request_id", text("r-9")),
        ("price", text("95000")),
    ]);
    assert_eq!(normalize_payload(plain), normalize_payload(with_request));
}
