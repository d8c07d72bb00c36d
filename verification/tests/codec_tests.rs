use rpaas::codec::{
    decode_request, encode_request, encode_response, exit_error, exit_success_no_payload,
    exit_success_with_resource, exit_success_with_status, DecodeError, Request, Resource,
    ResponsePayload,
};
use rpaas::json::Json;
use rpaas::trace::TraceRecord;

fn sample_request() -> Request {
    Request {
        resource_id: "/subscriptions/S1/resourceGroups/RG1/providers/P.T/rt/n1".to_string(),
        request: Resource {
            id: "/subscriptions/S1/resourceGroups/RG1/providers/P.T/rt/n1".to_string(),
            name: "n1".to_string(),
            location: "westus".to_string(),
            resource_type: "P.T/rt".to_string(),
            properties: Json::Obj(vec![
                ("propertyString".to_string(), Json::Str("v".to_string())),
                ("propertyInt".to_string(), Json::Int(7)),
            ]),
        },
        headers: vec![
            ("Accept".to_string(), vec!["application/json".to_string()]),
            (
                "X-Many".to_string(),
                vec!["one".to_string(), "two".to_string()],
            ),
        ],
    }
}

#[test]
fn decode_then_encode_preserves_resource_id_and_headers() {
    let env = sample_request();
    let text = encode_request(env);
    let back = decode_request(&text).unwrap();
    assert_eq!(
        back.resource_id,
        "/subscriptions/S1/resourceGroups/RG1/providers/P.T/rt/n1"
    );
    assert_eq!(
        back.headers,
        vec![
            ("Accept".to_string(), vec!["application/json".to_string()]),
            (
                "X-Many".to_string(),
                vec!["one".to_string(), "two".to_string()],
            ),
        ]
    );
    assert_eq!(back.request.name, "n1");
    assert_eq!(back.request.location, "westus");
    assert_eq!(back.request.resource_type, "P.T/rt");
    assert_eq!(
        back.request.properties,
        Json::Obj(vec![
            ("propertyInt".to_string(), Json::Int(7)),
            ("propertyString".to_string(), Json::Str("v".to_string())),
        ])
    );
}

#[test]
fn decode_rejects_malformed_text() {
    match decode_request("{ not json") {
        Err(DecodeError::Malformed) => {}
        _ => panic!("expected a malformed-input error"),
    }
    assert_eq!(
        DecodeError::Malformed.message(),
        "input is not a well-formed JSON document"
    );
}

#[test]
fn decode_rejects_missing_resource_id() {
    let text = r#"{"request": {"id": "i", "name": "n", "type": "t", "properties": {}}, "headers": {}}"#;
    match decode_request(text) {
        Err(DecodeError::Incompatible) => {}
        _ => panic!("expected a shape error"),
    }
}

#[test]
fn decode_rejects_wrong_type_for_resource_id() {
    let text = r#"{"resourceId": 5, "request": {"id": "i", "name": "n", "type": "t", "properties": {}}, "headers": {}}"#;
    match decode_request(text) {
        Err(DecodeError::Incompatible) => {}
        _ => panic!("expected a shape error"),
    }
}

#[test]
fn decode_rejects_header_value_that_is_not_a_string_list() {
    let text = r#"{"resourceId": "r", "request": {"id": "i", "name": "n", "type": "t", "properties": {}}, "headers": {"a": "not-a-list"}}"#;
    match decode_request(text) {
        Err(DecodeError::Incompatible) => {}
        _ => panic!("expected a shape error"),
    }
}

#[test]
fn decode_defaults_missing_location_to_empty() {
    let text = r#"{"resourceId": "r", "request": {"id": "i", "name": "n", "type": "t", "properties": null}, "headers": {}}"#;
    let env = decode_request(text).unwrap();
    assert_eq!(env.request.location, "");
    assert_eq!(env.request.properties, Json::Null);
}

#[test]
fn decode_ignores_unknown_keys() {
    let text = r#"{"resourceId": "r", "extra": true, "request": {"id": "i", "name": "n", "type": "t", "properties": 1, "spare": []}, "headers": {}}"#;
    let env = decode_request(text).unwrap();
    assert_eq!(env.resource_id, "r");
    assert_eq!(env.request.id, "i");
    assert_eq!(env.request.properties, Json::Int(1));
    assert!(env.headers.is_empty());
}

#[test]
fn encode_response_is_pretty_newline_terminated_json() {
    let resp = exit_success_with_status();
    let text = encode_response(resp);
    assert!(text.ends_with('\n'));
    let v: serde_json::Value = serde_json::from_str(&text).unwrap();
    assert_eq!(v["httpStatusCode"], serde_json::Value::from(200));
    assert_eq!(v["payload"]["status"], serde_json::Value::from("Succeeded"));
    assert!(v["payload"]["error"].is_null());
    assert!(v["headers"].as_object().unwrap().is_empty());
}

#[test]
fn encode_response_without_payload_writes_null() {
    let resp = exit_success_no_payload();
    let text = encode_response(resp);
    let v: serde_json::Value = serde_json::from_str(&text).unwrap();
    assert_eq!(v["httpStatusCode"], serde_json::Value::from(200));
    assert!(v["payload"].is_null());
}

#[test]
fn encode_response_echoes_resource() {
    let resp = exit_success_with_resource(Resource {
        id: "i".to_string(),
        name: "n".to_string(),
        location: "l".to_string(),
        resource_type: "t".to_string(),
        properties: Json::Bool(true),
    });
    let text = encode_response(resp);
    let v: serde_json::Value = serde_json::from_str(&text).unwrap();
    assert_eq!(v["payload"]["id"], serde_json::Value::from("i"));
    assert_eq!(v["payload"]["name"], serde_json::Value::from("n"));
    assert_eq!(v["payload"]["location"], serde_json::Value::from("l"));
    assert_eq!(v["payload"]["type"], serde_json::Value::from("t"));
    assert_eq!(v["payload"]["properties"], serde_json::Value::from(true));
}

#[test]
fn exit_error_builds_failure_envelope_and_trace() {
    let (resp, record) = exit_error("boom".to_string(), "Some Code", 500);
    assert_eq!(resp.http_status_code, 500);
    match &resp.payload {
        Some(ResponsePayload::Status { succeeded, error }) => {
            assert!(!succeeded);
            let d = error.as_ref().unwrap();
            assert_eq!(d.code, "Some Code");
            assert_eq!(d.message, "boom");
        }
        _ => panic!("expected a status payload"),
    }
    match record {
        TraceRecord::Error {
            code,
            message,
            status_code,
        } => {
            assert_eq!(code, "Some Code");
            assert_eq!(message, "boom");
            assert_eq!(status_code, 500);
        }
        _ => panic!("expected an error trace record"),
    }
    let text = encode_response(resp);
    let v: serde_json::Value = serde_json::from_str(&text).unwrap();
    assert_eq!(v["payload"]["status"], serde_json::Value::from("Failed"));
    assert_eq!(v["payload"]["error"]["code"], serde_json::Value::from("Some Code"));
    assert_eq!(v["payload"]["error"]["message"], serde_json::Value::from("boom"));
}

#[test]
fn decode_carries_numbers_outside_i64_as_literal_text() {
    let text = r#"{"resourceId": "r", "request": {"id": "i", "name": "n", "type": "t", "properties": 18446744073709551615}, "headers": {}}"#;
    let env = decode_request(text).unwrap();
    assert_eq!(
        env.request.properties,
        Json::Num("18446744073709551615".to_string())
    );
}

#[test]
fn fractional_properties_survive_a_full_round_trip() {
    let text = r#"{"resourceId": "r", "request": {"id": "i", "name": "n", "type": "t", "properties": {"ratio": 0.5}}, "headers": {}}"#;
    let env = decode_request(text).unwrap();
    assert_eq!(
        env.request.properties,
        Json::Obj(vec![("ratio".to_string(), Json::Num("0.5".to_string()))])
    );
    let back = decode_request(&encode_request(env)).unwrap();
    assert_eq!(
        back.request.properties,
        Json::Obj(vec![("ratio".to_string(), Json::Num("0.5".to_string()))])
    );
}

#[test]
fn decode_keeps_last_of_duplicate_keys() {
    let text = r#"{"resourceId": "first", "resourceId": "second", "request": {"id": "i", "name": "n", "type": "t", "properties": 0}, "headers": {}}"#;
    let env = decode_request(text).unwrap();
    assert_eq!(env.resource_id, "second");
}
