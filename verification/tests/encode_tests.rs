//! Encoder behaviour: exact wire text for each response variant, string
//! escaping, integer rendering, and the round trip that keeps an unset
//! `result` unset.

use vapi_core::encode::{
    encode_response, function_call_response_from_json, function_call_response_json, write_json,
};
use vapi_core::json::{Json, JsonField};
use vapi_core::vapi::{
    AssistantRequestMessageResponse, FunctionCallMessageResponse, VapiResponse,
};
use vapi_core::wire::json_from_bytes;

fn obj(fields: Vec<(&str, Json)>) -> Json {
    Json::Obj(
        fields
            .into_iter()
            .map(|(k, v)| JsonField { key: k.to_string(), value: v })
            .collect(),
    )
}

#[test]
fn scalars_have_their_canonical_text() {
    assert_eq!(write_json(&Json::Null), "null");
    assert_eq!(write_json(&Json::Bool(true)), "true");
    assert_eq!(write_json(&Json::Bool(false)), "false");
    assert_eq!(write_json(&Json::Int(0)), "0");
    assert_eq!(write_json(&Json::Int(1234567890)), "1234567890");
    assert_eq!(write_json(&Json::Int(-42)), "-42");
    assert_eq!(write_json(&Json::Int(i64::MAX)), "9223372036854775807");
    assert_eq!(write_json(&Json::Int(i64::MIN)), "-9223372036854775808");
}

#[test]
fn strings_are_escaped() {
    assert_eq!(
        write_json(&Json::Str("a\"b\\c\nd\te\r".to_string())),
        "\"a\\\"b\\\\c\\nd\\te\\r\""
    );
    assert_eq!(write_json(&Json::Str("\u{1}\u{1f}".to_string())), "\"\\u0001\\u001f\"");
    assert_eq!(write_json(&Json::Str("plain".to_string())), "\"plain\"");
}

#[test]
fn arrays_and_objects_nest() {
    let j = obj(vec![
        ("xs", Json::Arr(vec![Json::Int(1), Json::Str("two".to_string()), Json::Null])),
        ("o", obj(vec![("k", Json::Bool(false))])),
    ]);
    assert_eq!(write_json(&j), r#"{"xs":[1,"two",null],"o":{"k":false}}"#);
    assert_eq!(write_json(&Json::Arr(vec![])), "[]");
    assert_eq!(write_json(&obj(vec![])), "{}");
}

#[test]
fn function_call_response_has_exact_wire_text() {
    let r = VapiResponse::FunctionCallMessageResponse(FunctionCallMessageResponse {
        result: Some("Jane Doe".to_string()),
        forwardToClientEnabled: Some(false),
    });
    assert_eq!(
        encode_response(&r),
        r#"{"result":"Jane Doe","forwardToClientEnabled":false}"#
    );
}

#[test]
fn unset_fields_are_encoded_as_null() {
    let r = VapiResponse::FunctionCallMessageResponse(FunctionCallMessageResponse {
        result: None,
        forwardToClientEnabled: None,
    });
    assert_eq!(encode_response(&r), r#"{"result":null,"forwardToClientEnabled":null}"#);
}

#[test]
fn assistant_request_response_has_exact_wire_text() {
    let r = VapiResponse::AssistantRequestMessageResponse(AssistantRequestMessageResponse {
        assistant: None,
        error: Some("Assistant request handled".to_string()),
    });
    assert_eq!(
        encode_response(&r),
        r#"{"assistant":null,"error":"Assistant request handled"}"#
    );
}

#[test]
fn acknowledgment_map_has_exact_wire_text() {
    let r = VapiResponse::HangMessageResponse(vec![(
        "message".to_string(),
        "Hang handled".to_string(),
    )]);
    assert_eq!(encode_response(&r), r#"{"message":"Hang handled"}"#);
}

#[test]
fn assistant_profile_encodes_all_declared_fields() {
    let a = vapi_core::inbound::inbound_assistant();
    let r = VapiResponse::AssistantRequestMessageResponse(AssistantRequestMessageResponse {
        assistant: Some(a),
        error: None,
    });
    let text = encode_response(&r);
    assert!(text.starts_with(r#"{"assistant":{"name":"Paula","#));
    assert!(text.contains(r#""first_message":"Hi, I'm Paula, your personal email assistant.""#));
    assert!(text.ends_with(r#","error":null}"#));
}

#[test]
fn round_trip_preserves_unset_result() {
    let original = FunctionCallMessageResponse {
        result: None,
        forwardToClientEnabled: Some(false),
    };
    let text = encode_response(&VapiResponse::FunctionCallMessageResponse(original));
    assert_eq!(text, r#"{"result":null,"forwardToClientEnabled":false}"#);
    let parsed = json_from_bytes(text.as_bytes()).expect("the wire text parses back");
    let decoded = function_call_response_from_json(&parsed).expect("the response decodes back");
    assert_eq!(decoded.result, None);
    assert_eq!(decoded.forwardToClientEnabled, Some(false));
    let expected = FunctionCallMessageResponse {
        result: None,
        forwardToClientEnabled: Some(false),
    };
    assert_eq!(decoded, expected);
}

#[test]
fn round_trip_preserves_set_result() {
    let original = FunctionCallMessageResponse {
        result: Some("ok".to_string()),
        forwardToClientEnabled: None,
    };
    let j = function_call_response_json(&original);
    let decoded = function_call_response_from_json(&j).expect("the response decodes back");
    assert_eq!(decoded.result.as_deref(), Some("ok"));
    assert_eq!(decoded.forwardToClientEnabled, None);
}

#[test]
fn encoded_responses_parse_back_as_json() {
    let r = VapiResponse::FunctionCallMessageResponse(FunctionCallMessageResponse {
        result: Some("line1\nline2 \"quoted\"".to_string()),
        forwardToClientEnabled: Some(true),
    });
    let text = encode_response(&r);
    let parsed = json_from_bytes(text.as_bytes()).expect("escaped output is valid JSON");
    let decoded = function_call_response_from_json(&parsed).expect("decodes back");
    assert_eq!(decoded.result.as_deref(), Some("line1\nline2 \"quoted\""));
}
