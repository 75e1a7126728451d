//! Decoder behaviour: one variant per recognized tag, the error taxonomy,
//! and decoding as a pure function of the bytes.

use vapi_core::json::{Json, JsonField};
use vapi_core::vapi::{DecodeError, VapiPayload};
use vapi_core::decode::decode_payload;
use vapi_core::wire::decode_request_bytes;

fn obj(fields: Vec<(&str, Json)>) -> Json {
    Json::Obj(
        fields
            .into_iter()
            .map(|(k, v)| JsonField { key: k.to_string(), value: v })
            .collect(),
    )
}

fn s(text: &str) -> Json {
    Json::Str(text.to_string())
}

fn envelope(tag: &str, extra: Vec<(&str, Json)>) -> Json {
    let mut fields = vec![("type", s(tag)), ("call", obj(vec![]))];
    fields.extend(extra);
    obj(fields)
}

#[test]
fn assistant_request_decodes_to_its_variant() {
    let r = decode_payload(&envelope("assistant-request", vec![]));
    match r {
        Ok(VapiPayload::AssistantRequestPayload(p)) => {
            assert_eq!(p.payload_type, "assistant-request");
        }
        other => panic!("wrong variant: {:?}", other),
    }
}

#[test]
fn status_update_decodes_to_its_variant() {
    let r = decode_payload(&envelope("status-update", vec![("status", s("in-progress"))]));
    match r {
        Ok(VapiPayload::StatusUpdatePayload(p)) => {
            assert_eq!(p.status, "in-progress");
            assert!(p.messages.is_none());
        }
        other => panic!("wrong variant: {:?}", other),
    }
}

#[test]
fn function_call_decodes_to_its_variant() {
    let fc = obj(vec![("name", s("getRandomName")), ("parameters", obj(vec![]))]);
    let r = decode_payload(&envelope("function-call", vec![("functionCall", fc)]));
    match r {
        Ok(VapiPayload::FunctionCallPayload(p)) => {
            assert_eq!(p.functionCall.name, "getRandomName");
            assert_eq!(p.functionCall.parameters, obj(vec![]));
        }
        other => panic!("wrong variant: {:?}", other),
    }
}

#[test]
fn end_of_call_report_decodes_messages() {
    let turn = obj(vec![
        ("role", s("assistant")),
        ("message", s("hello")),
        ("time", Json::Int(12)),
        ("seconds_from_start", Json::Int(3)),
    ]);
    let r = decode_payload(&envelope(
        "end-of-call-report",
        vec![
            ("ended_reason", s("hangup")),
            ("transcript", s("t")),
            ("messages", Json::Arr(vec![turn])),
            ("summary", s("sum")),
        ],
    ));
    match r {
        Ok(VapiPayload::EndOfCallReportPayload(p)) => {
            assert_eq!(p.ended_reason, "hangup");
            assert_eq!(p.messages.len(), 1);
            assert_eq!(p.messages[0].role, "assistant");
            assert_eq!(p.messages[0].message.as_deref(), Some("hello"));
            assert_eq!(p.messages[0].time, 12);
            assert_eq!(p.messages[0].end_time, None);
            assert_eq!(p.messages[0].seconds_from_start, 3);
            assert_eq!(p.recording_url, None);
        }
        other => panic!("wrong variant: {:?}", other),
    }
}

#[test]
fn hang_decodes_to_its_variant() {
    let r = decode_payload(&envelope("hang", vec![]));
    assert!(matches!(r, Ok(VapiPayload::HangPayload(_))));
}

#[test]
fn speech_update_decodes_to_its_variant() {
    let r = decode_payload(&envelope(
        "speech-update",
        vec![("status", s("started")), ("role", s("assistant"))],
    ));
    match r {
        Ok(VapiPayload::SpeechUpdatePayload(p)) => {
            assert_eq!(p.status, "started");
            assert_eq!(p.role, "assistant");
        }
        other => panic!("wrong variant: {:?}", other),
    }
}

#[test]
fn transcript_decodes_to_its_variant() {
    let r = decode_payload(&envelope(
        "transcript",
        vec![
            ("role", s("user")),
            ("transcript_type", s("final")),
            ("transcript", s("hi there")),
        ],
    ));
    match r {
        Ok(VapiPayload::TranscriptPayload(p)) => {
            assert_eq!(p.transcript, "hi there");
        }
        other => panic!("wrong variant: {:?}", other),
    }
}

#[test]
fn bogus_tag_fails_with_unknown_discriminant() {
    let r = decode_payload(&envelope("bogus", vec![]));
    assert_eq!(r, Err(DecodeError::UnknownDiscriminant("bogus".to_string())));
}

#[test]
fn missing_tag_fails_with_missing_discriminant() {
    let r = decode_payload(&obj(vec![("call", obj(vec![]))]));
    assert_eq!(r, Err(DecodeError::MissingDiscriminant));
}

#[test]
fn non_string_tag_fails_with_missing_discriminant() {
    let r = decode_payload(&obj(vec![("type", Json::Int(3)), ("call", obj(vec![]))]));
    assert_eq!(r, Err(DecodeError::MissingDiscriminant));
}

#[test]
fn missing_call_is_malformed() {
    let r = decode_payload(&obj(vec![("type", s("hang"))]));
    assert_eq!(
        r,
        Err(DecodeError::MalformedVariant("hang".to_string(), "call".to_string()))
    );
}

#[test]
fn transcript_without_role_is_malformed() {
    let r = decode_payload(&envelope("transcript", vec![]));
    assert_eq!(
        r,
        Err(DecodeError::MalformedVariant("transcript".to_string(), "role".to_string()))
    );
}

#[test]
fn function_call_without_parameters_is_malformed() {
    let fc = obj(vec![("name", s("getRandomName"))]);
    let r = decode_payload(&envelope("function-call", vec![("functionCall", fc)]));
    assert_eq!(
        r,
        Err(DecodeError::MalformedVariant(
            "function-call".to_string(),
            "functionCall.parameters".to_string()
        ))
    );
}

#[test]
fn status_update_with_numeric_status_is_malformed() {
    let r = decode_payload(&envelope("status-update", vec![("status", Json::Int(2))]));
    assert_eq!(
        r,
        Err(DecodeError::MalformedVariant(
            "status-update".to_string(),
            "status".to_string()
        ))
    );
}

#[test]
fn end_of_call_report_with_bad_turn_is_malformed() {
    let bad_turn = obj(vec![("role", s("assistant"))]);
    let r = decode_payload(&envelope(
        "end-of-call-report",
        vec![
            ("ended_reason", s("hangup")),
            ("transcript", s("t")),
            ("messages", Json::Arr(vec![bad_turn])),
            ("summary", s("sum")),
        ],
    ));
    assert_eq!(
        r,
        Err(DecodeError::MalformedVariant(
            "end-of-call-report".to_string(),
            "messages".to_string()
        ))
    );
}

#[test]
fn request_bytes_decode_the_message_envelope() {
    let bytes = br#"{"message":{"type":"hang","call":{}}}"#;
    let r = decode_request_bytes(bytes);
    assert!(matches!(r, Ok(VapiPayload::HangPayload(_))));
}

#[test]
fn request_without_message_has_no_discriminant() {
    let r = decode_request_bytes(br#"{"other":1}"#);
    assert_eq!(r, Err(DecodeError::MissingDiscriminant));
}

#[test]
fn non_json_bytes_are_invalid() {
    let r = decode_request_bytes(b"not json at all");
    assert_eq!(r, Err(DecodeError::InvalidJson));
}

#[test]
fn fractional_numbers_are_invalid() {
    let r = decode_request_bytes(br#"{"message":{"type":"hang","call":{},"x":1.5}}"#);
    assert_eq!(r, Err(DecodeError::InvalidJson));
}

#[test]
fn decoding_same_bytes_twice_is_structurally_equal() {
    let bytes = br#"{"message":{"type":"transcript","call":{},"role":"user","transcript_type":"partial","transcript":"so"}}"#;
    let first = decode_request_bytes(bytes);
    let second = decode_request_bytes(bytes);
    assert_eq!(first, second);
    let bogus = br#"{"message":{"type":"bogus","call":{}}}"#;
    assert_eq!(decode_request_bytes(bogus), decode_request_bytes(bogus));
}

#[test]
fn status_update_keeps_raw_prior_messages() {
    let msgs = Json::Arr(vec![
        obj(vec![("role", s("assistant")), ("content", s("hello"))]),
        Json::Int(7),
    ]);
    let r = decode_payload(&envelope(
        "status-update",
        vec![("status", s("ended")), ("messages", msgs)],
    ));
    match r {
        Ok(VapiPayload::StatusUpdatePayload(p)) => {
            let kept = p.messages.expect("messages kept");
            assert_eq!(kept.len(), 2);
            assert_eq!(kept[1], Json::Int(7));
        }
        other => panic!("wrong variant: {:?}", other),
    }
}

#[test]
fn conversation_turn_optional_fields_decode() {
    let turn = obj(vec![
        ("role", s("function")),
        ("name", s("getRandomName")),
        ("args", s("{}")),
        ("result", s("Jane")),
        ("time", Json::Int(5)),
        ("end_time", Json::Int(9)),
        ("seconds_from_start", Json::Int(1)),
        ("message", Json::Null),
    ]);
    let r = decode_payload(&envelope(
        "end-of-call-report",
        vec![
            ("ended_reason", s("done")),
            ("transcript", s("t")),
            ("messages", Json::Arr(vec![turn])),
            ("summary", s("s")),
            ("recording_url", s("https://example.invalid/rec.wav")),
        ],
    ));
    match r {
        Ok(VapiPayload::EndOfCallReportPayload(p)) => {
            let m = &p.messages[0];
            assert_eq!(m.name.as_deref(), Some("getRandomName"));
            assert_eq!(m.args.as_deref(), Some("{}"));
            assert_eq!(m.result.as_deref(), Some("Jane"));
            assert_eq!(m.end_time, Some(9));
            assert_eq!(m.message, None);
            assert_eq!(p.recording_url.as_deref(), Some("https://example.invalid/rec.wav"));
        }
        other => panic!("wrong variant: {:?}", other),
    }
}

#[test]
fn bogus_tag_over_bytes_fails_the_same_way() {
    let r = decode_request_bytes(br#"{"message":{"type":"bogus","call":{}}}"#);
    assert_eq!(r, Err(DecodeError::UnknownDiscriminant("bogus".to_string())));
}

#[test]
fn unknown_extra_fields_are_ignored() {
    let r = decode_payload(&envelope("hang", vec![("extra", Json::Bool(true))]));
    assert!(matches!(r, Ok(VapiPayload::HangPayload(_))));
}
