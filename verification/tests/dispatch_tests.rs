//! Dispatcher and router behaviour: registry resolution, the degradation
//! paths, and the acknowledgment responses.

use vapi_core::dispatch::{
    finish_random_name, plan_function_call, resolve_function, route_payload, DispatchStep,
    KnownFunction, RouteOutcome,
};
use vapi_core::functions::FunctionError;
use vapi_core::json::{Json, JsonField};
use vapi_core::vapi::{VapiPayload, VapiResponse};
use vapi_core::wire::decode_request_bytes;

fn obj(fields: Vec<(&str, Json)>) -> Json {
    Json::Obj(
        fields
            .into_iter()
            .map(|(k, v)| JsonField { key: k.to_string(), value: v })
            .collect(),
    )
}

fn s(text: &str) -> Json {
    Json::Str(text.to_string())
}

#[test]
fn registry_resolves_known_names_only() {
    assert_eq!(resolve_function("getRandomName"), Some(KnownFunction::GetRandomName));
    assert_eq!(
        resolve_function("getCharacterInspiration"),
        Some(KnownFunction::GetCharacterInspiration)
    );
    assert_eq!(resolve_function("sendEmail"), None);
    assert_eq!(resolve_function(""), None);
}

#[test]
fn random_name_call_resolves_and_returns_nonempty_result() {
    let bytes = br#"{"message":{"type":"function-call","call":{},"functionCall":{"name":"getRandomName","parameters":{}}}}"#;
    let payload = decode_request_bytes(bytes).expect("decode succeeds");
    let pending = match route_payload(&payload) {
        RouteOutcome::CallRandomName(p) => p,
        other => panic!("expected a pending random-name call, got {:?}", other),
    };
    assert_eq!(pending.gender, None);
    assert_eq!(pending.nat, None);
    // The capability is mocked: it answers a fixed name.
    let response = finish_random_name(Ok("Jane Doe".to_string()));
    assert_eq!(response.forwardToClientEnabled, Some(false));
    let result = response.result.expect("a result is present");
    assert!(!result.is_empty());
    assert_eq!(result, "Jane Doe");
}

#[test]
fn unknown_function_name_answers_empty_result() {
    let fc_payload = obj(vec![("name", s("noSuchFunction")), ("parameters", obj(vec![]))]);
    let envelope = obj(vec![
        ("type", s("function-call")),
        ("call", obj(vec![])),
        ("functionCall", fc_payload),
    ]);
    let payload = vapi_core::decode::decode_payload(&envelope).expect("decode succeeds");
    match route_payload(&payload) {
        RouteOutcome::Done(VapiResponse::FunctionCallMessageResponse(r)) => {
            assert_eq!(r.result, Some(String::new()));
            assert_eq!(r.forwardToClientEnabled, Some(false));
        }
        other => panic!("expected a settled function-call response, got {:?}", other),
    }
}

#[test]
fn undecodable_name_params_answer_the_fixed_fallback() {
    let fc = vapi_core::vapi::OpenAIFunctionCall {
        name: "getRandomName".to_string(),
        parameters: Json::Null,
    };
    match plan_function_call(&fc) {
        DispatchStep::Respond(r) => {
            assert_eq!(
                r.result.as_deref(),
                Some("Not enough information provided to generate name. Can u tell me ")
            );
            assert_eq!(r.forwardToClientEnabled, Some(false));
        }
        other => panic!("expected a settled response, got {:?}", other),
    }
}

#[test]
fn capability_failure_answers_the_fixed_fallback() {
    let response = finish_random_name(Err(FunctionError::HttpStatus(500)));
    assert_eq!(response.result.as_deref(), Some("Failed to get random name"));
    assert_eq!(response.forwardToClientEnabled, Some(false));
    let response = finish_random_name(Err(FunctionError::NoUser));
    assert_eq!(response.result.as_deref(), Some("Failed to get random name"));
}

#[test]
fn character_inspiration_with_prompt_is_forwarded() {
    let fc = vapi_core::vapi::OpenAIFunctionCall {
        name: "getCharacterInspiration".to_string(),
        parameters: obj(vec![("inspiration", s("a stoic sailor"))]),
    };
    match plan_function_call(&fc) {
        DispatchStep::Respond(r) => {
            assert_eq!(r.forwardToClientEnabled, Some(true));
            assert!(r.result.unwrap().contains("placeholder response"));
        }
        other => panic!("expected a settled response, got {:?}", other),
    }
}

#[test]
fn character_inspiration_without_prompt_falls_back() {
    let fc = vapi_core::vapi::OpenAIFunctionCall {
        name: "getCharacterInspiration".to_string(),
        parameters: obj(vec![]),
    };
    match plan_function_call(&fc) {
        DispatchStep::Respond(r) => {
            assert_eq!(r.forwardToClientEnabled, Some(false));
            assert!(r.result.unwrap().starts_with("Sorry, I am dealing with a technical issue"));
        }
        other => panic!("expected a settled response, got {:?}", other),
    }
}

#[test]
fn hang_answers_its_acknowledgment() {
    let bytes = br#"{"message":{"type":"hang","call":{}}}"#;
    let payload = decode_request_bytes(bytes).expect("decode succeeds");
    match route_payload(&payload) {
        RouteOutcome::Done(VapiResponse::HangMessageResponse(m)) => {
            assert!(m.contains(&("message".to_string(), "Hang handled".to_string())));
        }
        other => panic!("expected a hang acknowledgment, got {:?}", other),
    }
}

#[test]
fn each_event_kind_answers_its_own_response_variant() {
    let status = VapiPayload::StatusUpdatePayload(vapi_core::vapi::StatusUpdatePayload {
        call: vapi_core::vapi::VapiCall {},
        payload_type: "status-update".to_string(),
        status: "ended".to_string(),
        messages: None,
    });
    match route_payload(&status) {
        RouteOutcome::Done(VapiResponse::StatusUpdateMessageResponse(m)) => {
            assert!(m.contains(&("message".to_string(), "Status update handled".to_string())));
        }
        other => panic!("wrong response variant: {:?}", other),
    }

    let assistant_req =
        VapiPayload::AssistantRequestPayload(vapi_core::vapi::AssistantRequestPayload {
            call: vapi_core::vapi::VapiCall {},
            payload_type: "assistant-request".to_string(),
        });
    match route_payload(&assistant_req) {
        RouteOutcome::Done(VapiResponse::AssistantRequestMessageResponse(r)) => {
            assert!(r.assistant.is_none());
            assert_eq!(r.error.as_deref(), Some("Assistant request handled"));
        }
        other => panic!("wrong response variant: {:?}", other),
    }

    let speech = VapiPayload::SpeechUpdatePayload(vapi_core::vapi::SpeechUpdatePayload {
        call: vapi_core::vapi::VapiCall {},
        payload_type: "speech-update".to_string(),
        status: "started".to_string(),
        role: "assistant".to_string(),
    });
    match route_payload(&speech) {
        RouteOutcome::Done(VapiResponse::SpeechUpdateMessageResponse(m)) => {
            assert!(m.contains(&("message".to_string(), "Speech update handled".to_string())));
        }
        other => panic!("wrong response variant: {:?}", other),
    }

    let transcript = VapiPayload::TranscriptPayload(vapi_core::vapi::TranscriptPayload {
        call: vapi_core::vapi::VapiCall {},
        payload_type: "transcript".to_string(),
        role: "user".to_string(),
        transcript_type: "final".to_string(),
        transcript: "words".to_string(),
    });
    match route_payload(&transcript) {
        RouteOutcome::Done(VapiResponse::TranscriptMessageResponse(m)) => {
            assert!(m.contains(&("message".to_string(), "Transcript handled".to_string())));
        }
        other => panic!("wrong response variant: {:?}", other),
    }

    let report = VapiPayload::EndOfCallReportPayload(vapi_core::vapi::EndOfCallReportPayload {
        call: vapi_core::vapi::VapiCall {},
        payload_type: "end-of-call-report".to_string(),
        ended_reason: "hangup".to_string(),
        transcript: "t".to_string(),
        messages: vec![],
        summary: "s".to_string(),
        recording_url: None,
    });
    match route_payload(&report) {
        RouteOutcome::Done(VapiResponse::EndOfCallReportMessageResponse(m)) => {
            assert!(m.contains(&("message".to_string(), "End of call report handled".to_string())));
        }
        other => panic!("wrong response variant: {:?}", other),
    }
}
