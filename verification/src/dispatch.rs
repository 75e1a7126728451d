//! The function registry, the function-call dispatcher and the event
//! router.
//!
//! The registry maps a function name to a known capability.  The dispatcher
//! resolves a `function-call` event against it and degrades every failure —
//! unknown name, malformed parameters, capability failure — into a
//! well-formed response rather than a transport error.  The router answers
//! each event variant with the response variant that corresponds to it; the
//! one capability needing outside work (the random name lookup) is handed
//! back to the caller as a pending call, whose outcome
//! [`finish_random_name`] turns into the response.

use vstd::prelude::*;

use crate::functions::{
    get_character_inspiration, char_params_from_json, name_params_from_json, spec_char_params_from_json,
    spec_get_character_inspiration, spec_name_params_from_json, FunctionError, FunctionErrorV,
    GetCharacterInspirationParams, GetCharacterInspirationParamsV, NameParams, NameParamsV,
};
use crate::json::str_eq;
use crate::vapi::{
    AssistantRequestMessageResponse, AssistantRequestMessageResponseV, FunctionCallMessageResponse,
    FunctionCallMessageResponseV, OpenAIFunctionCall, OpenAIFunctionCallV, VapiPayload, VapiPayloadV,
    VapiResponse, VapiResponseV,
};

verus! {

/// A capability the registry knows.  Membership is static: these are the
/// functions this build can resolve.
#[derive(Debug, PartialEq, Eq, Structural, Clone, Copy)]
pub enum KnownFunction {
    GetRandomName,
    GetCharacterInspiration,
}

/// What a function name resolves to.
pub open spec fn spec_resolve(name: Seq<char>) -> Option<KnownFunction> {
    if name == "getRandomName"@ {
        Some(KnownFunction::GetRandomName)
    } else if name == "getCharacterInspiration"@ {
        Some(KnownFunction::GetCharacterInspiration)
    } else {
        None
    }
}

/// Resolves a function name against the registry.
pub fn resolve_function(name: &str) -> (r: Option<KnownFunction>)
    ensures
        r == spec_resolve(name@),
{
    if str_eq(name, "getRandomName") {
        Some(KnownFunction::GetRandomName)
    } else if str_eq(name, "getCharacterInspiration") {
        Some(KnownFunction::GetCharacterInspiration)
    } else {
        None
    }
}

/// The fixed fallback the dispatcher answers when the random-name
/// parameters cannot be decoded.
pub open spec fn spec_name_params_fallback() -> Seq<char> {
    "Not enough information provided to generate name. Can u tell me "@
}

/// The fixed fallback the dispatcher answers when the random-name
/// capability fails.
pub open spec fn spec_name_failure_fallback() -> Seq<char> {
    "Failed to get random name"@
}

/// What the dispatcher decides for a `function-call` event before any
/// outside work.
pub enum DispatchStepV {
    /// The response is settled without an outside call.
    Respond(FunctionCallMessageResponseV),
    /// The random-name capability must be invoked with these parameters.
    CallRandomName(NameParamsV),
}

/// The dispatcher's decision for a `function-call` event.
#[derive(Debug, PartialEq)]
pub enum DispatchStep {
    /// The response is settled without an outside call.
    Respond(FunctionCallMessageResponse),
    /// The random-name capability must be invoked with these parameters.
    CallRandomName(NameParams),
}

impl DeepView for DispatchStep {
    type V = DispatchStepV;

    open spec fn deep_view(&self) -> DispatchStepV {
        match self {
            DispatchStep::Respond(r) => DispatchStepV::Respond(r.deep_view()),
            DispatchStep::CallRandomName(p) => DispatchStepV::CallRandomName(p.deep_view()),
        }
    }
}

/// A settled function-call response with the given result, never forwarded.
pub open spec fn spec_plain_result(result: Seq<char>) -> FunctionCallMessageResponseV {
    FunctionCallMessageResponseV { result: Some(result), forwardToClientEnabled: Some(false) }
}

/// What the dispatcher decides for a function call:
/// - an unresolved name answers the empty result, not forwarded;
/// - `getRandomName` with undecodable parameters answers the fixed
///   fallback, else the capability must be called;
/// - `getCharacterInspiration` answers its capability's result directly,
///   with undecodable parameters read as the default record.
pub open spec fn spec_plan_function_call(fc: OpenAIFunctionCallV) -> DispatchStepV {
    match spec_resolve(fc.name) {
        None => DispatchStepV::Respond(spec_plain_result(Seq::empty())),
        Some(KnownFunction::GetRandomName) => match spec_name_params_from_json(fc.parameters) {
            None => DispatchStepV::Respond(spec_plain_result(spec_name_params_fallback())),
            Some(p) => DispatchStepV::CallRandomName(p),
        },
        Some(KnownFunction::GetCharacterInspiration) => {
            let p = match spec_char_params_from_json(fc.parameters) {
                Some(p) => p,
                None => GetCharacterInspirationParamsV { inspiration: Seq::empty() },
            };
            let resp = spec_get_character_inspiration(p);
            DispatchStepV::Respond(
                FunctionCallMessageResponseV {
                    result: Some(resp.result),
                    forwardToClientEnabled: Some(resp.forward_to_client_enabled),
                },
            )
        },
    }
}

/// Decides a `function-call` event: resolve, decode parameters, and either
/// settle the response or hand back the pending random-name call.
pub fn plan_function_call(fc: &OpenAIFunctionCall) -> (r: DispatchStep)
    ensures
        r.deep_view() == spec_plan_function_call(fc.deep_view()),
{
    match resolve_function(fc.name.as_str()) {
        None => DispatchStep::Respond(
            FunctionCallMessageResponse {
                result: Some(String::new()),
                forwardToClientEnabled: Some(false),
            },
        ),
        Some(KnownFunction::GetRandomName) => match name_params_from_json(&fc.parameters) {
            None => DispatchStep::Respond(
                FunctionCallMessageResponse {
                    result: Some(
                        "Not enough information provided to generate name. Can u tell me ".to_owned(),
                    ),
                    forwardToClientEnabled: Some(false),
                },
            ),
            Some(p) => DispatchStep::CallRandomName(p),
        },
        Some(KnownFunction::GetCharacterInspiration) => {
            let p = match char_params_from_json(&fc.parameters) {
                Some(p) => p,
                None => GetCharacterInspirationParams::default(),
            };
            let resp = get_character_inspiration(p);
            DispatchStep::Respond(
                FunctionCallMessageResponse {
                    result: Some(resp.result),
                    forwardToClientEnabled: Some(resp.forward_to_client_enabled),
                },
            )
        },
    }
}

/// What the random-name outcome settles to: the name on success, the fixed
/// fallback on any capability failure.
pub open spec fn spec_finish_random_name(outcome: Result<Seq<char>, FunctionErrorV>)
    -> FunctionCallMessageResponseV {
    match outcome {
        Ok(name) => spec_plain_result(name),
        Err(_) => spec_plain_result(spec_name_failure_fallback()),
    }
}

/// Settles the random-name capability's outcome into the response.
pub fn finish_random_name(outcome: Result<String, FunctionError>) -> (r:
    FunctionCallMessageResponse)
    ensures
        r.deep_view() == spec_finish_random_name(
            match outcome {
                Ok(name) => Ok(name@),
                Err(e) => Err(e.deep_view()),
            },
        ),
{
    match outcome {
        Ok(name) => FunctionCallMessageResponse {
            result: Some(name),
            forwardToClientEnabled: Some(false),
        },
        Err(_) => FunctionCallMessageResponse {
            result: Some("Failed to get random name".to_owned()),
            forwardToClientEnabled: Some(false),
        },
    }
}

/// What the router decides for an event.
pub enum RouteOutcomeV {
    /// The response is settled.
    Done(VapiResponseV),
    /// The random-name capability must be invoked; its outcome settles the
    /// response through [`spec_finish_random_name`].
    CallRandomName(NameParamsV),
}

/// The router's decision for an event.
#[derive(Debug, PartialEq)]
pub enum RouteOutcome {
    /// The response is settled.
    Done(VapiResponse),
    /// The random-name capability must be invoked; its outcome settles the
    /// response through [`finish_random_name`].
    CallRandomName(NameParams),
}

impl DeepView for RouteOutcome {
    type V = RouteOutcomeV;

    open spec fn deep_view(&self) -> RouteOutcomeV {
        match self {
            RouteOutcome::Done(r) => RouteOutcomeV::Done(r.deep_view()),
            RouteOutcome::CallRandomName(p) => RouteOutcomeV::CallRandomName(p.deep_view()),
        }
    }
}

/// The acknowledgment map of one handled event kind.
pub open spec fn spec_ack(message: Seq<char>) -> Seq<(Seq<char>, Seq<char>)> {
    seq![("message"@, message)]
}

/// Builds the one-entry acknowledgment map.
fn ack(message: &str) -> (m: Vec<(String, String)>)
    ensures
        m.deep_view() == spec_ack(message@),
{
    let mut m: Vec<(String, String)> = Vec::new();
    m.push(("message".to_owned(), message.to_owned()));
    proof {
        assert(m.deep_view() =~= spec_ack(message@));
    }
    m
}

/// What the router answers each event variant:
/// - `assistant-request`: an `AssistantRequestMessageResponse` without an
///   assistant, its error field noting how the request was handled;
/// - `function-call`: the dispatcher's decision;
/// - every other variant: the acknowledgment map naming the handled kind.
pub open spec fn spec_route_payload(p: VapiPayloadV) -> RouteOutcomeV {
    match p {
        VapiPayloadV::AssistantRequestPayload(_) => RouteOutcomeV::Done(
            VapiResponseV::AssistantRequestMessageResponse(
                AssistantRequestMessageResponseV {
                    assistant: None,
                    error: Some("Assistant request handled"@),
                },
            ),
        ),
        VapiPayloadV::StatusUpdatePayload(_) => RouteOutcomeV::Done(
            VapiResponseV::StatusUpdateMessageResponse(spec_ack("Status update handled"@)),
        ),
        VapiPayloadV::FunctionCallPayload(fc) => match spec_plan_function_call(fc.functionCall) {
            DispatchStepV::Respond(r) => RouteOutcomeV::Done(
                VapiResponseV::FunctionCallMessageResponse(r),
            ),
            DispatchStepV::CallRandomName(np) => RouteOutcomeV::CallRandomName(np),
        },
        VapiPayloadV::EndOfCallReportPayload(_) => RouteOutcomeV::Done(
            VapiResponseV::EndOfCallReportMessageResponse(spec_ack("End of call report handled"@)),
        ),
        VapiPayloadV::HangPayload(_) => RouteOutcomeV::Done(
            VapiResponseV::HangMessageResponse(spec_ack("Hang handled"@)),
        ),
        VapiPayloadV::SpeechUpdatePayload(_) => RouteOutcomeV::Done(
            VapiResponseV::SpeechUpdateMessageResponse(spec_ack("Speech update handled"@)),
        ),
        VapiPayloadV::TranscriptPayload(_) => RouteOutcomeV::Done(
            VapiResponseV::TranscriptMessageResponse(spec_ack("Transcript handled"@)),
        ),
    }
}

/// Routes a decoded event to its handler and hands back the decision.
pub fn route_payload(p: &VapiPayload) -> (r: RouteOutcome)
    ensures
        r.deep_view() == spec_route_payload(p.deep_view()),
{
    match p {
        VapiPayload::AssistantRequestPayload(_) => RouteOutcome::Done(
            VapiResponse::AssistantRequestMessageResponse(
                AssistantRequestMessageResponse {
                    assistant: None,
                    error: Some("Assistant request handled".to_owned()),
                },
            ),
        ),
        VapiPayload::StatusUpdatePayload(_) => RouteOutcome::Done(
            VapiResponse::StatusUpdateMessageResponse(ack("Status update handled")),
        ),
        VapiPayload::FunctionCallPayload(fc) => match plan_function_call(&fc.functionCall) {
            DispatchStep::Respond(r) => RouteOutcome::Done(
                VapiResponse::FunctionCallMessageResponse(r),
            ),
            DispatchStep::CallRandomName(np) => RouteOutcome::CallRandomName(np),
        },
        VapiPayload::EndOfCallReportPayload(_) => RouteOutcome::Done(
            VapiResponse::EndOfCallReportMessageResponse(ack("End of call report handled")),
        ),
        VapiPayload::HangPayload(_) => RouteOutcome::Done(
            VapiResponse::HangMessageResponse(ack("Hang handled")),
        ),
        VapiPayload::SpeechUpdatePayload(_) => RouteOutcome::Done(
            VapiResponse::SpeechUpdateMessageResponse(ack("Speech update handled")),
        ),
        VapiPayload::TranscriptPayload(_) => RouteOutcome::Done(
            VapiResponse::TranscriptMessageResponse(ack("Transcript handled")),
        ),
    }
}

/// Whether a response variant is the one that answers an event variant.
pub open spec fn spec_response_matches_payload(p: VapiPayloadV, r: VapiResponseV) -> bool {
    match p {
        VapiPayloadV::AssistantRequestPayload(_) => r is AssistantRequestMessageResponse,
        VapiPayloadV::StatusUpdatePayload(_) => r is StatusUpdateMessageResponse,
        VapiPayloadV::FunctionCallPayload(_) => r is FunctionCallMessageResponse,
        VapiPayloadV::EndOfCallReportPayload(_) => r is EndOfCallReportMessageResponse,
        VapiPayloadV::HangPayload(_) => r is HangMessageResponse,
        VapiPayloadV::SpeechUpdatePayload(_) => r is SpeechUpdateMessageResponse,
        VapiPayloadV::TranscriptPayload(_) => r is TranscriptMessageResponse,
    }
}

/// An unresolved function name settles silently: whatever else the event
/// holds, the response is exactly the empty result, not forwarded.
pub proof fn lemma_unresolved_function_answers_empty(p: VapiPayloadV)
    requires
        p matches VapiPayloadV::FunctionCallPayload(fc) && spec_resolve(fc.functionCall.name)
            is None,
    ensures
        spec_route_payload(p) == RouteOutcomeV::Done(
            VapiResponseV::FunctionCallMessageResponse(spec_plain_result(Seq::empty())),
        ),
{
}

/// Every `hang` event is answered with the acknowledgment map holding the
/// entry `message: Hang handled`.
pub proof fn lemma_hang_answers_acknowledgment(p: VapiPayloadV)
    requires
        p is HangPayload,
    ensures
        spec_route_payload(p) == RouteOutcomeV::Done(
            VapiResponseV::HangMessageResponse(spec_ack("Hang handled"@)),
        ),
{
}

/// The response variant always corresponds to the event variant it answers:
/// a settled route carries the matching variant, and a pending random-name
/// call can only come from a `function-call` event, whose every outcome
/// settles into a `FunctionCallMessageResponse`.
pub proof fn lemma_route_response_matches(p: VapiPayloadV, outcome: Result<
    Seq<char>,
    FunctionErrorV,
>)
    ensures
        match spec_route_payload(p) {
            RouteOutcomeV::Done(r) => spec_response_matches_payload(p, r),
            RouteOutcomeV::CallRandomName(_) => p is FunctionCallPayload
                && spec_response_matches_payload(
                p,
                VapiResponseV::FunctionCallMessageResponse(spec_finish_random_name(outcome)),
            ),
        },
{
}

} // verus!
