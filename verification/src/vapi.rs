//! The tagged payload model: the event variants a voice-assistant platform
//! delivers, the response variants this library answers with, and the
//! mathematical models (`...V` types) that the contracts speak of.
//!
//! Every inbound envelope is a JSON object whose `type` field selects exactly
//! one event variant; every response variant serializes back to a JSON object.

use vstd::prelude::*;

use crate::json::{spec_items_view, Json, JsonV};
use std::collections::HashMap;

verus! {

/// The opaque call-session reference carried by every event; the library
/// never interprets its contents.
#[derive(Debug, PartialEq, Eq, Structural, Clone, Copy)]
pub struct VapiCall {
}

/// A registered function's static description, as the platform's assistant
/// profile declares it.
#[derive(Debug, PartialEq)]
pub struct Function {
    pub name: String,
    pub is_async: Option<bool>,
    pub description: Option<String>,
    pub parameters: Option<HashMap<String, String>>,
}

/// A transcriber choice inside an assistant profile.
#[derive(Debug, PartialEq)]
pub struct Transcriber {
    pub provider: String,
    pub model: Option<String>,
    pub keywords: Option<Vec<String>>,
}

/// An assistant profile: the record an `AssistantRequestMessageResponse` may
/// carry back to the platform.  Only plainly representable fields are held
/// here; numeric tuning knobs that the platform reads as fractions live with
/// the transport layer, which the router never populates anyway.
#[derive(Debug, PartialEq)]
pub struct Assistant {
    pub name: Option<String>,
    pub language: Option<String>,
    pub first_message: Option<String>,
    pub voicemail_message: Option<String>,
    pub end_call_message: Option<String>,
    pub forwarding_phone_number: Option<String>,
    pub interruptions_enabled: Option<bool>,
    pub recording_enabled: Option<bool>,
    pub server_url: Option<String>,
    pub id: Option<String>,
    pub org_id: Option<String>,
}

/// The model of an [`Assistant`].
pub struct AssistantV {
    pub name: Option<Seq<char>>,
    pub language: Option<Seq<char>>,
    pub first_message: Option<Seq<char>>,
    pub voicemail_message: Option<Seq<char>>,
    pub end_call_message: Option<Seq<char>>,
    pub forwarding_phone_number: Option<Seq<char>>,
    pub interruptions_enabled: Option<bool>,
    pub recording_enabled: Option<bool>,
    pub server_url: Option<Seq<char>>,
    pub id: Option<Seq<char>>,
    pub org_id: Option<Seq<char>>,
}

impl DeepView for Assistant {
    type V = AssistantV;

    open spec fn deep_view(&self) -> AssistantV {
        AssistantV {
            name: self.name.deep_view(),
            language: self.language.deep_view(),
            first_message: self.first_message.deep_view(),
            voicemail_message: self.voicemail_message.deep_view(),
            end_call_message: self.end_call_message.deep_view(),
            forwarding_phone_number: self.forwarding_phone_number.deep_view(),
            interruptions_enabled: self.interruptions_enabled,
            recording_enabled: self.recording_enabled,
            server_url: self.server_url.deep_view(),
            id: self.id.deep_view(),
            org_id: self.org_id.deep_view(),
        }
    }
}

/// One prior conversation turn inside an end-of-call report.
#[derive(Debug, PartialEq)]
pub struct ConversationMessage {
    pub role: String,
    pub message: Option<String>,
    pub name: Option<String>,
    pub args: Option<String>,
    pub result: Option<String>,
    pub time: i64,
    pub end_time: Option<i64>,
    pub seconds_from_start: i64,
}

/// The model of a [`ConversationMessage`].
pub struct ConversationMessageV {
    pub role: Seq<char>,
    pub message: Option<Seq<char>>,
    pub name: Option<Seq<char>>,
    pub args: Option<Seq<char>>,
    pub result: Option<Seq<char>>,
    pub time: int,
    pub end_time: Option<int>,
    pub seconds_from_start: int,
}

impl DeepView for ConversationMessage {
    type V = ConversationMessageV;

    open spec fn deep_view(&self) -> ConversationMessageV {
        ConversationMessageV {
            role: self.role@,
            message: self.message.deep_view(),
            name: self.name.deep_view(),
            args: self.args.deep_view(),
            result: self.result.deep_view(),
            time: self.time as int,
            end_time: match self.end_time {
                Some(t) => Some(t as int),
                None => None,
            },
            seconds_from_start: self.seconds_from_start as int,
        }
    }
}

/// The part every event shares: its call reference.
#[derive(Debug, PartialEq)]
pub struct BaseVapiPayload {
    pub call: VapiCall,
}

/// An `assistant-request` event.
#[derive(Debug, PartialEq)]
pub struct AssistantRequestPayload {
    pub call: VapiCall,
    pub payload_type: String,
}

/// The model of an [`AssistantRequestPayload`].
pub struct AssistantRequestPayloadV {
    pub payload_type: Seq<char>,
}

impl DeepView for AssistantRequestPayload {
    type V = AssistantRequestPayloadV;

    open spec fn deep_view(&self) -> AssistantRequestPayloadV {
        AssistantRequestPayloadV { payload_type: self.payload_type@ }
    }
}

/// A `status-update` event: the new call status, with the prior conversation
/// turns when the platform includes them (kept as raw JSON values).
#[derive(Debug, PartialEq)]
pub struct StatusUpdatePayload {
    pub call: VapiCall,
    pub payload_type: String,
    pub status: String,
    pub messages: Option<Vec<Json>>,
}

/// The model of a [`StatusUpdatePayload`].
pub struct StatusUpdatePayloadV {
    pub payload_type: Seq<char>,
    pub status: Seq<char>,
    pub messages: Option<Seq<JsonV>>,
}

impl DeepView for StatusUpdatePayload {
    type V = StatusUpdatePayloadV;

    open spec fn deep_view(&self) -> StatusUpdatePayloadV {
        StatusUpdatePayloadV {
            payload_type: self.payload_type@,
            status: self.status@,
            messages: match self.messages {
                Some(msgs) => Some(spec_items_view(msgs@)),
                None => None,
            },
        }
    }
}

/// The function a `function-call` event asks for: its registered name and its
/// untyped parameter record, opaque until the dispatcher resolves the name.
#[allow(non_snake_case)]
#[derive(Debug, PartialEq)]
pub struct OpenAIFunctionCall {
    pub name: String,
    pub parameters: Json,
}

/// The model of an [`OpenAIFunctionCall`].
pub struct OpenAIFunctionCallV {
    pub name: Seq<char>,
    pub parameters: JsonV,
}

impl DeepView for OpenAIFunctionCall {
    type V = OpenAIFunctionCallV;

    open spec fn deep_view(&self) -> OpenAIFunctionCallV {
        OpenAIFunctionCallV { name: self.name@, parameters: self.parameters.deep_view() }
    }
}

/// A `function-call` event.
#[allow(non_snake_case)]
#[derive(Debug, PartialEq)]
pub struct FunctionCallPayload {
    pub call: VapiCall,
    pub payload_type: String,
    pub functionCall: OpenAIFunctionCall,
}

/// The model of a [`FunctionCallPayload`].
#[allow(non_snake_case)]
pub struct FunctionCallPayloadV {
    pub payload_type: Seq<char>,
    pub functionCall: OpenAIFunctionCallV,
}

impl DeepView for FunctionCallPayload {
    type V = FunctionCallPayloadV;

    open spec fn deep_view(&self) -> FunctionCallPayloadV {
        FunctionCallPayloadV {
            payload_type: self.payload_type@,
            functionCall: self.functionCall.deep_view(),
        }
    }
}

/// An `end-of-call-report` event.
#[derive(Debug, PartialEq)]
pub struct EndOfCallReportPayload {
    pub call: VapiCall,
    pub payload_type: String,
    pub ended_reason: String,
    pub transcript: String,
    pub messages: Vec<ConversationMessage>,
    pub summary: String,
    pub recording_url: Option<String>,
}

/// The model of an [`EndOfCallReportPayload`].
pub struct EndOfCallReportPayloadV {
    pub payload_type: Seq<char>,
    pub ended_reason: Seq<char>,
    pub transcript: Seq<char>,
    pub messages: Seq<ConversationMessageV>,
    pub summary: Seq<char>,
    pub recording_url: Option<Seq<char>>,
}

impl DeepView for EndOfCallReportPayload {
    type V = EndOfCallReportPayloadV;

    open spec fn deep_view(&self) -> EndOfCallReportPayloadV {
        EndOfCallReportPayloadV {
            payload_type: self.payload_type@,
            ended_reason: self.ended_reason@,
            transcript: self.transcript@,
            messages: self.messages.deep_view(),
            summary: self.summary@,
            recording_url: self.recording_url.deep_view(),
        }
    }
}

/// A `hang` event.
#[derive(Debug, PartialEq)]
pub struct HangPayload {
    pub call: VapiCall,
    pub payload_type: String,
}

/// The model of a [`HangPayload`].
pub struct HangPayloadV {
    pub payload_type: Seq<char>,
}

impl DeepView for HangPayload {
    type V = HangPayloadV;

    open spec fn deep_view(&self) -> HangPayloadV {
        HangPayloadV { payload_type: self.payload_type@ }
    }
}

/// A `speech-update` event.
#[derive(Debug, PartialEq)]
pub struct SpeechUpdatePayload {
    pub call: VapiCall,
    pub payload_type: String,
    pub status: String,
    pub role: String,
}

/// The model of a [`SpeechUpdatePayload`].
pub struct SpeechUpdatePayloadV {
    pub payload_type: Seq<char>,
    pub status: Seq<char>,
    pub role: Seq<char>,
}

impl DeepView for SpeechUpdatePayload {
    type V = SpeechUpdatePayloadV;

    open spec fn deep_view(&self) -> SpeechUpdatePayloadV {
        SpeechUpdatePayloadV {
            payload_type: self.payload_type@,
            status: self.status@,
            role: self.role@,
        }
    }
}

/// A `transcript` event.
#[derive(Debug, PartialEq)]
pub struct TranscriptPayload {
    pub call: VapiCall,
    pub payload_type: String,
    pub role: String,
    pub transcript_type: String,
    pub transcript: String,
}

/// The model of a [`TranscriptPayload`].
pub struct TranscriptPayloadV {
    pub payload_type: Seq<char>,
    pub role: Seq<char>,
    pub transcript_type: Seq<char>,
    pub transcript: Seq<char>,
}

impl DeepView for TranscriptPayload {
    type V = TranscriptPayloadV;

    open spec fn deep_view(&self) -> TranscriptPayloadV {
        TranscriptPayloadV {
            payload_type: self.payload_type@,
            role: self.role@,
            transcript_type: self.transcript_type@,
            transcript: self.transcript@,
        }
    }
}

/// A decoded event: exactly one variant per envelope, selected by the
/// envelope's `type` discriminant.
#[derive(Debug, PartialEq)]
pub enum VapiPayload {
    AssistantRequestPayload(AssistantRequestPayload),
    StatusUpdatePayload(StatusUpdatePayload),
    FunctionCallPayload(FunctionCallPayload),
    EndOfCallReportPayload(EndOfCallReportPayload),
    HangPayload(HangPayload),
    SpeechUpdatePayload(SpeechUpdatePayload),
    TranscriptPayload(TranscriptPayload),
}

/// The model of a [`VapiPayload`].
pub enum VapiPayloadV {
    AssistantRequestPayload(AssistantRequestPayloadV),
    StatusUpdatePayload(StatusUpdatePayloadV),
    FunctionCallPayload(FunctionCallPayloadV),
    EndOfCallReportPayload(EndOfCallReportPayloadV),
    HangPayload(HangPayloadV),
    SpeechUpdatePayload(SpeechUpdatePayloadV),
    TranscriptPayload(TranscriptPayloadV),
}

impl DeepView for VapiPayload {
    type V = VapiPayloadV;

    open spec fn deep_view(&self) -> VapiPayloadV {
        match self {
            VapiPayload::AssistantRequestPayload(p) => VapiPayloadV::AssistantRequestPayload(
                p.deep_view(),
            ),
            VapiPayload::StatusUpdatePayload(p) => VapiPayloadV::StatusUpdatePayload(p.deep_view()),
            VapiPayload::FunctionCallPayload(p) => VapiPayloadV::FunctionCallPayload(p.deep_view()),
            VapiPayload::EndOfCallReportPayload(p) => VapiPayloadV::EndOfCallReportPayload(
                p.deep_view(),
            ),
            VapiPayload::HangPayload(p) => VapiPayloadV::HangPayload(p.deep_view()),
            VapiPayload::SpeechUpdatePayload(p) => VapiPayloadV::SpeechUpdatePayload(p.deep_view()),
            VapiPayload::TranscriptPayload(p) => VapiPayloadV::TranscriptPayload(p.deep_view()),
        }
    }
}

/// The inbound wire envelope: a JSON object whose `message` field holds the
/// event.
#[derive(Debug, PartialEq)]
pub struct Payload {
    pub message: VapiPayload,
}

/// Why an envelope failed to decode.
#[derive(Debug, PartialEq)]
pub enum DecodeError {
    /// The raw bytes were not a JSON value this model can hold.
    InvalidJson,
    /// The `type` discriminant was absent, or was not a string.
    MissingDiscriminant,
    /// The `type` discriminant matched no known tag; carries the tag.
    UnknownDiscriminant(String),
    /// The envelope matched a tag but failed that variant's structural
    /// schema; carries the variant's tag and the offending field path.
    MalformedVariant(String, String),
}

/// The model of a [`DecodeError`].
pub enum DecodeErrorV {
    InvalidJson,
    MissingDiscriminant,
    UnknownDiscriminant(Seq<char>),
    MalformedVariant(Seq<char>, Seq<char>),
}

impl DeepView for DecodeError {
    type V = DecodeErrorV;

    open spec fn deep_view(&self) -> DecodeErrorV {
        match self {
            DecodeError::InvalidJson => DecodeErrorV::InvalidJson,
            DecodeError::MissingDiscriminant => DecodeErrorV::MissingDiscriminant,
            DecodeError::UnknownDiscriminant(t) => DecodeErrorV::UnknownDiscriminant(t@),
            DecodeError::MalformedVariant(v, f) => DecodeErrorV::MalformedVariant(v@, f@),
        }
    }
}

/// The answer to a `function-call` event.
#[allow(non_snake_case)]
#[derive(Debug, PartialEq)]
pub struct FunctionCallMessageResponse {
    pub result: Option<String>,
    pub forwardToClientEnabled: Option<bool>,
}

/// The model of a [`FunctionCallMessageResponse`].
#[allow(non_snake_case)]
pub struct FunctionCallMessageResponseV {
    pub result: Option<Seq<char>>,
    pub forwardToClientEnabled: Option<bool>,
}

impl DeepView for FunctionCallMessageResponse {
    type V = FunctionCallMessageResponseV;

    open spec fn deep_view(&self) -> FunctionCallMessageResponseV {
        FunctionCallMessageResponseV {
            result: self.result.deep_view(),
            forwardToClientEnabled: self.forwardToClientEnabled,
        }
    }
}

/// The answer to an `assistant-request` event.
#[derive(Debug, PartialEq)]
pub struct AssistantRequestMessageResponse {
    pub assistant: Option<Assistant>,
    pub error: Option<String>,
}

/// The model of an [`AssistantRequestMessageResponse`].
pub struct AssistantRequestMessageResponseV {
    pub assistant: Option<AssistantV>,
    pub error: Option<Seq<char>>,
}

impl DeepView for AssistantRequestMessageResponse {
    type V = AssistantRequestMessageResponseV;

    open spec fn deep_view(&self) -> AssistantRequestMessageResponseV {
        AssistantRequestMessageResponseV {
            assistant: self.assistant.deep_view(),
            error: self.error.deep_view(),
        }
    }
}

/// The acknowledgment answer to a `status-update` event: an open
/// string-to-string mapping, held as ordered pairs.
pub type StatusUpdateMessageResponse = Vec<(String, String)>;

/// The acknowledgment answer to a `speech-update` event.
pub type SpeechUpdateMessageResponse = Vec<(String, String)>;

/// The acknowledgment answer to a `transcript` event.
pub type TranscriptMessageResponse = Vec<(String, String)>;

/// The acknowledgment answer to a `hang` event.
pub type HangMessageResponse = Vec<(String, String)>;

/// The acknowledgment answer to an `end-of-call-report` event.
pub type EndOfCallReportMessageResponse = Vec<(String, String)>;

/// A typed response: the variant always corresponds to the event variant it
/// answers.
#[derive(Debug, PartialEq)]
pub enum VapiResponse {
    FunctionCallMessageResponse(FunctionCallMessageResponse),
    AssistantRequestMessageResponse(AssistantRequestMessageResponse),
    StatusUpdateMessageResponse(StatusUpdateMessageResponse),
    SpeechUpdateMessageResponse(SpeechUpdateMessageResponse),
    TranscriptMessageResponse(TranscriptMessageResponse),
    HangMessageResponse(HangMessageResponse),
    EndOfCallReportMessageResponse(EndOfCallReportMessageResponse),
}

/// The model of a [`VapiResponse`].
pub enum VapiResponseV {
    FunctionCallMessageResponse(FunctionCallMessageResponseV),
    AssistantRequestMessageResponse(AssistantRequestMessageResponseV),
    StatusUpdateMessageResponse(Seq<(Seq<char>, Seq<char>)>),
    SpeechUpdateMessageResponse(Seq<(Seq<char>, Seq<char>)>),
    TranscriptMessageResponse(Seq<(Seq<char>, Seq<char>)>),
    HangMessageResponse(Seq<(Seq<char>, Seq<char>)>),
    EndOfCallReportMessageResponse(Seq<(Seq<char>, Seq<char>)>),
}

impl DeepView for VapiResponse {
    type V = VapiResponseV;

    open spec fn deep_view(&self) -> VapiResponseV {
        match self {
            VapiResponse::FunctionCallMessageResponse(r) => VapiResponseV::FunctionCallMessageResponse(
                r.deep_view(),
            ),
            VapiResponse::AssistantRequestMessageResponse(
                r,
            ) => VapiResponseV::AssistantRequestMessageResponse(r.deep_view()),
            VapiResponse::StatusUpdateMessageResponse(r) => VapiResponseV::StatusUpdateMessageResponse(
                r.deep_view(),
            ),
            VapiResponse::SpeechUpdateMessageResponse(r) => VapiResponseV::SpeechUpdateMessageResponse(
                r.deep_view(),
            ),
            VapiResponse::TranscriptMessageResponse(r) => VapiResponseV::TranscriptMessageResponse(
                r.deep_view(),
            ),
            VapiResponse::HangMessageResponse(r) => VapiResponseV::HangMessageResponse(r.deep_view()),
            VapiResponse::EndOfCallReportMessageResponse(
                r,
            ) => VapiResponseV::EndOfCallReportMessageResponse(r.deep_view()),
        }
    }
}

} // verus!
