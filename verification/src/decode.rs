//! The payload decoder: turns a JSON envelope into exactly one typed event
//! variant, or fails with an error naming what was wrong.
//!
//! Decoding is two-phase: first the `type` discriminant is read, then the
//! envelope is held against that variant's structural schema.  The whole
//! decode is a pure function of the input value, stated by
//! [`spec_decode_payload`].

use vstd::prelude::*;

use crate::json::{spec_get, spec_get_str, spec_items_view, str_eq, Json, JsonV};
use crate::vapi::{
    AssistantRequestPayload, AssistantRequestPayloadV, ConversationMessage, ConversationMessageV,
    DecodeError, DecodeErrorV, EndOfCallReportPayload, EndOfCallReportPayloadV, FunctionCallPayload,
    FunctionCallPayloadV, HangPayload, HangPayloadV, OpenAIFunctionCall, OpenAIFunctionCallV,
    SpeechUpdatePayload, SpeechUpdatePayloadV, StatusUpdatePayload, StatusUpdatePayloadV,
    TranscriptPayload, TranscriptPayloadV, VapiCall, VapiPayload, VapiPayloadV,
};

verus! {

/// The model of a decode outcome.
pub open spec fn spec_decode_view(r: Result<VapiPayload, DecodeError>) -> Result<
    VapiPayloadV,
    DecodeErrorV,
> {
    match r {
        Ok(p) => Ok(p.deep_view()),
        Err(e) => Err(e.deep_view()),
    }
}

/// Whether the envelope carries its opaque call reference: a `call` field
/// holding an object.
pub open spec fn spec_has_call(v: JsonV) -> bool {
    spec_get(v, "call"@) matches Some(JsonV::Obj(_))
}

/// An optional string field: absent or `null` is `None`, a string is `Some`,
/// anything else refuses the envelope.
pub open spec fn spec_get_opt_str(v: JsonV, key: Seq<char>) -> Result<Option<Seq<char>>, ()> {
    match spec_get(v, key) {
        None => Ok(None),
        Some(JsonV::Null) => Ok(None),
        Some(JsonV::Str(s)) => Ok(Some(s)),
        Some(_) => Err(()),
    }
}

/// A required integer field.
pub open spec fn spec_get_int(v: JsonV, key: Seq<char>) -> Option<int> {
    match spec_get(v, key) {
        Some(JsonV::Int(i)) => Some(i),
        _ => None,
    }
}

/// An optional integer field: absent or `null` is `None`.
pub open spec fn spec_get_opt_int(v: JsonV, key: Seq<char>) -> Result<Option<int>, ()> {
    match spec_get(v, key) {
        None => Ok(None),
        Some(JsonV::Null) => Ok(None),
        Some(JsonV::Int(i)) => Ok(Some(i)),
        Some(_) => Err(()),
    }
}

/// An optional array-of-raw-values field: absent or `null` is `None`.
pub open spec fn spec_get_opt_arr(v: JsonV, key: Seq<char>) -> Result<Option<Seq<JsonV>>, ()> {
    match spec_get(v, key) {
        None => Ok(None),
        Some(JsonV::Null) => Ok(None),
        Some(JsonV::Arr(items)) => Ok(Some(items)),
        Some(_) => Err(()),
    }
}

/// One conversation turn, decoded from a raw JSON value.
pub open spec fn spec_decode_conv_message(v: JsonV) -> Option<ConversationMessageV> {
    match spec_get_str(v, "role"@) {
        None => None,
        Some(role) => match spec_get_opt_str(v, "message"@) {
            Err(_) => None,
            Ok(message) => match spec_get_opt_str(v, "name"@) {
                Err(_) => None,
                Ok(name) => match spec_get_opt_str(v, "args"@) {
                    Err(_) => None,
                    Ok(args) => match spec_get_opt_str(v, "result"@) {
                        Err(_) => None,
                        Ok(result) => match spec_get_int(v, "time"@) {
                            None => None,
                            Some(time) => match spec_get_opt_int(v, "end_time"@) {
                                Err(_) => None,
                                Ok(end_time) => match spec_get_int(v, "seconds_from_start"@) {
                                    None => None,
                                    Some(seconds_from_start) => Some(
                                        ConversationMessageV {
                                            role,
                                            message,
                                            name,
                                            args,
                                            result,
                                            time,
                                            end_time,
                                            seconds_from_start,
                                        },
                                    ),
                                },
                            },
                        },
                    },
                },
            },
        },
    }
}

/// Whether every element of `items` decodes as a conversation turn.
pub open spec fn spec_all_conv_ok(items: Seq<JsonV>) -> bool {
    forall|i: int| 0 <= i < items.len() ==> spec_decode_conv_message(items[i]) is Some
}

/// The decoded conversation turns of `items`, meaningful when
/// [`spec_all_conv_ok`] holds.
pub open spec fn spec_conv_views(items: Seq<JsonV>) -> Seq<ConversationMessageV> {
    Seq::new(items.len(), |i: int| spec_decode_conv_message(items[i])->Some_0)
}

/// A whole conversation: `None` as soon as one turn is malformed.
pub open spec fn spec_decode_conv_messages(items: Seq<JsonV>) -> Option<Seq<ConversationMessageV>> {
    if spec_all_conv_ok(items) {
        Some(spec_conv_views(items))
    } else {
        None
    }
}

/// The `assistant-request` schema: only the call reference is required.
pub open spec fn spec_decode_assistant_request(v: JsonV) -> Result<VapiPayloadV, DecodeErrorV> {
    if !spec_has_call(v) {
        Err(DecodeErrorV::MalformedVariant("assistant-request"@, "call"@))
    } else {
        Ok(
            VapiPayloadV::AssistantRequestPayload(
                AssistantRequestPayloadV { payload_type: "assistant-request"@ },
            ),
        )
    }
}

/// The `status-update` schema: a required `status` string and optional raw
/// conversation messages.
pub open spec fn spec_decode_status_update(v: JsonV) -> Result<VapiPayloadV, DecodeErrorV> {
    if !spec_has_call(v) {
        Err(DecodeErrorV::MalformedVariant("status-update"@, "call"@))
    } else {
        match spec_get_str(v, "status"@) {
            None => Err(DecodeErrorV::MalformedVariant("status-update"@, "status"@)),
            Some(status) => match spec_get_opt_arr(v, "messages"@) {
                Err(_) => Err(DecodeErrorV::MalformedVariant("status-update"@, "messages"@)),
                Ok(messages) => Ok(
                    VapiPayloadV::StatusUpdatePayload(
                        StatusUpdatePayloadV { payload_type: "status-update"@, status, messages },
                    ),
                ),
            },
        }
    }
}

/// The `function-call` schema: a `functionCall` object holding a `name`
/// string and a `parameters` value of any shape.
pub open spec fn spec_decode_function_call(v: JsonV) -> Result<VapiPayloadV, DecodeErrorV> {
    if !spec_has_call(v) {
        Err(DecodeErrorV::MalformedVariant("function-call"@, "call"@))
    } else {
        match spec_get(v, "functionCall"@) {
            Some(fc) => match spec_get_str(fc, "name"@) {
                None => Err(DecodeErrorV::MalformedVariant("function-call"@, "functionCall.name"@)),
                Some(name) => match spec_get(fc, "parameters"@) {
                    None => Err(
                        DecodeErrorV::MalformedVariant(
                            "function-call"@,
                            "functionCall.parameters"@,
                        ),
                    ),
                    Some(parameters) => Ok(
                        VapiPayloadV::FunctionCallPayload(
                            FunctionCallPayloadV {
                                payload_type: "function-call"@,
                                functionCall: OpenAIFunctionCallV { name, parameters },
                            },
                        ),
                    ),
                },
            },
            None => Err(DecodeErrorV::MalformedVariant("function-call"@, "functionCall"@)),
        }
    }
}

/// The `end-of-call-report` schema.
pub open spec fn spec_decode_end_of_call_report(v: JsonV) -> Result<VapiPayloadV, DecodeErrorV> {
    if !spec_has_call(v) {
        Err(DecodeErrorV::MalformedVariant("end-of-call-report"@, "call"@))
    } else {
        match spec_get_str(v, "ended_reason"@) {
            None => Err(DecodeErrorV::MalformedVariant("end-of-call-report"@, "ended_reason"@)),
            Some(ended_reason) => match spec_get_str(v, "transcript"@) {
                None => Err(DecodeErrorV::MalformedVariant("end-of-call-report"@, "transcript"@)),
                Some(transcript) => match spec_get(v, "messages"@) {
                    Some(JsonV::Arr(items)) => match spec_decode_conv_messages(items) {
                        None => Err(
                            DecodeErrorV::MalformedVariant("end-of-call-report"@, "messages"@),
                        ),
                        Some(messages) => match spec_get_str(v, "summary"@) {
                            None => Err(
                                DecodeErrorV::MalformedVariant("end-of-call-report"@, "summary"@),
                            ),
                            Some(summary) => match spec_get_opt_str(v, "recording_url"@) {
                                Err(_) => Err(
                                    DecodeErrorV::MalformedVariant(
                                        "end-of-call-report"@,
                                        "recording_url"@,
                                    ),
                                ),
                                Ok(recording_url) => Ok(
                                    VapiPayloadV::EndOfCallReportPayload(
                                        EndOfCallReportPayloadV {
                                            payload_type: "end-of-call-report"@,
                                            ended_reason,
                                            transcript,
                                            messages,
                                            summary,
                                            recording_url,
                                        },
                                    ),
                                ),
                            },
                        },
                    },
                    _ => Err(DecodeErrorV::MalformedVariant("end-of-call-report"@, "messages"@)),
                },
            },
        }
    }
}

/// The `hang` schema: only the call reference is required.
pub open spec fn spec_decode_hang(v: JsonV) -> Result<VapiPayloadV, DecodeErrorV> {
    if !spec_has_call(v) {
        Err(DecodeErrorV::MalformedVariant("hang"@, "call"@))
    } else {
        Ok(VapiPayloadV::HangPayload(HangPayloadV { payload_type: "hang"@ }))
    }
}

/// The `speech-update` schema: required `status` and `role` strings.
pub open spec fn spec_decode_speech_update(v: JsonV) -> Result<VapiPayloadV, DecodeErrorV> {
    if !spec_has_call(v) {
        Err(DecodeErrorV::MalformedVariant("speech-update"@, "call"@))
    } else {
        match spec_get_str(v, "status"@) {
            None => Err(DecodeErrorV::MalformedVariant("speech-update"@, "status"@)),
            Some(status) => match spec_get_str(v, "role"@) {
                None => Err(DecodeErrorV::MalformedVariant("speech-update"@, "role"@)),
                Some(role) => Ok(
                    VapiPayloadV::SpeechUpdatePayload(
                        SpeechUpdatePayloadV { payload_type: "speech-update"@, status, role },
                    ),
                ),
            },
        }
    }
}

/// The `transcript` schema: required `role`, `transcript_type` and
/// `transcript` strings.
pub open spec fn spec_decode_transcript(v: JsonV) -> Result<VapiPayloadV, DecodeErrorV> {
    if !spec_has_call(v) {
        Err(DecodeErrorV::MalformedVariant("transcript"@, "call"@))
    } else {
        match spec_get_str(v, "role"@) {
            None => Err(DecodeErrorV::MalformedVariant("transcript"@, "role"@)),
            Some(role) => match spec_get_str(v, "transcript_type"@) {
                None => Err(DecodeErrorV::MalformedVariant("transcript"@, "transcript_type"@)),
                Some(transcript_type) => match spec_get_str(v, "transcript"@) {
                    None => Err(DecodeErrorV::MalformedVariant("transcript"@, "transcript"@)),
                    Some(transcript) => Ok(
                        VapiPayloadV::TranscriptPayload(
                            TranscriptPayloadV {
                                payload_type: "transcript"@,
                                role,
                                transcript_type,
                                transcript,
                            },
                        ),
                    ),
                },
            },
        }
    }
}

/// What decoding an envelope yields: exactly one event variant for a
/// recognized `type`, `MissingDiscriminant` when the discriminant is absent
/// or not a string, `UnknownDiscriminant` for an unrecognized tag, and
/// `MalformedVariant` when the tagged schema is violated.
pub open spec fn spec_decode_payload(v: JsonV) -> Result<VapiPayloadV, DecodeErrorV> {
    match spec_get_str(v, "type"@) {
        None => Err(DecodeErrorV::MissingDiscriminant),
        Some(tag) => if tag == "assistant-request"@ {
            spec_decode_assistant_request(v)
        } else if tag == "status-update"@ {
            spec_decode_status_update(v)
        } else if tag == "function-call"@ {
            spec_decode_function_call(v)
        } else if tag == "end-of-call-report"@ {
            spec_decode_end_of_call_report(v)
        } else if tag == "hang"@ {
            spec_decode_hang(v)
        } else if tag == "speech-update"@ {
            spec_decode_speech_update(v)
        } else if tag == "transcript"@ {
            spec_decode_transcript(v)
        } else {
            Err(DecodeErrorV::UnknownDiscriminant(tag))
        },
    }
}

/// Decoding the whole inbound envelope: the event sits under a top-level
/// `message` field; an envelope without one has no discriminant at all.
pub open spec fn spec_decode_request(v: JsonV) -> Result<VapiPayloadV, DecodeErrorV> {
    match spec_get(v, "message"@) {
        None => Err(DecodeErrorV::MissingDiscriminant),
        Some(m) => spec_decode_payload(m),
    }
}

/// Builds the `MalformedVariant` error for a variant tag and field path.
fn mv_error(variant: &str, field: &str) -> (e: DecodeError)
    ensures
        e.deep_view() == DecodeErrorV::MalformedVariant(variant@, field@),
{
    DecodeError::MalformedVariant(variant.to_owned(), field.to_owned())
}

/// Whether the envelope has its `call` object.
fn has_call(j: &Json) -> (b: bool)
    ensures
        b == spec_has_call(j.deep_view()),
{
    match j.get("call") {
        Some(c) => match c {
            Json::Obj(_) => true,
            _ => false,
        },
        None => false,
    }
}

/// Reads an optional string field, cloning it out of the envelope.
pub(crate) fn get_opt_str(j: &Json, key: &str) -> (r: Result<Option<String>, ()>)
    ensures
        match r {
            Ok(Some(s)) => spec_get_opt_str(j.deep_view(), key@) == Ok::<Option<Seq<char>>, ()>(
                Some(s@),
            ),
            Ok(None) => spec_get_opt_str(j.deep_view(), key@) == Ok::<Option<Seq<char>>, ()>(None),
            Err(_) => spec_get_opt_str(j.deep_view(), key@) is Err,
        },
{
    match j.get(key) {
        None => Ok(None),
        Some(Json::Null) => Ok(None),
        Some(Json::Str(s)) => Ok(Some(s.clone())),
        Some(_) => Err(()),
    }
}

/// An optional boolean field: absent or `null` is `None`.
pub open spec fn spec_get_opt_bool(v: JsonV, key: Seq<char>) -> Result<Option<bool>, ()> {
    match spec_get(v, key) {
        None => Ok(None),
        Some(JsonV::Null) => Ok(None),
        Some(JsonV::Bool(b)) => Ok(Some(b)),
        Some(_) => Err(()),
    }
}

/// Reads an optional boolean field.
pub(crate) fn get_opt_bool(j: &Json, key: &str) -> (r: Result<Option<bool>, ()>)
    ensures
        match r {
            Ok(ob) => spec_get_opt_bool(j.deep_view(), key@) == Ok::<Option<bool>, ()>(ob),
            Err(_) => spec_get_opt_bool(j.deep_view(), key@) is Err,
        },
{
    match j.get(key) {
        None => Ok(None),
        Some(Json::Null) => Ok(None),
        Some(Json::Bool(b)) => Ok(Some(*b)),
        Some(_) => Err(()),
    }
}

/// Reads a required integer field.
fn get_int(j: &Json, key: &str) -> (r: Option<i64>)
    ensures
        match r {
            Some(i) => spec_get_int(j.deep_view(), key@) == Some(i as int),
            None => spec_get_int(j.deep_view(), key@) is None,
        },
{
    match j.get(key) {
        Some(Json::Int(i)) => Some(*i),
        _ => None,
    }
}

/// Reads an optional integer field.
fn get_opt_int(j: &Json, key: &str) -> (r: Result<Option<i64>, ()>)
    ensures
        match r {
            Ok(Some(i)) => spec_get_opt_int(j.deep_view(), key@) == Ok::<Option<int>, ()>(
                Some(i as int),
            ),
            Ok(None) => spec_get_opt_int(j.deep_view(), key@) == Ok::<Option<int>, ()>(None),
            Err(_) => spec_get_opt_int(j.deep_view(), key@) is Err,
        },
{
    match j.get(key) {
        None => Ok(None),
        Some(Json::Null) => Ok(None),
        Some(Json::Int(i)) => Ok(Some(*i)),
        Some(_) => Err(()),
    }
}

/// Decodes one conversation turn.
fn decode_conv_message(j: &Json) -> (r: Option<ConversationMessage>)
    ensures
        match r {
            Some(m) => spec_decode_conv_message(j.deep_view()) == Some(m.deep_view()),
            None => spec_decode_conv_message(j.deep_view()) is None,
        },
{
    let role = match j.get_str("role") {
        Some(s) => s.clone(),
        None => {
            return None;
        },
    };
    let message = match get_opt_str(j, "message") {
        Ok(v) => v,
        Err(_) => {
            return None;
        },
    };
    let name = match get_opt_str(j, "name") {
        Ok(v) => v,
        Err(_) => {
            return None;
        },
    };
    let args = match get_opt_str(j, "args") {
        Ok(v) => v,
        Err(_) => {
            return None;
        },
    };
    let result = match get_opt_str(j, "result") {
        Ok(v) => v,
        Err(_) => {
            return None;
        },
    };
    let time = match get_int(j, "time") {
        Some(i) => i,
        None => {
            return None;
        },
    };
    let end_time = match get_opt_int(j, "end_time") {
        Ok(v) => v,
        Err(_) => {
            return None;
        },
    };
    let seconds_from_start = match get_int(j, "seconds_from_start") {
        Some(i) => i,
        None => {
            return None;
        },
    };
    Some(ConversationMessage { role, message, name, args, result, time, end_time, seconds_from_start })
}

/// Decodes a whole conversation, refusing it at the first malformed turn.
fn decode_conv_messages(items: &Vec<Json>) -> (r: Option<Vec<ConversationMessage>>)
    ensures
        match r {
            Some(ms) => spec_decode_conv_messages(spec_items_view(items@)) == Some(ms.deep_view()),
            None => spec_decode_conv_messages(spec_items_view(items@)) is None,
        },
{
    let ghost iv = spec_items_view(items@);
    let mut out: Vec<ConversationMessage> = Vec::new();
    let n = items.len();
    for i in 0..n
        invariant
            n == items.len(),
            iv == spec_items_view(items@),
            out@.len() == i,
            forall|k: int|
                0 <= k < i ==> #[trigger] spec_decode_conv_message(iv[k]) == Some(
                    out@[k].deep_view(),
                ),
    {
        match decode_conv_message(&items[i]) {
            Some(m) => {
                out.push(m);
            },
            None => {
                proof {
                    assert(spec_decode_conv_message(iv[i as int]) is None);
                    assert(!spec_all_conv_ok(iv));
                }
                return None;
            },
        }
    }
    proof {
        assert(spec_all_conv_ok(iv));
        assert forall|k: int| 0 <= k < iv.len() implies spec_conv_views(iv)[k] == out.deep_view()[k] by {
            assert(spec_decode_conv_message(iv[k]) == Some(out@[k].deep_view()));
        }
        assert(spec_conv_views(iv) =~= out.deep_view());
    }
    Some(out)
}

/// Decodes the `assistant-request` variant.
fn decode_assistant_request(j: &Json) -> (r: Result<VapiPayload, DecodeError>)
    ensures
        spec_decode_view(r) == spec_decode_assistant_request(j.deep_view()),
{
    if !has_call(j) {
        return Err(mv_error("assistant-request", "call"));
    }
    Ok(
        VapiPayload::AssistantRequestPayload(
            AssistantRequestPayload { call: VapiCall {}, payload_type: "assistant-request".to_owned() },
        ),
    )
}

/// Decodes the `status-update` variant.
fn decode_status_update(j: &Json) -> (r: Result<VapiPayload, DecodeError>)
    ensures
        spec_decode_view(r) == spec_decode_status_update(j.deep_view()),
{
    if !has_call(j) {
        return Err(mv_error("status-update", "call"));
    }
    let status = match j.get_str("status") {
        Some(s) => s.clone(),
        None => {
            return Err(mv_error("status-update", "status"));
        },
    };
    let messages: Option<Vec<Json>> = match j.get("messages") {
        None => None,
        Some(Json::Null) => None,
        Some(Json::Arr(items)) => Some(crate::json::clone_items(items)),
        Some(_) => {
            return Err(mv_error("status-update", "messages"));
        },
    };
    Ok(
        VapiPayload::StatusUpdatePayload(
            StatusUpdatePayload {
                call: VapiCall {},
                payload_type: "status-update".to_owned(),
                status,
                messages,
            },
        ),
    )
}

/// Decodes the `function-call` variant.
fn decode_function_call(j: &Json) -> (r: Result<VapiPayload, DecodeError>)
    ensures
        spec_decode_view(r) == spec_decode_function_call(j.deep_view()),
{
    if !has_call(j) {
        return Err(mv_error("function-call", "call"));
    }
    let fc = match j.get("functionCall") {
        Some(fc) => fc,
        None => {
            return Err(mv_error("function-call", "functionCall"));
        },
    };
    let name = match fc.get_str("name") {
        Some(s) => s.clone(),
        None => {
            return Err(mv_error("function-call", "functionCall.name"));
        },
    };
    let parameters = match fc.get("parameters") {
        Some(p) => p.deep_clone(),
        None => {
            return Err(mv_error("function-call", "functionCall.parameters"));
        },
    };
    Ok(
        VapiPayload::FunctionCallPayload(
            FunctionCallPayload {
                call: VapiCall {},
                payload_type: "function-call".to_owned(),
                functionCall: OpenAIFunctionCall { name, parameters },
            },
        ),
    )
}

/// Decodes the `end-of-call-report` variant.
fn decode_end_of_call_report(j: &Json) -> (r: Result<VapiPayload, DecodeError>)
    ensures
        spec_decode_view(r) == spec_decode_end_of_call_report(j.deep_view()),
{
    if !has_call(j) {
        return Err(mv_error("end-of-call-report", "call"));
    }
    let ended_reason = match j.get_str("ended_reason") {
        Some(s) => s.clone(),
        None => {
            return Err(mv_error("end-of-call-report", "ended_reason"));
        },
    };
    let transcript = match j.get_str("transcript") {
        Some(s) => s.clone(),
        None => {
            return Err(mv_error("end-of-call-report", "transcript"));
        },
    };
    let messages = match j.get("messages") {
        Some(Json::Arr(items)) => match decode_conv_messages(items) {
            Some(ms) => ms,
            None => {
                return Err(mv_error("end-of-call-report", "messages"));
            },
        },
        _ => {
            return Err(mv_error("end-of-call-report", "messages"));
        },
    };
    let summary = match j.get_str("summary") {
        Some(s) => s.clone(),
        None => {
            return Err(mv_error("end-of-call-report", "summary"));
        },
    };
    let recording_url = match get_opt_str(j, "recording_url") {
        Ok(v) => v,
        Err(_) => {
            return Err(mv_error("end-of-call-report", "recording_url"));
        },
    };
    Ok(
        VapiPayload::EndOfCallReportPayload(
            EndOfCallReportPayload {
                call: VapiCall {},
                payload_type: "end-of-call-report".to_owned(),
                ended_reason,
                transcript,
                messages,
                summary,
                recording_url,
            },
        ),
    )
}

/// Decodes the `hang` variant.
fn decode_hang(j: &Json) -> (r: Result<VapiPayload, DecodeError>)
    ensures
        spec_decode_view(r) == spec_decode_hang(j.deep_view()),
{
    if !has_call(j) {
        return Err(mv_error("hang", "call"));
    }
    Ok(VapiPayload::HangPayload(HangPayload { call: VapiCall {}, payload_type: "hang".to_owned() }))
}

/// Decodes the `speech-update` variant.
fn decode_speech_update(j: &Json) -> (r: Result<VapiPayload, DecodeError>)
    ensures
        spec_decode_view(r) == spec_decode_speech_update(j.deep_view()),
{
    if !has_call(j) {
        return Err(mv_error("speech-update", "call"));
    }
    let status = match j.get_str("status") {
        Some(s) => s.clone(),
        None => {
            return Err(mv_error("speech-update", "status"));
        },
    };
    let role = match j.get_str("role") {
        Some(s) => s.clone(),
        None => {
            return Err(mv_error("speech-update", "role"));
        },
    };
    Ok(
        VapiPayload::SpeechUpdatePayload(
            SpeechUpdatePayload {
                call: VapiCall {},
                payload_type: "speech-update".to_owned(),
                status,
                role,
            },
        ),
    )
}

/// Decodes the `transcript` variant.
fn decode_transcript(j: &Json) -> (r: Result<VapiPayload, DecodeError>)
    ensures
        spec_decode_view(r) == spec_decode_transcript(j.deep_view()),
{
    if !has_call(j) {
        return Err(mv_error("transcript", "call"));
    }
    let role = match j.get_str("role") {
        Some(s) => s.clone(),
        None => {
            return Err(mv_error("transcript", "role"));
        },
    };
    let transcript_type = match j.get_str("transcript_type") {
        Some(s) => s.clone(),
        None => {
            return Err(mv_error("transcript", "transcript_type"));
        },
    };
    let transcript = match j.get_str("transcript") {
        Some(s) => s.clone(),
        None => {
            return Err(mv_error("transcript", "transcript"));
        },
    };
    Ok(
        VapiPayload::TranscriptPayload(
            TranscriptPayload {
                call: VapiCall {},
                payload_type: "transcript".to_owned(),
                role,
                transcript_type,
                transcript,
            },
        ),
    )
}

/// Decodes one event from an envelope, as [`spec_decode_payload`] states.
pub fn decode_payload(j: &Json) -> (r: Result<VapiPayload, DecodeError>)
    ensures
        spec_decode_view(r) == spec_decode_payload(j.deep_view()),
{
    let tag = match j.get_str("type") {
        Some(t) => t,
        None => {
            return Err(DecodeError::MissingDiscriminant);
        },
    };
    if str_eq(tag.as_str(), "assistant-request") {
        decode_assistant_request(j)
    } else if str_eq(tag.as_str(), "status-update") {
        decode_status_update(j)
    } else if str_eq(tag.as_str(), "function-call") {
        decode_function_call(j)
    } else if str_eq(tag.as_str(), "end-of-call-report") {
        decode_end_of_call_report(j)
    } else if str_eq(tag.as_str(), "hang") {
        decode_hang(j)
    } else if str_eq(tag.as_str(), "speech-update") {
        decode_speech_update(j)
    } else if str_eq(tag.as_str(), "transcript") {
        decode_transcript(j)
    } else {
        Err(DecodeError::UnknownDiscriminant(tag.clone()))
    }
}

/// Decodes the whole inbound envelope: the event under its `message` field.
pub fn decode_request(j: &Json) -> (r: Result<VapiPayload, DecodeError>)
    ensures
        spec_decode_view(r) == spec_decode_request(j.deep_view()),
{
    match j.get("message") {
        Some(m) => decode_payload(m),
        None => Err(DecodeError::MissingDiscriminant),
    }
}

/// The tag a decoded event answers to.
pub open spec fn spec_payload_tag(p: VapiPayloadV) -> Seq<char> {
    match p {
        VapiPayloadV::AssistantRequestPayload(x) => x.payload_type,
        VapiPayloadV::StatusUpdatePayload(x) => x.payload_type,
        VapiPayloadV::FunctionCallPayload(x) => x.payload_type,
        VapiPayloadV::EndOfCallReportPayload(x) => x.payload_type,
        VapiPayloadV::HangPayload(x) => x.payload_type,
        VapiPayloadV::SpeechUpdatePayload(x) => x.payload_type,
        VapiPayloadV::TranscriptPayload(x) => x.payload_type,
    }
}

/// A successfully decoded event is exactly the variant its envelope's `type`
/// tag names, and no other: the decoded event's own tag equals the
/// envelope's discriminant.
pub proof fn lemma_decode_produces_tagged_variant(v: JsonV)
    requires
        spec_decode_payload(v) is Ok,
    ensures
        spec_get_str(v, "type"@) == Some(spec_payload_tag(spec_decode_payload(v)->Ok_0)),
{
}

/// An envelope whose `type` tag is `bogus` matches no known tag, so it
/// fails with `UnknownDiscriminant` carrying exactly that tag.
pub proof fn lemma_bogus_tag_is_unknown(v: JsonV)
    requires
        spec_get_str(v, "type"@) == Some("bogus"@),
    ensures
        spec_decode_payload(v) == Err::<VapiPayloadV, _>(
            DecodeErrorV::UnknownDiscriminant("bogus"@),
        ),
{
    reveal_strlit("bogus");
    reveal_strlit("assistant-request");
    reveal_strlit("status-update");
    reveal_strlit("function-call");
    reveal_strlit("end-of-call-report");
    reveal_strlit("hang");
    reveal_strlit("speech-update");
    reveal_strlit("transcript");
    assert("bogus"@.len() == 5);
    assert("assistant-request"@.len() == 17);
    assert("status-update"@.len() == 13);
    assert("function-call"@.len() == 13);
    assert("end-of-call-report"@.len() == 18);
    assert("hang"@.len() == 4);
    assert("speech-update"@.len() == 13);
    assert("transcript"@.len() == 10);
}

/// Decoding is deterministic: equal envelope values decode to equal
/// outcomes, so decoding the same input twice yields structurally equal
/// events.
pub proof fn lemma_decode_deterministic(v1: JsonV, v2: JsonV)
    requires
        v1 == v2,
    ensures
        spec_decode_payload(v1) == spec_decode_payload(v2),
        spec_decode_request(v1) == spec_decode_request(v2),
{
}

} // verus!
