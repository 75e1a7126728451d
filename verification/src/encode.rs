//! The response encoder: serializes a [`Json`] value — and through it every
//! response variant — into canonical JSON text.  Serialization is total and
//! stated character by character by [`spec_json_text`].

use vstd::prelude::*;

use crate::decode::{spec_get_opt_bool, spec_get_opt_str};
use crate::json::{spec_fields_get, spec_fields_view, spec_items_view, Json, JsonField, JsonV};
use crate::vapi::{
    Assistant, AssistantRequestMessageResponse, AssistantRequestMessageResponseV, AssistantV,
    FunctionCallMessageResponse, FunctionCallMessageResponseV, VapiResponse, VapiResponseV,
};
use vstd::string::StrSliceExecFns;
use vstd::string::StringExecFns;

verus! {

/// The fields of a JSON object value; meaningful only on objects.
pub open spec fn spec_obj_fields(v: JsonV) -> Seq<(Seq<char>, JsonV)> {
    match v {
        JsonV::Obj(fields) => fields,
        _ => arbitrary(),
    }
}

/// Relies on `String::push`: appends exactly the one character.
#[verifier::external_body]
fn push_char(s: &mut String, c: char)
    ensures
        final(s)@ == old(s)@.push(c),
{
    s.push(c);
}

/// The hex digit character for a nibble.
pub open spec fn spec_hex_digit(n: int) -> char {
    if n < 10 {
        ((n + 48) as u8) as char
    } else {
        ((n + 87) as u8) as char
    }
}

/// How one character appears inside a JSON string literal.
pub open spec fn spec_escape_char(c: char) -> Seq<char> {
    if c == '"' {
        "\\\""@
    } else if c == '\\' {
        "\\\\"@
    } else if c == '\n' {
        "\\n"@
    } else if c == '\r' {
        "\\r"@
    } else if c == '\t' {
        "\\t"@
    } else if (c as u32) < 32 {
        "\\u00"@ + seq![spec_hex_digit((c as u32) as int / 16), spec_hex_digit((c as u32) as int % 16)]
    } else {
        seq![c]
    }
}

/// A whole string body, escaped.
pub open spec fn spec_escape(s: Seq<char>) -> Seq<char>
    decreases s.len(),
{
    if s.len() == 0 {
        Seq::empty()
    } else {
        spec_escape(s.drop_last()) + spec_escape_char(s.last())
    }
}

/// A JSON string literal: quotes around the escaped body.
pub open spec fn spec_quote(s: Seq<char>) -> Seq<char> {
    "\""@ + spec_escape(s) + "\""@
}

/// The decimal digits of a nonnegative integer.
pub open spec fn spec_nat_dec(n: int) -> Seq<char>
    decreases n,
{
    if n < 10 {
        seq![((n % 10 + 48) as u8) as char]
    } else {
        spec_nat_dec(n / 10) + seq![((n % 10 + 48) as u8) as char]
    }
}

/// The decimal rendering of an integer, with a leading minus when negative.
pub open spec fn spec_int_dec(i: int) -> Seq<char> {
    if i < 0 {
        "-"@ + spec_nat_dec(-i)
    } else {
        spec_nat_dec(i)
    }
}

/// The canonical JSON text of a value.
pub open spec fn spec_json_text(v: JsonV) -> Seq<char>
    decreases v,
{
    match v {
        JsonV::Null => "null"@,
        JsonV::Bool(b) => if b {
            "true"@
        } else {
            "false"@
        },
        JsonV::Int(i) => spec_int_dec(i),
        JsonV::Str(s) => spec_quote(s),
        JsonV::Arr(items) => "["@ + spec_arr_body(items, 0) + "]"@,
        JsonV::Obj(fields) => "{"@ + spec_obj_body(fields, 0) + "}"@,
    }
}

/// The comma-separated elements of an array, from index `i` on.
pub open spec fn spec_arr_body(items: Seq<JsonV>, i: int) -> Seq<char>
    decreases items, items.len() - i,
{
    if i < 0 || i >= items.len() {
        Seq::empty()
    } else if i == items.len() - 1 {
        spec_json_text(items[i])
    } else {
        spec_json_text(items[i]) + ","@ + spec_arr_body(items, i + 1)
    }
}

/// The comma-separated `"key":value` fields of an object, from index `i` on.
pub open spec fn spec_obj_body(fields: Seq<(Seq<char>, JsonV)>, i: int) -> Seq<char>
    decreases fields, fields.len() - i,
{
    if i < 0 || i >= fields.len() {
        Seq::empty()
    } else if i == fields.len() - 1 {
        spec_quote(fields[i].0) + ":"@ + spec_json_text(fields[i].1)
    } else {
        spec_quote(fields[i].0) + ":"@ + spec_json_text(fields[i].1) + ","@ + spec_obj_body(
            fields,
            i + 1,
        )
    }
}

/// Appends one escaped character of a string body.
fn push_escaped_char(out: &mut String, c: char)
    ensures
        final(out)@ == old(out)@ + spec_escape_char(c),
{
    if c == '"' {
        out.append("\\\"");
    } else if c == '\\' {
        out.append("\\\\");
    } else if c == '\n' {
        out.append("\\n");
    } else if c == '\r' {
        out.append("\\r");
    } else if c == '\t' {
        out.append("\\t");
    } else if (c as u32) < 32 {
        out.append("\\u00");
        let n: u32 = c as u32;
        let hi: u32 = n / 16;
        let lo: u32 = n % 16;
        let hc: char = if hi < 10 {
            ((hi + 48) as u8) as char
        } else {
            ((hi + 87) as u8) as char
        };
        let lc: char = if lo < 10 {
            ((lo + 48) as u8) as char
        } else {
            ((lo + 87) as u8) as char
        };
        push_char(out, hc);
        push_char(out, lc);
        proof {
            assert(final(out)@ =~= old(out)@ + spec_escape_char(c));
        }
    } else {
        push_char(out, c);
        proof {
            assert(final(out)@ =~= old(out)@ + spec_escape_char(c));
        }
    }
}

/// Appends a quoted, escaped JSON string literal.
fn push_quoted(out: &mut String, s: &str)
    ensures
        final(out)@ == old(out)@ + spec_quote(s@),
{
    out.append("\"");
    let n = s.unicode_len();
    for i in 0..n
        invariant
            n == s@.len(),
            out@ == old(out)@ + "\""@ + spec_escape(s@.take(i as int)),
    {
        let c = s.get_char(i);
        proof {
            assert(s@.take(i + 1).drop_last() =~= s@.take(i as int));
            assert(s@.take(i + 1).last() == s@[i as int]);
        }
        push_escaped_char(out, c);
        proof {
            assert(out@ =~= old(out)@ + "\""@ + spec_escape(s@.take(i + 1)));
        }
    }
    proof {
        assert(s@.take(n as int) =~= s@);
    }
    out.append("\"");
    proof {
        assert(final(out)@ =~= old(out)@ + spec_quote(s@));
    }
}

/// Appends the decimal digits of a nonnegative 64-bit integer.
fn push_u64_dec(out: &mut String, n: u64)
    ensures
        final(out)@ == old(out)@ + spec_nat_dec(n as int),
    decreases n,
{
    if n < 10 {
        push_char(out, ((n as u8) + 48) as char);
        proof {
            assert(final(out)@ =~= old(out)@ + spec_nat_dec(n as int));
        }
    } else {
        push_u64_dec(out, n / 10);
        push_char(out, (((n % 10) as u8) + 48) as char);
        proof {
            assert(final(out)@ =~= old(out)@ + spec_nat_dec(n as int));
        }
    }
}

/// Appends the decimal rendering of a 64-bit integer.
fn push_i64_dec(out: &mut String, i: i64)
    ensures
        final(out)@ == old(out)@ + spec_int_dec(i as int),
{
    if i >= 0 {
        push_u64_dec(out, i as u64);
    } else {
        out.append("-");
        let mag: u64 = ((-(i + 1)) as u64) + 1;
        proof {
            assert(mag as int == -(i as int));
        }
        push_u64_dec(out, mag);
        proof {
            assert(final(out)@ =~= old(out)@ + spec_int_dec(i as int));
        }
    }
}

/// Appends the canonical JSON text of a value.
fn push_json(out: &mut String, j: &Json)
    ensures
        final(out)@ == old(out)@ + spec_json_text(j.deep_view()),
    decreases j,
{
    match j {
        Json::Null => {
            out.append("null");
        },
        Json::Bool(b) => {
            if *b {
                out.append("true");
            } else {
                out.append("false");
            }
        },
        Json::Int(i) => {
            push_i64_dec(out, *i);
        },
        Json::Str(s) => {
            push_quoted(out, s.as_str());
        },
        Json::Arr(items) => {
            out.append("[");
            push_arr_body(out, items, 0);
            out.append("]");
            proof {
                assert(final(out)@ =~= old(out)@ + spec_json_text(j.deep_view()));
            }
        },
        Json::Obj(fields) => {
            out.append("{");
            push_obj_body(out, fields, 0);
            out.append("}");
            proof {
                assert(final(out)@ =~= old(out)@ + spec_json_text(j.deep_view()));
            }
        },
    }
}

/// Appends the comma-separated elements of an array, from index `i` on.
fn push_arr_body(out: &mut String, items: &Vec<Json>, i: usize)
    ensures
        final(out)@ == old(out)@ + spec_arr_body(spec_items_view(items@), i as int),
    decreases items@, items@.len() - i@,
{
    let n = items.len();
    if i >= n {
    } else if i == n - 1 {
        push_json(out, &items[i]);
        proof {
            assert(spec_items_view(items@)[i as int] == items@[i as int].deep_view());
        }
    } else {
        push_json(out, &items[i]);
        out.append(",");
        push_arr_body(out, items, i + 1);
        proof {
            assert(spec_items_view(items@)[i as int] == items@[i as int].deep_view());
            assert(final(out)@ =~= old(out)@ + spec_arr_body(spec_items_view(items@), i as int));
        }
    }
}

/// Appends the comma-separated fields of an object, from index `i` on.
fn push_obj_body(out: &mut String, fields: &Vec<crate::json::JsonField>, i: usize)
    ensures
        final(out)@ == old(out)@ + spec_obj_body(spec_fields_view(fields@), i as int),
    decreases fields@, fields@.len() - i@,
{
    let n = fields.len();
    if i >= n {
    } else if i == n - 1 {
        push_quoted(out, fields[i].key.as_str());
        out.append(":");
        push_json(out, &fields[i].value);
        proof {
            assert(spec_fields_view(fields@)[i as int]
                == (fields@[i as int].key@, fields@[i as int].value.deep_view()));
            assert(final(out)@ =~= old(out)@ + spec_obj_body(spec_fields_view(fields@), i as int));
        }
    } else {
        push_quoted(out, fields[i].key.as_str());
        out.append(":");
        push_json(out, &fields[i].value);
        out.append(",");
        push_obj_body(out, fields, i + 1);
        proof {
            assert(spec_fields_view(fields@)[i as int]
                == (fields@[i as int].key@, fields@[i as int].value.deep_view()));
            assert(final(out)@ =~= old(out)@ + spec_obj_body(spec_fields_view(fields@), i as int));
        }
    }
}

/// Serializes a [`Json`] value into its canonical JSON text.
pub fn write_json(j: &Json) -> (s: String)
    ensures
        s@ == spec_json_text(j.deep_view()),
{
    let mut out = String::new();
    push_json(&mut out, j);
    proof {
        assert(out@ =~= spec_json_text(j.deep_view()));
    }
    out
}

/// An optional string as a JSON value: present `null` when absent, so the
/// wire always carries the key.
pub open spec fn spec_opt_str_json(s: Option<Seq<char>>) -> JsonV {
    match s {
        Some(x) => JsonV::Str(x),
        None => JsonV::Null,
    }
}

/// An optional boolean as a JSON value.
pub open spec fn spec_opt_bool_json(b: Option<bool>) -> JsonV {
    match b {
        Some(x) => JsonV::Bool(x),
        None => JsonV::Null,
    }
}

/// A `FunctionCallMessageResponse` on the wire: exactly a `result` and a
/// `forwardToClientEnabled` key, in that order, each `null` when unset.
pub open spec fn spec_fcr_json(f: FunctionCallMessageResponseV) -> JsonV {
    JsonV::Obj(
        seq![
            ("result"@, spec_opt_str_json(f.result)),
            ("forwardToClientEnabled"@, spec_opt_bool_json(f.forwardToClientEnabled)),
        ],
    )
}

/// An assistant profile on the wire.
pub open spec fn spec_assistant_json(a: AssistantV) -> JsonV {
    JsonV::Obj(
        seq![
            ("name"@, spec_opt_str_json(a.name)),
            ("language"@, spec_opt_str_json(a.language)),
            ("first_message"@, spec_opt_str_json(a.first_message)),
            ("voicemail_message"@, spec_opt_str_json(a.voicemail_message)),
            ("end_call_message"@, spec_opt_str_json(a.end_call_message)),
            ("forwarding_phone_number"@, spec_opt_str_json(a.forwarding_phone_number)),
            ("interruptions_enabled"@, spec_opt_bool_json(a.interruptions_enabled)),
            ("recording_enabled"@, spec_opt_bool_json(a.recording_enabled)),
            ("server_url"@, spec_opt_str_json(a.server_url)),
            ("id"@, spec_opt_str_json(a.id)),
            ("org_id"@, spec_opt_str_json(a.org_id)),
        ],
    )
}

/// An `AssistantRequestMessageResponse` on the wire.
pub open spec fn spec_arr_json(r: AssistantRequestMessageResponseV) -> JsonV {
    JsonV::Obj(
        seq![
            (
                "assistant"@,
                match r.assistant {
                    Some(a) => spec_assistant_json(a),
                    None => JsonV::Null,
                },
            ),
            ("error"@, spec_opt_str_json(r.error)),
        ],
    )
}

/// An acknowledgment map on the wire: its pairs in order, values as strings.
pub open spec fn spec_ack_json(entries: Seq<(Seq<char>, Seq<char>)>) -> JsonV {
    JsonV::Obj(Seq::new(entries.len(), |i: int| (entries[i].0, JsonV::Str(entries[i].1))))
}

/// A response variant on the wire: the bare object of the variant's fields,
/// with names exactly as the platform declares them.
pub open spec fn spec_response_json(r: VapiResponseV) -> JsonV {
    match r {
        VapiResponseV::FunctionCallMessageResponse(f) => spec_fcr_json(f),
        VapiResponseV::AssistantRequestMessageResponse(a) => spec_arr_json(a),
        VapiResponseV::StatusUpdateMessageResponse(m) => spec_ack_json(m),
        VapiResponseV::SpeechUpdateMessageResponse(m) => spec_ack_json(m),
        VapiResponseV::TranscriptMessageResponse(m) => spec_ack_json(m),
        VapiResponseV::HangMessageResponse(m) => spec_ack_json(m),
        VapiResponseV::EndOfCallReportMessageResponse(m) => spec_ack_json(m),
    }
}

/// The canonical wire text of a response.
pub open spec fn spec_encode_response(r: VapiResponseV) -> Seq<char> {
    spec_json_text(spec_response_json(r))
}

/// Builds the JSON value of an optional string.
fn opt_str_json(s: &Option<String>) -> (j: Json)
    ensures
        j.deep_view() == spec_opt_str_json(s.deep_view()),
{
    match s {
        Some(x) => Json::Str(x.clone()),
        None => Json::Null,
    }
}

/// Builds the JSON value of an optional boolean.
fn opt_bool_json(b: &Option<bool>) -> (j: Json)
    ensures
        j.deep_view() == spec_opt_bool_json(*b),
{
    match b {
        Some(x) => Json::Bool(*x),
        None => Json::Null,
    }
}

/// Builds one object field.
fn field(key: &str, value: Json) -> (f: JsonField)
    ensures
        f.key@ == key@,
        f.value == value,
{
    JsonField { key: key.to_owned(), value }
}

/// The JSON value a `FunctionCallMessageResponse` serializes to.
pub fn function_call_response_json(f: &FunctionCallMessageResponse) -> (j: Json)
    ensures
        j.deep_view() == spec_fcr_json(f.deep_view()),
{
    let mut fields: Vec<JsonField> = Vec::new();
    fields.push(field("result", opt_str_json(&f.result)));
    fields.push(field("forwardToClientEnabled", opt_bool_json(&f.forwardToClientEnabled)));
    let j = Json::Obj(fields);
    proof {
        assert(spec_obj_fields(j.deep_view()) =~= spec_obj_fields(spec_fcr_json(f.deep_view())));
    }
    j
}

/// The JSON value an assistant profile serializes to.
pub fn assistant_json(a: &Assistant) -> (j: Json)
    ensures
        j.deep_view() == spec_assistant_json(a.deep_view()),
{
    let mut fields: Vec<JsonField> = Vec::new();
    fields.push(field("name", opt_str_json(&a.name)));
    fields.push(field("language", opt_str_json(&a.language)));
    fields.push(field("first_message", opt_str_json(&a.first_message)));
    fields.push(field("voicemail_message", opt_str_json(&a.voicemail_message)));
    fields.push(field("end_call_message", opt_str_json(&a.end_call_message)));
    fields.push(field("forwarding_phone_number", opt_str_json(&a.forwarding_phone_number)));
    fields.push(field("interruptions_enabled", opt_bool_json(&a.interruptions_enabled)));
    fields.push(field("recording_enabled", opt_bool_json(&a.recording_enabled)));
    fields.push(field("server_url", opt_str_json(&a.server_url)));
    fields.push(field("id", opt_str_json(&a.id)));
    fields.push(field("org_id", opt_str_json(&a.org_id)));
    let j = Json::Obj(fields);
    proof {
        assert(spec_obj_fields(j.deep_view()) =~= spec_obj_fields(
            spec_assistant_json(a.deep_view()),
        ));
    }
    j
}

/// The JSON value an `AssistantRequestMessageResponse` serializes to.
pub fn assistant_request_response_json(r: &AssistantRequestMessageResponse) -> (j: Json)
    ensures
        j.deep_view() == spec_arr_json(r.deep_view()),
{
    let assistant = match &r.assistant {
        Some(a) => assistant_json(a),
        None => Json::Null,
    };
    let mut fields: Vec<JsonField> = Vec::new();
    fields.push(field("assistant", assistant));
    fields.push(field("error", opt_str_json(&r.error)));
    let j = Json::Obj(fields);
    proof {
        let fs = spec_fields_view(fields@);
        let gs = spec_obj_fields(spec_arr_json(r.deep_view()));
        assert(fs[0].0 == gs[0].0);
        assert(fs[0].1 == gs[0].1);
        assert(fs[1].0 == gs[1].0);
        assert(fs[1].1 == gs[1].1);
        assert(fs =~= gs);
    }
    j
}

/// The JSON value an acknowledgment map serializes to.
pub fn ack_json(entries: &Vec<(String, String)>) -> (j: Json)
    ensures
        j.deep_view() == spec_ack_json(entries.deep_view()),
{
    let mut fields: Vec<JsonField> = Vec::new();
    let n = entries.len();
    for i in 0..n
        invariant
            n == entries.len(),
            fields@.len() == i,
            forall|k: int| 0 <= k < i ==> #[trigger] fields@[k].key@ == entries@[k].0@,
            forall|k: int|
                0 <= k < i ==> #[trigger] fields@[k].value.deep_view() == JsonV::Str(entries@[k].1@),
    {
        let k = entries[i].0.clone();
        let v = entries[i].1.clone();
        fields.push(JsonField { key: k, value: Json::Str(v) });
    }
    let j = Json::Obj(fields);
    proof {
        let fs = spec_fields_view(fields@);
        let gs = spec_obj_fields(spec_ack_json(entries.deep_view()));
        assert forall|k: int| 0 <= k < fs.len() implies fs[k] == gs[k] by {
            assert(fields@[k].key@ == entries@[k].0@);
            assert(fields@[k].value.deep_view() == JsonV::Str(entries@[k].1@));
        }
        assert(fs =~= gs);
    }
    j
}

/// The JSON value any response variant serializes to.
pub fn response_to_json(r: &VapiResponse) -> (j: Json)
    ensures
        j.deep_view() == spec_response_json(r.deep_view()),
{
    match r {
        VapiResponse::FunctionCallMessageResponse(f) => function_call_response_json(f),
        VapiResponse::AssistantRequestMessageResponse(a) => assistant_request_response_json(a),
        VapiResponse::StatusUpdateMessageResponse(m) => ack_json(m),
        VapiResponse::SpeechUpdateMessageResponse(m) => ack_json(m),
        VapiResponse::TranscriptMessageResponse(m) => ack_json(m),
        VapiResponse::HangMessageResponse(m) => ack_json(m),
        VapiResponse::EndOfCallReportMessageResponse(m) => ack_json(m),
    }
}

/// Serializes a response into its canonical wire text.  Serialization is
/// total: every response variant has a wire form.
pub fn encode_response(r: &VapiResponse) -> (s: String)
    ensures
        s@ == spec_encode_response(r.deep_view()),
{
    let j = response_to_json(r);
    write_json(&j)
}

/// What a `FunctionCallMessageResponse` decodes from: an object whose
/// `result` key holds a string or `null` and whose `forwardToClientEnabled`
/// key holds a boolean or `null`; a missing key reads as unset.
pub open spec fn spec_fcr_from_json(v: JsonV) -> Result<FunctionCallMessageResponseV, ()> {
    if !(v matches JsonV::Obj(_)) {
        Err(())
    } else {
        match spec_get_opt_str(v, "result"@) {
            Err(_) => Err(()),
            Ok(result) => match spec_get_opt_bool(v, "forwardToClientEnabled"@) {
                Err(_) => Err(()),
                Ok(forward) => Ok(
                    FunctionCallMessageResponseV { result, forwardToClientEnabled: forward },
                ),
            },
        }
    }
}

/// Decodes a `FunctionCallMessageResponse` back from a JSON value.
pub fn function_call_response_from_json(j: &Json) -> (r: Result<FunctionCallMessageResponse, ()>)
    ensures
        match r {
            Ok(f) => spec_fcr_from_json(j.deep_view()) == Ok::<_, ()>(f.deep_view()),
            Err(_) => spec_fcr_from_json(j.deep_view()) is Err,
        },
{
    match j {
        Json::Obj(_) => {},
        _ => {
            return Err(());
        },
    }
    let result = match crate::decode::get_opt_str(j, "result") {
        Ok(v) => v,
        Err(_) => {
            return Err(());
        },
    };
    let forward = match crate::decode::get_opt_bool(j, "forwardToClientEnabled") {
        Ok(v) => v,
        Err(_) => {
            return Err(());
        },
    };
    Ok(FunctionCallMessageResponse { result, forwardToClientEnabled: forward })
}

/// Round trip: encoding a `FunctionCallMessageResponse` and decoding it
/// back preserves it exactly; in particular an unset `result` stays unset,
/// because the wire form keeps the key present and `null`.
pub proof fn lemma_function_call_response_round_trip(f: FunctionCallMessageResponseV)
    ensures
        spec_fcr_from_json(spec_fcr_json(f)) == Ok::<FunctionCallMessageResponseV, ()>(f),
{
    reveal_strlit("result");
    reveal_strlit("forwardToClientEnabled");
    reveal_with_fuel(spec_fields_get, 3);
    let v = spec_fcr_json(f);
    let fs = spec_obj_fields(v);
    assert(fs.len() == 2);
    assert(fs[0].0 == "result"@);
    assert(fs[1].0 == "forwardToClientEnabled"@);
    assert("result"@.len() == 6);
    assert("forwardToClientEnabled"@.len() == 22);
    assert(spec_fields_get(fs, "result"@) == Some(fs[0].1));
    assert(fs[0].0 != "forwardToClientEnabled"@);
    assert(fs.drop_first() =~= seq![fs[1]]);
    assert(fs.drop_first()[0] == fs[1]);
    assert(spec_fields_get(fs, "forwardToClientEnabled"@) == Some(fs[1].1));
}

} // verus!
