//! The outbound-call proxy's computing half: the request body it forwards,
//! the URL it posts to and the authorization it carries.  The HTTP exchange
//! itself lives with the caller.

use vstd::prelude::*;

use crate::encode::{spec_json_text, write_json};
use crate::json::{spec_fields_view, Json, JsonField, JsonV};
use vstd::string::StringExecFns;

verus! {

/// The body of an outbound-call request.
#[allow(non_snake_case)]
#[derive(Debug, PartialEq)]
pub struct RequestBody {
    pub phoneNumberId: String,
    pub assistantId: String,
    pub customerNumber: String,
}

/// The model of a [`RequestBody`].
#[allow(non_snake_case)]
pub struct RequestBodyV {
    pub phoneNumberId: Seq<char>,
    pub assistantId: Seq<char>,
    pub customerNumber: Seq<char>,
}

impl DeepView for RequestBody {
    type V = RequestBodyV;

    open spec fn deep_view(&self) -> RequestBodyV {
        RequestBodyV {
            phoneNumberId: self.phoneNumberId@,
            assistantId: self.assistantId@,
            customerNumber: self.customerNumber@,
        }
    }
}

/// A request body on the wire.
pub open spec fn spec_request_body_json(b: RequestBodyV) -> JsonV {
    JsonV::Obj(
        seq![
            ("phoneNumberId"@, JsonV::Str(b.phoneNumberId)),
            ("assistantId"@, JsonV::Str(b.assistantId)),
            ("customerNumber"@, JsonV::Str(b.customerNumber)),
        ],
    )
}

/// The JSON value a request body serializes to.
pub fn request_body_json(b: &RequestBody) -> (j: Json)
    ensures
        j.deep_view() == spec_request_body_json(b.deep_view()),
{
    let mut fields: Vec<JsonField> = Vec::new();
    fields.push(JsonField { key: "phoneNumberId".to_owned(), value: Json::Str(b.phoneNumberId.clone()) });
    fields.push(JsonField { key: "assistantId".to_owned(), value: Json::Str(b.assistantId.clone()) });
    fields.push(
        JsonField { key: "customerNumber".to_owned(), value: Json::Str(b.customerNumber.clone()) },
    );
    let j = Json::Obj(fields);
    proof {
        let gs = match spec_request_body_json(b.deep_view()) {
            JsonV::Obj(gs) => gs,
            _ => arbitrary(),
        };
        assert(spec_fields_view(j->Obj_0@) =~= gs);
    }
    j
}

/// Serializes a request body into its wire text.
pub fn encode_request_body(b: &RequestBody) -> (s: String)
    ensures
        s@ == spec_json_text(spec_request_body_json(b.deep_view())),
{
    let j = request_body_json(b);
    write_json(&j)
}

/// The endpoint an outbound call is posted to, under the platform's base
/// URL.
pub fn call_phone_url(base_url: &str) -> (r: String)
    ensures
        r@ == base_url@ + "/call/phone"@,
{
    let mut r = base_url.to_owned();
    r.append("/call/phone");
    r
}

/// The authorization header an outbound call carries.
pub fn bearer_token(api_key: &str) -> (r: String)
    ensures
        r@ == "Bearer "@ + api_key@,
{
    let mut r = "Bearer ".to_owned();
    r.append(api_key);
    r
}

} // verus!
