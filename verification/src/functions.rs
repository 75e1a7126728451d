//! The registered functions' own logic: parameter records decoded from the
//! untyped `parameters` blob, the pure character-inspiration capability, and
//! the computing halves of the HTTP-backed capabilities (query building and
//! response extraction); the HTTP calls themselves live with the caller.

use vstd::prelude::*;

use crate::decode::{spec_get_opt_str, get_opt_str};
use crate::json::{spec_get, spec_get_str, spec_items_view, str_eq, Json, JsonV};
use crate::wire::parsed_json;
use vstd::string::StringExecFns;

verus! {

/// Parameters of the random-name capability: an optional gender and an
/// optional nationality code.
#[derive(Debug, PartialEq)]
pub struct NameParams {
    pub gender: Option<String>,
    pub nat: Option<String>,
}

/// The model of [`NameParams`].
pub struct NameParamsV {
    pub gender: Option<Seq<char>>,
    pub nat: Option<Seq<char>>,
}

impl DeepView for NameParams {
    type V = NameParamsV;

    open spec fn deep_view(&self) -> NameParamsV {
        NameParamsV { gender: self.gender.deep_view(), nat: self.nat.deep_view() }
    }
}

/// What a `NameParams` record decodes from: an object whose `gender` and
/// `nat` keys, when present and not `null`, hold strings.
pub open spec fn spec_name_params_from_json(v: JsonV) -> Option<NameParamsV> {
    if !(v matches JsonV::Obj(_)) {
        None
    } else {
        match spec_get_opt_str(v, "gender"@) {
            Err(_) => None,
            Ok(gender) => match spec_get_opt_str(v, "nat"@) {
                Err(_) => None,
                Ok(nat_code) => Some(NameParamsV { gender, nat: nat_code }),
            },
        }
    }
}

/// Decodes a `NameParams` record from the parameter blob.
pub fn name_params_from_json(j: &Json) -> (r: Option<NameParams>)
    ensures
        match r {
            Some(p) => spec_name_params_from_json(j.deep_view()) == Some(p.deep_view()),
            None => spec_name_params_from_json(j.deep_view()) is None,
        },
{
    match j {
        Json::Obj(_) => {},
        _ => {
            return None;
        },
    }
    let gender = match get_opt_str(j, "gender") {
        Ok(v) => v,
        Err(_) => {
            return None;
        },
    };
    let nat_code = match get_opt_str(j, "nat") {
        Ok(v) => v,
        Err(_) => {
            return None;
        },
    };
    Some(NameParams { gender, nat: nat_code })
}

/// Parameters of the character-inspiration capability: a free-text prompt.
#[derive(Debug, PartialEq)]
pub struct GetCharacterInspirationParams {
    pub inspiration: String,
}

/// The model of [`GetCharacterInspirationParams`].
pub struct GetCharacterInspirationParamsV {
    pub inspiration: Seq<char>,
}

impl DeepView for GetCharacterInspirationParams {
    type V = GetCharacterInspirationParamsV;

    open spec fn deep_view(&self) -> GetCharacterInspirationParamsV {
        GetCharacterInspirationParamsV { inspiration: self.inspiration@ }
    }
}

impl Default for GetCharacterInspirationParams {
    /// The fallback parameter record: an empty prompt.
    fn default() -> (r: Self)
        ensures
            r.deep_view() == (GetCharacterInspirationParamsV { inspiration: Seq::<char>::empty() }),
    {
        GetCharacterInspirationParams { inspiration: String::new() }
    }
}

/// What a `GetCharacterInspirationParams` record decodes from: an object
/// whose `inspiration` key holds a string.
pub open spec fn spec_char_params_from_json(v: JsonV) -> Option<GetCharacterInspirationParamsV> {
    match spec_get_str(v, "inspiration"@) {
        Some(inspiration) => Some(GetCharacterInspirationParamsV { inspiration }),
        None => None,
    }
}

/// Decodes a `GetCharacterInspirationParams` record from the parameter blob.
pub fn char_params_from_json(j: &Json) -> (r: Option<GetCharacterInspirationParams>)
    ensures
        match r {
            Some(p) => spec_char_params_from_json(j.deep_view()) == Some(p.deep_view()),
            None => spec_char_params_from_json(j.deep_view()) is None,
        },
{
    match j.get_str("inspiration") {
        Some(s) => Some(GetCharacterInspirationParams { inspiration: s.clone() }),
        None => None,
    }
}

/// The character-inspiration answer: a result string and the forwarding
/// flag.
#[derive(Debug, PartialEq)]
pub struct CharacterInspirationResponse {
    pub result: String,
    pub forward_to_client_enabled: bool,
}

/// The model of a [`CharacterInspirationResponse`].
pub struct CharacterInspirationResponseV {
    pub result: Seq<char>,
    pub forward_to_client_enabled: bool,
}

impl DeepView for CharacterInspirationResponse {
    type V = CharacterInspirationResponseV;

    open spec fn deep_view(&self) -> CharacterInspirationResponseV {
        CharacterInspirationResponseV {
            result: self.result@,
            forward_to_client_enabled: self.forward_to_client_enabled,
        }
    }
}

/// The stand-in answer the capability gives a nonempty prompt.
pub open spec fn spec_inspiration_placeholder() -> Seq<char> {
    "This is a placeholder response for the getCharacterInspiration function. It should be replaced with the actual implementation."@
}

/// The fallback answer the capability gives an empty prompt.
pub open spec fn spec_inspiration_fallback() -> Seq<char> {
    "Sorry, I am dealing with a technical issue at the moment, perhaps because of heightened user traffic. Come back later and we can try this again. Apologies for that."@
}

/// What the character-inspiration capability answers: the stand-in text,
/// forwarded to the client, for a nonempty prompt; the fallback text, not
/// forwarded, for an empty one.
pub open spec fn spec_get_character_inspiration(p: GetCharacterInspirationParamsV)
    -> CharacterInspirationResponseV {
    if p.inspiration.len() > 0 {
        CharacterInspirationResponseV {
            result: spec_inspiration_placeholder(),
            forward_to_client_enabled: true,
        }
    } else {
        CharacterInspirationResponseV {
            result: spec_inspiration_fallback(),
            forward_to_client_enabled: false,
        }
    }
}

/// The character-inspiration capability.
pub fn get_character_inspiration(params: GetCharacterInspirationParams) -> (r:
    CharacterInspirationResponse)
    ensures
        r.deep_view() == spec_get_character_inspiration(params.deep_view()),
{
    if !params.inspiration.as_str().is_empty() {
        CharacterInspirationResponse {
            result:
                "This is a placeholder response for the getCharacterInspiration function. It should be replaced with the actual implementation.".to_owned(),
            forward_to_client_enabled: true,
        }
    } else {
        CharacterInspirationResponse {
            result:
                "Sorry, I am dealing with a technical issue at the moment, perhaps because of heightened user traffic. Come back later and we can try this again. Apologies for that.".to_owned(),
            forward_to_client_enabled: false,
        }
    }
}

/// Why a capability failed; recovered by the dispatcher, never surfaced as a
/// transport error.
#[derive(Debug, PartialEq)]
pub enum FunctionError {
    /// The upstream service answered with a non-success status.
    HttpStatus(u16),
    /// The upstream body was not the shape the capability expects.
    MalformedBody,
    /// The upstream answered well-formedly but held no user record.
    NoUser,
}

/// The model of a [`FunctionError`].
pub enum FunctionErrorV {
    HttpStatus(int),
    MalformedBody,
    NoUser,
}

impl DeepView for FunctionError {
    type V = FunctionErrorV;

    open spec fn deep_view(&self) -> FunctionErrorV {
        match self {
            FunctionError::HttpStatus(s) => FunctionErrorV::HttpStatus(*s as int),
            FunctionError::MalformedBody => FunctionErrorV::MalformedBody,
            FunctionError::NoUser => FunctionErrorV::NoUser,
        }
    }
}

/// The nationality codes the random-name service accepts.
pub open spec fn spec_nats() -> Seq<Seq<char>> {
    seq![
        "AU"@,
        "CA"@,
        "FR"@,
        "IN"@,
        "IR"@,
        "MX"@,
        "NL"@,
        "NO"@,
        "NZ"@,
        "RS"@,
        "TR"@,
        "US"@,
    ]
}

/// Whether a requested nationality code is one the service accepts.
pub open spec fn spec_nat_allowed(s: Seq<char>) -> bool {
    spec_nats().contains(s)
}

/// Relies on `rand::random_range` over `0..n`: the draw lies in that
/// range; nothing else can be said of a random value.
#[verifier::external_body]
fn random_index(n: usize) -> (r: usize)
    requires
        n > 0,
    ensures
        r < n,
{
    rand::random_range(0..n)
}

/// Checks a nationality code against the accepted list.
pub fn nat_allowed(s: &str) -> (b: bool)
    ensures
        b == spec_nat_allowed(s@),
{
    let b0 = str_eq(s, "AU");
    let b1 = str_eq(s, "CA");
    let b2 = str_eq(s, "FR");
    let b3 = str_eq(s, "IN");
    let b4 = str_eq(s, "IR");
    let b5 = str_eq(s, "MX");
    let b6 = str_eq(s, "NL");
    let b7 = str_eq(s, "NO");
    let b8 = str_eq(s, "NZ");
    let b9 = str_eq(s, "RS");
    let b10 = str_eq(s, "TR");
    let b11 = str_eq(s, "US");
    let b = b0 || b1 || b2 || b3 || b4 || b5 || b6 || b7 || b8 || b9 || b10 || b11;
    proof {
        if b {
            assert(spec_nat_allowed(s@));
        } else {
            assert forall|i: int| 0 <= i < spec_nats().len() implies spec_nats()[i] != s@ by {
            }
            assert(!spec_nat_allowed(s@));
        }
    }
    b
}

/// The accepted nationality code at an index.
fn nat_at(i: usize) -> (s: String)
    requires
        i < 12,
    ensures
        s@ == spec_nats()[i as int],
{
    if i == 0 {
        "AU".to_owned()
    } else if i == 1 {
        "CA".to_owned()
    } else if i == 2 {
        "FR".to_owned()
    } else if i == 3 {
        "IN".to_owned()
    } else if i == 4 {
        "IR".to_owned()
    } else if i == 5 {
        "MX".to_owned()
    } else if i == 6 {
        "NL".to_owned()
    } else if i == 7 {
        "NO".to_owned()
    } else if i == 8 {
        "NZ".to_owned()
    } else if i == 9 {
        "RS".to_owned()
    } else if i == 10 {
        "TR".to_owned()
    } else {
        "US".to_owned()
    }
}

/// Picks the nationality the request will use: the requested code when the
/// service accepts it, else an accepted code drawn at random.
pub fn pick_nat(requested: &Option<String>) -> (nat_code: String)
    ensures
        ({
            let req_valid = requested is Some && spec_nat_allowed(requested->0@);
            if req_valid {
                nat_code@ == requested->0@
            } else {
                exists|i: int| 0 <= i < 12 && nat_code@ == spec_nats()[i]
            }
        }),
{
    match requested {
        Some(n) => {
            if nat_allowed(n.as_str()) {
                return n.clone();
            }
        },
        None => {},
    }
    let i = random_index(12);
    let nat_code = nat_at(i);
    proof {
        assert(nat_code@ == spec_nats()[i as int]);
    }
    nat_code
}

/// The query pairs of a random-name request with a settled nationality: the
/// gender, when given, then the nationality.
pub open spec fn spec_name_query(p: NameParamsV, nat_code: Seq<char>) -> Seq<
    (Seq<char>, Seq<char>),
> {
    match p.gender {
        Some(g) => seq![("gender"@, g), ("nat"@, nat_code)],
        None => seq![("nat"@, nat_code)],
    }
}

/// Builds the query pairs of a random-name request around a settled
/// nationality code.
pub fn name_query(params: &NameParams, nat_code: String) -> (q: Vec<(String, String)>)
    ensures
        q.deep_view() == spec_name_query(params.deep_view(), nat_code@),
{
    let mut q: Vec<(String, String)> = Vec::new();
    match &params.gender {
        Some(g) => {
            q.push(("gender".to_owned(), g.clone()));
        },
        None => {},
    }
    q.push(("nat".to_owned(), nat_code));
    proof {
        assert(q.deep_view() =~= spec_name_query(params.deep_view(), q@[q@.len() - 1].1@));
    }
    q
}

/// What a random-name service body yields: the first user record's first
/// and last name joined by a space; a body without a well-formed `results`
/// array is malformed, an empty one holds no user.
pub open spec fn spec_extract_random_name(v: JsonV) -> Result<Seq<char>, FunctionErrorV> {
    match spec_get(v, "results"@) {
        Some(JsonV::Arr(rs)) => if rs.len() == 0 {
            Err(FunctionErrorV::NoUser)
        } else {
            match spec_get(rs[0], "name"@) {
                Some(nm) => match spec_get_str(nm, "first"@) {
                    Some(first) => match spec_get_str(nm, "last"@) {
                        Some(last) => Ok(first + " "@ + last),
                        None => Err(FunctionErrorV::MalformedBody),
                    },
                    None => Err(FunctionErrorV::MalformedBody),
                },
                None => Err(FunctionErrorV::MalformedBody),
            }
        },
        _ => Err(FunctionErrorV::MalformedBody),
    }
}

/// Extracts the full name from a random-name service body.
pub fn extract_random_name(j: &Json) -> (r: Result<String, FunctionError>)
    ensures
        match r {
            Ok(name) => spec_extract_random_name(j.deep_view()) == Ok::<_, FunctionErrorV>(name@),
            Err(e) => spec_extract_random_name(j.deep_view()) == Err::<Seq<char>, _>(e.deep_view()),
        },
{
    let rs = match j.get("results") {
        Some(Json::Arr(rs)) => rs,
        _ => {
            return Err(FunctionError::MalformedBody);
        },
    };
    if rs.len() == 0 {
        return Err(FunctionError::NoUser);
    }
    let first_user = &rs[0];
    proof {
        assert(spec_items_view(rs@)[0] == rs@[0].deep_view());
    }
    let nm = match first_user.get("name") {
        Some(nm) => nm,
        None => {
            return Err(FunctionError::MalformedBody);
        },
    };
    let first = match nm.get_str("first") {
        Some(s) => s,
        None => {
            return Err(FunctionError::MalformedBody);
        },
    };
    let last = match nm.get_str("last") {
        Some(s) => s,
        None => {
            return Err(FunctionError::MalformedBody);
        },
    };
    let mut name = first.clone();
    name.append(" ");
    name.append(last.as_str());
    Ok(name)
}

/// What decoding a random-name service body from raw bytes yields.
pub open spec fn spec_random_name_from_body(s: Seq<u8>) -> Result<Seq<char>, FunctionErrorV> {
    match parsed_json(s) {
        None => Err(FunctionErrorV::MalformedBody),
        Some(v) => spec_extract_random_name(v),
    }
}

/// Turns a random-name service body into the capability's outcome.
pub fn random_name_from_body(body: &[u8]) -> (r: Result<String, FunctionError>)
    ensures
        match r {
            Ok(name) => spec_random_name_from_body(body@) == Ok::<_, FunctionErrorV>(name@),
            Err(e) => spec_random_name_from_body(body@) == Err::<Seq<char>, _>(e.deep_view()),
        },
{
    match crate::wire::json_from_bytes(body) {
        None => Err(FunctionError::MalformedBody),
        Some(j) => extract_random_name(&j),
    }
}

/// Parameters of the keyword-lookup capability.
#[derive(Debug, PartialEq)]
pub struct KeywordParams {
    pub keyword: String,
    pub topic: Option<String>,
}

/// The model of [`KeywordParams`].
pub struct KeywordParamsV {
    pub keyword: Seq<char>,
    pub topic: Option<Seq<char>>,
}

impl DeepView for KeywordParams {
    type V = KeywordParamsV;

    open spec fn deep_view(&self) -> KeywordParamsV {
        KeywordParamsV { keyword: self.keyword@, topic: self.topic.deep_view() }
    }
}

/// The query pairs of a keyword lookup: the meaning-like term, then the
/// topic when given.
pub open spec fn spec_keyword_query(p: KeywordParamsV) -> Seq<(Seq<char>, Seq<char>)> {
    match p.topic {
        Some(t) => seq![("ml"@, p.keyword), ("topics"@, t)],
        None => seq![("ml"@, p.keyword)],
    }
}

/// Builds the query pairs of a keyword lookup.
pub fn keyword_query(opts: &KeywordParams) -> (q: Vec<(String, String)>)
    ensures
        q.deep_view() == spec_keyword_query(opts.deep_view()),
{
    let mut q: Vec<(String, String)> = Vec::new();
    q.push(("ml".to_owned(), opts.keyword.clone()));
    match &opts.topic {
        Some(t) => {
            q.push(("topics".to_owned(), t.clone()));
        },
        None => {},
    }
    proof {
        assert(q.deep_view() =~= spec_keyword_query(opts.deep_view()));
    }
    q
}

/// The `word` fields among the first ten elements of a keyword-lookup body,
/// from index `i` on.
pub open spec fn spec_keywords_from(items: Seq<JsonV>, i: int) -> Seq<Seq<char>>
    decreases items.len() - i,
{
    if i < 0 || i >= items.len() || i >= 10 {
        Seq::empty()
    } else {
        match spec_get_str(items[i], "word"@) {
            Some(w) => seq![w] + spec_keywords_from(items, i + 1),
            None => spec_keywords_from(items, i + 1),
        }
    }
}

/// Extracts up to ten keywords from the elements of a lookup body.
pub fn extract_keywords(items: &Vec<Json>) -> (r: Vec<String>)
    ensures
        r.deep_view() == spec_keywords_from(spec_items_view(items@), 0),
{
    let ghost iv = spec_items_view(items@);
    let mut out: Vec<String> = Vec::new();
    let n = if items.len() < 10 {
        items.len()
    } else {
        10
    };
    for i in 0..n
        invariant
            n == if items@.len() < 10 {
                items@.len() as int
            } else {
                10
            },
            n <= items@.len(),
            iv == spec_items_view(items@),
            spec_keywords_from(iv, 0) == out.deep_view() + spec_keywords_from(iv, i as int),
    {
        proof {
            assert(iv[i as int] == items@[i as int].deep_view());
        }
        match items[i].get_str("word") {
            Some(w) => {
                out.push(w.clone());
                proof {
                    assert(spec_keywords_from(iv, 0) =~= out.deep_view() + spec_keywords_from(
                        iv,
                        i + 1,
                    ));
                }
            },
            None => {
                proof {
                    assert(spec_keywords_from(iv, 0) =~= out.deep_view() + spec_keywords_from(
                        iv,
                        i + 1,
                    ));
                }
            },
        }
    }
    proof {
        assert(spec_keywords_from(iv, n as int) =~= Seq::<Seq<char>>::empty());
        assert(out.deep_view() =~= out.deep_view() + Seq::<Seq<char>>::empty());
    }
    out
}

/// What decoding a keyword-lookup body from raw bytes yields: the body must
/// be a JSON array.
pub open spec fn spec_keywords_from_body(s: Seq<u8>) -> Result<Seq<Seq<char>>, FunctionErrorV> {
    match parsed_json(s) {
        Some(JsonV::Arr(items)) => Ok(spec_keywords_from(items, 0)),
        _ => Err(FunctionErrorV::MalformedBody),
    }
}

/// Turns a keyword-lookup service body into the capability's outcome.
pub fn find_keywords_in_body(body: &[u8]) -> (r: Result<Vec<String>, FunctionError>)
    ensures
        match r {
            Ok(ws) => spec_keywords_from_body(body@) == Ok::<_, FunctionErrorV>(ws.deep_view()),
            Err(e) => spec_keywords_from_body(body@) == Err::<Seq<Seq<char>>, _>(e.deep_view()),
        },
{
    match crate::wire::json_from_bytes(body) {
        Some(Json::Arr(items)) => Ok(extract_keywords(&items)),
        _ => Err(FunctionError::MalformedBody),
    }
}

} // verus!
