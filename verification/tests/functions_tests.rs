//! Capability logic: nationality selection, query building, upstream body
//! extraction, configuration defaults and the outbound helpers.

use vapi_core::config::env_config_from;
use vapi_core::functions::{
    find_keywords_in_body, keyword_query, name_params_from_json, name_query, nat_allowed, pick_nat,
    random_name_from_body, FunctionError, KeywordParams, NameParams,
};
use vapi_core::json::{Json, JsonField};
use vapi_core::outbound::{bearer_token, call_phone_url, encode_request_body, RequestBody};

const NATS: [&str; 12] = [
    "AU", "CA", "FR", "IN", "IR", "MX", "NL", "NO", "NZ", "RS", "TR", "US",
];

fn obj(fields: Vec<(&str, Json)>) -> Json {
    Json::Obj(
        fields
            .into_iter()
            .map(|(k, v)| JsonField { key: k.to_string(), value: v })
            .collect(),
    )
}

fn s(text: &str) -> Json {
    Json::Str(text.to_string())
}

#[test]
fn accepted_nationalities_are_recognized() {
    for code in NATS {
        assert!(nat_allowed(code), "{} should be accepted", code);
    }
    assert!(!nat_allowed("XX"));
    assert!(!nat_allowed("au"));
    assert!(!nat_allowed(""));
}

#[test]
fn requested_valid_nationality_is_kept() {
    assert_eq!(pick_nat(&Some("FR".to_string())), "FR");
    assert_eq!(pick_nat(&Some("US".to_string())), "US");
}

#[test]
fn invalid_or_absent_nationality_draws_an_accepted_one() {
    let drawn = pick_nat(&Some("XX".to_string()));
    assert!(NATS.contains(&drawn.as_str()));
    let drawn = pick_nat(&None);
    assert!(NATS.contains(&drawn.as_str()));
}

#[test]
fn name_query_orders_gender_before_nationality() {
    let p = NameParams { gender: Some("female".to_string()), nat: None };
    let q = name_query(&p, "NL".to_string());
    assert_eq!(
        q,
        vec![
            ("gender".to_string(), "female".to_string()),
            ("nat".to_string(), "NL".to_string()),
        ]
    );
    let p = NameParams { gender: None, nat: None };
    assert_eq!(name_query(&p, "US".to_string()), vec![("nat".to_string(), "US".to_string())]);
}

#[test]
fn name_params_decode_from_the_blob() {
    let p = name_params_from_json(&obj(vec![("gender", s("male")), ("nat", s("CA"))])).unwrap();
    assert_eq!(p.gender.as_deref(), Some("male"));
    assert_eq!(p.nat.as_deref(), Some("CA"));
    let p = name_params_from_json(&obj(vec![])).unwrap();
    assert_eq!(p.gender, None);
    assert_eq!(p.nat, None);
    assert!(name_params_from_json(&Json::Null).is_none());
    assert!(name_params_from_json(&obj(vec![("gender", Json::Int(2))])).is_none());
}

#[test]
fn random_name_is_joined_from_the_first_user() {
    let body = br#"{"results":[{"name":{"first":"Jane","last":"Doe"}},{"name":{"first":"X","last":"Y"}}]}"#;
    assert_eq!(random_name_from_body(body), Ok("Jane Doe".to_string()));
}

#[test]
fn empty_results_hold_no_user() {
    assert_eq!(
        random_name_from_body(br#"{"results":[]}"#),
        Err(FunctionError::NoUser)
    );
}

#[test]
fn malformed_user_bodies_are_refused() {
    assert_eq!(random_name_from_body(b"gibberish"), Err(FunctionError::MalformedBody));
    assert_eq!(random_name_from_body(br#"{"other":1}"#), Err(FunctionError::MalformedBody));
    assert_eq!(
        random_name_from_body(br#"{"results":[{"name":{"first":"Jane"}}]}"#),
        Err(FunctionError::MalformedBody)
    );
}

#[test]
fn keyword_query_carries_term_then_topic() {
    let q = keyword_query(&KeywordParams {
        keyword: "ocean".to_string(),
        topic: Some("sailing".to_string()),
    });
    assert_eq!(
        q,
        vec![
            ("ml".to_string(), "ocean".to_string()),
            ("topics".to_string(), "sailing".to_string()),
        ]
    );
    let q = keyword_query(&KeywordParams { keyword: "ocean".to_string(), topic: None });
    assert_eq!(q, vec![("ml".to_string(), "ocean".to_string())]);
}

#[test]
fn keywords_take_at_most_ten_words() {
    let mut items = String::from("[");
    for i in 0..12 {
        if i > 0 {
            items.push(',');
        }
        items.push_str(&format!(r#"{{"word":"w{}"}}"#, i));
    }
    items.push(']');
    let ws = find_keywords_in_body(items.as_bytes()).unwrap();
    assert_eq!(ws.len(), 10);
    assert_eq!(ws[0], "w0");
    assert_eq!(ws[9], "w9");
}

#[test]
fn elements_without_a_word_are_skipped() {
    let body = br#"[{"word":"alpha"},{"score":3},{"word":"beta"}]"#;
    assert_eq!(
        find_keywords_in_body(body).unwrap(),
        vec!["alpha".to_string(), "beta".to_string()]
    );
}

#[test]
fn non_array_keyword_bodies_are_refused() {
    assert_eq!(
        find_keywords_in_body(br#"{"word":"alpha"}"#),
        Err(FunctionError::MalformedBody)
    );
}

#[test]
fn configuration_falls_back_to_defaults() {
    let c = env_config_from(None, None, None, None, None);
    assert_eq!(c.weather.base_url, "https://api.openweathermap.org/data/2.5");
    assert_eq!(c.weather.api_key, "");
    assert_eq!(c.openai.api_key, "");
    assert_eq!(c.vapi.base_url, "https://api.vapi.ai");
    assert_eq!(c.vapi.api_key, "");
}

#[test]
fn configuration_keeps_given_settings() {
    let c = env_config_from(
        Some("http://w".to_string()),
        Some("wk".to_string()),
        Some("ok".to_string()),
        Some("http://v".to_string()),
        Some("vk".to_string()),
    );
    assert_eq!(c.weather.base_url, "http://w");
    assert_eq!(c.weather.api_key, "wk");
    assert_eq!(c.openai.api_key, "ok");
    assert_eq!(c.vapi.base_url, "http://v");
    assert_eq!(c.vapi.api_key, "vk");
}

#[test]
fn outbound_call_url_and_authorization_are_built() {
    assert_eq!(call_phone_url("https://api.vapi.ai"), "https://api.vapi.ai/call/phone");
    assert_eq!(bearer_token("k123"), "Bearer k123");
}

#[test]
fn outbound_request_body_has_exact_wire_text() {
    let b = RequestBody {
        phoneNumberId: "pn1".to_string(),
        assistantId: "as2".to_string(),
        customerNumber: "+15550100".to_string(),
    };
    assert_eq!(
        encode_request_body(&b),
        r#"{"phoneNumberId":"pn1","assistantId":"as2","customerNumber":"+15550100"}"#
    );
}

#[test]
fn inbound_assistant_profile_is_fixed() {
    let a = vapi_core::inbound::inbound_assistant();
    assert_eq!(a.name.as_deref(), Some("Paula"));
    assert_eq!(
        a.first_message.as_deref(),
        Some("Hi, I'm Paula, your personal email assistant.")
    );
    assert!(a.language.is_none());
    assert!(a.id.is_none());
}

#[test]
fn character_inspiration_answers_by_prompt() {
    let with_prompt = vapi_core::functions::get_character_inspiration(
        vapi_core::functions::GetCharacterInspirationParams {
            inspiration: "a quiet detective".to_string(),
        },
    );
    assert!(with_prompt.forward_to_client_enabled);
    assert!(with_prompt.result.contains("placeholder response"));

    let without_prompt = vapi_core::functions::get_character_inspiration(
        vapi_core::functions::GetCharacterInspirationParams { inspiration: String::new() },
    );
    assert!(!without_prompt.forward_to_client_enabled);
    assert!(without_prompt.result.starts_with("Sorry"));
}
