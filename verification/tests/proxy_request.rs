use ai_gateway::error::AppError;
use ai_gateway::headers::HEADER_ROOM;
use ai_gateway::proxy::{
    bearer_credential, outbound_headers, prepare_request, resolve_provider, target_url, Upstream,
};
use ai_gateway::providers::bedrock::BedrockProvider;
use http::{HeaderMap, HeaderName, HeaderValue};

fn headers(pairs: &[(&str, &[u8])]) -> HeaderMap {
    let mut map = HeaderMap::new();
    for (name, value) in pairs {
        map.append(
            HeaderName::from_bytes(name.as_bytes()).unwrap(),
            HeaderValue::from_bytes(value).unwrap(),
        );
    }
    map
}

#[test]
fn registered_names_resolve_to_their_upstream() {
    assert_eq!(resolve_provider("openai"), Ok(Upstream::OpenAi));
    assert_eq!(resolve_provider("anthropic"), Ok(Upstream::Anthropic));
    assert_eq!(resolve_provider("groq"), Ok(Upstream::Groq));
    assert_eq!(resolve_provider("bedrock"), Ok(Upstream::Bedrock));
    assert_eq!(resolve_provider(BedrockProvider::new().name()), Ok(Upstream::Bedrock));
    assert_eq!(resolve_provider("openai"), resolve_provider("openai"));
    assert_eq!(resolve_provider("groq").unwrap().name(), "groq");
}

#[test]
fn other_names_are_unsupported_providers() {
    assert_eq!(resolve_provider(""), Err(AppError::UnsupportedProvider));
    assert_eq!(resolve_provider("OpenAI"), Err(AppError::UnsupportedProvider));
    assert_eq!(resolve_provider("openai "), Err(AppError::UnsupportedProvider));
    assert_eq!(resolve_provider("mistral"), Err(AppError::UnsupportedProvider));
}

#[test]
fn each_upstream_has_its_origin() {
    assert_eq!(Upstream::OpenAi.base_url(), "https://api.openai.com");
    assert_eq!(Upstream::Anthropic.base_url(), "https://api.anthropic.com");
    assert_eq!(Upstream::Groq.base_url(), "https://api.groq.com/openai");
    assert_eq!(Upstream::Bedrock.base_url(), "https://bedrock-runtime.us-east-1.amazonaws.com");
    assert_eq!(Upstream::Bedrock.base_url(), BedrockProvider::new().base_url());
    assert_eq!(Upstream::OpenAi.name(), "openai");
    assert_eq!(Upstream::Anthropic.name(), "anthropic");
    assert_eq!(Upstream::Bedrock.name(), "bedrock");
}

#[test]
fn only_bedrock_requests_are_signed() {
    assert!(Upstream::Bedrock.requires_signing());
    assert!(!Upstream::OpenAi.requires_signing());
    assert!(!Upstream::Anthropic.requires_signing());
    assert!(!Upstream::Groq.requires_signing());
}

#[test]
fn target_url_joins_origin_path_and_query() {
    assert_eq!(target_url("https://api.openai.com", "/v1/chat/completions", None), "https://api.openai.com/v1/chat/completions");
    assert_eq!(target_url("https://api.openai.com", "/v1/models", Some("limit=2&x=y")), "https://api.openai.com/v1/models?limit=2&x=y");
    assert_eq!(target_url("https://h", "", Some("")), "https://h?");
}

#[test]
fn gateway_key_becomes_a_bearer_credential() {
    let inbound = headers(&[("authorization", b"Bearer own"), ("x-magicapi-api-key", b"sk-123")]);
    assert_eq!(bearer_credential(&inbound).unwrap(), "Bearer sk-123");
}

#[test]
fn own_authorization_is_passed_through() {
    let inbound = headers(&[("authorization", b"Basic dXNlcg=="), ("cookie", b"a=b")]);
    assert_eq!(bearer_credential(&inbound).unwrap(), "Basic dXNlcg==");
}

#[test]
fn a_gateway_key_that_is_no_visible_text_is_passed_over() {
    let inbound = headers(&[("x-magicapi-api-key", &[0x80, 0x81]), ("authorization", b"Bearer own")]);
    assert_eq!(bearer_credential(&inbound).unwrap(), "Bearer own");
    let inbound = headers(&[("x-magicapi-api-key", &[0x80, 0x81])]);
    assert!(matches!(bearer_credential(&inbound), Err(AppError::MissingApiKey)));
}

#[test]
fn no_credential_is_a_missing_api_key() {
    assert!(matches!(bearer_credential(&HeaderMap::new()), Err(AppError::MissingApiKey)));
    assert!(matches!(bearer_credential(&headers(&[("authorization", &[0xff])])), Err(AppError::MissingApiKey)));
    assert!(matches!(outbound_headers(&headers(&[("x-api-key", b"k")])), Err(AppError::MissingApiKey)));
}

#[test]
fn outbound_headers_are_content_type_and_authorization() {
    let inbound = headers(&[("x-magicapi-api-key", b"k"), ("cookie", b"a=b"), ("content-type", b"text/plain")]);
    let out = outbound_headers(&inbound).unwrap();
    assert_eq!(out.len(), 2);
    assert_eq!(out.get("content-type").unwrap(), "application/json");
    assert_eq!(out.get("authorization").unwrap(), "Bearer k");
}

#[test]
fn prepared_request_holds_method_url_headers_and_body() {
    let inbound = headers(&[("authorization", b"Bearer t")]);
    let request = prepare_request("groq", "POST", "/v1/chat/completions", Some("a=1"), &inbound, b"{\"x\":1}").ok().unwrap();
    assert_eq!(request.method, http::Method::POST);
    assert_eq!(request.url, "https://api.groq.com/openai/v1/chat/completions?a=1");
    assert_eq!(request.headers.len(), 2);
    assert_eq!(request.headers.get("authorization").unwrap(), "Bearer t");
    assert_eq!(request.body, b"{\"x\":1}".to_vec());
    assert!(request.signing.is_none());
    let request = prepare_request("anthropic", "PURGE", "/v1/messages", None, &inbound, b"").ok().unwrap();
    assert_eq!(request.method.as_str(), "PURGE");
    assert_eq!(request.url, "https://api.anthropic.com/v1/messages");
    assert!(request.body.is_empty());
}

#[test]
fn bearer_upstreams_take_any_body_as_it_is() {
    let inbound = headers(&[("authorization", b"Bearer t")]);
    let request = prepare_request("openai", "POST", "/v1/x", None, &inbound, b"not json at all").ok().unwrap();
    assert_eq!(request.body, b"not json at all".to_vec());
}

#[test]
fn groq_accepts_the_gateway_key() {
    let inbound = headers(&[("x-magicapi-api-key", b"gk")]);
    let request = prepare_request("groq", "GET", "/v1/models", None, &inbound, b"").ok().unwrap();
    assert_eq!(request.headers.get("authorization").unwrap(), "Bearer gk");
}

#[test]
fn bedrock_request_is_made_by_the_bedrock_provider() {
    let inbound = headers(&[
        ("x-aws-access-key-id", b"AKIA"),
        ("x-aws-secret-access-key", b"s3cr3t"),
        ("x-aws-region", b"eu-west-1"),
        ("authorization", b"Bearer own"),
        ("cookie", b"a=b"),
    ]);
    let body = br#"{"model":"amazon.titan-text-premier-v1:0","messages":[{"role":"user","content":"hi"}],"max_tokens":50}"#;
    let request = prepare_request("bedrock", "POST", "/bedrock/chat/completions", Some("v=1"), &inbound, body).ok().unwrap();
    assert_eq!(request.method, http::Method::POST);
    assert_eq!(
        request.url,
        "https://bedrock-runtime.us-east-1.amazonaws.com/model/amazon.titan-text-premier-v1:0/invoke?v=1"
    );
    assert_eq!(request.headers.len(), 4);
    assert_eq!(request.headers.get("content-type").unwrap(), "application/json");
    assert_eq!(request.headers.get("x-aws-region").unwrap(), "eu-west-1");
    assert!(request.headers.get("authorization").is_none());
    assert!(request.headers.get("cookie").is_none());
    assert_eq!(
        String::from_utf8(request.body).unwrap(),
        r#"{"inputText":"hi","textGenerationConfig":{"maxTokenCount":50,"stopSequences":[],"temperature":0.7,"topP":1.0}}"#
    );
    let signing = request.signing.unwrap();
    assert_eq!(signing.access_key, "AKIA");
    assert_eq!(signing.secret_key, "s3cr3t");
    assert_eq!(signing.region, "eu-west-1");
    assert_eq!(signing.host, "bedrock-runtime.us-east-1.amazonaws.com");
}

#[test]
fn bedrock_request_names_the_model_of_its_path() {
    let body = br#"{"model":"anthropic.sonnet-v2","messages":[{"role":"user","content":"hi"}]}"#;
    let request = prepare_request("bedrock", "POST", "/bedrock/anthropic.sonnet-v2", None, &HeaderMap::new(), body).ok().unwrap();
    assert_eq!(request.url, "https://bedrock-runtime.us-east-1.amazonaws.com/model/anthropic.sonnet-v2/invoke");
    let value: serde_json::Value = serde_json::from_slice(&request.body).unwrap();
    assert_eq!(value["prompt"], serde_json::Value::from("\n\nHuman: hi"));
}

#[test]
fn bedrock_request_without_credentials_goes_unsigned() {
    let body = br#"{"messages":[]}"#;
    let request = prepare_request("bedrock", "POST", "/bedrock/", None, &headers(&[("authorization", b"t")]), body).ok().unwrap();
    assert!(request.signing.is_none());
    assert_eq!(request.headers.len(), 1);
    assert_eq!(request.url, "https://bedrock-runtime.us-east-1.amazonaws.com/model/amazon.titan-text-premier-v1:0/invoke");
}

#[test]
fn bedrock_request_is_turned_away_for_its_body() {
    let none = HeaderMap::new();
    assert!(matches!(prepare_request("bedrock", "POST", "/x", None, &none, b"nope"), Err(AppError::InvalidJson)));
    assert!(matches!(prepare_request("bedrock", "POST", "/x", None, &none, br#"{"model":"m"}"#), Err(AppError::InvalidRequestFormat)));
    assert!(matches!(
        prepare_request("bedrock", "POST", "/x", None, &none, br#"{"model":"m","messages":[]}"#),
        Err(AppError::UnsupportedModel)
    ));
    assert!(matches!(prepare_request("bedrock", "NO METHOD", "/x", None, &none, b"nope"), Err(AppError::InvalidMethod)));
}

#[test]
fn many_inbound_headers_are_no_hindrance_below_the_room() {
    let mut inbound = HeaderMap::new();
    for i in 0..(HEADER_ROOM - 1) {
        let name = format!("x-aws-h{}", i);
        inbound.append(HeaderName::from_bytes(name.as_bytes()).unwrap(), HeaderValue::from_static("v"));
    }
    assert_eq!(inbound.len(), HEADER_ROOM - 1);
    let out = BedrockProvider::new().process_headers(&inbound).unwrap();
    assert_eq!(out.len(), HEADER_ROOM);
    let request = prepare_request("bedrock", "POST", "/x/m", None, &inbound, br#"{"messages":[]}"#).ok().unwrap();
    assert_eq!(request.headers.len(), HEADER_ROOM);
}

#[test]
fn unsupported_provider_is_found_first() {
    let r = prepare_request("mistral", "NOT A METHOD", "/x", None, &HeaderMap::new(), b"");
    assert!(matches!(r, Err(AppError::UnsupportedProvider)));
    let r = prepare_request("", "GET", "/x", None, &headers(&[("authorization", b"t")]), b"");
    assert!(matches!(r, Err(AppError::UnsupportedProvider)));
    let r = prepare_request("Bedrock", "GET", "/x", None, &headers(&[("authorization", b"t")]), b"{}");
    assert!(matches!(r, Err(AppError::UnsupportedProvider)));
}

#[test]
fn invalid_method_is_found_before_a_missing_key() {
    let r = prepare_request("openai", "GE T", "/x", None, &HeaderMap::new(), b"");
    assert!(matches!(r, Err(AppError::InvalidMethod)));
    let r = prepare_request("openai", "", "/x", None, &headers(&[("authorization", b"t")]), b"");
    assert!(matches!(r, Err(AppError::InvalidMethod)));
    let r = prepare_request("openai", "G\u{e9}T", "/x", None, &headers(&[("authorization", b"t")]), b"");
    assert!(matches!(r, Err(AppError::InvalidMethod)));
}

#[test]
fn missing_key_is_found_last() {
    let r = prepare_request("openai", "GET", "/x", None, &HeaderMap::new(), b"");
    assert!(matches!(r, Err(AppError::MissingApiKey)));
    let r = prepare_request("anthropic", "GET", "/x", None, &headers(&[("x-aws-access-key-id", b"k")]), b"");
    assert!(matches!(r, Err(AppError::MissingApiKey)));
}
