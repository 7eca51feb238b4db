//! Builders, transport decisions, and the non-streamed response mapping.

use aisdk::chunk::ContentItem;
use aisdk::claudecode::{ClaudeCode, ClaudeCodeBuilder};
use aisdk::error::Error;
use aisdk::groq::{Groq, GroqProviderSettings};
use aisdk::transport::{classify_establishment, is_rate_limit, join_url, validate_base_url};

#[test]
fn claudecode_builder_accepts_a_complete_configuration() {
    let c = ClaudeCode::builder()
        .model_name("m-large")
        .api_key("oat-token")
        .path("/v2/messages")
        .build()
        .unwrap();
    assert_eq!(c.model, "m-large");
    assert_eq!(c.path(), "/v2/messages");
    assert_eq!(
        c.request_url(),
        "https://api.anthropic.com/v1/v2/messages"
    );
}

#[test]
fn claudecode_builder_requires_a_key_and_a_scheme() {
    let missing = ClaudeCode::builder().build();
    assert!(matches!(missing, Err(Error::MissingField(f)) if f == "api_key"));
    let bad = ClaudeCode::builder()
        .api_key("k")
        .base_url("api.anthropic.com")
        .build();
    assert!(matches!(bad, Err(Error::InvalidInput(_))));
}

#[test]
fn claudecode_headers_carry_the_oauth_shape() {
    let c = ClaudeCode::builder().api_key("tok").build().unwrap();
    let h = c.headers();
    assert_eq!(h.len(), 4);
    assert_eq!(h[1], ("authorization".to_owned(), "Bearer tok".to_owned()));
    assert_eq!(
        h[2],
        ("anthropic-version".to_owned(), "2023-06-01".to_owned())
    );
    assert_eq!(
        h[3],
        ("anthropic-beta".to_owned(), "oauth-2025-04-20".to_owned())
    );
    assert_eq!(c.method(), "POST");
    assert!(c.query_params().is_empty());
}

#[test]
fn claudecode_defaults_point_at_the_messages_endpoint() {
    let c = ClaudeCode::model_name("m1");
    assert_eq!(c.name(), "m1");
    assert_eq!(c.path(), "/messages");
    assert_eq!(c.settings.base_url, "https://api.anthropic.com/v1/");
    let b: ClaudeCodeBuilder = ClaudeCode::builder();
    assert_eq!(b.settings.provider_name, "claudecode");
}

#[test]
fn complete_response_bodies_map_to_content_items() {
    let body = "{\"content\":[{\"type\":\"text\",\"text\":\"hi\"},{\"type\":\"thinking\",\"thinking\":\"mm\",\"signature\":\"s\"},{\"type\":\"tool_use\",\"id\":\"t\",\"name\":\"f\",\"input\":{\"k\":true}}],\"usage\":{\"input_tokens\":1,\"output_tokens\":2}}";
    let resp = ClaudeCode::parse_response(&body.as_bytes().to_vec()).unwrap();
    assert_eq!(resp.contents.len(), 3);
    assert_eq!(
        resp.contents[0],
        ContentItem::Text {
            text: "hi".to_owned()
        }
    );
    assert_eq!(
        resp.contents[1],
        ContentItem::Reasoning {
            text: "mm".to_owned(),
            signature: Some("s".to_owned()),
        }
    );
    assert_eq!(
        resp.contents[2],
        ContentItem::ToolCall {
            id: "t".to_owned(),
            name: "f".to_owned(),
            arguments: "{\"k\":true}".to_owned(),
        }
    );
    let usage = resp.usage.unwrap();
    assert_eq!(usage.input_tokens, Some(1));
    assert_eq!(usage.output_tokens, Some(2));
}

#[test]
fn unrecognized_response_blocks_are_carried_verbatim() {
    let body = "{\"content\":[{\"type\":\"diagram\",\"dot\":\"a->b\"}]}";
    let resp = ClaudeCode::parse_response(&body.as_bytes().to_vec()).unwrap();
    assert_eq!(
        resp.contents,
        vec![ContentItem::NotSupported {
            raw: "{\"dot\":\"a->b\",\"type\":\"diagram\"}".to_owned()
        }]
    );
    assert_eq!(resp.usage, None);
}

#[test]
fn malformed_response_bodies_are_api_errors() {
    let r = ClaudeCode::parse_response(&b"not json".to_vec());
    assert!(matches!(r, Err(Error::ApiError { status_code: None, .. })));
}

#[test]
fn establishment_classification_follows_the_status() {
    assert!(classify_establishment(200, String::new()).is_ok());
    assert!(classify_establishment(204, String::new()).is_ok());
    let denied = classify_establishment(429, "slow down".to_owned());
    match denied {
        Err(Error::ApiError {
            status_code,
            details,
        }) => {
            assert_eq!(status_code, Some(429));
            assert_eq!(details, "slow down");
            assert!(is_rate_limit(429));
            assert!(!is_rate_limit(500));
        }
        _ => panic!("expected an api error"),
    }
}

#[test]
fn url_joining_leaves_exactly_one_slash() {
    assert_eq!(join_url("https://a/", "/p"), "https://a/p");
    assert_eq!(join_url("https://a", "p"), "https://a/p");
    assert_eq!(join_url("https://a/", "p"), "https://a/p");
    assert_eq!(join_url("https://a", "/p"), "https://a/p");
}

#[test]
fn base_url_validation_requires_a_scheme() {
    assert_eq!(
        validate_base_url("http://x").unwrap(),
        "http://x".to_owned()
    );
    assert_eq!(
        validate_base_url("https://x").unwrap(),
        "https://x".to_owned()
    );
    assert!(validate_base_url("ftp://x").is_err());
    assert!(validate_base_url("x").is_err());
}

#[test]
fn groq_defaults_and_builder() {
    let g = Groq::new("llama-3.3-70b");
    assert_eq!(g.base_url, "https://api.groq.com/openai/v1");
    assert_eq!(g.name(), "llama-3.3-70b");
    let built = GroqProviderSettings::builder()
        .model_name("llama")
        .api_key("gk")
        .provider_name("groq2")
        .build()
        .unwrap();
    assert_eq!(built.provider_name, "groq2");
    assert_eq!(built.api_key, "gk");
    let missing = Groq::builder().model_name("llama").build();
    assert!(matches!(missing, Err(Error::MissingField(_))));
}

#[test]
fn error_messages_name_their_class() {
    assert_eq!(
        Error::ProtocolViolation("bad index".to_owned()).message(),
        "protocol violation: bad index"
    );
    assert_eq!(
        Error::MissingField("api_key".to_owned()).message(),
        "missing field: api_key"
    );
    assert_eq!(
        Error::ApiError {
            status_code: Some(500),
            details: "boom".to_owned()
        }
        .message(),
        "api error: boom"
    );
}
