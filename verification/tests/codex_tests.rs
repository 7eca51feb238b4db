//! The Codex decoder and normalizer, and the Codex builders.

use aisdk::chunk::{ChunkDelta, ContentItem, StreamChunk, UsageRecord};
use aisdk::codex::decode::decode_codex_frame;
use aisdk::codex::events::{CodexOutputItem, OpenAiStreamEvent};
use aisdk::codex::normalize::{codex_chunks, codex_end_stream};
use aisdk::codex::{Codex, CodexProviderSettings};
use aisdk::error::Error;

fn decode(s: &str) -> Result<OpenAiStreamEvent, Error> {
    decode_codex_frame(&s.as_bytes().to_vec())
}

#[test]
fn codex_done_and_empty_payloads_end_the_stream() {
    assert_eq!(decode("[DONE]"), Ok(OpenAiStreamEvent::EndOfStream));
    assert_eq!(decode("   "), Ok(OpenAiStreamEvent::EndOfStream));
}

#[test]
fn codex_text_and_reasoning_deltas_decode_and_normalize() {
    let e = decode("{\"type\":\"response.output_text.delta\",\"delta\":\"Hi\"}").unwrap();
    assert_eq!(
        e,
        OpenAiStreamEvent::ResponseOutputTextDelta {
            delta: "Hi".to_owned()
        }
    );
    assert_eq!(
        codex_chunks(&e),
        vec![StreamChunk::Delta(ChunkDelta::Text("Hi".to_owned()))]
    );
    let r = decode("{\"type\":\"response.reasoning_summary_text.delta\",\"delta\":\"mm\"}")
        .unwrap();
    assert_eq!(
        codex_chunks(&r),
        vec![StreamChunk::Delta(ChunkDelta::Reasoning("mm".to_owned()))]
    );
}

#[test]
fn codex_completed_response_finalizes_each_output_item() {
    let body = "{\"type\":\"response.completed\",\"response\":{\"usage\":{\"input_tokens\":3,\"output_tokens\":5,\"total_tokens\":8},\"output\":[{\"type\":\"message\",\"content\":[{\"type\":\"output_text\",\"text\":\"hello\"}]},{\"type\":\"reasoning\",\"summary\":[{\"type\":\"summary_text\",\"text\":\"why\"}]},{\"type\":\"function_call\",\"call_id\":\"c1\",\"name\":\"f\",\"arguments\":\"{\\\"a\\\":1}\"}]}}";
    let e = decode(body).unwrap();
    assert!(codex_end_stream(&e));
    let usage = UsageRecord {
        input_tokens: Some(3),
        output_tokens: Some(5),
        total_tokens: Some(8),
    };
    let out = codex_chunks(&e);
    assert_eq!(out.len(), 3);
    match &out[0] {
        StreamChunk::Done(m) => {
            assert_eq!(
                m.content,
                ContentItem::Text {
                    text: "hello".to_owned()
                }
            );
            assert_eq!(m.usage, Some(usage));
        }
        _ => panic!("expected a done chunk"),
    }
    match &out[1] {
        StreamChunk::Done(m) => assert_eq!(
            m.content,
            ContentItem::Reasoning {
                text: "why".to_owned(),
                signature: None
            }
        ),
        _ => panic!("expected a done chunk"),
    }
    match &out[2] {
        StreamChunk::Done(m) => assert_eq!(
            m.content,
            ContentItem::ToolCall {
                id: "c1".to_owned(),
                name: "f".to_owned(),
                arguments: "{\"a\":1}".to_owned(),
            }
        ),
        _ => panic!("expected a done chunk"),
    }
}

#[test]
fn codex_items_without_usable_text_contribute_nothing() {
    let e = OpenAiStreamEvent::ResponseCompleted {
        response: aisdk::codex::events::CodexResponse {
            usage: None,
            output: vec![
                CodexOutputItem::OutputMessage { text: None },
                CodexOutputItem::Other,
            ],
            incomplete_reason: None,
        },
    };
    assert_eq!(codex_chunks(&e), vec![]);
}

#[test]
fn codex_incomplete_and_error_events_normalize() {
    let inc = decode("{\"type\":\"response.incomplete\",\"response\":{\"incomplete_details\":{\"reason\":\"max_output_tokens\"}}}").unwrap();
    assert_eq!(
        codex_chunks(&inc),
        vec![StreamChunk::Delta(ChunkDelta::Incomplete(
            "max_output_tokens".to_owned()
        ))]
    );
    let inc_unknown = OpenAiStreamEvent::ResponseIncomplete {
        response: aisdk::codex::events::CodexResponse {
            usage: None,
            output: vec![],
            incomplete_reason: None,
        },
    };
    assert_eq!(
        codex_chunks(&inc_unknown),
        vec![StreamChunk::Delta(ChunkDelta::Incomplete(
            "Unknown".to_owned()
        ))]
    );
    let err = decode("{\"type\":\"error\",\"code\":\"rate_limit\",\"message\":\"slow down\"}")
        .unwrap();
    assert!(codex_end_stream(&err));
    assert_eq!(
        codex_chunks(&err),
        vec![StreamChunk::Delta(ChunkDelta::Failed(
            "rate_limit: slow down".to_owned()
        ))]
    );
    let err_no_code = OpenAiStreamEvent::ResponseError {
        code: None,
        message: "oops".to_owned(),
    };
    assert_eq!(
        codex_chunks(&err_no_code),
        vec![StreamChunk::Delta(ChunkDelta::Failed(
            "unknown: oops".to_owned()
        ))]
    );
}

#[test]
fn codex_builder_validates_and_trims() {
    let c = Codex::builder()
        .model_name("gpt-5.3-codex")
        .api_key("  sk-key  ")
        .instructions("be brief")
        .build()
        .unwrap();
    assert_eq!(c.settings.api_key, "sk-key");
    assert_eq!(c.model, "gpt-5.3-codex");
    assert_eq!(c.path(), "/responses");
    let missing = Codex::builder().api_key("   ").build();
    assert!(matches!(missing, Err(Error::MissingField(f)) if f == "api_key"));
    let bad = Codex::builder().base_url("chatgpt.com").api_key("k").build();
    assert!(matches!(bad, Err(Error::InvalidInput(_))));
}

#[test]
fn codex_headers_and_urls() {
    let c = Codex::builder().api_key("sk").build().unwrap();
    let h = c.headers();
    assert_eq!(h[1], ("accept".to_owned(), "text/event-stream".to_owned()));
    assert_eq!(h[2].1, "Bearer sk");
    assert_eq!(
        c.request_url(),
        "https://chatgpt.com/backend-api/codex/responses"
    );
    assert!(matches!(
        c.generate_text(),
        Err(Error::Other(s)) if s == "Codex provider supports streaming only; use stream_text()"
    ));
}

#[test]
fn codex_settings_builder_always_finishes() {
    let s = CodexProviderSettings::builder()
        .provider_name("mycodex")
        .instructions("hi")
        .build()
        .unwrap();
    assert_eq!(s.provider_name, "mycodex");
    assert_eq!(s.instructions, "hi");
    assert_eq!(s.path, Some("/responses".to_owned()));
}
