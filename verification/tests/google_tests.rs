//! The Google decoder and normalizer, and the Google request shape.

use aisdk::chunk::{ChunkDelta, ContentItem, StreamChunk, UsageRecord};
use aisdk::google::decode::decode_google_frame;
use aisdk::google::events::GoogleStreamEvent;
use aisdk::google::normalize::{google_chunks, google_end_stream, google_response_to_llm};
use aisdk::google::Google;
use aisdk::error::Error;

fn decode(s: &str) -> Result<GoogleStreamEvent, Error> {
    decode_google_frame(&s.as_bytes().to_vec())
}

#[test]
fn google_sentinels_end_the_stream() {
    assert_eq!(decode(""), Ok(GoogleStreamEvent::EndOfStream));
    assert_eq!(decode("[DONE]"), Ok(GoogleStreamEvent::EndOfStream));
}

#[test]
fn google_payload_without_candidates_is_carried_verbatim() {
    let raw = "{\"promptFeedback\":{}}";
    assert_eq!(
        decode(raw),
        Ok(GoogleStreamEvent::NotSupported {
            raw: raw.to_owned()
        })
    );
}

#[test]
fn google_malformed_json_is_a_fatal_decode_error() {
    assert!(matches!(
        decode("{oops"),
        Err(Error::ApiError { status_code: None, .. })
    ));
}

#[test]
fn google_text_stream_normalizes_and_finishes() {
    let body = "{\"candidates\":[{\"content\":{\"parts\":[{\"text\":\"Hel\"},{\"text\":\"lo\"}]},\"finishReason\":\"STOP\"}],\"usageMetadata\":{\"promptTokenCount\":2,\"candidatesTokenCount\":4,\"totalTokenCount\":6}}";
    let e = decode(body).unwrap();
    assert!(google_end_stream(&e));
    let out = google_chunks(&e);
    assert_eq!(out.len(), 3);
    assert_eq!(
        out[0],
        StreamChunk::Delta(ChunkDelta::Text("Hel".to_owned()))
    );
    assert_eq!(out[1], StreamChunk::Delta(ChunkDelta::Text("lo".to_owned())));
    match &out[2] {
        StreamChunk::Done(m) => {
            assert_eq!(
                m.content,
                ContentItem::Text {
                    text: "Hello".to_owned()
                }
            );
            assert_eq!(
                m.usage,
                Some(UsageRecord {
                    input_tokens: Some(2),
                    output_tokens: Some(4),
                    total_tokens: Some(6),
                })
            );
        }
        _ => panic!("expected a done chunk"),
    }
}

#[test]
fn google_function_call_renders_to_canonical_json() {
    let body = "{\"candidates\":[{\"content\":{\"parts\":[{\"functionCall\":{\"name\":\"f\",\"args\":{\"x\":1,\"y\":\"z\"}}}]},\"finishReason\":\"STOP\"}]}";
    let e = decode(body).unwrap();
    let out = google_chunks(&e);
    assert_eq!(out.len(), 2);
    // The delta carries the whole rendered call; keys come in serde_json's
    // stored (sorted) order.
    assert_eq!(
        out[0],
        StreamChunk::Delta(ChunkDelta::ToolCall(
            "{\"args\":{\"x\":1,\"y\":\"z\"},\"name\":\"f\"}".to_owned()
        ))
    );
    match &out[1] {
        StreamChunk::Done(m) => assert_eq!(
            m.content,
            ContentItem::ToolCall {
                id: String::new(),
                name: "f".to_owned(),
                arguments: "{\"x\":1,\"y\":\"z\"}".to_owned(),
            }
        ),
        _ => panic!("expected a done chunk"),
    }
}

#[test]
fn google_unfinished_candidate_emits_deltas_only() {
    let body = "{\"candidates\":[{\"content\":{\"parts\":[{\"text\":\"partial\"}]}}]}";
    let e = decode(body).unwrap();
    assert!(!google_end_stream(&e));
    let out = google_chunks(&e);
    assert_eq!(
        out,
        vec![StreamChunk::Delta(ChunkDelta::Text("partial".to_owned()))]
    );
}

#[test]
fn google_complete_response_maps_to_content_items() {
    let body = "{\"candidates\":[{\"content\":{\"parts\":[{\"text\":\"hi\"},{\"functionCall\":{\"name\":\"g\",\"args\":{}}}]},\"finishReason\":\"STOP\"}],\"usageMetadata\":{\"totalTokenCount\":9}}";
    match decode(body).unwrap() {
        GoogleStreamEvent::Response(resp) => {
            let llm = google_response_to_llm(&resp);
            assert_eq!(llm.contents.len(), 2);
            assert_eq!(
                llm.contents[0],
                ContentItem::Text {
                    text: "hi".to_owned()
                }
            );
            assert_eq!(
                llm.contents[1],
                ContentItem::ToolCall {
                    id: String::new(),
                    name: "g".to_owned(),
                    arguments: "{}".to_owned(),
                }
            );
            assert_eq!(
                llm.usage,
                Some(UsageRecord {
                    input_tokens: None,
                    output_tokens: None,
                    total_tokens: Some(9),
                })
            );
        }
        _ => panic!("expected a response"),
    }
}

#[test]
fn google_urls_name_the_model_and_mode() {
    let g = Google::model_name("gemini-pro");
    assert_eq!(
        g.generate_url(),
        "https://generativelanguage.googleapis.com/v1beta/models/gemini-pro:generateContent"
    );
    assert_eq!(
        g.stream_url(),
        "https://generativelanguage.googleapis.com/v1beta/models/gemini-pro:streamGenerateContent?alt=sse"
    );
    let h = g.headers();
    assert_eq!(h[0], ("content-type".to_owned(), "application/json".to_owned()));
    assert_eq!(h[1].0, "x-goog-api-key");
}
