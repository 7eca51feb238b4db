//! The Anthropic-family wire decoder: sentinel handling, shape
//! classification, and the decode-error policy.

use aisdk::claudecode::decode::decode_frame;
use aisdk::claudecode::events::{AnthropicContentBlock, AnthropicDelta, AnthropicStreamEvent};
use aisdk::error::Error;

fn decode(s: &str) -> Result<AnthropicStreamEvent, Error> {
    decode_frame(&s.as_bytes().to_vec())
}

#[test]
fn done_token_and_empty_payload_both_end_the_stream() {
    // `[DONE]` and an empty payload are treated identically as end-of-stream,
    // and never become a Failed value or an error.
    assert_eq!(decode("[DONE]"), Ok(AnthropicStreamEvent::EndOfStream));
    assert_eq!(decode(""), Ok(AnthropicStreamEvent::EndOfStream));
    assert_eq!(decode("  [DONE]\n"), Ok(AnthropicStreamEvent::EndOfStream));
    assert_eq!(decode(" \t "), Ok(AnthropicStreamEvent::EndOfStream));
}

#[test]
fn malformed_json_is_a_fatal_decode_error() {
    let r = decode("{not json");
    match r {
        Err(Error::ApiError {
            status_code,
            details,
        }) => {
            assert_eq!(status_code, None);
            assert_eq!(details, "invalid JSON in SSE data");
        }
        _ => panic!("expected a decode error"),
    }
}

#[test]
fn unrecognized_but_well_formed_payload_is_carried_verbatim() {
    let raw = "{\"type\":\"brand_new_event\",\"x\":1}";
    assert_eq!(
        decode(raw),
        Ok(AnthropicStreamEvent::NotSupported {
            raw: raw.to_owned()
        })
    );
}

#[test]
fn message_start_and_stop_decode() {
    assert_eq!(
        decode("{\"type\":\"message_start\",\"message\":{}}"),
        Ok(AnthropicStreamEvent::MessageStart)
    );
    assert_eq!(
        decode("{\"type\":\"message_stop\"}"),
        Ok(AnthropicStreamEvent::MessageStop)
    );
}

#[test]
fn content_block_start_decodes_each_kind() {
    assert_eq!(
        decode("{\"type\":\"content_block_start\",\"index\":0,\"content_block\":{\"type\":\"text\",\"text\":\"\"}}"),
        Ok(AnthropicStreamEvent::ContentBlockStart {
            index: 0,
            content_block: AnthropicContentBlock::Text {
                text: String::new()
            },
        })
    );
    assert_eq!(
        decode("{\"type\":\"content_block_start\",\"index\":3,\"content_block\":{\"type\":\"tool_use\",\"id\":\"t1\",\"name\":\"f\",\"input\":{}}}"),
        Ok(AnthropicStreamEvent::ContentBlockStart {
            index: 3,
            content_block: AnthropicContentBlock::ToolUse {
                id: "t1".to_owned(),
                name: "f".to_owned(),
            },
        })
    );
    assert_eq!(
        decode("{\"type\":\"content_block_start\",\"index\":1,\"content_block\":{\"type\":\"redacted_thinking\",\"data\":\"opaque\"}}"),
        Ok(AnthropicStreamEvent::ContentBlockStart {
            index: 1,
            content_block: AnthropicContentBlock::RedactedThinking {
                data: "opaque".to_owned()
            },
        })
    );
}

#[test]
fn content_block_delta_decodes_each_kind() {
    assert_eq!(
        decode("{\"type\":\"content_block_delta\",\"index\":0,\"delta\":{\"type\":\"text_delta\",\"text\":\"Hi\"}}"),
        Ok(AnthropicStreamEvent::ContentBlockDelta {
            index: 0,
            delta: AnthropicDelta::TextDelta {
                text: "Hi".to_owned()
            },
        })
    );
    assert_eq!(
        decode("{\"type\":\"content_block_delta\",\"index\":0,\"delta\":{\"type\":\"input_json_delta\",\"partial_json\":\"{\\\"a\\\"\"}}"),
        Ok(AnthropicStreamEvent::ContentBlockDelta {
            index: 0,
            delta: AnthropicDelta::InputJsonDelta {
                partial_json: "{\"a\"".to_owned()
            },
        })
    );
    assert_eq!(
        decode("{\"type\":\"content_block_delta\",\"index\":0,\"delta\":{\"type\":\"signature_delta\",\"signature\":\"s1\"}}"),
        Ok(AnthropicStreamEvent::ContentBlockDelta {
            index: 0,
            delta: AnthropicDelta::SignatureDelta {
                signature: "s1".to_owned()
            },
        })
    );
}

#[test]
fn message_delta_carries_usage_counts() {
    let e = decode("{\"type\":\"message_delta\",\"delta\":{},\"usage\":{\"output_tokens\":42}}");
    assert_eq!(
        e,
        Ok(AnthropicStreamEvent::MessageDelta {
            usage: aisdk::chunk::UsageRecord {
                input_tokens: None,
                output_tokens: Some(42),
                total_tokens: None,
            },
        })
    );
}

#[test]
fn error_envelope_decodes_to_the_error_event() {
    let e = decode(
        "{\"type\":\"error\",\"error\":{\"type\":\"overloaded_error\",\"message\":\"busy\"}}",
    );
    assert_eq!(
        e,
        Ok(AnthropicStreamEvent::ErrorEvent {
            error_type: "overloaded_error".to_owned(),
            message: "busy".to_owned(),
        })
    );
}

#[test]
fn a_delta_of_unknown_shape_is_carried_verbatim() {
    let raw = "{\"type\":\"content_block_delta\",\"index\":0,\"delta\":{\"type\":\"mystery\"}}";
    assert_eq!(
        decode(raw),
        Ok(AnthropicStreamEvent::NotSupported {
            raw: raw.to_owned()
        })
    );
}
