//! The Anthropic-family wire decoder: one frame payload in, one event out.
//!
//! Policy: an empty payload or the literal `[DONE]` is the end-of-stream
//! sentinel, never an error. Bytes that are not JSON are a fatal decode
//! error (a wire-format mismatch). Well-formed JSON of no known shape
//! becomes the `NotSupported` event carrying the payload verbatim.

use vstd::prelude::*;

verus! {

use crate::chunk::UsageRecord;
use crate::claudecode::events::{AnthropicContentBlock, AnthropicDelta, AnthropicStreamEvent};
use crate::error::Error;
use crate::json::{member_string, parse_json, spec_get, spec_get_u64, json_doc, JsonValue};
use crate::text::{bytes_to_string, spec_trim, str_eq, trim_bytes};

/// An end-of-stream payload: nothing but whitespace, or the `[DONE]` token.
pub open spec fn is_end_marker(s: Seq<u8>) -> bool {
    spec_trim(s).len() == 0 || spec_trim(s) == seq![91u8, 68u8, 79u8, 78u8, 69u8, 93u8]
}

/// The content block a `content_block_start` member denotes, if any.
pub open spec fn spec_block_of(cb: JsonValue) -> Option<AnthropicContentBlock> {
    match member_string(cb, "type"@) {
        Some(t) => if t@ == "text"@ {
            match member_string(cb, "text"@) {
                Some(s) => Some(AnthropicContentBlock::Text { text: s }),
                None => None,
            }
        } else if t@ == "thinking"@ {
            match member_string(cb, "thinking"@) {
                Some(s) => Some(
                    AnthropicContentBlock::Thinking {
                        thinking: s,
                        signature: member_string(cb, "signature"@),
                    },
                ),
                None => None,
            }
        } else if t@ == "redacted_thinking"@ {
            match member_string(cb, "data"@) {
                Some(s) => Some(AnthropicContentBlock::RedactedThinking { data: s }),
                None => None,
            }
        } else if t@ == "tool_use"@ {
            match (member_string(cb, "id"@), member_string(cb, "name"@)) {
                (Some(i), Some(n)) => Some(AnthropicContentBlock::ToolUse { id: i, name: n }),
                _ => None,
            }
        } else {
            None
        },
        None => None,
    }
}

/// The delta a `content_block_delta` member denotes, if any.
pub open spec fn spec_delta_of(d: JsonValue) -> Option<AnthropicDelta> {
    match member_string(d, "type"@) {
        Some(t) => if t@ == "text_delta"@ {
            match member_string(d, "text"@) {
                Some(s) => Some(AnthropicDelta::TextDelta { text: s }),
                None => None,
            }
        } else if t@ == "thinking_delta"@ {
            match member_string(d, "thinking"@) {
                Some(s) => Some(AnthropicDelta::ThinkingDelta { thinking: s }),
                None => None,
            }
        } else if t@ == "signature_delta"@ {
            match member_string(d, "signature"@) {
                Some(s) => Some(AnthropicDelta::SignatureDelta { signature: s }),
                None => None,
            }
        } else if t@ == "input_json_delta"@ {
            match member_string(d, "partial_json"@) {
                Some(s) => Some(AnthropicDelta::InputJsonDelta { partial_json: s }),
                None => None,
            }
        } else {
            None
        },
        None => None,
    }
}

/// The usage a `message_delta` usage member denotes.
pub open spec fn spec_usage_of(u: JsonValue) -> UsageRecord {
    UsageRecord {
        input_tokens: spec_get_u64(u, "input_tokens"@),
        output_tokens: spec_get_u64(u, "output_tokens"@),
        total_tokens: None,
    }
}

/// The event a parsed frame document denotes. `raw` is the payload's text,
/// carried verbatim by the catch-all variant.
pub open spec fn spec_classify(doc: JsonValue, raw: String) -> AnthropicStreamEvent {
    match member_string(doc, "type"@) {
        None => AnthropicStreamEvent::NotSupported { raw },
        Some(t) => if t@ == "message_start"@ {
            AnthropicStreamEvent::MessageStart
        } else if t@ == "message_stop"@ {
            AnthropicStreamEvent::MessageStop
        } else if t@ == "content_block_start"@ {
            match (spec_get_u64(doc, "index"@), spec_get(doc, "content_block"@)) {
                (Some(i), Some(cb)) => match spec_block_of(cb) {
                    Some(b) => AnthropicStreamEvent::ContentBlockStart {
                        index: i,
                        content_block: b,
                    },
                    None => AnthropicStreamEvent::NotSupported { raw },
                },
                _ => AnthropicStreamEvent::NotSupported { raw },
            }
        } else if t@ == "content_block_delta"@ {
            match (spec_get_u64(doc, "index"@), spec_get(doc, "delta"@)) {
                (Some(i), Some(d)) => match spec_delta_of(d) {
                    Some(dd) => AnthropicStreamEvent::ContentBlockDelta { index: i, delta: dd },
                    None => AnthropicStreamEvent::NotSupported { raw },
                },
                _ => AnthropicStreamEvent::NotSupported { raw },
            }
        } else if t@ == "content_block_stop"@ {
            match spec_get_u64(doc, "index"@) {
                Some(i) => AnthropicStreamEvent::ContentBlockStop { index: i },
                None => AnthropicStreamEvent::NotSupported { raw },
            }
        } else if t@ == "message_delta"@ {
            match spec_get(doc, "usage"@) {
                Some(u) => AnthropicStreamEvent::MessageDelta { usage: spec_usage_of(u) },
                None => AnthropicStreamEvent::NotSupported { raw },
            }
        } else if t@ == "error"@ {
            match spec_get(doc, "error"@) {
                Some(e) => match (member_string(e, "type"@), member_string(e, "message"@)) {
                    (Some(a), Some(m)) => AnthropicStreamEvent::ErrorEvent {
                        error_type: a,
                        message: m,
                    },
                    _ => AnthropicStreamEvent::NotSupported { raw },
                },
                None => AnthropicStreamEvent::NotSupported { raw },
            }
        } else {
            AnthropicStreamEvent::NotSupported { raw }
        },
    }
}

fn block_of(cb: &JsonValue) -> (r: Option<AnthropicContentBlock>)
    ensures
        r == spec_block_of(*cb),
{
    match cb.get_str("type") {
        None => None,
        Some(t) => {
            if str_eq(t.as_str(), "text") {
                match cb.get_str("text") {
                    Some(s) => Some(AnthropicContentBlock::Text { text: s.clone() }),
                    None => None,
                }
            } else if str_eq(t.as_str(), "thinking") {
                match cb.get_str("thinking") {
                    Some(s) => {
                        let signature = match cb.get_str("signature") {
                            Some(g) => Some(g.clone()),
                            None => None,
                        };
                        Some(
                            AnthropicContentBlock::Thinking { thinking: s.clone(), signature },
                        )
                    },
                    None => None,
                }
            } else if str_eq(t.as_str(), "redacted_thinking") {
                match cb.get_str("data") {
                    Some(s) => Some(AnthropicContentBlock::RedactedThinking { data: s.clone() }),
                    None => None,
                }
            } else if str_eq(t.as_str(), "tool_use") {
                match (cb.get_str("id"), cb.get_str("name")) {
                    (Some(i), Some(n)) => Some(
                        AnthropicContentBlock::ToolUse { id: i.clone(), name: n.clone() },
                    ),
                    _ => None,
                }
            } else {
                None
            }
        },
    }
}

fn delta_of(d: &JsonValue) -> (r: Option<AnthropicDelta>)
    ensures
        r == spec_delta_of(*d),
{
    match d.get_str("type") {
        None => None,
        Some(t) => {
            if str_eq(t.as_str(), "text_delta") {
                match d.get_str("text") {
                    Some(s) => Some(AnthropicDelta::TextDelta { text: s.clone() }),
                    None => None,
                }
            } else if str_eq(t.as_str(), "thinking_delta") {
                match d.get_str("thinking") {
                    Some(s) => Some(AnthropicDelta::ThinkingDelta { thinking: s.clone() }),
                    None => None,
                }
            } else if str_eq(t.as_str(), "signature_delta") {
                match d.get_str("signature") {
                    Some(s) => Some(AnthropicDelta::SignatureDelta { signature: s.clone() }),
                    None => None,
                }
            } else if str_eq(t.as_str(), "input_json_delta") {
                match d.get_str("partial_json") {
                    Some(s) => Some(AnthropicDelta::InputJsonDelta { partial_json: s.clone() }),
                    None => None,
                }
            } else {
                None
            }
        },
    }
}

/// Maps one parsed frame document to its event. `raw` is the payload text,
/// kept verbatim when the shape is unrecognized.
pub fn classify(doc: &JsonValue, raw: String) -> (r: AnthropicStreamEvent)
    ensures
        r == spec_classify(*doc, raw),
{
    match doc.get_str("type") {
        None => AnthropicStreamEvent::NotSupported { raw },
        Some(t) => {
            if str_eq(t.as_str(), "message_start") {
                AnthropicStreamEvent::MessageStart
            } else if str_eq(t.as_str(), "message_stop") {
                AnthropicStreamEvent::MessageStop
            } else if str_eq(t.as_str(), "content_block_start") {
                match (doc.get_u64("index"), doc.get("content_block")) {
                    (Some(i), Some(cb)) => match block_of(cb) {
                        Some(b) => AnthropicStreamEvent::ContentBlockStart {
                            index: i,
                            content_block: b,
                        },
                        None => AnthropicStreamEvent::NotSupported { raw },
                    },
                    _ => AnthropicStreamEvent::NotSupported { raw },
                }
            } else if str_eq(t.as_str(), "content_block_delta") {
                match (doc.get_u64("index"), doc.get("delta")) {
                    (Some(i), Some(d)) => match delta_of(d) {
                        Some(dd) => AnthropicStreamEvent::ContentBlockDelta {
                            index: i,
                            delta: dd,
                        },
                        None => AnthropicStreamEvent::NotSupported { raw },
                    },
                    _ => AnthropicStreamEvent::NotSupported { raw },
                }
            } else if str_eq(t.as_str(), "content_block_stop") {
                match doc.get_u64("index") {
                    Some(i) => AnthropicStreamEvent::ContentBlockStop { index: i },
                    None => AnthropicStreamEvent::NotSupported { raw },
                }
            } else if str_eq(t.as_str(), "message_delta") {
                match doc.get("usage") {
                    Some(u) => AnthropicStreamEvent::MessageDelta {
                        usage: UsageRecord {
                            input_tokens: u.get_u64("input_tokens"),
                            output_tokens: u.get_u64("output_tokens"),
                            total_tokens: None,
                        },
                    },
                    None => AnthropicStreamEvent::NotSupported { raw },
                }
            } else if str_eq(t.as_str(), "error") {
                match doc.get("error") {
                    Some(e) => match (e.get_str("type"), e.get_str("message")) {
                        (Some(a), Some(m)) => AnthropicStreamEvent::ErrorEvent {
                            error_type: a.clone(),
                            message: m.clone(),
                        },
                        _ => AnthropicStreamEvent::NotSupported { raw },
                    },
                    None => AnthropicStreamEvent::NotSupported { raw },
                }
            } else {
                AnthropicStreamEvent::NotSupported { raw }
            }
        },
    }
}

/// Decodes one frame payload. An end-of-stream payload (`[DONE]` or nothing
/// but whitespace) is the sentinel event, never an error; bytes that are not
/// JSON fail the stream; recognized shapes become their event and anything
/// else is carried verbatim.
pub fn decode_frame(payload: &Vec<u8>) -> (r: Result<AnthropicStreamEvent, Error>)
    ensures
        is_end_marker(payload@) ==> r == Ok::<AnthropicStreamEvent, Error>(
            AnthropicStreamEvent::EndOfStream,
        ),
        !is_end_marker(payload@) ==> match json_doc(payload@) {
            None => r matches Err(Error::ApiError { status_code, details }) && status_code is None
                && details@ == "invalid JSON in SSE data"@,
            Some(doc) => r matches Ok(ev) && (exists|raw: String|
                ev == #[trigger] spec_classify(doc, raw) && (vstd::utf8::valid_utf8(payload@)
                    ==> raw@ == vstd::utf8::decode_utf8(payload@))),
        },
{
    let t = trim_bytes(payload);
    let is_end: bool = if t.len() == 0 {
        true
    } else if t.len() == 6 && t[0] == 91 && t[1] == 68 && t[2] == 79 && t[3] == 78 && t[4] == 69
        && t[5] == 93 {
        proof {
            assert(t@ =~= seq![91u8, 68u8, 79u8, 78u8, 69u8, 93u8]);
        }
        true
    } else {
        proof {
            if t@.len() == 6 {
                assert((t@ == seq![91u8, 68u8, 79u8, 78u8, 69u8, 93u8]) ==> (t@[0] == 91 && t@[1]
                    == 68 && t@[2] == 79 && t@[3] == 78 && t@[4] == 69 && t@[5] == 93));
            }
        }
        false
    };
    if is_end {
        return Ok(AnthropicStreamEvent::EndOfStream);
    }
    match parse_json(payload) {
        None => Err(
            Error::ApiError { status_code: None, details: "invalid JSON in SSE data".to_owned() },
        ),
        Some(doc) => {
            let raw = bytes_to_string(payload);
            Ok(classify(&doc, raw))
        },
    }
}

} // verus!
