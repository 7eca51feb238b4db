//! The OpenAI-responses-family wire decoder: one frame payload in, one event
//! out, under the same policy as every decoder here — the end sentinel is
//! never an error, bytes that are not JSON fail the stream, and well-formed
//! JSON of no known shape is carried verbatim.

use vstd::prelude::*;

verus! {

use crate::chunk::UsageRecord;
use crate::claudecode::decode::is_end_marker;
use crate::codex::events::{CodexOutputItem, CodexResponse, OpenAiStreamEvent};
use crate::error::Error;
use crate::json::{json_doc, member_string, parse_json, spec_get, spec_get_u64, JsonValue};
use crate::text::{bytes_to_string, str_eq, trim_bytes};

/// The first output-text content of a message output item.
pub open spec fn spec_first_content_text(v: JsonValue) -> Option<String> {
    match spec_get(v, "content"@) {
        Some(JsonValue::Arr(items)) => if items@.len() > 0 {
            match member_string(items@[0], "type"@) {
                Some(t) => if t@ == "output_text"@ {
                    member_string(items@[0], "text"@)
                } else {
                    None
                },
                None => None,
            }
        } else {
            None
        },
        _ => None,
    }
}

/// The first summary entry of a reasoning output item.
pub open spec fn spec_first_summary_text(v: JsonValue) -> Option<String> {
    match spec_get(v, "summary"@) {
        Some(JsonValue::Arr(items)) => if items@.len() > 0 {
            member_string(items@[0], "text"@)
        } else {
            None
        },
        _ => None,
    }
}

/// The output item a member of the response's output list denotes.
pub open spec fn spec_output_item(v: JsonValue) -> CodexOutputItem {
    match member_string(v, "type"@) {
        Some(t) => if t@ == "message"@ {
            CodexOutputItem::OutputMessage { text: spec_first_content_text(v) }
        } else if t@ == "reasoning"@ {
            CodexOutputItem::Reasoning { summary_text: spec_first_summary_text(v) }
        } else if t@ == "function_call"@ {
            match (
                member_string(v, "call_id"@),
                member_string(v, "name"@),
                member_string(v, "arguments"@),
            ) {
                (Some(c), Some(n), Some(a)) => CodexOutputItem::FunctionCall {
                    call_id: c,
                    name: n,
                    arguments: a,
                },
                _ => CodexOutputItem::Other,
            }
        } else {
            CodexOutputItem::Other
        },
        None => CodexOutputItem::Other,
    }
}

/// The usage a response's usage member denotes.
pub open spec fn spec_codex_usage(u: JsonValue) -> UsageRecord {
    UsageRecord {
        input_tokens: spec_get_u64(u, "input_tokens"@),
        output_tokens: spec_get_u64(u, "output_tokens"@),
        total_tokens: spec_get_u64(u, "total_tokens"@),
    }
}

/// How a parsed response member maps to the response record.
pub open spec fn codex_response_rel(v: JsonValue, r: CodexResponse) -> bool {
    &&& r.usage == (match spec_get(v, "usage"@) {
        Some(u) => Some(spec_codex_usage(u)),
        None => None::<UsageRecord>,
    })
    &&& match spec_get(v, "output"@) {
        Some(JsonValue::Arr(items)) => r.output@.len() == items@.len() && (forall|i: int|
            0 <= i < items@.len() ==> #[trigger] r.output@[i] == spec_output_item(items@[i])),
        _ => r.output@.len() == 0,
    }
    &&& r.incomplete_reason == (match spec_get(v, "incomplete_details"@) {
        Some(d) => member_string(d, "reason"@),
        None => None::<String>,
    })
}

/// How a parsed frame document maps to its event. `raw` is the payload's
/// text, carried verbatim by the catch-all variant.
pub open spec fn codex_classify_rel(doc: JsonValue, raw: String, e: OpenAiStreamEvent) -> bool {
    match member_string(doc, "type"@) {
        None => e == (OpenAiStreamEvent::NotSupported { raw }),
        Some(t) => if t@ == "response.output_text.delta"@ {
            match member_string(doc, "delta"@) {
                Some(d) => e == (OpenAiStreamEvent::ResponseOutputTextDelta { delta: d }),
                None => e == (OpenAiStreamEvent::NotSupported { raw }),
            }
        } else if t@ == "response.reasoning_summary_text.delta"@ {
            match member_string(doc, "delta"@) {
                Some(d) => e == (OpenAiStreamEvent::ResponseReasoningSummaryTextDelta {
                    delta: d,
                }),
                None => e == (OpenAiStreamEvent::NotSupported { raw }),
            }
        } else if t@ == "response.completed"@ {
            match spec_get(doc, "response"@) {
                Some(v) => e matches OpenAiStreamEvent::ResponseCompleted { response }
                    && codex_response_rel(v, response),
                None => e == (OpenAiStreamEvent::NotSupported { raw }),
            }
        } else if t@ == "response.incomplete"@ {
            match spec_get(doc, "response"@) {
                Some(v) => e matches OpenAiStreamEvent::ResponseIncomplete { response }
                    && codex_response_rel(v, response),
                None => e == (OpenAiStreamEvent::NotSupported { raw }),
            }
        } else if t@ == "error"@ {
            match member_string(doc, "message"@) {
                Some(m) => e == (OpenAiStreamEvent::ResponseError {
                    code: member_string(doc, "code"@),
                    message: m,
                }),
                None => e == (OpenAiStreamEvent::NotSupported { raw }),
            }
        } else {
            e == (OpenAiStreamEvent::NotSupported { raw })
        },
    }
}

fn output_item(v: &JsonValue) -> (r: CodexOutputItem)
    ensures
        r == spec_output_item(*v),
{
    match v.get_str("type") {
        None => CodexOutputItem::Other,
        Some(t) => {
            if str_eq(t.as_str(), "message") {
                let text: Option<String> = match v.get("content") {
                    Some(JsonValue::Arr(items)) => if items.len() > 0 {
                        match items[0].get_str("type") {
                            Some(ct) => if str_eq(ct.as_str(), "output_text") {
                                match items[0].get_str("text") {
                                    Some(s) => Some(s.clone()),
                                    None => None,
                                }
                            } else {
                                None
                            },
                            None => None,
                        }
                    } else {
                        None
                    },
                    _ => None,
                };
                CodexOutputItem::OutputMessage { text }
            } else if str_eq(t.as_str(), "reasoning") {
                let summary_text: Option<String> = match v.get("summary") {
                    Some(JsonValue::Arr(items)) => if items.len() > 0 {
                        match items[0].get_str("text") {
                            Some(s) => Some(s.clone()),
                            None => None,
                        }
                    } else {
                        None
                    },
                    _ => None,
                };
                CodexOutputItem::Reasoning { summary_text }
            } else if str_eq(t.as_str(), "function_call") {
                match (v.get_str("call_id"), v.get_str("name"), v.get_str("arguments")) {
                    (Some(c), Some(n), Some(a)) => CodexOutputItem::FunctionCall {
                        call_id: c.clone(),
                        name: n.clone(),
                        arguments: a.clone(),
                    },
                    _ => CodexOutputItem::Other,
                }
            } else {
                CodexOutputItem::Other
            }
        },
    }
}

fn response_of(v: &JsonValue) -> (r: CodexResponse)
    ensures
        codex_response_rel(*v, r),
{
    let usage: Option<UsageRecord> = match v.get("usage") {
        Some(u) => Some(
            UsageRecord {
                input_tokens: u.get_u64("input_tokens"),
                output_tokens: u.get_u64("output_tokens"),
                total_tokens: u.get_u64("total_tokens"),
            },
        ),
        None => None,
    };
    let mut output: Vec<CodexOutputItem> = Vec::new();
    match v.get("output") {
        Some(JsonValue::Arr(items)) => {
            let mut i: usize = 0;
            while i < items.len()
                invariant
                    0 <= i <= items@.len(),
                    output@.len() == i,
                    forall|j: int|
                        0 <= j < i ==> #[trigger] output@[j] == spec_output_item(items@[j]),
                decreases items@.len() - i,
            {
                let item = output_item(&items[i]);
                output.push(item);
                i += 1;
            }
        },
        _ => {},
    }
    let incomplete_reason: Option<String> = match v.get("incomplete_details") {
        Some(d) => match d.get_str("reason") {
            Some(s) => Some(s.clone()),
            None => None,
        },
        None => None,
    };
    CodexResponse { usage, output, incomplete_reason }
}

fn classify(doc: &JsonValue, raw: String) -> (e: OpenAiStreamEvent)
    ensures
        codex_classify_rel(*doc, raw, e),
{
    match doc.get_str("type") {
        None => OpenAiStreamEvent::NotSupported { raw },
        Some(t) => {
            if str_eq(t.as_str(), "response.output_text.delta") {
                match doc.get_str("delta") {
                    Some(d) => OpenAiStreamEvent::ResponseOutputTextDelta { delta: d.clone() },
                    None => OpenAiStreamEvent::NotSupported { raw },
                }
            } else if str_eq(t.as_str(), "response.reasoning_summary_text.delta") {
                match doc.get_str("delta") {
                    Some(d) => OpenAiStreamEvent::ResponseReasoningSummaryTextDelta {
                        delta: d.clone(),
                    },
                    None => OpenAiStreamEvent::NotSupported { raw },
                }
            } else if str_eq(t.as_str(), "response.completed") {
                match doc.get("response") {
                    Some(v) => OpenAiStreamEvent::ResponseCompleted { response: response_of(v) },
                    None => OpenAiStreamEvent::NotSupported { raw },
                }
            } else if str_eq(t.as_str(), "response.incomplete") {
                match doc.get("response") {
                    Some(v) => OpenAiStreamEvent::ResponseIncomplete { response: response_of(v) },
                    None => OpenAiStreamEvent::NotSupported { raw },
                }
            } else if str_eq(t.as_str(), "error") {
                match doc.get_str("message") {
                    Some(m) => {
                        let code: Option<String> = match doc.get_str("code") {
                            Some(c) => Some(c.clone()),
                            None => None,
                        };
                        OpenAiStreamEvent::ResponseError { code, message: m.clone() }
                    },
                    None => OpenAiStreamEvent::NotSupported { raw },
                }
            } else {
                OpenAiStreamEvent::NotSupported { raw }
            }
        },
    }
}

/// Decodes one frame payload, under the standard policy: the end sentinel is
/// the sentinel event, bytes that are not JSON fail the stream, recognized
/// shapes become their event, and anything else is carried verbatim.
pub fn decode_codex_frame(payload: &Vec<u8>) -> (r: Result<OpenAiStreamEvent, Error>)
    ensures
        is_end_marker(payload@) ==> r == Ok::<OpenAiStreamEvent, Error>(
            OpenAiStreamEvent::EndOfStream,
        ),
        !is_end_marker(payload@) ==> match json_doc(payload@) {
            None => {
                &&& r matches Err(Error::ApiError { status_code, details })
                &&& status_code is None
                &&& details@ == "invalid JSON in SSE data"@
            },
            Some(doc) => r matches Ok(ev) && (exists|raw: String|
                #![trigger codex_classify_rel(doc, raw, ev)]
                {
                    &&& codex_classify_rel(doc, raw, ev)
                    &&& (vstd::utf8::valid_utf8(payload@) ==> raw@ == vstd::utf8::decode_utf8(
                        payload@,
                    ))
                }),
        },
{
    let t = trim_bytes(payload);
    let is_end: bool = if t.len() == 0 {
        true
    } else if t.len() == 6 && t[0] == 91 && t[1] == 68 && t[2] == 79 && t[3] == 78 && t[4] == 69
        && t[5] == 93 {
        proof {
            assert(t@ =~= seq![91u8, 68u8, 79u8, 78u8, 69u8, 93u8]);
        }
        true
    } else {
        proof {
            if t@.len() == 6 {
                assert((t@ == seq![91u8, 68u8, 79u8, 78u8, 69u8, 93u8]) ==> (t@[0] == 91 && t@[1]
                    == 68 && t@[2] == 79 && t@[3] == 78 && t@[4] == 69 && t@[5] == 93));
            }
        }
        false
    };
    if is_end {
        return Ok(OpenAiStreamEvent::EndOfStream);
    }
    match parse_json(payload) {
        None => Err(
            Error::ApiError { status_code: None, details: "invalid JSON in SSE data".to_owned() },
        ),
        Some(doc) => {
            let raw = bytes_to_string(payload);
            let ev = classify(&doc, raw);
            Ok(ev)
        },
    }
}

} // verus!
