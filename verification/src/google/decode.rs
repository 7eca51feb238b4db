//! The Google-family wire decoder: one frame payload in, one event out. A
//! payload whose document has no candidate list is carried verbatim as
//! unsupported, never dropped.

use vstd::prelude::*;

verus! {

use crate::chunk::UsageRecord;
use crate::claudecode::decode::is_end_marker;
use crate::error::Error;
use crate::google::events::{
    GoogleCandidate, GoogleFunctionCall, GooglePart, GoogleResponse, GoogleStreamEvent,
};
use crate::json::{
    emit_json, json_doc, member_string, parse_json, spec_emit, spec_get, spec_get_u64, JsonValue,
};
use crate::text::{bytes_to_string, trim_bytes};

/// How deeply nested a value the decoder will render back to JSON text.
pub const GOOGLE_EMIT_DEPTH: u32 = 64;

/// The JSON text a value renders to, with `null` standing in for a value
/// nested beyond rendering depth.
pub open spec fn spec_rendered(v: JsonValue) -> Seq<char> {
    match spec_emit(v, GOOGLE_EMIT_DEPTH as nat) {
        Some(t) => t,
        None => "null"@,
    }
}

/// How a part member maps to a part: its text member, and its function call
/// when one with a name is present, the call and its arguments rendered to
/// JSON text.
pub open spec fn google_part_rel(v: JsonValue, p: GooglePart) -> bool {
    &&& p.text == member_string(v, "text"@)
    &&& match spec_get(v, "functionCall"@) {
        Some(f) => match member_string(f, "name"@) {
            Some(n) => p.function_call matches Some(g) && g.name == n && g.full_json@
                == spec_rendered(f) && g.args_json@ == (match spec_get(f, "args"@) {
                Some(a) => spec_rendered(a),
                None => "null"@,
            }),
            None => p.function_call is None,
        },
        None => p.function_call is None,
    }
}

/// How a candidate member maps to a candidate: its parts pointwise, and its
/// finish reason.
pub open spec fn google_candidate_rel(v: JsonValue, c: GoogleCandidate) -> bool {
    &&& match spec_get(v, "content"@) {
        Some(content) => match spec_get(content, "parts"@) {
            Some(JsonValue::Arr(items)) => c.parts@.len() == items@.len() && (forall|i: int|
                0 <= i < items@.len() ==> google_part_rel(items@[i], #[trigger] c.parts@[i])),
            _ => c.parts@.len() == 0,
        },
        None => c.parts@.len() == 0,
    }
    &&& c.finish_reason == member_string(v, "finishReason"@)
}

/// The usage a usage-metadata member denotes.
pub open spec fn spec_google_usage(u: JsonValue) -> UsageRecord {
    UsageRecord {
        input_tokens: spec_get_u64(u, "promptTokenCount"@),
        output_tokens: spec_get_u64(u, "candidatesTokenCount"@),
        total_tokens: spec_get_u64(u, "totalTokenCount"@),
    }
}

/// How a parsed document maps to a response: candidates pointwise, and the
/// usage metadata's counts.
pub open spec fn google_response_rel(doc: JsonValue, r: GoogleResponse) -> bool {
    &&& match spec_get(doc, "candidates"@) {
        Some(JsonValue::Arr(items)) => r.candidates@.len() == items@.len() && (forall|i: int|
            0 <= i < items@.len() ==> google_candidate_rel(
                items@[i],
                #[trigger] r.candidates@[i],
            )),
        _ => r.candidates@.len() == 0,
    }
    &&& r.usage == (match spec_get(doc, "usageMetadata"@) {
        Some(u) => Some(spec_google_usage(u)),
        None => None::<UsageRecord>,
    })
}

/// How a parsed frame document maps to its event: a document with a
/// candidate list is a response; anything else is carried verbatim.
pub open spec fn google_classify_rel(doc: JsonValue, raw: String, e: GoogleStreamEvent) -> bool {
    match spec_get(doc, "candidates"@) {
        Some(JsonValue::Arr(items)) => e matches GoogleStreamEvent::Response(r)
            && google_response_rel(doc, r),
        _ => e == (GoogleStreamEvent::NotSupported { raw }),
    }
}

fn rendered(v: &JsonValue) -> (r: String)
    ensures
        r@ == spec_rendered(*v),
{
    match emit_json(v, GOOGLE_EMIT_DEPTH) {
        Some(t) => t,
        None => "null".to_owned(),
    }
}

fn part_of(v: &JsonValue) -> (p: GooglePart)
    ensures
        google_part_rel(*v, p),
{
    let text: Option<String> = match v.get_str("text") {
        Some(s) => Some(s.clone()),
        None => None,
    };
    let function_call: Option<GoogleFunctionCall> = match v.get("functionCall") {
        Some(f) => match f.get_str("name") {
            Some(n) => {
                let full_json = rendered(f);
                let args_json: String = match f.get("args") {
                    Some(a) => rendered(a),
                    None => "null".to_owned(),
                };
                Some(GoogleFunctionCall { name: n.clone(), args_json, full_json })
            },
            None => None,
        },
        None => None,
    };
    GooglePart { text, function_call }
}

fn candidate_of(v: &JsonValue) -> (c: GoogleCandidate)
    ensures
        google_candidate_rel(*v, c),
{
    let mut parts: Vec<GooglePart> = Vec::new();
    match v.get("content") {
        Some(content) => match content.get("parts") {
            Some(JsonValue::Arr(items)) => {
                let mut i: usize = 0;
                while i < items.len()
                    invariant
                        0 <= i <= items@.len(),
                        parts@.len() == i,
                        forall|j: int|
                            0 <= j < i ==> google_part_rel(items@[j], #[trigger] parts@[j]),
                    decreases items@.len() - i,
                {
                    let p = part_of(&items[i]);
                    parts.push(p);
                    i += 1;
                }
            },
            _ => {},
        },
        None => {},
    }
    let finish_reason: Option<String> = match v.get_str("finishReason") {
        Some(s) => Some(s.clone()),
        None => None,
    };
    GoogleCandidate { parts, finish_reason }
}

fn response_of(doc: &JsonValue) -> (r: GoogleResponse)
    ensures
        google_response_rel(*doc, r),
{
    let mut candidates: Vec<GoogleCandidate> = Vec::new();
    match doc.get("candidates") {
        Some(JsonValue::Arr(items)) => {
            let mut i: usize = 0;
            while i < items.len()
                invariant
                    0 <= i <= items@.len(),
                    candidates@.len() == i,
                    forall|j: int|
                        0 <= j < i ==> google_candidate_rel(
                            items@[j],
                            #[trigger] candidates@[j],
                        ),
                decreases items@.len() - i,
            {
                let c = candidate_of(&items[i]);
                candidates.push(c);
                i += 1;
            }
        },
        _ => {},
    }
    let usage: Option<UsageRecord> = match doc.get("usageMetadata") {
        Some(u) => Some(
            UsageRecord {
                input_tokens: u.get_u64("promptTokenCount"),
                output_tokens: u.get_u64("candidatesTokenCount"),
                total_tokens: u.get_u64("totalTokenCount"),
            },
        ),
        None => None,
    };
    GoogleResponse { candidates, usage }
}

/// Decodes one frame payload, under the standard policy: the end sentinel is
/// the sentinel event, bytes that are not JSON fail the stream, a document
/// with candidates is a response, and anything else is carried verbatim.
pub fn decode_google_frame(payload: &Vec<u8>) -> (r: Result<GoogleStreamEvent, Error>)
    ensures
        is_end_marker(payload@) ==> r == Ok::<GoogleStreamEvent, Error>(
            GoogleStreamEvent::EndOfStream,
        ),
        !is_end_marker(payload@) ==> match json_doc(payload@) {
            None => {
                &&& r matches Err(Error::ApiError { status_code, details })
                &&& status_code is None
                &&& details@ == "invalid JSON in SSE data"@
            },
            Some(doc) => r matches Ok(ev) && (exists|raw: String|
                #![trigger google_classify_rel(doc, raw, ev)]
                {
                    &&& google_classify_rel(doc, raw, ev)
                    &&& (vstd::utf8::valid_utf8(payload@) ==> raw@ == vstd::utf8::decode_utf8(
                        payload@,
                    ))
                }),
        },
{
    let t = trim_bytes(payload);
    let is_end: bool = if t.len() == 0 {
        true
    } else if t.len() == 6 && t[0] == 91 && t[1] == 68 && t[2] == 79 && t[3] == 78 && t[4] == 69
        && t[5] == 93 {
        proof {
            assert(t@ =~= seq![91u8, 68u8, 79u8, 78u8, 69u8, 93u8]);
        }
        true
    } else {
        proof {
            if t@.len() == 6 {
                assert((t@ == seq![91u8, 68u8, 79u8, 78u8, 69u8, 93u8]) ==> (t@[0] == 91 && t@[1]
                    == 68 && t@[2] == 79 && t@[3] == 78 && t@[4] == 69 && t@[5] == 93));
            }
        }
        false
    };
    if is_end {
        return Ok(GoogleStreamEvent::EndOfStream);
    }
    match parse_json(payload) {
        None => Err(
            Error::ApiError { status_code: None, details: "invalid JSON in SSE data".to_owned() },
        ),
        Some(doc) => {
            let raw = bytes_to_string(payload);
            let ghost rawv = raw;
            let has_candidates: bool = match doc.get("candidates") {
                Some(JsonValue::Arr(_)) => true,
                _ => false,
            };
            if has_candidates {
                let resp = response_of(&doc);
                let ev = GoogleStreamEvent::Response(resp);
                proof {
                    assert(google_classify_rel(doc, rawv, ev));
                }
                Ok(ev)
            } else {
                let ev = GoogleStreamEvent::NotSupported { raw };
                proof {
                    assert(google_classify_rel(doc, rawv, ev));
                }
                Ok(ev)
            }
        },
    }
}

} // verus!
