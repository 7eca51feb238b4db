//! The Google-family wire events: a single response wrapper with
//! per-candidate parts.

use vstd::prelude::*;

verus! {

use crate::chunk::UsageRecord;

/// A function call carried by a part, with its pieces rendered to JSON text.
#[derive(Debug, Clone, PartialEq, Eq)]
pub struct GoogleFunctionCall {
    /// The called function's name.
    pub name: String,
    /// The call's argument object, as JSON text.
    pub args_json: String,
    /// The whole function-call object, as JSON text.
    pub full_json: String,
}

/// One part of a candidate's content: text, a function call, either or both.
#[derive(Debug, Clone, PartialEq, Eq)]
pub struct GooglePart {
    /// The part's text, when it carries any.
    pub text: Option<String>,
    /// The part's function call, when it carries one.
    pub function_call: Option<GoogleFunctionCall>,
}

/// One response candidate.
#[derive(Debug, Clone, PartialEq, Eq)]
pub struct GoogleCandidate {
    /// The candidate's content parts, in vendor order.
    pub parts: Vec<GooglePart>,
    /// The finish reason; its presence marks the candidate complete.
    pub finish_reason: Option<String>,
}

/// One decoded response object.
#[derive(Debug, Clone, PartialEq, Eq)]
pub struct GoogleResponse {
    /// The candidates, in vendor order.
    pub candidates: Vec<GoogleCandidate>,
    /// The turn's token accounting, when reported.
    pub usage: Option<UsageRecord>,
}

/// One decoded wire event.
#[derive(Debug, Clone, PartialEq, Eq)]
pub enum GoogleStreamEvent {
    /// A response object, possibly partial.
    Response(GoogleResponse),
    /// The transport's end-of-stream sentinel (`[DONE]` or an empty payload).
    EndOfStream,
    /// A well-formed payload of no recognized shape, verbatim.
    NotSupported { raw: String },
}

} // verus!
