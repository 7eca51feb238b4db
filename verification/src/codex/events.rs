//! The OpenAI-responses-family wire events, as a closed set of variants.

use vstd::prelude::*;

verus! {

use crate::chunk::UsageRecord;

/// One item of a completed response's output list.
#[derive(Debug, Clone, PartialEq, Eq)]
pub enum CodexOutputItem {
    /// An assistant message; `text` is its first output-text content, when
    /// one is present.
    OutputMessage { text: Option<String> },
    /// A reasoning item; `summary_text` is its first summary entry, when one
    /// is present.
    Reasoning { summary_text: Option<String> },
    /// A completed tool invocation, its arguments as one JSON text.
    FunctionCall { call_id: String, name: String, arguments: String },
    /// Any other output item.
    Other,
}

/// The response object carried by a completion or incompleteness event.
#[derive(Debug, Clone, PartialEq, Eq)]
pub struct CodexResponse {
    /// The turn's token accounting, when reported.
    pub usage: Option<UsageRecord>,
    /// The output items, in vendor order.
    pub output: Vec<CodexOutputItem>,
    /// Why the response is incomplete, when it is.
    pub incomplete_reason: Option<String>,
}

/// One decoded wire event. Every non-empty frame decodes to exactly one of
/// these; a well-formed but unrecognized payload is carried verbatim in
/// `NotSupported`, never dropped.
#[derive(Debug, Clone, PartialEq, Eq)]
pub enum OpenAiStreamEvent {
    /// A fragment of text output.
    ResponseOutputTextDelta { delta: String },
    /// A fragment of reasoning-summary output.
    ResponseReasoningSummaryTextDelta { delta: String },
    /// The turn completed, with its final output.
    ResponseCompleted { response: CodexResponse },
    /// The turn ended early.
    ResponseIncomplete { response: CodexResponse },
    /// A vendor-reported error envelope.
    ResponseError { code: Option<String>, message: String },
    /// The transport's end-of-stream sentinel (`[DONE]` or an empty payload).
    EndOfStream,
    /// A well-formed payload of no recognized shape, verbatim.
    NotSupported { raw: String },
}

} // verus!
