//! The vendor-independent vocabulary of streamed output.
//!
//! Whatever the vendor, callers see one ordered sequence of chunks: zero or
//! more deltas followed by at most one terminating signal — `Done` values, a
//! `Failed` delta, or plain exhaustion of the transport.

use vstd::prelude::*;

verus! {

/// Token accounting for one turn, normalized from vendor-specific field
/// names. A vendor that does not report a count leaves it `None`.
#[derive(Debug, Clone, Copy, PartialEq, Eq)]
pub struct UsageRecord {
    /// Prompt-side tokens.
    pub input_tokens: Option<u64>,
    /// Completion-side tokens.
    pub output_tokens: Option<u64>,
    /// Total tokens, where the vendor reports one.
    pub total_tokens: Option<u64>,
}

impl UsageRecord {
    /// A record with no counts.
    pub fn empty() -> (r: UsageRecord)
        ensures
            r == (UsageRecord { input_tokens: None, output_tokens: None, total_tokens: None }),
    {
        UsageRecord { input_tokens: None, output_tokens: None, total_tokens: None }
    }
}

/// One finalized piece of model output.
#[derive(Debug, Clone, PartialEq, Eq)]
pub enum ContentItem {
    /// Plain text.
    Text { text: String },
    /// Reasoning output, with the vendor's signature when one was streamed.
    Reasoning { text: String, signature: Option<String> },
    /// A tool invocation; `arguments` is the call's input object as JSON text.
    ToolCall { id: String, name: String, arguments: String },
    /// Content the library cannot represent, carried verbatim.
    NotSupported { raw: String },
}

/// One finalized message: a content item and the turn's usage, if reported.
#[derive(Debug, Clone, PartialEq, Eq)]
pub struct AssistantMessage {
    /// The finalized content.
    pub content: ContentItem,
    /// The turn's token accounting.
    pub usage: Option<UsageRecord>,
}

/// One incremental signal within a turn.
#[derive(Debug, Clone, PartialEq, Eq)]
pub enum ChunkDelta {
    /// The stream has opened.
    Start,
    /// A fragment of text output.
    Text(String),
    /// A fragment of reasoning output.
    Reasoning(String),
    /// A fragment of a tool call's JSON arguments.
    ToolCall(String),
    /// A vendor-reported error; the stream ends after it.
    Failed(String),
    /// The vendor ended the turn early, with its reason.
    Incomplete(String),
    /// A well-formed but unrecognized vendor event, carried for diagnosis.
    NotSupported(String),
    /// The turn finished, with the vendor's finish reason.
    End(String),
}

/// One normalized chunk: a delta, or a finalized message.
#[derive(Debug, Clone, PartialEq, Eq)]
pub enum StreamChunk {
    /// An incremental signal.
    Delta(ChunkDelta),
    /// A finalized message, emitted at stream completion.
    Done(AssistantMessage),
}

/// A whole non-streamed response: finalized content items and usage.
#[derive(Debug, Clone, PartialEq, Eq)]
pub struct LanguageModelResponse {
    /// The response's content items, in vendor order.
    pub contents: Vec<ContentItem>,
    /// The turn's token accounting.
    pub usage: Option<UsageRecord>,
}

} // verus!
