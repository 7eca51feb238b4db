//! The Anthropic-family wire events, as a closed set of variants.

use vstd::prelude::*;

verus! {

use crate::chunk::UsageRecord;

/// A content block as announced by a `content_block_start` event.
#[derive(Debug, Clone, PartialEq, Eq)]
pub enum AnthropicContentBlock {
    /// A text block; the start event carries its (usually empty) first text.
    Text { text: String },
    /// A reasoning block, with an optional signature.
    Thinking { thinking: String, signature: Option<String> },
    /// An opaque redacted-reasoning payload; complete at start, no deltas
    /// follow it.
    RedactedThinking { data: String },
    /// A tool invocation; its argument object arrives as later deltas.
    ToolUse { id: String, name: String },
}

/// One incremental change to an open content block.
#[derive(Debug, Clone, PartialEq, Eq)]
pub enum AnthropicDelta {
    /// Text appended to a text or reasoning block.
    TextDelta { text: String },
    /// Text appended to a reasoning block.
    ThinkingDelta { thinking: String },
    /// A signature attached to a reasoning block, replacing any earlier one.
    SignatureDelta { signature: String },
    /// A fragment of a tool call's JSON arguments, valid only once all
    /// fragments are concatenated.
    InputJsonDelta { partial_json: String },
}

/// One decoded wire event. Every non-empty frame decodes to exactly one of
/// these; a well-formed but unrecognized payload is carried verbatim in
/// `NotSupported`, never dropped.
#[derive(Debug, Clone, PartialEq, Eq)]
pub enum AnthropicStreamEvent {
    /// The turn has opened.
    MessageStart,
    /// A content block opened at an index.
    ContentBlockStart { index: u64, content_block: AnthropicContentBlock },
    /// An increment to the block at an index.
    ContentBlockDelta { index: u64, delta: AnthropicDelta },
    /// The block at an index is finished; advisory only.
    ContentBlockStop { index: u64 },
    /// Turn-level accounting, arriving before the stop event.
    MessageDelta { usage: UsageRecord },
    /// The turn is complete: accumulated blocks are finalized.
    MessageStop,
    /// A vendor-reported error envelope.
    ErrorEvent { error_type: String, message: String },
    /// The transport's end-of-stream sentinel (`[DONE]` or an empty payload).
    EndOfStream,
    /// A well-formed payload of no recognized shape, verbatim.
    NotSupported { raw: String },
}

} // verus!
