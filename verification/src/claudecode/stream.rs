//! The block accumulator and its state machine.
//!
//! Per block index, the life cycle is `absent → open → (delta)* → finalized
//! at message stop`. A delta aimed at an unopened index, or of a kind the
//! open block cannot take, is a protocol violation and fails the stream; a
//! tool block's argument fragments are never parsed until the stream
//! completes, and only the fully joined text is parsed then.

use vstd::prelude::*;

verus! {

use vstd::string::{StrSliceExecFns, StringExecFns};
use crate::chunk::{AssistantMessage, ChunkDelta, ContentItem, StreamChunk, UsageRecord};
use crate::claudecode::events::{AnthropicContentBlock, AnthropicDelta, AnthropicStreamEvent};
use crate::error::Error;
use crate::json::{json_doc, parse_json};
use crate::text::{is_blank, is_ws_char};

/// The kind a content block was opened with.
#[derive(Debug, Clone, Copy, PartialEq, Eq)]
pub enum BlockKind {
    /// Plain text.
    Text,
    /// Reasoning output.
    Thinking,
    /// Opaque redacted reasoning.
    RedactedThinking,
    /// A tool invocation.
    ToolUse,
}

/// One content block under accumulation.
#[derive(Debug, Clone, PartialEq, Eq)]
pub enum AccumulatedBlock {
    /// Running text.
    Text { text: String },
    /// Running reasoning text and the latest signature, if any arrived.
    Thinking { thinking: String, signature: Option<String> },
    /// The opaque payload, complete at block start.
    RedactedThinking { data: String },
    /// The call's identity and its argument fragments joined so far.
    ToolUse { id: String, name: String, partial_json: String },
}

impl AccumulatedBlock {
    /// This block's kind.
    pub open spec fn kind(&self) -> BlockKind {
        match self {
            AccumulatedBlock::Text { .. } => BlockKind::Text,
            AccumulatedBlock::Thinking { .. } => BlockKind::Thinking,
            AccumulatedBlock::RedactedThinking { .. } => BlockKind::RedactedThinking,
            AccumulatedBlock::ToolUse { .. } => BlockKind::ToolUse,
        }
    }
}

/// The kind a start event's block announces.
pub open spec fn kind_of_start(cb: AnthropicContentBlock) -> BlockKind {
    match cb {
        AnthropicContentBlock::Text { .. } => BlockKind::Text,
        AnthropicContentBlock::Thinking { .. } => BlockKind::Thinking,
        AnthropicContentBlock::RedactedThinking { .. } => BlockKind::RedactedThinking,
        AnthropicContentBlock::ToolUse { .. } => BlockKind::ToolUse,
    }
}

/// The accumulator for one in-flight stream: open blocks by index, in the
/// order they were opened, and the turn's usage once reported.
#[derive(Debug)]
pub struct StreamState {
    /// The blocks, keyed by wire index; keys are distinct.
    pub blocks: Vec<(u64, AccumulatedBlock)>,
    /// The usage reported by the latest accounting event.
    pub usage: Option<UsageRecord>,
}

/// No two entries of a keyed sequence carry the same key.
pub open spec fn distinct_keys<T>(s: Seq<(u64, T)>) -> bool {
    forall|i: int, j: int|
        0 <= i < j < s.len() ==> (#[trigger] s[i]).0 != (#[trigger] s[j]).0
}

/// Whether some entry of a keyed sequence carries the key.
pub open spec fn has_key<T>(s: Seq<(u64, T)>, k: u64) -> bool {
    exists|i: int| 0 <= i < s.len() && (#[trigger] s[i]).0 == k
}

/// The position of the entry carrying the key.
pub open spec fn index_of_key<T>(s: Seq<(u64, T)>, k: u64) -> int {
    choose|i: int| 0 <= i < s.len() && (#[trigger] s[i]).0 == k
}

/// The value stored under the key.
pub open spec fn value_at<T>(s: Seq<(u64, T)>, k: u64) -> T {
    s[index_of_key(s, k)].1
}

/// The block stored under the key.
pub open spec fn block_at(s: Seq<(u64, AccumulatedBlock)>, k: u64) -> AccumulatedBlock {
    value_at(s, k)
}

impl StreamState {
    /// Block keys are distinct.
    pub open spec fn wf(&self) -> bool {
        distinct_keys(self.blocks@)
    }

    /// A fresh accumulator: no blocks, no usage.
    pub fn new() -> (r: StreamState)
        ensures
            r.wf(),
            r.blocks@.len() == 0,
            r.usage is None,
    {
        StreamState { blocks: Vec::new(), usage: None }
    }
}

/// How `post` relates to `pre` after storing a block under key `k`: an
/// existing entry is replaced in place, a new key is appended.
pub open spec fn upserted_at(
    pre: Seq<(u64, AccumulatedBlock)>,
    post: Seq<(u64, AccumulatedBlock)>,
    k: u64,
) -> bool {
    if has_key(pre, k) {
        &&& post.len() == pre.len()
        &&& post[index_of_key(pre, k)].0 == k
        &&& forall|j: int|
            0 <= j < pre.len() && j != index_of_key(pre, k) ==> post[j] == pre[j]
    } else {
        &&& post.len() == pre.len() + 1
        &&& post[pre.len() as int].0 == k
        &&& forall|j: int| 0 <= j < pre.len() ==> post[j] == pre[j]
    }
}

/// The block that an upsert stored under key `k`.
pub open spec fn new_block_of(
    pre: Seq<(u64, AccumulatedBlock)>,
    post: Seq<(u64, AccumulatedBlock)>,
    k: u64,
) -> AccumulatedBlock {
    if has_key(pre, k) {
        post[index_of_key(pre, k)].1
    } else {
        post[pre.len() as int].1
    }
}

/// How a block-start event initializes its accumulated block: running
/// content starts empty (redacted reasoning is complete at start, since no
/// deltas follow it), and a tool block keeps the call's identity.
pub open spec fn init_block_rel(cb: AnthropicContentBlock, a: AccumulatedBlock) -> bool {
    match cb {
        AnthropicContentBlock::Text { .. } => a matches AccumulatedBlock::Text { text } && text@
            == Seq::<char>::empty(),
        AnthropicContentBlock::Thinking { .. } => a matches AccumulatedBlock::Thinking {
            thinking,
            signature,
        } && thinking@ == Seq::<char>::empty() && signature is None,
        AnthropicContentBlock::RedactedThinking { data } => a == (
        AccumulatedBlock::RedactedThinking { data }),
        AnthropicContentBlock::ToolUse { id, name } => a matches AccumulatedBlock::ToolUse {
            id: i2,
            name: n2,
            partial_json,
        } && i2 == id && n2 == name && partial_json@ == Seq::<char>::empty(),
    }
}

/// Whether a delta may be applied to a block of a kind: a text delta feeds a
/// text or reasoning block, a thinking or signature delta only a reasoning
/// block, and an argument fragment only a tool block.
pub open spec fn delta_allowed_kind(k: BlockKind, d: AnthropicDelta) -> bool {
    match d {
        AnthropicDelta::TextDelta { .. } => k == BlockKind::Text || k == BlockKind::Thinking,
        AnthropicDelta::ThinkingDelta { .. } => k == BlockKind::Thinking,
        AnthropicDelta::SignatureDelta { .. } => k == BlockKind::Thinking,
        AnthropicDelta::InputJsonDelta { .. } => k == BlockKind::ToolUse,
    }
}

/// Whether a delta may be applied to a block: decided by its kind alone.
pub open spec fn delta_allowed(b: AccumulatedBlock, d: AnthropicDelta) -> bool {
    delta_allowed_kind(b.kind(), d)
}

/// How an applied delta changes the block: running content is appended to, a
/// signature replaces any earlier one, and nothing else moves.
pub open spec fn applied_delta(
    b: AccumulatedBlock,
    d: AnthropicDelta,
    b2: AccumulatedBlock,
) -> bool {
    match (b, d) {
        (
            AccumulatedBlock::Text { text },
            AnthropicDelta::TextDelta { text: dt },
        ) => b2 matches AccumulatedBlock::Text { text: t2 } && t2@ == text@ + dt@,
        (
            AccumulatedBlock::Thinking { thinking, signature },
            AnthropicDelta::TextDelta { text: dt },
        ) => b2 matches AccumulatedBlock::Thinking { thinking: t2, signature: s2 } && t2@
            == thinking@ + dt@ && s2 == signature,
        (
            AccumulatedBlock::Thinking { thinking, signature },
            AnthropicDelta::ThinkingDelta { thinking: dt },
        ) => b2 matches AccumulatedBlock::Thinking { thinking: t2, signature: s2 } && t2@
            == thinking@ + dt@ && s2 == signature,
        (
            AccumulatedBlock::Thinking { thinking, signature },
            AnthropicDelta::SignatureDelta { signature: ds },
        ) => b2 matches AccumulatedBlock::Thinking { thinking: t2, signature: s2 } && t2
            == thinking && s2 == Some(ds),
        (
            AccumulatedBlock::ToolUse { id, name, partial_json },
            AnthropicDelta::InputJsonDelta { partial_json: pj },
        ) => b2 matches AccumulatedBlock::ToolUse { id: i2, name: n2, partial_json: p2 } && i2
            == id && n2 == name && p2@ == partial_json@ + pj@,
        _ => false,
    }
}

/// The chunks a delta event emits: the fragment itself, under the open
/// block's vocabulary; a signature carries no caller-visible content.
pub open spec fn delta_out_rel(b: AccumulatedBlock, d: AnthropicDelta, out: Seq<StreamChunk>) -> bool {
    match (b, d) {
        (AccumulatedBlock::Text { .. }, AnthropicDelta::TextDelta { text: dt }) => out == seq![
            StreamChunk::Delta(ChunkDelta::Text(dt)),
        ],
        (AccumulatedBlock::Thinking { .. }, AnthropicDelta::TextDelta { text: dt }) => out == seq![
            StreamChunk::Delta(ChunkDelta::Reasoning(dt)),
        ],
        (
            AccumulatedBlock::Thinking { .. },
            AnthropicDelta::ThinkingDelta { thinking: dt },
        ) => out == seq![StreamChunk::Delta(ChunkDelta::Reasoning(dt))],
        (AccumulatedBlock::Thinking { .. }, AnthropicDelta::SignatureDelta { .. }) => {
            &&& out.len() == 1
            &&& out[0] matches StreamChunk::Delta(ChunkDelta::NotSupported(s)) && s@
                == "AnthropicStreamEvent::SignatureDelta"@
        },
        (
            AccumulatedBlock::ToolUse { .. },
            AnthropicDelta::InputJsonDelta { partial_json: pj },
        ) => out == seq![StreamChunk::Delta(ChunkDelta::ToolCall(pj))],
        _ => false,
    }
}

/// Whether serde_json accepts this text as a JSON document.
pub open spec fn json_accepted(s: Seq<char>) -> bool {
    json_doc(vstd::utf8::encode_utf8(s)) is Some
}

/// The content item a finalized block yields. A text block gives text, a
/// reasoning block its text with the signature, and a tool block its joined
/// argument fragments — an all-whitespace fragment stands for the empty
/// object, and a fragment that is not valid JSON yields one `NotSupported`
/// item carrying it, never a failure of the whole response.
pub open spec fn item_rel(b: AccumulatedBlock, item: ContentItem) -> bool {
    match b {
        AccumulatedBlock::Text { text } => item == (ContentItem::Text { text }),
        AccumulatedBlock::Thinking { thinking, signature } => item == (
        ContentItem::Reasoning { text: thinking, signature }),
        AccumulatedBlock::RedactedThinking { data } => item == (
        ContentItem::Reasoning { text: data, signature: None }),
        AccumulatedBlock::ToolUse { id, name, partial_json } => {
            if is_blank(partial_json@) {
                item matches ContentItem::ToolCall { id: i2, name: n2, arguments } && i2 == id
                    && n2 == name && arguments@ == "{}"@
            } else if json_accepted(partial_json@) {
                item == (ContentItem::ToolCall { id, name, arguments: partial_json })
            } else {
                item matches ContentItem::NotSupported { raw } && raw@ == "Invalid tool json: "@
                    + partial_json@
            }
        },
    }
}

/// One finalized chunk: the item as a done message carrying the turn's usage.
pub open spec fn done_rel(b: AccumulatedBlock, usage: Option<UsageRecord>, c: StreamChunk) -> bool {
    c matches StreamChunk::Done(m) && m.usage == usage && item_rel(b, m.content)
}

/// A protocol violation: a delta aimed at an index no block-start opened, or
/// of a kind the open block cannot take.
pub open spec fn step_violation(pre: StreamState, event: AnthropicStreamEvent) -> bool {
    match event {
        AnthropicStreamEvent::ContentBlockDelta { index, delta } => !has_key(pre.blocks@, index)
            || !delta_allowed(block_at(pre.blocks@, index), delta),
        _ => false,
    }
}

/// The machine's transition relation: how one event moves the accumulator
/// from `pre` to `post` and what chunks it emits.
pub open spec fn step_ok(
    pre: StreamState,
    event: AnthropicStreamEvent,
    post: StreamState,
    out: Seq<StreamChunk>,
) -> bool {
    match event {
        AnthropicStreamEvent::MessageStart => post == pre && out == seq![
            StreamChunk::Delta(ChunkDelta::Start),
        ],
        AnthropicStreamEvent::EndOfStream => post == pre && out == Seq::<StreamChunk>::empty(),
        AnthropicStreamEvent::ContentBlockStart { index, content_block } => {
            &&& post.usage == pre.usage
            &&& upserted_at(pre.blocks@, post.blocks@, index)
            &&& init_block_rel(content_block, new_block_of(pre.blocks@, post.blocks@, index))
            &&& out.len() == 1
            &&& out[0] matches StreamChunk::Delta(ChunkDelta::NotSupported(s)) && s@
                == start_label(content_block)
        },
        AnthropicStreamEvent::ContentBlockDelta { index, delta } => {
            &&& has_key(pre.blocks@, index)
            &&& delta_allowed(block_at(pre.blocks@, index), delta)
            &&& post.usage == pre.usage
            &&& post.blocks@.len() == pre.blocks@.len()
            &&& forall|j: int|
                0 <= j < pre.blocks@.len() && j != index_of_key(pre.blocks@, index)
                    ==> post.blocks@[j] == pre.blocks@[j]
            &&& post.blocks@[index_of_key(pre.blocks@, index)].0 == index
            &&& applied_delta(
                block_at(pre.blocks@, index),
                delta,
                post.blocks@[index_of_key(pre.blocks@, index)].1,
            )
            &&& delta_out_rel(block_at(pre.blocks@, index), delta, out)
        },
        AnthropicStreamEvent::ContentBlockStop { .. } => {
            &&& post == pre
            &&& out.len() == 1
            &&& out[0] matches StreamChunk::Delta(ChunkDelta::NotSupported(s)) && s@
                == "AnthropicStreamEvent::ContentBlockStop"@
        },
        AnthropicStreamEvent::MessageDelta { usage } => {
            &&& post.blocks == pre.blocks
            &&& post.usage == Some(usage)
            &&& out.len() == 1
            &&& out[0] matches StreamChunk::Delta(ChunkDelta::NotSupported(s)) && s@
                == "AnthropicStreamEvent::MessageDelta"@
        },
        AnthropicStreamEvent::MessageStop => post == pre && out.len() == pre.blocks@.len() && (
        forall|i: int|
            0 <= i < out.len() ==> done_rel(pre.blocks@[i].1, pre.usage, #[trigger] out[i])),
        AnthropicStreamEvent::ErrorEvent { error_type, message } => {
            &&& post == pre
            &&& out.len() == 1
            &&& out[0] matches StreamChunk::Delta(ChunkDelta::Failed(s)) && s@ == error_type@
                + ": "@ + message@
        },
        AnthropicStreamEvent::NotSupported { raw } => post == pre && out == seq![
            StreamChunk::Delta(ChunkDelta::NotSupported(raw)),
        ],
    }
}

/// The diagnostic label a block-start event emits.
pub open spec fn start_label(cb: AnthropicContentBlock) -> Seq<char> {
    match cb {
        AnthropicContentBlock::Text { .. } => "AnthropicStreamEvent::ContentBlockStart::Text"@,
        AnthropicContentBlock::Thinking { .. } =>
            "AnthropicStreamEvent::ContentBlockStart::Thinking"@,
        AnthropicContentBlock::RedactedThinking { .. } =>
            "AnthropicStreamEvent::ContentBlockStart::RedactedThinking"@,
        AnthropicContentBlock::ToolUse { .. } =>
            "AnthropicStreamEvent::ContentBlockStart::ToolUse"@,
    }
}

fn find_key(blocks: &Vec<(u64, AccumulatedBlock)>, k: u64) -> (r: Option<usize>)
    ensures
        match r {
            Some(i) => 0 <= i < blocks@.len() && blocks@[i as int].0 == k && has_key(blocks@, k),
            None => !has_key(blocks@, k),
        },
{
    let mut i: usize = 0;
    while i < blocks.len()
        invariant
            0 <= i <= blocks@.len(),
            forall|j: int| 0 <= j < i ==> (#[trigger] blocks@[j]).0 != k,
        decreases blocks@.len() - i,
    {
        if blocks[i].0 == k {
            return Some(i);
        }
        i += 1;
    }
    proof {
        assert(forall|j: int| 0 <= j < blocks@.len() ==> (#[trigger] blocks@[j]).0 != k);
    }
    None
}

pub proof fn lemma_index_of_key_unique<T>(s: Seq<(u64, T)>, k: u64, i: int)
    requires
        forall|a: int, b: int| 0 <= a < b < s.len() ==> (#[trigger] s[a]).0 != (#[trigger] s[b]).0,
        0 <= i < s.len(),
        s[i].0 == k,
    ensures
        has_key(s, k),
        index_of_key(s, k) == i,
{
    assert(has_key(s, k));
    let j = index_of_key(s, k);
    assert(0 <= j < s.len() && s[j].0 == k);
    if i < j {
        assert(s[i].0 != s[j].0);
    } else if j < i {
        assert(s[j].0 != s[i].0);
    }
}

/// Whether `s` is nothing but whitespace.
fn str_is_blank(s: &str) -> (r: bool)
    ensures
        r == is_blank(s@),
{
    let n = s.unicode_len();
    let mut i: usize = 0;
    while i < n
        invariant
            0 <= i <= n,
            n == s@.len(),
            forall|j: int| 0 <= j < i ==> is_ws_char(#[trigger] s@[j]),
        decreases n - i,
    {
        let c = s.get_char(i);
        if !(c == ' ' || c == '\t' || c == '\n' || c == '\r') {
            return false;
        }
        i += 1;
    }
    true
}

/// Finalizes one block into its content item.
pub fn finalize_block(b: &AccumulatedBlock) -> (item: ContentItem)
    ensures
        item_rel(*b, item),
{
    match b {
        AccumulatedBlock::Text { text } => ContentItem::Text { text: text.clone() },
        AccumulatedBlock::Thinking { thinking, signature } => {
            let sig = match signature {
                Some(s) => Some(s.clone()),
                None => None,
            };
            ContentItem::Reasoning { text: thinking.clone(), signature: sig }
        },
        AccumulatedBlock::RedactedThinking { data } => ContentItem::Reasoning {
            text: data.clone(),
            signature: None,
        },
        AccumulatedBlock::ToolUse { id, name, partial_json } => {
            if str_is_blank(partial_json.as_str()) {
                ContentItem::ToolCall {
                    id: id.clone(),
                    name: name.clone(),
                    arguments: "{}".to_owned(),
                }
            } else {
                let bytes = partial_json.as_str().as_bytes_vec();
                match parse_json(&bytes) {
                    Some(_) => ContentItem::ToolCall {
                        id: id.clone(),
                        name: name.clone(),
                        arguments: partial_json.clone(),
                    },
                    None => ContentItem::NotSupported {
                        raw: "Invalid tool json: ".to_owned().concat(partial_json.as_str()),
                    },
                }
            }
        },
    }
}

impl StreamState {
    /// Feeds one decoded event through the accumulator, returning the chunks
    /// it emits, or the protocol violation that fails the stream (the state
    /// is then unchanged).
    pub fn process_event(&mut self, event: &AnthropicStreamEvent) -> (r: Result<
        Vec<StreamChunk>,
        Error,
    >)
        requires
            old(self).wf(),
        ensures
            final(self).wf(),
            match r {
                Ok(out) => step_ok(*old(self), *event, *final(self), out@),
                Err(e) => {
                    &&& step_violation(*old(self), *event)
                    &&& e matches Error::ProtocolViolation(_)
                    &&& *final(self) == *old(self)
                },
            },
    {
        match event {
            AnthropicStreamEvent::MessageStart => {
                let out = vec![StreamChunk::Delta(ChunkDelta::Start)];
                proof {
                    assert(out@ =~= seq![StreamChunk::Delta(ChunkDelta::Start)]);
                }
                Ok(out)
            },
            AnthropicStreamEvent::EndOfStream => {
                let out: Vec<StreamChunk> = Vec::new();
                proof {
                    assert(out@ =~= Seq::<StreamChunk>::empty());
                }
                Ok(out)
            },
            AnthropicStreamEvent::ContentBlockStart { index, content_block } => {
                let fresh: AccumulatedBlock = match content_block {
                    AnthropicContentBlock::Text { .. } => AccumulatedBlock::Text {
                        text: String::new(),
                    },
                    AnthropicContentBlock::Thinking { .. } => AccumulatedBlock::Thinking {
                        thinking: String::new(),
                        signature: None,
                    },
                    AnthropicContentBlock::RedactedThinking { data } =>
                        AccumulatedBlock::RedactedThinking { data: data.clone() },
                    AnthropicContentBlock::ToolUse { id, name } => AccumulatedBlock::ToolUse {
                        id: id.clone(),
                        name: name.clone(),
                        partial_json: String::new(),
                    },
                };
                let label: String = match content_block {
                    AnthropicContentBlock::Text { .. } =>
                        "AnthropicStreamEvent::ContentBlockStart::Text".to_owned(),
                    AnthropicContentBlock::Thinking { .. } =>
                        "AnthropicStreamEvent::ContentBlockStart::Thinking".to_owned(),
                    AnthropicContentBlock::RedactedThinking { .. } =>
                        "AnthropicStreamEvent::ContentBlockStart::RedactedThinking".to_owned(),
                    AnthropicContentBlock::ToolUse { .. } =>
                        "AnthropicStreamEvent::ContentBlockStart::ToolUse".to_owned(),
                };
                let ghost pre = self.blocks@;
                match find_key(&self.blocks, *index) {
                    Some(i) => {
                        proof {
                            lemma_index_of_key_unique(pre, *index, i as int);
                        }
                        let _old_entry = self.blocks.remove(i);
                        self.blocks.insert(i, (*index, fresh));
                        proof {
                            assert(self.blocks@ =~= pre.update(i as int, (*index, fresh)));
                        }
                    },
                    None => {
                        self.blocks.push((*index, fresh));
                    },
                }
                let ghost lv = label@;
                let out = vec![StreamChunk::Delta(ChunkDelta::NotSupported(label))];
                proof {
                    assert(out@.len() == 1);
                    assert(out@[0] matches StreamChunk::Delta(ChunkDelta::NotSupported(s)) && s@
                        == lv);
                }
                Ok(out)
            },
            AnthropicStreamEvent::ContentBlockDelta { index, delta } => {
                let ghost pre = self.blocks@;
                let found = find_key(&self.blocks, *index);
                let i = match found {
                    None => {
                        return Err(
                            Error::ProtocolViolation(
                                "content delta for an unopened block index".to_owned(),
                            ),
                        );
                    },
                    Some(i) => i,
                };
                proof {
                    lemma_index_of_key_unique(pre, *index, i as int);
                }
                let fits: bool = match (&self.blocks[i].1, delta) {
                    (AccumulatedBlock::Text { .. }, AnthropicDelta::TextDelta { .. }) => true,
                    (AccumulatedBlock::Thinking { .. }, AnthropicDelta::TextDelta { .. }) => true,
                    (
                        AccumulatedBlock::Thinking { .. },
                        AnthropicDelta::ThinkingDelta { .. },
                    ) => true,
                    (
                        AccumulatedBlock::Thinking { .. },
                        AnthropicDelta::SignatureDelta { .. },
                    ) => true,
                    (
                        AccumulatedBlock::ToolUse { .. },
                        AnthropicDelta::InputJsonDelta { .. },
                    ) => true,
                    _ => false,
                };
                if !fits {
                    return Err(
                        Error::ProtocolViolation(
                            "content delta of a kind the open block cannot take".to_owned(),
                        ),
                    );
                }
                let entry = self.blocks.remove(i);
                let k = entry.0;
                let (updated, out): (AccumulatedBlock, Vec<StreamChunk>) = match (
                    entry.1,
                    delta,
                ) {
                    (
                        AccumulatedBlock::Text { mut text },
                        AnthropicDelta::TextDelta { text: dt },
                    ) => {
                        text.append(dt.as_str());
                        let o = vec![StreamChunk::Delta(ChunkDelta::Text(dt.clone()))];
                        proof {
                            assert(o@ =~= seq![StreamChunk::Delta(ChunkDelta::Text(*dt))]);
                        }
                        (AccumulatedBlock::Text { text }, o)
                    },
                    (
                        AccumulatedBlock::Thinking { mut thinking, signature },
                        AnthropicDelta::TextDelta { text: dt },
                    ) => {
                        thinking.append(dt.as_str());
                        let o = vec![StreamChunk::Delta(ChunkDelta::Reasoning(dt.clone()))];
                        proof {
                            assert(o@ =~= seq![StreamChunk::Delta(ChunkDelta::Reasoning(*dt))]);
                        }
                        (AccumulatedBlock::Thinking { thinking, signature }, o)
                    },
                    (
                        AccumulatedBlock::Thinking { mut thinking, signature },
                        AnthropicDelta::ThinkingDelta { thinking: dt },
                    ) => {
                        thinking.append(dt.as_str());
                        let o = vec![StreamChunk::Delta(ChunkDelta::Reasoning(dt.clone()))];
                        proof {
                            assert(o@ =~= seq![StreamChunk::Delta(ChunkDelta::Reasoning(*dt))]);
                        }
                        (AccumulatedBlock::Thinking { thinking, signature }, o)
                    },
                    (
                        AccumulatedBlock::Thinking { thinking, signature: _ },
                        AnthropicDelta::SignatureDelta { signature: ds },
                    ) => {
                        let label = "AnthropicStreamEvent::SignatureDelta".to_owned();
                        let ghost lv = label@;
                        let o = vec![StreamChunk::Delta(ChunkDelta::NotSupported(label))];
                        proof {
                            assert(o@.len() == 1);
                            assert(o@[0] matches StreamChunk::Delta(ChunkDelta::NotSupported(s))
                                && s@ == lv);
                        }
                        (
                            AccumulatedBlock::Thinking { thinking, signature: Some(ds.clone()) },
                            o,
                        )
                    },
                    (
                        AccumulatedBlock::ToolUse { id, name, mut partial_json },
                        AnthropicDelta::InputJsonDelta { partial_json: pj },
                    ) => {
                        partial_json.append(pj.as_str());
                        let o = vec![StreamChunk::Delta(ChunkDelta::ToolCall(pj.clone()))];
                        proof {
                            assert(o@ =~= seq![StreamChunk::Delta(ChunkDelta::ToolCall(*pj))]);
                        }
                        (AccumulatedBlock::ToolUse { id, name, partial_json }, o)
                    },
                    // Unreachable: the compatibility check above admits only
                    // the pairs handled by the arms before this one.
                    (b, _) => {
                        (b, Vec::new())
                    },
                };
                self.blocks.insert(i, (k, updated));
                proof {
                    assert(self.blocks@ =~= pre.update(i as int, (k, updated)));
                }
                Ok(out)
            },
            AnthropicStreamEvent::ContentBlockStop { .. } => {
                let label = "AnthropicStreamEvent::ContentBlockStop".to_owned();
                let ghost lv = label@;
                let out = vec![StreamChunk::Delta(ChunkDelta::NotSupported(label))];
                proof {
                    assert(out@.len() == 1);
                    assert(out@[0] matches StreamChunk::Delta(ChunkDelta::NotSupported(s)) && s@
                        == lv);
                }
                Ok(out)
            },
            AnthropicStreamEvent::MessageDelta { usage } => {
                self.usage = Some(*usage);
                let label = "AnthropicStreamEvent::MessageDelta".to_owned();
                let ghost lv = label@;
                let out = vec![StreamChunk::Delta(ChunkDelta::NotSupported(label))];
                proof {
                    assert(out@.len() == 1);
                    assert(out@[0] matches StreamChunk::Delta(ChunkDelta::NotSupported(s)) && s@
                        == lv);
                }
                Ok(out)
            },
            AnthropicStreamEvent::MessageStop => {
                let mut out: Vec<StreamChunk> = Vec::new();
                let n = self.blocks.len();
                let mut i: usize = 0;
                while i < n
                    invariant
                        0 <= i <= n,
                        n == self.blocks@.len(),
                        *self == *old(self),
                        out@.len() == i,
                        forall|j: int|
                            0 <= j < i ==> done_rel(
                                self.blocks@[j].1,
                                self.usage,
                                #[trigger] out@[j],
                            ),
                    decreases n - i,
                {
                    let item = finalize_block(&self.blocks[i].1);
                    out.push(
                        StreamChunk::Done(AssistantMessage { content: item, usage: self.usage }),
                    );
                    i += 1;
                }
                Ok(out)
            },
            AnthropicStreamEvent::ErrorEvent { error_type, message } => {
                let msg = error_type.clone().concat(": ").concat(message.as_str());
                let ghost mv = msg@;
                let out = vec![StreamChunk::Delta(ChunkDelta::Failed(msg))];
                proof {
                    assert(out@.len() == 1);
                    assert(out@[0] matches StreamChunk::Delta(ChunkDelta::Failed(s)) && s@ == mv);
                }
                Ok(out)
            },
            AnthropicStreamEvent::NotSupported { raw } => {
                let out = vec![StreamChunk::Delta(ChunkDelta::NotSupported(raw.clone()))];
                proof {
                    assert(out@ =~= seq![StreamChunk::Delta(ChunkDelta::NotSupported(*raw))]);
                }
                Ok(out)
            },
        }
    }
}

} // verus!
