//! Normalizing Codex events into the vendor-independent chunk vocabulary.

use vstd::prelude::*;

verus! {

use vstd::string::StringExecFns;
use crate::chunk::{AssistantMessage, ChunkDelta, ContentItem, StreamChunk, UsageRecord};
use crate::claudecode::stream::{finalize_block, item_rel, AccumulatedBlock};
use crate::codex::events::{CodexOutputItem, CodexResponse, OpenAiStreamEvent};

/// A terminal event: the chunk sequence ends right after it.
pub open spec fn spec_codex_terminal(e: OpenAiStreamEvent) -> bool {
    e is ResponseCompleted || e is ResponseError || e is EndOfStream
}

/// Whether this event ends the stream: completion, a vendor-reported error,
/// or the transport sentinel.
pub fn codex_end_stream(e: &OpenAiStreamEvent) -> (r: bool)
    ensures
        r == spec_codex_terminal(*e),
{
    match e {
        OpenAiStreamEvent::ResponseCompleted { .. } => true,
        OpenAiStreamEvent::ResponseError { .. } => true,
        OpenAiStreamEvent::EndOfStream => true,
        _ => false,
    }
}

/// The finalized chunks of a completed response: one done message per
/// message, reasoning, or tool-call output item — an item whose text is
/// absent contributes nothing — each carrying the turn's usage. A tool
/// call's arguments are finalized under the same policy as accumulated
/// fragments.
pub open spec fn codex_dones_rel(
    output: Seq<CodexOutputItem>,
    usage: Option<UsageRecord>,
    out: Seq<StreamChunk>,
) -> bool
    decreases output.len(),
{
    if output.len() == 0 {
        out.len() == 0
    } else {
        match output.last() {
            CodexOutputItem::OutputMessage { text } => match text {
                Some(tx) => out.len() >= 1 && out.last() == StreamChunk::Done(
                    AssistantMessage { content: ContentItem::Text { text: tx }, usage },
                ) && codex_dones_rel(output.drop_last(), usage, out.drop_last()),
                None => codex_dones_rel(output.drop_last(), usage, out),
            },
            CodexOutputItem::Reasoning { summary_text } => match summary_text {
                Some(tx) => out.len() >= 1 && out.last() == StreamChunk::Done(
                    AssistantMessage {
                        content: ContentItem::Reasoning { text: tx, signature: None },
                        usage,
                    },
                ) && codex_dones_rel(output.drop_last(), usage, out.drop_last()),
                None => codex_dones_rel(output.drop_last(), usage, out),
            },
            CodexOutputItem::FunctionCall { call_id, name, arguments } => {
                &&& out.len() >= 1
                &&& out.last() matches StreamChunk::Done(m) && m.usage == usage && item_rel(
                    AccumulatedBlock::ToolUse { id: call_id, name, partial_json: arguments },
                    m.content,
                )
                &&& codex_dones_rel(output.drop_last(), usage, out.drop_last())
            },
            CodexOutputItem::Other => codex_dones_rel(output.drop_last(), usage, out),
        }
    }
}

/// The usage stamped on a completed response's done chunks: the reported one,
/// or an empty record.
pub open spec fn spec_completed_usage(r: CodexResponse) -> Option<UsageRecord> {
    match r.usage {
        Some(u) => Some(u),
        None => Some(
            UsageRecord { input_tokens: None, output_tokens: None, total_tokens: None },
        ),
    }
}

/// How one decoded event renders as normalized chunks.
pub open spec fn codex_chunks_rel(e: OpenAiStreamEvent, out: Seq<StreamChunk>) -> bool {
    match e {
        OpenAiStreamEvent::ResponseOutputTextDelta { delta } => out == seq![
            StreamChunk::Delta(ChunkDelta::Text(delta)),
        ],
        OpenAiStreamEvent::ResponseReasoningSummaryTextDelta { delta } => out == seq![
            StreamChunk::Delta(ChunkDelta::Reasoning(delta)),
        ],
        OpenAiStreamEvent::ResponseCompleted { response } => codex_dones_rel(
            response.output@,
            spec_completed_usage(response),
            out,
        ),
        OpenAiStreamEvent::ResponseIncomplete { response } => {
            &&& out.len() == 1
            &&& out[0] matches StreamChunk::Delta(ChunkDelta::Incomplete(s)) && (
            match response.incomplete_reason {
                Some(re) => s == re,
                None => s@ == "Unknown"@,
            })
        },
        OpenAiStreamEvent::ResponseError { code, message } => {
            &&& out.len() == 1
            &&& out[0] matches StreamChunk::Delta(ChunkDelta::Failed(s)) && (match code {
                Some(c) => s@ == c@ + ": "@ + message@,
                None => s@ == "unknown"@ + ": "@ + message@,
            })
        },
        OpenAiStreamEvent::EndOfStream => out == Seq::<StreamChunk>::empty(),
        OpenAiStreamEvent::NotSupported { raw } => out == seq![
            StreamChunk::Delta(ChunkDelta::NotSupported(raw)),
        ],
    }
}

/// Renders one decoded event as normalized chunks.
pub fn codex_chunks(e: &OpenAiStreamEvent) -> (out: Vec<StreamChunk>)
    ensures
        codex_chunks_rel(*e, out@),
{
    match e {
        OpenAiStreamEvent::ResponseOutputTextDelta { delta } => {
            let out = vec![StreamChunk::Delta(ChunkDelta::Text(delta.clone()))];
            proof {
                assert(out@ =~= seq![StreamChunk::Delta(ChunkDelta::Text(*delta))]);
            }
            out
        },
        OpenAiStreamEvent::ResponseReasoningSummaryTextDelta { delta } => {
            let out = vec![StreamChunk::Delta(ChunkDelta::Reasoning(delta.clone()))];
            proof {
                assert(out@ =~= seq![StreamChunk::Delta(ChunkDelta::Reasoning(*delta))]);
            }
            out
        },
        OpenAiStreamEvent::ResponseCompleted { response } => {
            let usage: Option<UsageRecord> = match response.usage {
                Some(u) => Some(u),
                None => Some(UsageRecord::empty()),
            };
            let mut out: Vec<StreamChunk> = Vec::new();
            let n = response.output.len();
            let mut i: usize = 0;
            proof {
                assert(response.output@.take(0) =~= Seq::<CodexOutputItem>::empty());
            }
            while i < n
                invariant
                    0 <= i <= n,
                    n == response.output@.len(),
                    usage == spec_completed_usage(*response),
                    codex_dones_rel(response.output@.take(i as int), usage, out@),
                decreases n - i,
            {
                let ghost out0 = out@;
                proof {
                    assert(response.output@.take(i as int + 1).drop_last() =~= response.output@
                        .take(i as int));
                    assert(response.output@.take(i as int + 1).last() == response.output@[
                        i as int]);
                }
                match &response.output[i] {
                    CodexOutputItem::OutputMessage { text } => match text {
                        Some(tx) => {
                            out.push(
                                StreamChunk::Done(
                                    AssistantMessage {
                                        content: ContentItem::Text { text: tx.clone() },
                                        usage,
                                    },
                                ),
                            );
                            proof {
                                assert(out@.drop_last() =~= out0);
                            }
                        },
                        None => {},
                    },
                    CodexOutputItem::Reasoning { summary_text } => match summary_text {
                        Some(tx) => {
                            out.push(
                                StreamChunk::Done(
                                    AssistantMessage {
                                        content: ContentItem::Reasoning {
                                            text: tx.clone(),
                                            signature: None,
                                        },
                                        usage,
                                    },
                                ),
                            );
                            proof {
                                assert(out@.drop_last() =~= out0);
                            }
                        },
                        None => {},
                    },
                    CodexOutputItem::FunctionCall { call_id, name, arguments } => {
                        let block = AccumulatedBlock::ToolUse {
                            id: call_id.clone(),
                            name: name.clone(),
                            partial_json: arguments.clone(),
                        };
                        let item = finalize_block(&block);
                        out.push(StreamChunk::Done(AssistantMessage { content: item, usage }));
                        proof {
                            assert(out@.drop_last() =~= out0);
                        }
                    },
                    CodexOutputItem::Other => {},
                }
                i += 1;
            }
            proof {
                assert(response.output@.take(n as int) =~= response.output@);
            }
            out
        },
        OpenAiStreamEvent::ResponseIncomplete { response } => {
            let reason: String = match &response.incomplete_reason {
                Some(re) => re.clone(),
                None => "Unknown".to_owned(),
            };
            let ghost rv = reason;
            let out = vec![StreamChunk::Delta(ChunkDelta::Incomplete(reason))];
            proof {
                assert(out@.len() == 1);
                assert(out@[0] == StreamChunk::Delta(ChunkDelta::Incomplete(rv)));
            }
            out
        },
        OpenAiStreamEvent::ResponseError { code, message } => {
            let prefix: String = match code {
                Some(c) => c.clone(),
                None => "unknown".to_owned(),
            };
            let msg = prefix.concat(": ").concat(message.as_str());
            let ghost mv = msg@;
            let out = vec![StreamChunk::Delta(ChunkDelta::Failed(msg))];
            proof {
                assert(out@.len() == 1);
                assert(out@[0] matches StreamChunk::Delta(ChunkDelta::Failed(s)) && s@ == mv);
            }
            out
        },
        OpenAiStreamEvent::EndOfStream => {
            let out: Vec<StreamChunk> = Vec::new();
            proof {
                assert(out@ =~= Seq::<StreamChunk>::empty());
            }
            out
        },
        OpenAiStreamEvent::NotSupported { raw } => {
            let out = vec![StreamChunk::Delta(ChunkDelta::NotSupported(raw.clone()))];
            proof {
                assert(out@ =~= seq![StreamChunk::Delta(ChunkDelta::NotSupported(*raw))]);
            }
            out
        },
    }
}

} // verus!
