//! Normalizing Google events into the vendor-independent vocabulary: each
//! part's text and function call become deltas, and a finished candidate adds
//! one finalized message — the first function call if any part carries one,
//! otherwise the candidate's text parts joined.

use vstd::prelude::*;

verus! {

use vstd::string::StringExecFns;
use crate::chunk::{
    AssistantMessage, ChunkDelta, ContentItem, LanguageModelResponse, StreamChunk, UsageRecord,
};
use crate::google::events::{GoogleCandidate, GoogleFunctionCall, GooglePart, GoogleResponse,
    GoogleStreamEvent};

/// The first function call among the parts, if any part carries one.
pub open spec fn spec_first_fc(parts: Seq<GooglePart>) -> Option<GoogleFunctionCall>
    decreases parts.len(),
{
    if parts.len() == 0 {
        None
    } else {
        match spec_first_fc(parts.drop_last()) {
            Some(g) => Some(g),
            None => parts.last().function_call,
        }
    }
}

/// The parts' text, joined in order with nothing between.
pub open spec fn spec_joined_text(parts: Seq<GooglePart>) -> Seq<char>
    decreases parts.len(),
{
    if parts.len() == 0 {
        Seq::empty()
    } else {
        spec_joined_text(parts.drop_last()) + (match parts.last().text {
            Some(t) => t@,
            None => Seq::<char>::empty(),
        })
    }
}

/// The delta chunks of a sequence of parts: per part, its text as a text
/// delta and its function call, rendered, as a tool-call delta.
pub open spec fn google_deltas_rel(parts: Seq<GooglePart>, out: Seq<StreamChunk>) -> bool
    decreases parts.len(),
{
    if parts.len() == 0 {
        out.len() == 0
    } else {
        let p = parts.last();
        match (p.text, p.function_call) {
            (Some(t), Some(g)) => {
                &&& out.len() >= 2
                &&& out[out.len() - 2] == StreamChunk::Delta(ChunkDelta::Text(t))
                &&& out.last() == StreamChunk::Delta(ChunkDelta::ToolCall(g.full_json))
                &&& google_deltas_rel(parts.drop_last(), out.take(out.len() - 2))
            },
            (Some(t), None) => {
                &&& out.len() >= 1
                &&& out.last() == StreamChunk::Delta(ChunkDelta::Text(t))
                &&& google_deltas_rel(parts.drop_last(), out.drop_last())
            },
            (None, Some(g)) => {
                &&& out.len() >= 1
                &&& out.last() == StreamChunk::Delta(ChunkDelta::ToolCall(g.full_json))
                &&& google_deltas_rel(parts.drop_last(), out.drop_last())
            },
            (None, None) => google_deltas_rel(parts.drop_last(), out),
        }
    }
}

/// The finalized message a finished candidate yields.
pub open spec fn google_done_rel(
    c: GoogleCandidate,
    usage: Option<UsageRecord>,
    chunk: StreamChunk,
) -> bool {
    chunk matches StreamChunk::Done(m) && m.usage == usage && (match spec_first_fc(c.parts@) {
        Some(g) => m.content matches ContentItem::ToolCall { id, name, arguments } && id@
            == Seq::<char>::empty() && name == g.name && arguments == g.args_json,
        None => m.content matches ContentItem::Text { text } && text@ == spec_joined_text(
            c.parts@,
        ),
    })
}

/// One candidate's chunks: its deltas, then — exactly when it carries a
/// finish reason — one finalized message.
pub open spec fn google_cand_rel(
    c: GoogleCandidate,
    usage: Option<UsageRecord>,
    out: Seq<StreamChunk>,
) -> bool {
    match c.finish_reason {
        None => google_deltas_rel(c.parts@, out),
        Some(_) => {
            &&& out.len() >= 1
            &&& google_done_rel(c, usage, out.last())
            &&& google_deltas_rel(c.parts@, out.drop_last())
        },
    }
}

/// All candidates' chunks, in candidate order.
pub open spec fn google_cands_rel(
    cands: Seq<GoogleCandidate>,
    usage: Option<UsageRecord>,
    out: Seq<StreamChunk>,
) -> bool
    decreases cands.len(),
{
    if cands.len() == 0 {
        out.len() == 0
    } else {
        exists|k: int|
            #![trigger out.take(k)]
            {
                &&& 0 <= k <= out.len()
                &&& google_cands_rel(cands.drop_last(), usage, out.take(k))
                &&& google_cand_rel(cands.last(), usage, out.skip(k))
            }
    }
}

/// How one decoded event renders as normalized chunks.
pub open spec fn google_chunks_rel(e: GoogleStreamEvent, out: Seq<StreamChunk>) -> bool {
    match e {
        GoogleStreamEvent::Response(resp) => google_cands_rel(resp.candidates@, resp.usage, out),
        GoogleStreamEvent::EndOfStream => out == Seq::<StreamChunk>::empty(),
        GoogleStreamEvent::NotSupported { raw } => out == seq![
            StreamChunk::Delta(ChunkDelta::NotSupported(raw)),
        ],
    }
}

/// A terminal event: some candidate carries a finish reason, or the
/// transport sentinel arrived.
pub open spec fn spec_google_terminal(e: GoogleStreamEvent) -> bool {
    match e {
        GoogleStreamEvent::Response(resp) => exists|i: int|
            0 <= i < resp.candidates@.len() && (#[trigger] resp.candidates@[i]).finish_reason
                is Some,
        GoogleStreamEvent::EndOfStream => true,
        GoogleStreamEvent::NotSupported { .. } => false,
    }
}

/// Whether this event ends the stream.
#[verifier::loop_isolation(false)]
pub fn google_end_stream(e: &GoogleStreamEvent) -> (r: bool)
    ensures
        r == spec_google_terminal(*e),
{
    match e {
        GoogleStreamEvent::Response(resp) => {
            let mut i: usize = 0;
            while i < resp.candidates.len()
                invariant
                    0 <= i <= resp.candidates@.len(),
                    forall|j: int|
                        0 <= j < i ==> (#[trigger] resp.candidates@[j]).finish_reason is None,
                decreases resp.candidates@.len() - i,
            {
                if resp.candidates[i].finish_reason.is_some() {
                    proof {
                        assert((resp.candidates@[i as int]).finish_reason is Some);
                    }
                    return true;
                }
                i += 1;
            }
            false
        },
        GoogleStreamEvent::EndOfStream => true,
        GoogleStreamEvent::NotSupported { .. } => false,
    }
}

fn clone_fc(g: &GoogleFunctionCall) -> (r: GoogleFunctionCall)
    ensures
        r == *g,
{
    GoogleFunctionCall {
        name: g.name.clone(),
        args_json: g.args_json.clone(),
        full_json: g.full_json.clone(),
    }
}

fn first_fc(parts: &Vec<GooglePart>) -> (r: Option<GoogleFunctionCall>)
    ensures
        r == spec_first_fc(parts@),
{
    let mut acc: Option<GoogleFunctionCall> = None;
    let mut i: usize = 0;
    proof {
        assert(parts@.take(0) =~= Seq::<GooglePart>::empty());
    }
    while i < parts.len()
        invariant
            0 <= i <= parts@.len(),
            acc == spec_first_fc(parts@.take(i as int)),
        decreases parts@.len() - i,
    {
        proof {
            assert(parts@.take(i as int + 1).drop_last() =~= parts@.take(i as int));
            assert(parts@.take(i as int + 1).last() == parts@[i as int]);
        }
        if acc.is_none() {
            acc = match &parts[i].function_call {
                Some(g) => Some(clone_fc(g)),
                None => None,
            };
        }
        i += 1;
    }
    proof {
        assert(parts@.take(parts@.len() as int) =~= parts@);
    }
    acc
}

fn joined_text(parts: &Vec<GooglePart>) -> (r: String)
    ensures
        r@ == spec_joined_text(parts@),
{
    let mut r = String::new();
    let mut i: usize = 0;
    proof {
        assert(parts@.take(0) =~= Seq::<GooglePart>::empty());
    }
    while i < parts.len()
        invariant
            0 <= i <= parts@.len(),
            r@ == spec_joined_text(parts@.take(i as int)),
        decreases parts@.len() - i,
    {
        proof {
            assert(parts@.take(i as int + 1).drop_last() =~= parts@.take(i as int));
            assert(parts@.take(i as int + 1).last() == parts@[i as int]);
        }
        match &parts[i].text {
            Some(t) => {
                r.append(t.as_str());
            },
            None => {
                proof {
                    assert(r@ + Seq::<char>::empty() =~= r@);
                }
            },
        }
        i += 1;
    }
    proof {
        assert(parts@.take(parts@.len() as int) =~= parts@);
    }
    r
}

fn part_deltas(parts: &Vec<GooglePart>) -> (out: Vec<StreamChunk>)
    ensures
        google_deltas_rel(parts@, out@),
{
    let mut out: Vec<StreamChunk> = Vec::new();
    let mut i: usize = 0;
    proof {
        assert(parts@.take(0) =~= Seq::<GooglePart>::empty());
    }
    while i < parts.len()
        invariant
            0 <= i <= parts@.len(),
            google_deltas_rel(parts@.take(i as int), out@),
        decreases parts@.len() - i,
    {
        let ghost out0 = out@;
        proof {
            assert(parts@.take(i as int + 1).drop_last() =~= parts@.take(i as int));
            assert(parts@.take(i as int + 1).last() == parts@[i as int]);
        }
        match (&parts[i].text, &parts[i].function_call) {
            (Some(t), Some(g)) => {
                out.push(StreamChunk::Delta(ChunkDelta::Text(t.clone())));
                out.push(StreamChunk::Delta(ChunkDelta::ToolCall(g.full_json.clone())));
                proof {
                    assert(out@.take(out@.len() - 2) =~= out0);
                }
            },
            (Some(t), None) => {
                out.push(StreamChunk::Delta(ChunkDelta::Text(t.clone())));
                proof {
                    assert(out@.drop_last() =~= out0);
                }
            },
            (None, Some(g)) => {
                out.push(StreamChunk::Delta(ChunkDelta::ToolCall(g.full_json.clone())));
                proof {
                    assert(out@.drop_last() =~= out0);
                }
            },
            (None, None) => {},
        }
        i += 1;
    }
    proof {
        assert(parts@.take(parts@.len() as int) =~= parts@);
    }
    out
}

fn candidate_chunks(c: &GoogleCandidate, usage: Option<UsageRecord>) -> (out: Vec<StreamChunk>)
    ensures
        google_cand_rel(*c, usage, out@),
{
    let mut out = part_deltas(&c.parts);
    match &c.finish_reason {
        None => out,
        Some(_) => {
            let ghost deltas = out@;
            let content: ContentItem = match first_fc(&c.parts) {
                Some(g) => ContentItem::ToolCall {
                    id: String::new(),
                    name: g.name,
                    arguments: g.args_json,
                },
                None => ContentItem::Text { text: joined_text(&c.parts) },
            };
            out.push(StreamChunk::Done(AssistantMessage { content, usage }));
            proof {
                assert(out@.drop_last() =~= deltas);
            }
            out
        },
    }
}

/// Renders one decoded event as normalized chunks.
pub fn google_chunks(e: &GoogleStreamEvent) -> (out: Vec<StreamChunk>)
    ensures
        google_chunks_rel(*e, out@),
{
    match e {
        GoogleStreamEvent::Response(resp) => {
            let mut out: Vec<StreamChunk> = Vec::new();
            let mut i: usize = 0;
            proof {
                assert(resp.candidates@.take(0) =~= Seq::<GoogleCandidate>::empty());
            }
            while i < resp.candidates.len()
                invariant
                    0 <= i <= resp.candidates@.len(),
                    google_cands_rel(resp.candidates@.take(i as int), resp.usage, out@),
                decreases resp.candidates@.len() - i,
            {
                let ghost out0 = out@;
                let ghost k = out@.len() as int;
                proof {
                    assert(resp.candidates@.take(i as int + 1).drop_last() =~= resp.candidates@
                        .take(i as int));
                    assert(resp.candidates@.take(i as int + 1).last() == resp.candidates@[
                        i as int]);
                }
                let mut cc = candidate_chunks(&resp.candidates[i], resp.usage);
                let ghost ccv = cc@;
                out.append(&mut cc);
                proof {
                    assert(out@.take(k) =~= out0);
                    assert(out@.skip(k) =~= ccv);
                    assert(google_cands_rel(
                        resp.candidates@.take(i as int + 1),
                        resp.usage,
                        out@,
                    ));
                }
                i += 1;
            }
            proof {
                assert(resp.candidates@.take(resp.candidates@.len() as int) =~= resp.candidates@);
            }
            out
        },
        GoogleStreamEvent::EndOfStream => {
            let out: Vec<StreamChunk> = Vec::new();
            proof {
                assert(out@ =~= Seq::<StreamChunk>::empty());
            }
            out
        },
        GoogleStreamEvent::NotSupported { raw } => {
            let out = vec![StreamChunk::Delta(ChunkDelta::NotSupported(raw.clone()))];
            proof {
                assert(out@ =~= seq![StreamChunk::Delta(ChunkDelta::NotSupported(*raw))]);
            }
            out
        },
    }
}

/// The content items of a sequence of parts: per part, its text and its
/// function call as a tool-call item with an empty id.
pub open spec fn google_items_rel(parts: Seq<GooglePart>, items: Seq<ContentItem>) -> bool
    decreases parts.len(),
{
    if parts.len() == 0 {
        items.len() == 0
    } else {
        let p = parts.last();
        match (p.text, p.function_call) {
            (Some(t), Some(g)) => {
                &&& items.len() >= 2
                &&& items[items.len() - 2] == (ContentItem::Text { text: t })
                &&& items.last() matches ContentItem::ToolCall { id, name, arguments } && id@
                    == Seq::<char>::empty() && name == g.name && arguments == g.args_json
                &&& google_items_rel(parts.drop_last(), items.take(items.len() - 2))
            },
            (Some(t), None) => {
                &&& items.len() >= 1
                &&& items.last() == (ContentItem::Text { text: t })
                &&& google_items_rel(parts.drop_last(), items.drop_last())
            },
            (None, Some(g)) => {
                &&& items.len() >= 1
                &&& items.last() matches ContentItem::ToolCall { id, name, arguments } && id@
                    == Seq::<char>::empty() && name == g.name && arguments == g.args_json
                &&& google_items_rel(parts.drop_last(), items.drop_last())
            },
            (None, None) => google_items_rel(parts.drop_last(), items),
        }
    }
}

/// All candidates' content items, in candidate order.
pub open spec fn google_all_items_rel(
    cands: Seq<GoogleCandidate>,
    items: Seq<ContentItem>,
) -> bool
    decreases cands.len(),
{
    if cands.len() == 0 {
        items.len() == 0
    } else {
        exists|k: int|
            #![trigger items.take(k)]
            {
                &&& 0 <= k <= items.len()
                &&& google_all_items_rel(cands.drop_last(), items.take(k))
                &&& google_items_rel(cands.last().parts@, items.skip(k))
            }
    }
}

fn part_items(parts: &Vec<GooglePart>) -> (items: Vec<ContentItem>)
    ensures
        google_items_rel(parts@, items@),
{
    let mut items: Vec<ContentItem> = Vec::new();
    let mut i: usize = 0;
    proof {
        assert(parts@.take(0) =~= Seq::<GooglePart>::empty());
    }
    while i < parts.len()
        invariant
            0 <= i <= parts@.len(),
            google_items_rel(parts@.take(i as int), items@),
        decreases parts@.len() - i,
    {
        let ghost items0 = items@;
        proof {
            assert(parts@.take(i as int + 1).drop_last() =~= parts@.take(i as int));
            assert(parts@.take(i as int + 1).last() == parts@[i as int]);
        }
        match (&parts[i].text, &parts[i].function_call) {
            (Some(t), Some(g)) => {
                items.push(ContentItem::Text { text: t.clone() });
                items.push(
                    ContentItem::ToolCall {
                        id: String::new(),
                        name: g.name.clone(),
                        arguments: g.args_json.clone(),
                    },
                );
                proof {
                    assert(items@.take(items@.len() - 2) =~= items0);
                }
            },
            (Some(t), None) => {
                items.push(ContentItem::Text { text: t.clone() });
                proof {
                    assert(items@.drop_last() =~= items0);
                }
            },
            (None, Some(g)) => {
                items.push(
                    ContentItem::ToolCall {
                        id: String::new(),
                        name: g.name.clone(),
                        arguments: g.args_json.clone(),
                    },
                );
                proof {
                    assert(items@.drop_last() =~= items0);
                }
            },
            (None, None) => {},
        }
        i += 1;
    }
    proof {
        assert(parts@.take(parts@.len() as int) =~= parts@);
    }
    items
}

/// Maps a decoded complete response to the normalized response: one content
/// item per part's text or function call, in order, with the turn's usage.
pub fn google_response_to_llm(r: &GoogleResponse) -> (resp: LanguageModelResponse)
    ensures
        resp.usage == r.usage,
        google_all_items_rel(r.candidates@, resp.contents@),
{
    let mut contents: Vec<ContentItem> = Vec::new();
    let mut i: usize = 0;
    proof {
        assert(r.candidates@.take(0) =~= Seq::<GoogleCandidate>::empty());
    }
    while i < r.candidates.len()
        invariant
            0 <= i <= r.candidates@.len(),
            google_all_items_rel(r.candidates@.take(i as int), contents@),
        decreases r.candidates@.len() - i,
    {
        let ghost c0 = contents@;
        let ghost k = contents@.len() as int;
        proof {
            assert(r.candidates@.take(i as int + 1).drop_last() =~= r.candidates@.take(i as int));
            assert(r.candidates@.take(i as int + 1).last() == r.candidates@[i as int]);
        }
        let mut ci = part_items(&r.candidates[i].parts);
        let ghost civ = ci@;
        contents.append(&mut ci);
        proof {
            assert(contents@.take(k) =~= c0);
            assert(contents@.skip(k) =~= civ);
            assert(google_all_items_rel(r.candidates@.take(i as int + 1), contents@));
        }
        i += 1;
    }
    proof {
        assert(r.candidates@.take(r.candidates@.len() as int) =~= r.candidates@);
    }
    LanguageModelResponse { contents, usage: r.usage }
}

} // verus!
