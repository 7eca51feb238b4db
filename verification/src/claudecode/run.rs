//! Driving whole turns through the accumulator, and the laws that hold of
//! every well-formed frame sequence.

use vstd::prelude::*;

verus! {

use crate::chunk::{ContentItem, StreamChunk};
use crate::claudecode::decode::{decode_frame, is_end_marker, spec_classify};
use crate::claudecode::events::AnthropicStreamEvent;
use crate::claudecode::stream::{
    delta_allowed_kind, distinct_keys, has_key, index_of_key, item_rel, kind_of_start,
    lemma_index_of_key_unique, step_ok, step_violation, value_at, AccumulatedBlock, BlockKind,
    StreamState,
};
use crate::error::Error;
use crate::json::json_doc;

/// A terminal event: the chunk sequence ends right after it.
pub open spec fn spec_is_terminal(e: AnthropicStreamEvent) -> bool {
    e is MessageStop || e is EndOfStream || e is ErrorEvent
}

/// Whether this event ends the stream: completion, the transport sentinel,
/// or a vendor-reported error.
pub fn is_terminal(e: &AnthropicStreamEvent) -> (r: bool)
    ensures
        r == spec_is_terminal(*e),
{
    match e {
        AnthropicStreamEvent::MessageStop => true,
        AnthropicStreamEvent::EndOfStream => true,
        AnthropicStreamEvent::ErrorEvent { .. } => true,
        _ => false,
    }
}

/// Stores a kind under a key: an existing entry is replaced in place, a new
/// key is appended.
pub open spec fn kind_upsert(s: Seq<(u64, BlockKind)>, k: u64, kind: BlockKind) -> Seq<
    (u64, BlockKind),
> {
    if has_key(s, k) {
        s.update(index_of_key(s, k), (k, kind))
    } else {
        s.push((k, kind))
    }
}

/// The ledger of blocks a frame prefix opened: one entry per distinct index,
/// in first-open order, each with the kind it was last opened with.
pub open spec fn opened_after(events: Seq<AnthropicStreamEvent>) -> Seq<(u64, BlockKind)>
    decreases events.len(),
{
    if events.len() == 0 {
        Seq::empty()
    } else {
        let prev = opened_after(events.drop_last());
        match events.last() {
            AnthropicStreamEvent::ContentBlockStart { index, content_block } => kind_upsert(
                prev,
                index,
                kind_of_start(content_block),
            ),
            _ => prev,
        }
    }
}

/// If the event at `i` is a delta, it aims at an index some earlier
/// block-start opened, and its kind fits the block's opened kind.
pub open spec fn delta_ok_at(events: Seq<AnthropicStreamEvent>, i: int) -> bool {
    events[i] matches AnthropicStreamEvent::ContentBlockDelta { index, delta } ==> {
        let opened = opened_after(events.take(i));
        has_key(opened, index) && delta_allowed_kind(value_at(opened, index), delta)
    }
}

/// A well-formed turn: the frames end in one completion event, nothing
/// terminal comes earlier, and every delta aims at an opened block of a kind
/// that can take it.
pub open spec fn well_formed_turn(events: Seq<AnthropicStreamEvent>) -> bool {
    &&& events.len() > 0
    &&& events.last() is MessageStop
    &&& forall|i: int| 0 <= i < events.len() - 1 ==> !spec_is_terminal(#[trigger] events[i])
    &&& forall|i: int| 0 <= i < events.len() ==> delta_ok_at(events, i)
}

/// The first protocol violation: a bad delta at `i`, with every earlier
/// event a good non-terminal one.
pub open spec fn first_violation_at(events: Seq<AnthropicStreamEvent>, i: int) -> bool {
    &&& 0 <= i < events.len()
    &&& !delta_ok_at(events, i)
    &&& forall|j: int|
        0 <= j < i ==> (delta_ok_at(events, j) && !spec_is_terminal(#[trigger] events[j]))
}

/// The accumulator mirrors the opened-block ledger: same keys in the same
/// order, each block of its opened kind.
pub open spec fn kinds_match(
    blocks: Seq<(u64, AccumulatedBlock)>,
    opened: Seq<(u64, BlockKind)>,
) -> bool {
    &&& blocks.len() == opened.len()
    &&& forall|j: int|
        0 <= j < blocks.len() ==> (#[trigger] blocks[j]).0 == opened[j].0 && blocks[j].1.kind()
            == opened[j].1
}

/// What kind of item a block of a kind finalizes into. A tool block may
/// finalize as `NotSupported` instead, when its joined fragments are not
/// valid JSON.
pub open spec fn item_kind_matches(k: BlockKind, item: ContentItem) -> bool {
    match k {
        BlockKind::Text => item is Text,
        BlockKind::Thinking => item is Reasoning,
        BlockKind::RedactedThinking => item is Reasoning,
        BlockKind::ToolUse => item is ToolCall || item is NotSupported,
    }
}

/// The opened-block ledger holds one entry per distinct opened index: its
/// keys are distinct, whatever the frame sequence.
pub proof fn lemma_opened_wf(events: Seq<AnthropicStreamEvent>)
    ensures
        distinct_keys(opened_after(events)),
    decreases events.len(),
{
    if events.len() > 0 {
        lemma_opened_wf(events.drop_last());
        let prev = opened_after(events.drop_last());
        match events.last() {
            AnthropicStreamEvent::ContentBlockStart { index, content_block } => {
                if has_key(prev, index) {
                    let i = index_of_key(prev, index);
                    assert(0 <= i < prev.len() && prev[i].0 == index);
                    let post = prev.update(i, (index, kind_of_start(content_block)));
                    assert forall|a: int, b: int|
                        0 <= a < b < post.len() implies (#[trigger] post[a]).0 != (
                    #[trigger] post[b]).0 by {
                        assert(post[a].0 == prev[a].0);
                        assert(post[b].0 == prev[b].0);
                    }
                } else {
                    let post = prev.push((index, kind_of_start(content_block)));
                    assert forall|a: int, b: int|
                        0 <= a < b < post.len() implies (#[trigger] post[a]).0 != (
                    #[trigger] post[b]).0 by {
                        if b < prev.len() {
                        } else {
                            assert(post[a] == prev[a]);
                            assert(!(0 <= a < prev.len() && prev[a].0 == index));
                        }
                    }
                }
            },
            _ => {},
        }
    }
}

proof fn lemma_key_bridge(
    blocks: Seq<(u64, AccumulatedBlock)>,
    opened: Seq<(u64, BlockKind)>,
    k: u64,
)
    requires
        distinct_keys(blocks),
        kinds_match(blocks, opened),
    ensures
        has_key(blocks, k) == has_key(opened, k),
        has_key(blocks, k) ==> index_of_key(blocks, k) == index_of_key(opened, k),
        has_key(blocks, k) ==> value_at(blocks, k).kind() == value_at(opened, k),
{
    assert(distinct_keys(opened)) by {
        assert forall|a: int, b: int|
            0 <= a < b < opened.len() implies (#[trigger] opened[a]).0 != (
        #[trigger] opened[b]).0 by {
            assert(blocks[a].0 == opened[a].0);
            assert(blocks[b].0 == opened[b].0);
        }
    }
    if has_key(blocks, k) {
        let i = index_of_key(blocks, k);
        assert(0 <= i < blocks.len() && blocks[i].0 == k);
        assert(opened[i].0 == k);
        lemma_index_of_key_unique(opened, k, i);
        lemma_index_of_key_unique(blocks, k, i);
    }
    if has_key(opened, k) {
        let i = index_of_key(opened, k);
        assert(0 <= i < opened.len() && opened[i].0 == k);
        assert(blocks[i].0 == k);
        lemma_index_of_key_unique(blocks, k, i);
    }
}

/// Runs one whole turn: feeds decoded events through a fresh accumulator, in
/// order, stopping at the first terminal event, and returns the emitted
/// chunks, or the first protocol violation with nothing else.
///
/// Two laws hold of it. For every well-formed turn, the chunks are deltas
/// followed by exactly one finalized item per distinct opened block index,
/// in open order, each item matching its block's opened kind. And a delta
/// aimed at an unopened or ill-kinded block, coming before anything
/// terminal, fails the whole turn with a protocol violation.
pub fn process_events(events: &Vec<AnthropicStreamEvent>) -> (r: Result<Vec<StreamChunk>, Error>)
    ensures
        well_formed_turn(events@) ==> ({
            let opened = opened_after(events@);
            &&& r matches Ok(out)
            &&& out@.len() >= opened.len()
            &&& forall|j: int|
                0 <= j < out@.len() - opened.len() ==> (#[trigger] out@[j]) is Delta
            &&& forall|j: int|
                0 <= j < opened.len() ==> ((#[trigger] out@[out@.len() - opened.len() + j])
                    matches StreamChunk::Done(m) && item_kind_matches(opened[j].1, m.content))
        }),
        (exists|i: int| first_violation_at(events@, i)) ==> r matches Err(
            Error::ProtocolViolation(_),
        ),
{
    let mut st = StreamState::new();
    let mut out: Vec<StreamChunk> = Vec::new();
    let n = events.len();
    let mut i: usize = 0;
    proof {
        assert(events@.take(0) =~= Seq::<AnthropicStreamEvent>::empty());
    }
    while i < n
        invariant
            0 <= i <= n,
            n == events@.len(),
            st.wf(),
            kinds_match(st.blocks@, opened_after(events@.take(i as int))),
            forall|j: int| 0 <= j < i ==> !spec_is_terminal(#[trigger] events@[j]),
            forall|j: int| 0 <= j < i ==> delta_ok_at(events@, j),
            forall|j: int| 0 <= j < out@.len() ==> (#[trigger] out@[j]) is Delta,
        decreases n - i,
    {
        let ghost pre = st;
        let ghost taken = events@.take(i as int);
        let ghost opened = opened_after(taken);
        let e = &events[i];
        proof {
            lemma_opened_wf(taken);
            match e {
                AnthropicStreamEvent::ContentBlockDelta { index, .. } => {
                    lemma_key_bridge(pre.blocks@, opened, *index);
                },
                _ => {},
            }
        }
        let step = st.process_event(e);
        match step {
            Err(err) => {
                proof {
                    assert(!delta_ok_at(events@, i as int));
                    assert(!well_formed_turn(events@));
                    assert(first_violation_at(events@, i as int));
                }
                return Err(err);
            },
            Ok(mut chunks) => {
                let ghost ch = chunks@;
                proof {
                    assert(events@.take(i as int + 1).drop_last() =~= taken);
                    assert(events@.take(i as int + 1).last() == events@[i as int]);
                    match e {
                        AnthropicStreamEvent::ContentBlockDelta { index, .. } => {
                            assert(delta_ok_at(events@, i as int));
                            lemma_applied_kinds_match(pre.blocks@, st.blocks@, opened, *index);
                        },
                        AnthropicStreamEvent::ContentBlockStart { index, content_block } => {
                            lemma_upsert_kinds_match(
                                pre.blocks@,
                                st.blocks@,
                                opened,
                                *index,
                                kind_of_start(*content_block),
                            );
                        },
                        _ => {},
                    }
                }
                let terminal = is_terminal(e);
                if terminal {
                    let ghost pre_out = out@;
                    let mut done_out = out;
                    done_out.append(&mut chunks);
                    proof {
                        assert forall|v: int| !first_violation_at(events@, v) by {
                            if 0 <= v < events@.len() {
                                if v <= i {
                                    if v < i {
                                        assert(delta_ok_at(events@, v));
                                    } else {
                                        assert(delta_ok_at(events@, i as int));
                                    }
                                } else {
                                    assert(spec_is_terminal(events@[i as int]));
                                }
                            }
                        }
                        if well_formed_turn(events@) {
                            assert(i as int == n - 1) by {
                                if (i as int) < n - 1 {
                                    assert(!spec_is_terminal(events@[i as int]));
                                }
                            }
                            assert(*e is MessageStop);
                            assert(events@.take(i as int) =~= events@.drop_last());
                            assert(opened_after(events@) == opened);
                            let oall = opened_after(events@);
                            assert(done_out@.len() - oall.len() == pre_out.len());
                            assert forall|j: int|
                                0 <= j < oall.len() implies (#[trigger] done_out@[done_out@.len()
                                - oall.len() + j]) matches StreamChunk::Done(m)
                                && item_kind_matches(oall[j].1, m.content) by {
                                assert(done_out@[pre_out.len() + j] == ch[j]);
                                assert(crate::claudecode::stream::done_rel(
                                    pre.blocks@[j].1,
                                    pre.usage,
                                    ch[j],
                                ));
                                lemma_item_kind(pre.blocks@[j].1, ch[j]);
                                assert(pre.blocks@[j].1.kind() == oall[j].1);
                            }
                        }
                    }
                    return Ok(done_out);
                }
                proof {
                    lemma_step_chunks_delta(pre, *e, st, ch);
                }
                out.append(&mut chunks);
                i += 1;
            },
        }
    }
    proof {
        assert forall|v: int| !first_violation_at(events@, v) by {
            if 0 <= v < events@.len() {
                assert(delta_ok_at(events@, v));
            }
        }
        if well_formed_turn(events@) {
            assert(spec_is_terminal(events@[n - 1]));
            assert(!spec_is_terminal(events@[n - 1]));
        }
    }
    Ok(out)
}

proof fn lemma_item_kind(b: AccumulatedBlock, c: StreamChunk)
    requires
        c matches StreamChunk::Done(m) && item_rel(b, m.content),
    ensures
        c matches StreamChunk::Done(m) && item_kind_matches(b.kind(), m.content),
{
}

proof fn lemma_step_chunks_delta(
    pre: StreamState,
    e: AnthropicStreamEvent,
    post: StreamState,
    out: Seq<StreamChunk>,
)
    requires
        step_ok(pre, e, post, out),
        !(e is MessageStop),
    ensures
        forall|j: int| 0 <= j < out.len() ==> (#[trigger] out[j]) is Delta,
{
    match e {
        AnthropicStreamEvent::ContentBlockDelta { index, delta } => {
            let b = crate::claudecode::stream::block_at(pre.blocks@, index);
            assert(crate::claudecode::stream::delta_out_rel(b, delta, out));
            match (b, delta) {
                (AccumulatedBlock::Text { .. }, crate::claudecode::events::AnthropicDelta::TextDelta { .. }) => {},
                (AccumulatedBlock::Thinking { .. }, crate::claudecode::events::AnthropicDelta::TextDelta { .. }) => {},
                (AccumulatedBlock::Thinking { .. }, crate::claudecode::events::AnthropicDelta::ThinkingDelta { .. }) => {},
                (AccumulatedBlock::Thinking { .. }, crate::claudecode::events::AnthropicDelta::SignatureDelta { .. }) => {},
                (AccumulatedBlock::ToolUse { .. }, crate::claudecode::events::AnthropicDelta::InputJsonDelta { .. }) => {},
                _ => {},
            }
        },
        _ => {},
    }
}

proof fn lemma_applied_kinds_match(
    pre: Seq<(u64, AccumulatedBlock)>,
    post: Seq<(u64, AccumulatedBlock)>,
    opened: Seq<(u64, BlockKind)>,
    k: u64,
)
    requires
        distinct_keys(pre),
        kinds_match(pre, opened),
        has_key(pre, k),
        post.len() == pre.len(),
        forall|j: int| 0 <= j < pre.len() && j != index_of_key(pre, k) ==> post[j] == pre[j],
        post[index_of_key(pre, k)].0 == k,
        post[index_of_key(pre, k)].1.kind() == pre[index_of_key(pre, k)].1.kind(),
    ensures
        kinds_match(post, opened),
{
    let i = index_of_key(pre, k);
    assert(0 <= i < pre.len() && pre[i].0 == k);
    assert forall|j: int|
        0 <= j < post.len() implies (#[trigger] post[j]).0 == opened[j].0 && post[j].1.kind()
        == opened[j].1 by {
        if j != i {
            assert(post[j] == pre[j]);
        }
        assert(pre[j].0 == opened[j].0 && pre[j].1.kind() == opened[j].1);
    }
}

proof fn lemma_upsert_kinds_match(
    pre: Seq<(u64, AccumulatedBlock)>,
    post: Seq<(u64, AccumulatedBlock)>,
    opened: Seq<(u64, BlockKind)>,
    k: u64,
    kind: BlockKind,
)
    requires
        distinct_keys(pre),
        kinds_match(pre, opened),
        crate::claudecode::stream::upserted_at(pre, post, k),
        crate::claudecode::stream::new_block_of(pre, post, k).kind() == kind,
    ensures
        kinds_match(post, kind_upsert(opened, k, kind)),
{
    lemma_key_bridge(pre, opened, k);
    if has_key(pre, k) {
        let i = index_of_key(pre, k);
        assert(0 <= i < pre.len() && pre[i].0 == k);
        let target = opened.update(index_of_key(opened, k), (k, kind));
        assert(index_of_key(opened, k) == i);
        assert forall|j: int|
            0 <= j < post.len() implies (#[trigger] post[j]).0 == target[j].0 && post[j].1.kind()
            == target[j].1 by {
            if j != i {
                assert(post[j] == pre[j]);
                assert(target[j] == opened[j]);
                assert(pre[j].0 == opened[j].0 && pre[j].1.kind() == opened[j].1);
            } else {
                assert(post[i].0 == k);
                assert(post[i].1.kind() == kind);
            }
        }
    } else {
        let target = opened.push((k, kind));
        assert forall|j: int|
            0 <= j < post.len() implies (#[trigger] post[j]).0 == target[j].0 && post[j].1.kind()
            == target[j].1 by {
            if j < pre.len() {
                assert(post[j] == pre[j]);
                assert(target[j] == opened[j]);
                assert(pre[j].0 == opened[j].0 && pre[j].1.kind() == opened[j].1);
            } else {
                assert(j == pre.len());
                assert(post[j].0 == k);
                assert(post[j].1.kind() == kind);
            }
        }
    }
}

/// Feeds one raw frame payload through the decoder and the accumulator: the
/// end sentinel is consumed silently, undecodable bytes fail the stream, and
/// a decoded event is processed as usual.
pub fn process_frame(state: &mut StreamState, payload: &Vec<u8>) -> (r: Result<
    Vec<StreamChunk>,
    Error,
>)
    requires
        old(state).wf(),
    ensures
        final(state).wf(),
        is_end_marker(payload@) ==> ({
            &&& r matches Ok(out)
            &&& out@ == Seq::<StreamChunk>::empty()
            &&& *final(state) == *old(state)
        }),
        !is_end_marker(payload@) ==> match json_doc(payload@) {
            None => {
                &&& r matches Err(Error::ApiError { status_code, details })
                &&& status_code is None
                &&& *final(state) == *old(state)
            },
            Some(doc) => exists|raw: String|
                #![trigger spec_classify(doc, raw)]
                {
                    &&& (vstd::utf8::valid_utf8(payload@) ==> raw@ == vstd::utf8::decode_utf8(
                        payload@,
                    ))
                    &&& match r {
                        Ok(out) => step_ok(
                            *old(state),
                            spec_classify(doc, raw),
                            *final(state),
                            out@,
                        ),
                        Err(e) => {
                            &&& step_violation(*old(state), spec_classify(doc, raw))
                            &&& e matches Error::ProtocolViolation(_)
                            &&& *final(state) == *old(state)
                        },
                    }
                },
        },
{
    match decode_frame(payload) {
        Err(e) => Err(e),
        Ok(ev) => state.process_event(&ev),
    }
}

} // verus!
