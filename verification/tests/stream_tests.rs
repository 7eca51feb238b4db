//! The block accumulator over whole turns: finalization, tool-call JSON
//! handling, and protocol violations.

use aisdk::chunk::{ChunkDelta, ContentItem, StreamChunk};
use aisdk::claudecode::events::{AnthropicContentBlock, AnthropicDelta, AnthropicStreamEvent};
use aisdk::claudecode::run::process_events;
use aisdk::claudecode::stream::StreamState;
use aisdk::error::Error;

fn text_start(index: u64) -> AnthropicStreamEvent {
    AnthropicStreamEvent::ContentBlockStart {
        index,
        content_block: AnthropicContentBlock::Text {
            text: String::new(),
        },
    }
}

fn text_delta(index: u64, s: &str) -> AnthropicStreamEvent {
    AnthropicStreamEvent::ContentBlockDelta {
        index,
        delta: AnthropicDelta::TextDelta {
            text: s.to_owned(),
        },
    }
}

fn tool_start(index: u64, id: &str, name: &str) -> AnthropicStreamEvent {
    AnthropicStreamEvent::ContentBlockStart {
        index,
        content_block: AnthropicContentBlock::ToolUse {
            id: id.to_owned(),
            name: name.to_owned(),
        },
    }
}

fn tool_delta(index: u64, s: &str) -> AnthropicStreamEvent {
    AnthropicStreamEvent::ContentBlockDelta {
        index,
        delta: AnthropicDelta::InputJsonDelta {
            partial_json: s.to_owned(),
        },
    }
}

fn dones(chunks: &[StreamChunk]) -> Vec<&StreamChunk> {
    chunks
        .iter()
        .filter(|c| matches!(c, StreamChunk::Done(_)))
        .collect()
}

#[test]
fn text_blocks_accumulate_into_one_done_chunk() {
    // block-start(0,text), delta(0,"Hel"), delta(0,"lo"), message-stop
    // yields exactly one Done chunk whose text is "Hello".
    let events = vec![
        text_start(0),
        text_delta(0, "Hel"),
        text_delta(0, "lo"),
        AnthropicStreamEvent::MessageStop,
    ];
    let out = process_events(&events).unwrap();
    let finals = dones(&out);
    assert_eq!(finals.len(), 1);
    match finals[0] {
        StreamChunk::Done(m) => {
            assert_eq!(
                m.content,
                ContentItem::Text {
                    text: "Hello".to_owned()
                }
            );
            assert_eq!(m.usage, None);
        }
        _ => unreachable!(),
    }
}

#[test]
fn tool_fragments_join_into_one_tool_call() {
    // block-start(0,tool-use,id="t1",name="f"), delta(0,'{"a":1'),
    // delta(0,'}'), message-stop yields one Done chunk with input {"a":1}.
    let events = vec![
        tool_start(0, "t1", "f"),
        tool_delta(0, "{\"a\":1"),
        tool_delta(0, "}"),
        AnthropicStreamEvent::MessageStop,
    ];
    let out = process_events(&events).unwrap();
    let finals = dones(&out);
    assert_eq!(finals.len(), 1);
    match finals[0] {
        StreamChunk::Done(m) => {
            assert_eq!(
                m.content,
                ContentItem::ToolCall {
                    id: "t1".to_owned(),
                    name: "f".to_owned(),
                    arguments: "{\"a\":1}".to_owned(),
                }
            );
            // The joined fragments are a JSON document serde_json accepts.
            let v: serde_json::Value = serde_json::from_str("{\"a\":1}").unwrap();
            assert_eq!(v["a"], serde_json::Value::from(1));
        }
        _ => unreachable!(),
    }
}

#[test]
fn invalid_tool_json_yields_one_not_supported_item() {
    // Joined fragments that are not JSON never abort the response: that one
    // item becomes NotSupported, other items are unaffected.
    let events = vec![
        tool_start(0, "t1", "f"),
        tool_delta(0, "{\"a\":"),
        text_start(1),
        text_delta(1, "ok"),
        AnthropicStreamEvent::MessageStop,
    ];
    let out = process_events(&events).unwrap();
    let finals = dones(&out);
    assert_eq!(finals.len(), 2);
    match finals[0] {
        StreamChunk::Done(m) => {
            assert_eq!(
                m.content,
                ContentItem::NotSupported {
                    raw: "Invalid tool json: {\"a\":".to_owned()
                }
            );
        }
        _ => unreachable!(),
    }
    match finals[1] {
        StreamChunk::Done(m) => {
            assert_eq!(
                m.content,
                ContentItem::Text {
                    text: "ok".to_owned()
                }
            );
        }
        _ => unreachable!(),
    }
}

#[test]
fn empty_tool_fragment_stands_for_the_empty_object() {
    let events = vec![
        tool_start(0, "t1", "f"),
        AnthropicStreamEvent::MessageStop,
    ];
    let out = process_events(&events).unwrap();
    let finals = dones(&out);
    assert_eq!(finals.len(), 1);
    match finals[0] {
        StreamChunk::Done(m) => {
            assert_eq!(
                m.content,
                ContentItem::ToolCall {
                    id: "t1".to_owned(),
                    name: "f".to_owned(),
                    arguments: "{}".to_owned(),
                }
            );
        }
        _ => unreachable!(),
    }
}

#[test]
fn delta_for_unopened_index_is_a_protocol_violation() {
    // A delta referencing an index with no matching block-start terminates
    // the turn with a protocol-violation error and zero chunks.
    let events = vec![
        text_start(0),
        text_delta(1, "lost"),
        AnthropicStreamEvent::MessageStop,
    ];
    let r = process_events(&events);
    assert!(matches!(r, Err(Error::ProtocolViolation(_))));
}

#[test]
fn kind_mismatched_delta_is_a_protocol_violation() {
    let events = vec![
        text_start(0),
        tool_delta(0, "{}"),
        AnthropicStreamEvent::MessageStop,
    ];
    let r = process_events(&events);
    assert!(matches!(r, Err(Error::ProtocolViolation(_))));
}

#[test]
fn done_count_matches_distinct_opened_indices() {
    // Three distinct indices opened, one of them twice: three Done chunks,
    // each matching its block's opened kind.
    let events = vec![
        text_start(0),
        tool_start(5, "t", "f"),
        AnthropicStreamEvent::ContentBlockStart {
            index: 2,
            content_block: AnthropicContentBlock::Thinking {
                thinking: String::new(),
                signature: None,
            },
        },
        text_start(0),
        AnthropicStreamEvent::MessageStop,
    ];
    let out = process_events(&events).unwrap();
    let finals = dones(&out);
    assert_eq!(finals.len(), 3);
    assert!(matches!(
        finals[0],
        StreamChunk::Done(m) if matches!(m.content, ContentItem::Text { .. })
    ));
    assert!(matches!(
        finals[1],
        StreamChunk::Done(m) if matches!(m.content, ContentItem::ToolCall { .. })
    ));
    assert!(matches!(
        finals[2],
        StreamChunk::Done(m) if matches!(m.content, ContentItem::Reasoning { .. })
    ));
}

#[test]
fn usage_from_message_delta_reaches_the_done_chunks() {
    let usage = aisdk::chunk::UsageRecord {
        input_tokens: Some(7),
        output_tokens: Some(13),
        total_tokens: None,
    };
    let events = vec![
        text_start(0),
        text_delta(0, "x"),
        AnthropicStreamEvent::MessageDelta { usage },
        AnthropicStreamEvent::MessageStop,
    ];
    let out = process_events(&events).unwrap();
    let finals = dones(&out);
    assert_eq!(finals.len(), 1);
    match finals[0] {
        StreamChunk::Done(m) => assert_eq!(m.usage, Some(usage)),
        _ => unreachable!(),
    }
}

#[test]
fn thinking_deltas_emit_reasoning_and_keep_signature() {
    let mut st = StreamState::new();
    st.process_event(&AnthropicStreamEvent::ContentBlockStart {
        index: 0,
        content_block: AnthropicContentBlock::Thinking {
            thinking: String::new(),
            signature: None,
        },
    })
    .unwrap();
    let out = st
        .process_event(&AnthropicStreamEvent::ContentBlockDelta {
            index: 0,
            delta: AnthropicDelta::ThinkingDelta {
                thinking: "hm".to_owned(),
            },
        })
        .unwrap();
    assert_eq!(
        out,
        vec![StreamChunk::Delta(ChunkDelta::Reasoning("hm".to_owned()))]
    );
    st.process_event(&AnthropicStreamEvent::ContentBlockDelta {
        index: 0,
        delta: AnthropicDelta::SignatureDelta {
            signature: "sig".to_owned(),
        },
    })
    .unwrap();
    let finals = st
        .process_event(&AnthropicStreamEvent::MessageStop)
        .unwrap();
    assert_eq!(finals.len(), 1);
    match &finals[0] {
        StreamChunk::Done(m) => {
            assert_eq!(
                m.content,
                ContentItem::Reasoning {
                    text: "hm".to_owned(),
                    signature: Some("sig".to_owned()),
                }
            );
        }
        _ => unreachable!(),
    }
}

#[test]
fn error_event_becomes_one_failed_delta() {
    let events = vec![
        AnthropicStreamEvent::MessageStart,
        AnthropicStreamEvent::ErrorEvent {
            error_type: "overloaded_error".to_owned(),
            message: "try later".to_owned(),
        },
    ];
    let out = process_events(&events).unwrap();
    assert_eq!(
        out,
        vec![
            StreamChunk::Delta(ChunkDelta::Start),
            StreamChunk::Delta(ChunkDelta::Failed(
                "overloaded_error: try later".to_owned()
            )),
        ]
    );
}

#[test]
fn advisory_events_surface_as_labelled_not_supported_deltas() {
    let mut st = StreamState::new();
    let started = st.process_event(&text_start(0)).unwrap();
    assert_eq!(
        started,
        vec![StreamChunk::Delta(ChunkDelta::NotSupported(
            "AnthropicStreamEvent::ContentBlockStart::Text".to_owned()
        ))]
    );
    let stopped = st
        .process_event(&AnthropicStreamEvent::ContentBlockStop { index: 0 })
        .unwrap();
    assert_eq!(
        stopped,
        vec![StreamChunk::Delta(ChunkDelta::NotSupported(
            "AnthropicStreamEvent::ContentBlockStop".to_owned()
        ))]
    );
}

#[test]
fn the_end_sentinel_emits_nothing_and_ends_the_turn() {
    let events = vec![
        AnthropicStreamEvent::MessageStart,
        AnthropicStreamEvent::EndOfStream,
        text_start(0),
    ];
    let out = process_events(&events).unwrap();
    assert_eq!(out, vec![StreamChunk::Delta(ChunkDelta::Start)]);
}

#[test]
fn unrecognized_events_pass_through_verbatim() {
    let events = vec![
        AnthropicStreamEvent::NotSupported {
            raw: "{\"type\":\"ping\"}".to_owned(),
        },
        AnthropicStreamEvent::MessageStop,
    ];
    let out = process_events(&events).unwrap();
    assert_eq!(
        out,
        vec![StreamChunk::Delta(ChunkDelta::NotSupported(
            "{\"type\":\"ping\"}".to_owned()
        ))]
    );
}

#[test]
fn trailing_events_after_stop_are_not_consumed() {
    let events = vec![
        text_start(0),
        AnthropicStreamEvent::MessageStop,
        text_delta(9, "ignored"),
    ];
    let out = process_events(&events).unwrap();
    assert_eq!(dones(&out).len(), 1);
}
