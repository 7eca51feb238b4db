//! The UI re-encoding layer: inclusion policy, message ids, and the builder.

use aisdk::chunk::ChunkDelta;
use aisdk::vercel::{
    fresh_message_id, map_chunk, map_chunks, resolve_message_id, VercelUIStream,
    VercelUIStreamBuilder, VercelUIStreamOptions,
};

fn options(send_reasoning: bool, send_start: bool, send_finish: bool) -> VercelUIStreamOptions {
    VercelUIStreamOptions {
        send_reasoning,
        send_start,
        send_finish,
        message_id: Some("msg_test".to_owned()),
    }
}

#[test]
fn reasoning_deltas_appear_exactly_when_requested() {
    // Reasoning chunks reach the UI stream exactly when the caller asked for
    // reasoning output and the source carries a reasoning delta.
    let id = "msg_test".to_owned();
    let chunks = vec![
        ChunkDelta::Text("a".to_owned()),
        ChunkDelta::Reasoning("think".to_owned()),
        ChunkDelta::Text("b".to_owned()),
    ];
    let with = map_chunks(&chunks, &options(true, false, false), &id);
    assert!(with
        .iter()
        .any(|u| matches!(u, VercelUIStream::ReasoningDelta { .. })));
    let without = map_chunks(&chunks, &options(false, false, false), &id);
    assert!(!without
        .iter()
        .any(|u| matches!(u, VercelUIStream::ReasoningDelta { .. })));
    // And with no reasoning in the source, asking for it yields none either.
    let no_source = vec![ChunkDelta::Text("a".to_owned())];
    let none = map_chunks(&no_source, &options(true, false, false), &id);
    assert!(!none
        .iter()
        .any(|u| matches!(u, VercelUIStream::ReasoningDelta { .. })));
}

#[test]
fn start_and_finish_chunks_follow_their_flags() {
    let id = "msg_test".to_owned();
    assert_eq!(
        map_chunk(&ChunkDelta::Start, &options(false, true, false), &id),
        Some(VercelUIStream::TextStart {
            id: "msg_test".to_owned()
        })
    );
    assert_eq!(
        map_chunk(&ChunkDelta::Start, &options(false, false, false), &id),
        None
    );
    assert_eq!(
        map_chunk(
            &ChunkDelta::End("stop".to_owned()),
            &options(false, false, true),
            &id
        ),
        Some(VercelUIStream::TextEnd {
            id: "msg_test".to_owned()
        })
    );
    assert_eq!(
        map_chunk(
            &ChunkDelta::End("stop".to_owned()),
            &options(false, false, false),
            &id
        ),
        None
    );
}

#[test]
fn failures_become_error_chunks_and_unsupported_is_dropped() {
    let id = "m".to_owned();
    let o = options(false, false, false);
    assert_eq!(
        map_chunk(&ChunkDelta::Failed("boom".to_owned()), &o, &id),
        Some(VercelUIStream::Error {
            error_text: "boom".to_owned()
        })
    );
    assert_eq!(
        map_chunk(&ChunkDelta::Incomplete("cut".to_owned()), &o, &id),
        Some(VercelUIStream::Error {
            error_text: "cut".to_owned()
        })
    );
    assert_eq!(
        map_chunk(&ChunkDelta::NotSupported("raw".to_owned()), &o, &id),
        None
    );
}

#[test]
fn tool_call_fragments_open_a_placeholder_tool_chunk() {
    let id = "m".to_owned();
    let o = options(false, false, false);
    assert_eq!(
        map_chunk(&ChunkDelta::ToolCall("{\"a\"".to_owned()), &o, &id),
        Some(VercelUIStream::ToolCallStart {
            id: "m".to_owned(),
            tool_call_id: "unknown".to_owned(),
            tool_name: "unknown".to_owned(),
        })
    );
}

#[test]
fn generated_message_ids_have_the_documented_shape() {
    let id = fresh_message_id();
    assert_eq!(id.len(), 36);
    assert!(id.starts_with("msg_"));
    let other = fresh_message_id();
    assert_ne!(id, other);
}

#[test]
fn resolve_message_id_prefers_the_configured_one() {
    let o = options(false, false, false);
    assert_eq!(resolve_message_id(&o), "msg_test".to_owned());
    let defaulted = VercelUIStreamOptions::default();
    let id = resolve_message_id(&defaulted);
    assert_eq!(id.len(), 36);
    assert!(id.starts_with("msg_"));
}

#[test]
fn builder_gathers_flags_and_hands_them_to_the_build_step() {
    let built = VercelUIStreamBuilder::new("ctx")
        .send_reasoning()
        .send_start()
        .send_finish()
        .with_id_generator(|| "msg_fixed".to_owned())
        .build(|context, opts| (context, opts));
    assert_eq!(built.0, "ctx");
    assert!(built.1.send_reasoning && built.1.send_start && built.1.send_finish);
    assert_eq!(built.1.message_id, Some("msg_fixed".to_owned()));
}
