//! The whole receive path: raw transport bytes through frame assembly,
//! decoding, and the accumulator, as one pipeline.

use aisdk::chunk::{ChunkDelta, ContentItem, StreamChunk};
use aisdk::claudecode::run::process_frame;
use aisdk::claudecode::stream::StreamState;
use aisdk::error::Error;
use aisdk::sse::FrameAssembler;

fn run_bytes(chunks: &[&[u8]]) -> Result<Vec<StreamChunk>, Error> {
    let mut fa = FrameAssembler::new();
    let mut st = StreamState::new();
    let mut out: Vec<StreamChunk> = Vec::new();
    for c in chunks {
        fa.push_chunk(c);
        while let Some(frame) = fa.next_frame() {
            if let Some(payload) = aisdk::sse::extract_payload(&frame) {
                out.extend(process_frame(&mut st, &payload)?);
            }
        }
    }
    if let Some(payload) = fa.finish() {
        out.extend(process_frame(&mut st, &payload)?);
    }
    Ok(out)
}

#[test]
fn a_streamed_turn_runs_end_to_end() {
    let out = run_bytes(&[
        b"data: {\"type\":\"message_start\",\"message\":{}}\n\ndata: {\"type\":\"content_block_start\",\"index\":0,\"content_block\":{\"type\":\"text\",\"text\":\"\"}}\n\n",
        b"data: {\"type\":\"content_block_delta\",\"index\":0,\"delta\":{\"type\":\"text_delta\",\"text\":\"Hel\"}}\n\ndata: {\"type\":\"content_block_delta\",\"index\":0,\"delta\":{\"type\":\"text_de",
        b"lta\",\"text\":\"lo\"}}\n\ndata: {\"type\":\"message_stop\"}\n\ndata: [DONE]\n\n",
    ])
    .unwrap();
    assert_eq!(out[0], StreamChunk::Delta(ChunkDelta::Start));
    assert!(out.contains(&StreamChunk::Delta(ChunkDelta::Text("Hel".to_owned()))));
    assert!(out.contains(&StreamChunk::Delta(ChunkDelta::Text("lo".to_owned()))));
    let finals: Vec<&StreamChunk> = out
        .iter()
        .filter(|c| matches!(c, StreamChunk::Done(_)))
        .collect();
    assert_eq!(finals.len(), 1);
    match finals[0] {
        StreamChunk::Done(m) => assert_eq!(
            m.content,
            ContentItem::Text {
                text: "Hello".to_owned()
            }
        ),
        _ => unreachable!(),
    }
}

#[test]
fn an_undecodable_frame_fails_the_whole_stream() {
    let r = run_bytes(&[b"data: {broken\n\n"]);
    assert!(matches!(r, Err(Error::ApiError { status_code: None, .. })));
}

#[test]
fn a_trailing_frame_without_blank_line_is_still_delivered() {
    let out = run_bytes(&[
        b"data: {\"type\":\"message_start\",\"message\":{}}\n\ndata: {\"type\":\"message_stop\"}",
    ])
    .unwrap();
    assert_eq!(out, vec![StreamChunk::Delta(ChunkDelta::Start)]);
}
