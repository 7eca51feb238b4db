//! Frame assembly: blank-line delimiting across arbitrary chunk boundaries,
//! `data:` line extraction, and the end-of-stream flush.

use aisdk::sse::{extract_payload, FrameAssembler};

fn payload(frame: &str) -> Option<Vec<u8>> {
    extract_payload(&frame.as_bytes().to_vec())
}

#[test]
fn a_frame_split_across_chunks_is_assembled() {
    let mut fa = FrameAssembler::new();
    fa.push_chunk(b"data: {\"ty");
    assert_eq!(fa.next_frame(), None);
    fa.push_chunk(b"pe\":\"message_start\"}\n");
    assert_eq!(fa.next_frame(), None);
    fa.push_chunk(b"\ndata: x\n\n");
    let f1 = fa.next_frame().unwrap();
    assert_eq!(f1, b"data: {\"type\":\"message_start\"}".to_vec());
    let f2 = fa.next_frame().unwrap();
    assert_eq!(f2, b"data: x".to_vec());
    assert_eq!(fa.next_frame(), None);
}

#[test]
fn data_lines_are_joined_with_one_line_feed() {
    assert_eq!(
        payload("data: part one\ndata: part two"),
        Some(b"part one\npart two".to_vec())
    );
}

#[test]
fn non_data_lines_contribute_nothing() {
    assert_eq!(payload("event: ping\nid: 7"), None);
    assert_eq!(
        payload("event: delta\ndata: {\"a\":1}"),
        Some(b"{\"a\":1}".to_vec())
    );
}

#[test]
fn carriage_returns_and_leading_space_are_stripped() {
    assert_eq!(payload("data:   x\r"), Some(b"x".to_vec()));
    assert_eq!(payload("data:y"), Some(b"y".to_vec()));
}

#[test]
fn finish_flushes_a_buffered_remainder() {
    let mut fa = FrameAssembler::new();
    fa.push_chunk(b"data: tail with no blank line");
    assert_eq!(fa.next_frame(), None);
    assert_eq!(fa.finish(), Some(b"tail with no blank line".to_vec()));
}

#[test]
fn finish_without_data_lines_flushes_the_trimmed_remainder() {
    let mut fa = FrameAssembler::new();
    fa.push_chunk(b"  [DONE]\n");
    assert_eq!(fa.finish(), Some(b"[DONE]".to_vec()));
}

#[test]
fn finish_of_a_blank_buffer_flushes_nothing() {
    let mut fa = FrameAssembler::new();
    fa.push_chunk(b" \n ");
    assert_eq!(fa.finish(), None);
    let fa2 = FrameAssembler::new();
    assert_eq!(fa2.finish(), None);
}
