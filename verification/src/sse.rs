//! Assembly of server-sent-event frames out of arbitrary byte chunks.
//!
//! Bytes arrive in chunks cut at arbitrary points; a frame ends at a blank
//! line (two consecutive line feeds). Within a frame, every line that starts
//! with `data:` contributes to the frame's payload: the prefix is stripped,
//! leading whitespace removed, and multiple data lines are joined with a
//! single line feed. A frame without data lines carries no payload.

use vstd::prelude::*;

verus! {

use crate::text::{is_ws, spec_trim, spec_trim_front, trim_bytes};

/// The position of the first blank line (two line feeds in a row) at or after
/// `i`, if any.
pub open spec fn find_break_from(s: Seq<u8>, i: int) -> Option<int>
    decreases s.len() - i,
{
    if i < 0 || i + 1 >= s.len() {
        None
    } else if s[i] == 10 && s[i + 1] == 10 {
        Some(i)
    } else {
        find_break_from(s, i + 1)
    }
}

proof fn lemma_find_break_bounds(s: Seq<u8>, i: int)
    requires
        find_break_from(s, i) is Some,
    ensures
        i <= find_break_from(s, i)->Some_0,
        find_break_from(s, i)->Some_0 + 1 < s.len(),
        s[find_break_from(s, i)->Some_0] == 10,
        s[find_break_from(s, i)->Some_0 + 1] == 10,
    decreases s.len() - i,
{
    if !(i < 0 || i + 1 >= s.len()) && !(s[i] == 10 && s[i + 1] == 10) {
        lemma_find_break_bounds(s, i + 1);
    }
}

/// One line's contribution to a frame payload: for a `data:` line, the rest
/// of the line after the prefix, with a trailing carriage return and leading
/// whitespace removed; nothing for any other line.
pub open spec fn line_data(line: Seq<u8>) -> Option<Seq<u8>> {
    let l = if line.len() > 0 && line.last() == 13 {
        line.drop_last()
    } else {
        line
    };
    if l.len() >= 5 && l.subrange(0, 5) == seq![100u8, 97u8, 116u8, 97u8, 58u8] {
        Some(spec_trim_front(l.subrange(5, l.len() as int)))
    } else {
        None
    }
}

/// Joins two optional payload parts with a line feed.
pub open spec fn join_data(acc: Option<Seq<u8>>, d: Option<Seq<u8>>) -> Option<Seq<u8>> {
    match (acc, d) {
        (a, None) => a,
        (None, Some(x)) => Some(x),
        (Some(a), Some(x)) => Some(a + seq![10u8] + x),
    }
}

/// The payload of the unread remainder `rem` of a frame, given the bytes
/// `cur` of the line being read and the payload `acc` of the lines before it.
pub open spec fn payload_go(rem: Seq<u8>, cur: Seq<u8>, acc: Option<Seq<u8>>) -> Option<Seq<u8>>
    decreases rem.len(),
{
    if rem.len() == 0 {
        join_data(acc, line_data(cur))
    } else if rem[0] == 10 {
        payload_go(rem.drop_first(), Seq::empty(), join_data(acc, line_data(cur)))
    } else {
        payload_go(rem.drop_first(), cur + seq![rem[0]], acc)
    }
}

/// The payload of one frame: its `data:` lines joined with line feeds, or
/// `None` when it has no `data:` line.
pub open spec fn frame_payload(frame: Seq<u8>) -> Option<Seq<u8>> {
    payload_go(frame, Seq::empty(), None)
}

/// The payload of the bytes left in the buffer when the transport ends: the
/// frame's payload if it has data lines; otherwise, the remainder trimmed of
/// whitespace, if anything is left at all. This way a final frame that was
/// not closed by a blank line is still delivered.
pub open spec fn residue_payload(s: Seq<u8>) -> Option<Seq<u8>> {
    if frame_payload(s) is Some {
        frame_payload(s)
    } else if spec_trim(s).len() == 0 {
        None
    } else {
        Some(spec_trim(s))
    }
}

/// The view of an optional byte vector.
pub open spec fn opt_view(o: Option<Vec<u8>>) -> Option<Seq<u8>> {
    match o {
        Some(v) => Some(v@),
        None => None,
    }
}

/// Copies `s[a..b]` into a fresh vector.
pub fn copy_range(s: &Vec<u8>, a: usize, b: usize) -> (r: Vec<u8>)
    requires
        a <= b <= s@.len(),
    ensures
        r@ == s@.subrange(a as int, b as int),
{
    let mut r: Vec<u8> = Vec::new();
    let mut i: usize = a;
    proof {
        assert(r@ =~= s@.subrange(a as int, a as int));
    }
    while i < b
        invariant
            a <= i <= b <= s@.len(),
            r@ == s@.subrange(a as int, i as int),
        decreases b - i,
    {
        r.push(s[i]);
        proof {
            assert(s@.subrange(a as int, i as int + 1) =~= s@.subrange(a as int, i as int)
                + seq![s@[i as int]]);
        }
        i += 1;
    }
    r
}

fn find_break(s: &Vec<u8>) -> (r: Option<usize>)
    ensures
        match r {
            Some(k) => find_break_from(s@, 0) == Some(k as int),
            None => find_break_from(s@, 0) is None,
        },
{
    if s.len() < 2 {
        return None;
    }
    let m = s.len() - 1;
    let mut i: usize = 0;
    while i < m
        invariant
            0 <= i <= m,
            m + 1 == s@.len(),
            find_break_from(s@, 0) == find_break_from(s@, i as int),
        decreases m - i,
    {
        if s[i] == 10 && s[i + 1] == 10 {
            return Some(i);
        }
        i += 1;
    }
    None
}

/// Computes the payload of one frame, reading it line by line.
pub fn extract_payload(frame: &Vec<u8>) -> (r: Option<Vec<u8>>)
    ensures
        r is Some <==> frame_payload(frame@) is Some,
        r matches Some(p) ==> frame_payload(frame@) == Some(p@),
{
    let n = frame.len();
    let mut i: usize = 0;
    let mut cur: Vec<u8> = Vec::new();
    let mut acc: Option<Vec<u8>> = None;
    proof {
        assert(frame@.skip(0) =~= frame@);
    }
    while i < n
        invariant
            0 <= i <= n,
            n == frame@.len(),
            payload_go(frame@, Seq::empty(), None) == payload_go(
                frame@.skip(i as int),
                cur@,
                opt_view(acc),
            ),
        decreases n - i,
    {
        let b = frame[i];
        proof {
            assert(frame@.skip(i as int)[0] == frame@[i as int]);
            assert(frame@.skip(i as int).drop_first() =~= frame@.skip(i as int + 1));
        }
        if b == 10 {
            proof {
                assert(payload_go(frame@.skip(i as int), cur@, opt_view(acc)) == payload_go(
                    frame@.skip(i as int + 1),
                    Seq::empty(),
                    join_data(opt_view(acc), line_data(cur@)),
                ));
            }
            acc = merge_line(acc, &cur);
            cur = Vec::new();
            proof {
                assert(cur@ =~= Seq::<u8>::empty());
                assert(payload_go(frame@, Seq::empty(), None) == payload_go(
                    frame@.skip(i as int + 1),
                    cur@,
                    opt_view(acc),
                ));
            }
        } else {
            let ghost cur0 = cur@;
            proof {
                assert(payload_go(frame@.skip(i as int), cur0, opt_view(acc)) == payload_go(
                    frame@.skip(i as int + 1),
                    cur0 + seq![b],
                    opt_view(acc),
                ));
            }
            cur.push(b);
            proof {
                assert(cur@ =~= cur0 + seq![b]);
                assert(payload_go(frame@, Seq::empty(), None) == payload_go(
                    frame@.skip(i as int + 1),
                    cur@,
                    opt_view(acc),
                ));
            }
        }
        i += 1;
    }
    proof {
        assert(frame@.skip(n as int).len() == 0);
    }
    merge_line(acc, &cur)
}

/// Folds one finished line into the payload gathered so far.
fn merge_line(acc: Option<Vec<u8>>, line: &Vec<u8>) -> (r: Option<Vec<u8>>)
    ensures
        opt_view(r) == join_data(opt_view(acc), line_data(line@)),
{
    let d = data_of_line(line);
    match (acc, d) {
        (a, None) => a,
        (None, Some(x)) => Some(x),
        (Some(mut a), Some(x)) => {
            let ghost base = a@;
            a.push(10);
            let mut j: usize = 0;
            proof {
                assert(a@ =~= base + seq![10u8] + x@.subrange(0, 0));
            }
            while j < x.len()
                invariant
                    0 <= j <= x@.len(),
                    a@ == base + seq![10u8] + x@.subrange(0, j as int),
                decreases x@.len() - j,
            {
                a.push(x[j]);
                proof {
                    assert(base + seq![10u8] + x@.subrange(0, j as int + 1) =~= (base
                        + seq![10u8] + x@.subrange(0, j as int)) + seq![x@[j as int]]);
                }
                j += 1;
            }
            proof {
                assert(x@.subrange(0, x@.len() as int) =~= x@);
            }
            Some(a)
        },
    }
}

fn data_of_line(line: &Vec<u8>) -> (r: Option<Vec<u8>>)
    ensures
        opt_view(r) == line_data(line@),
{
    let mut end = line.len();
    if end > 0 && line[end - 1] == 13 {
        end -= 1;
    }
    proof {
        if line@.len() > 0 && line@.last() == 13 {
            assert(line@.drop_last() =~= line@.subrange(0, end as int));
        } else {
            assert(line@ =~= line@.subrange(0, end as int));
        }
    }
    proof {
        let l = line@.subrange(0, end as int);
        if l.len() >= 5 {
            assert(l.subrange(0, 5)[0] == line@[0]);
            assert(l.subrange(0, 5)[1] == line@[1]);
            assert(l.subrange(0, 5)[2] == line@[2]);
            assert(l.subrange(0, 5)[3] == line@[3]);
            assert(l.subrange(0, 5)[4] == line@[4]);
            assert((l.subrange(0, 5) == seq![100u8, 97u8, 116u8, 97u8, 58u8]) == (line@[0] == 100
                && line@[1] == 97 && line@[2] == 116 && line@[3] == 97 && line@[4] == 58)) by {
                if line@[0] == 100 && line@[1] == 97 && line@[2] == 116 && line@[3] == 97
                    && line@[4] == 58 {
                    assert(l.subrange(0, 5) =~= seq![100u8, 97u8, 116u8, 97u8, 58u8]);
                }
            };
        }
    }
    if end >= 5 && line[0] == 100 && line[1] == 97 && line[2] == 116 && line[3] == 97 && line[4]
        == 58 {
        let body = copy_range(line, 5, end);
        proof {
            assert(line@.subrange(0, end as int).subrange(5, end as int) =~= line@.subrange(
                5,
                end as int,
            ));
        }
        let trimmed = trim_front_bytes(&body);
        Some(trimmed)
    } else {
        None
    }
}

/// Removes leading ASCII whitespace.
fn trim_front_bytes(s: &Vec<u8>) -> (r: Vec<u8>)
    ensures
        r@ == spec_trim_front(s@),
{
    let n = s.len();
    let mut start: usize = 0;
    proof {
        assert(s@.subrange(0, n as int) =~= s@);
    }
    while start < n && (s[start] == 32 || s[start] == 9 || s[start] == 10 || s[start] == 13)
        invariant
            0 <= start <= n,
            n == s@.len(),
            spec_trim_front(s@) == spec_trim_front(s@.subrange(start as int, n as int)),
        decreases n - start,
    {
        proof {
            assert(s@.subrange(start as int, n as int).drop_first() =~= s@.subrange(
                start as int + 1,
                n as int,
            ));
        }
        start += 1;
    }
    let r = copy_range(s, start, n);
    proof {
        assert(spec_trim_front(s@.subrange(start as int, n as int)) =~= s@.subrange(
            start as int,
            n as int,
        ));
    }
    r
}

/// Buffers transport bytes and cuts them into frames at blank lines.
pub struct FrameAssembler {
    buf: Vec<u8>,
}

impl FrameAssembler {
    /// The bytes received and not yet cut into a finished frame.
    pub closed spec fn buffered(&self) -> Seq<u8> {
        self.buf@
    }

    /// An assembler with an empty buffer.
    pub fn new() -> (r: FrameAssembler)
        ensures
            r.buffered() == Seq::<u8>::empty(),
    {
        FrameAssembler { buf: Vec::new() }
    }

    /// Adds one transport chunk, cut wherever the network cut it.
    pub fn push_chunk(&mut self, chunk: &[u8])
        ensures
            final(self).buffered() == old(self).buffered() + chunk@,
    {
        self.buf.extend_from_slice(chunk);
    }

    /// Removes and returns the first finished frame, if a blank line has
    /// arrived; the blank line is consumed with it.
    pub fn next_frame(&mut self) -> (r: Option<Vec<u8>>)
        ensures
            match find_break_from(old(self).buffered(), 0) {
                Some(k) => r matches Some(f) && f@ == old(self).buffered().subrange(0, k)
                    && final(self).buffered() == old(self).buffered().subrange(
                    k + 2,
                    old(self).buffered().len() as int,
                ),
                None => r is None && final(self).buffered() == old(self).buffered(),
            },
    {
        match find_break(&self.buf) {
            Some(k) => {
                proof {
                    lemma_find_break_bounds(self.buf@, 0);
                }
                let n = self.buf.len();
                let frame = copy_range(&self.buf, 0, k);
                let rest = copy_range(&self.buf, k + 2, n);
                self.buf = rest;
                Some(frame)
            },
            None => None,
        }
    }

    /// Ends the stream: delivers whatever the buffer still holds, as the
    /// payload of one final frame.
    pub fn finish(self) -> (r: Option<Vec<u8>>)
        ensures
            r is Some <==> residue_payload(self.buffered()) is Some,
            r matches Some(p) ==> residue_payload(self.buffered()) == Some(p@),
    {
        match extract_payload(&self.buf) {
            Some(p) => Some(p),
            None => {
                let t = trim_bytes(&self.buf);
                if t.len() == 0 {
                    None
                } else {
                    Some(t)
                }
            },
        }
    }
}

} // verus!
