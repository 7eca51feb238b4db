//! Small executable helpers over strings and bytes.

use vstd::prelude::*;

verus! {

use vstd::string::{StrSliceExecFns, StringExecFns};

/// Whether the character at `i` is ASCII whitespace.
fn ws_at(s: &str, i: usize) -> (r: bool)
    requires
        i < s@.len(),
    ensures
        r == is_ws_char(s@[i as int]),
{
    let c = s.get_char(i);
    c == ' ' || c == '\t' || c == '\n' || c == '\r'
}

/// Compares two string slices by contents.
pub fn str_eq(a: &str, b: &str) -> (r: bool)
    ensures
        r == (a@ == b@),
{
    let sa: String = a.to_owned();
    let sb: String = b.to_owned();
    sa == sb
}

/// Relies on String::push: appends exactly the given character.
#[verifier::external_body]
pub fn push_char(s: &mut String, c: char)
    ensures
        final(s)@ == old(s)@ + seq![c],
{
    s.push(c);
}

/// Relies on String::from_utf8_lossy: valid UTF-8 bytes come back as the
/// characters they encode (invalid sequences are replaced, and nothing is
/// claimed of them here).
#[verifier::external_body]
pub fn bytes_to_string(b: &Vec<u8>) -> (r: String)
    ensures
        vstd::utf8::valid_utf8(b@) ==> r@ == vstd::utf8::decode_utf8(b@),
{
    String::from_utf8_lossy(b).into_owned()
}

/// An ASCII whitespace character.
pub open spec fn is_ws_char(c: char) -> bool {
    c == ' ' || c == '\t' || c == '\n' || c == '\r'
}

/// Nothing but whitespace.
pub open spec fn is_blank(s: Seq<char>) -> bool {
    forall|i: int| 0 <= i < s.len() ==> is_ws_char(#[trigger] s[i])
}

/// The characters with leading whitespace removed.
pub open spec fn spec_trim_chars_front(s: Seq<char>) -> Seq<char>
    decreases s.len(),
{
    if s.len() > 0 && is_ws_char(s[0]) {
        spec_trim_chars_front(s.drop_first())
    } else {
        s
    }
}

/// The characters with trailing whitespace removed.
pub open spec fn spec_trim_chars_back(s: Seq<char>) -> Seq<char>
    decreases s.len(),
{
    if s.len() > 0 && is_ws_char(s.last()) {
        spec_trim_chars_back(s.drop_last())
    } else {
        s
    }
}

/// The characters with whitespace removed at both ends.
pub open spec fn spec_trim_chars(s: Seq<char>) -> Seq<char> {
    spec_trim_chars_back(spec_trim_chars_front(s))
}

/// Removes ASCII whitespace from both ends of a string.
pub fn trim_str(s: &str) -> (r: String)
    ensures
        r@ == spec_trim_chars(s@),
{
    let n = s.unicode_len();
    let mut start: usize = 0;
    proof {
        assert(s@.subrange(0, n as int) =~= s@);
    }
    while start < n && ws_at(s, start)
        invariant
            0 <= start <= n,
            n == s@.len(),
            spec_trim_chars_front(s@) == spec_trim_chars_front(
                s@.subrange(start as int, n as int),
            ),
        decreases n - start,
    {
        proof {
            assert(s@.subrange(start as int, n as int).drop_first() =~= s@.subrange(
                start as int + 1,
                n as int,
            ));
        }
        start += 1;
    }
    let mut end: usize = n;
    proof {
        assert(spec_trim_chars_front(s@) =~= s@.subrange(start as int, n as int));
    }
    while end > start && ws_at(s, end - 1)
        invariant
            start <= end <= n,
            n == s@.len(),
            spec_trim_chars_front(s@) =~= s@.subrange(start as int, n as int),
            spec_trim_chars_back(spec_trim_chars_front(s@)) == spec_trim_chars_back(
                s@.subrange(start as int, end as int),
            ),
        decreases end,
    {
        proof {
            assert(s@.subrange(start as int, end as int).drop_last() =~= s@.subrange(
                start as int,
                end as int - 1,
            ));
        }
        end -= 1;
    }
    proof {
        assert(spec_trim_chars_back(s@.subrange(start as int, end as int)) =~= s@.subrange(
            start as int,
            end as int,
        ));
    }
    let piece = s.substring_char(start, end);
    piece.to_owned()
}

/// An ASCII whitespace byte: space, tab, line feed or carriage return.
pub open spec fn is_ws(b: u8) -> bool {
    b == 32 || b == 9 || b == 10 || b == 13
}

/// The sequence with leading whitespace removed.
pub open spec fn spec_trim_front(s: Seq<u8>) -> Seq<u8>
    decreases s.len(),
{
    if s.len() > 0 && is_ws(s[0]) {
        spec_trim_front(s.drop_first())
    } else {
        s
    }
}

/// The sequence with trailing whitespace removed.
pub open spec fn spec_trim_back(s: Seq<u8>) -> Seq<u8>
    decreases s.len(),
{
    if s.len() > 0 && is_ws(s.last()) {
        spec_trim_back(s.drop_last())
    } else {
        s
    }
}

/// The sequence with whitespace removed at both ends.
pub open spec fn spec_trim(s: Seq<u8>) -> Seq<u8> {
    spec_trim_back(spec_trim_front(s))
}

/// Removes ASCII whitespace from both ends of a byte vector.
pub fn trim_bytes(s: &Vec<u8>) -> (r: Vec<u8>)
    ensures
        r@ == spec_trim(s@),
{
    let mut start: usize = 0;
    let n = s.len();
    proof {
        assert(s@.subrange(0, n as int) =~= s@);
    }
    while start < n && (s[start] == 32 || s[start] == 9 || s[start] == 10 || s[start] == 13)
        invariant
            0 <= start <= n,
            n == s@.len(),
            spec_trim_front(s@) == spec_trim_front(s@.subrange(start as int, n as int)),
        decreases n - start,
    {
        proof {
            assert(s@.subrange(start as int, n as int).drop_first() =~= s@.subrange(
                start as int + 1,
                n as int,
            ));
        }
        start += 1;
    }
    let mut end: usize = n;
    proof {
        assert(spec_trim_front(s@) =~= s@.subrange(start as int, n as int));
    }
    while end > start && (s[end - 1] == 32 || s[end - 1] == 9 || s[end - 1] == 10 || s[end - 1]
        == 13)
        invariant
            start <= end <= n,
            n == s@.len(),
            spec_trim_front(s@) =~= s@.subrange(start as int, n as int),
            spec_trim_back(spec_trim_front(s@)) == spec_trim_back(
                s@.subrange(start as int, end as int),
            ),
        decreases end,
    {
        proof {
            assert(s@.subrange(start as int, end as int).drop_last() =~= s@.subrange(
                start as int,
                end as int - 1,
            ));
        }
        end -= 1;
    }
    let mut r: Vec<u8> = Vec::new();
    let mut i: usize = start;
    while i < end
        invariant
            start <= i <= end <= n,
            n == s@.len(),
            r@ =~= s@.subrange(start as int, i as int),
        decreases end - i,
    {
        r.push(s[i]);
        proof {
            assert(s@.subrange(start as int, i as int + 1) =~= s@.subrange(start as int, i as int)
                + seq![s@[i as int]]);
        }
        i += 1;
    }
    proof {
        assert(spec_trim_back(s@.subrange(start as int, end as int)) =~= s@.subrange(
            start as int,
            end as int,
        ));
    }
    r
}

} // verus!
