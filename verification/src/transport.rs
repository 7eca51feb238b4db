//! What the library decides about an HTTP exchange: base-URL validation, URL
//! joining, and the classification of an establishment response. The I/O
//! itself lives outside the library; these functions only compute.

use vstd::prelude::*;

verus! {

use vstd::string::{StringExecFns, StrSliceExecFns};
use crate::error::Error;

/// A base URL the library accepts: one with an explicit HTTP scheme.
pub open spec fn valid_base_url(s: Seq<char>) -> bool {
    (s.len() >= 7 && s.subrange(0, 7) == "http://"@) || (s.len() >= 8 && s.subrange(0, 8)
        == "https://"@)
}

/// Accepts a base URL with an explicit HTTP scheme, unchanged; rejects
/// anything else.
pub fn validate_base_url(url: &str) -> (r: Result<String, Error>)
    ensures
        valid_base_url(url@) ==> (r matches Ok(u) && u@ == url@),
        !valid_base_url(url@) ==> r matches Err(Error::InvalidInput(_)),
{
    proof {
        reveal_strlit("http://");
        reveal_strlit("https://");
    }
    let n = url.unicode_len();
    let http = n >= 7 && url.get_char(0) == 'h' && url.get_char(1) == 't' && url.get_char(2)
        == 't' && url.get_char(3) == 'p' && url.get_char(4) == ':' && url.get_char(5) == '/'
        && url.get_char(6) == '/';
    let https = n >= 8 && url.get_char(0) == 'h' && url.get_char(1) == 't' && url.get_char(2)
        == 't' && url.get_char(3) == 'p' && url.get_char(4) == 's' && url.get_char(5) == ':'
        && url.get_char(6) == '/' && url.get_char(7) == '/';
    proof {
        if url@.len() >= 7 {
            assert((url@.subrange(0, 7) == "http://"@) == (url@[0] == 'h' && url@[1] == 't'
                && url@[2] == 't' && url@[3] == 'p' && url@[4] == ':' && url@[5] == '/' && url@[6]
                == '/')) by {
                if url@[0] == 'h' && url@[1] == 't' && url@[2] == 't' && url@[3] == 'p' && url@[4]
                    == ':' && url@[5] == '/' && url@[6] == '/' {
                    assert(url@.subrange(0, 7) =~= "http://"@);
                } else {
                    assert(url@.subrange(0, 7)[0] == url@[0]);
                    assert(url@.subrange(0, 7)[1] == url@[1]);
                    assert(url@.subrange(0, 7)[2] == url@[2]);
                    assert(url@.subrange(0, 7)[3] == url@[3]);
                    assert(url@.subrange(0, 7)[4] == url@[4]);
                    assert(url@.subrange(0, 7)[5] == url@[5]);
                    assert(url@.subrange(0, 7)[6] == url@[6]);
                }
            }
        }
        if url@.len() >= 8 {
            assert((url@.subrange(0, 8) == "https://"@) == (url@[0] == 'h' && url@[1] == 't'
                && url@[2] == 't' && url@[3] == 'p' && url@[4] == 's' && url@[5] == ':' && url@[6]
                == '/' && url@[7] == '/')) by {
                if url@[0] == 'h' && url@[1] == 't' && url@[2] == 't' && url@[3] == 'p' && url@[4]
                    == 's' && url@[5] == ':' && url@[6] == '/' && url@[7] == '/' {
                    assert(url@.subrange(0, 8) =~= "https://"@);
                } else {
                    assert(url@.subrange(0, 8)[0] == url@[0]);
                    assert(url@.subrange(0, 8)[1] == url@[1]);
                    assert(url@.subrange(0, 8)[2] == url@[2]);
                    assert(url@.subrange(0, 8)[3] == url@[3]);
                    assert(url@.subrange(0, 8)[4] == url@[4]);
                    assert(url@.subrange(0, 8)[5] == url@[5]);
                    assert(url@.subrange(0, 8)[6] == url@[6]);
                    assert(url@.subrange(0, 8)[7] == url@[7]);
                }
            }
        }
    }
    if http || https {
        Ok(url.to_owned())
    } else {
        Err(Error::InvalidInput("base URL must start with http:// or https://".to_owned()))
    }
}

/// How a base URL and a path join: exactly one slash between them.
pub open spec fn spec_join_url(b: Seq<char>, p: Seq<char>) -> Seq<char> {
    let b_ends = b.len() > 0 && b.last() == '/';
    let p_starts = p.len() > 0 && p[0] == '/';
    if b_ends && p_starts {
        b + p.subrange(1, p.len() as int)
    } else if !b_ends && !p_starts {
        b + "/"@ + p
    } else {
        b + p
    }
}

/// Joins a base URL and a path with exactly one slash between them.
pub fn join_url(base: &str, path: &str) -> (r: String)
    ensures
        r@ == spec_join_url(base@, path@),
{
    proof {
        reveal_strlit("/");
    }
    let bn = base.unicode_len();
    let pn = path.unicode_len();
    let b_ends = bn > 0 && base.get_char(bn - 1) == '/';
    let p_starts = pn > 0 && path.get_char(0) == '/';
    if b_ends && p_starts {
        let rest = path.substring_char(1, pn);
        base.to_owned().concat(rest)
    } else if !b_ends && !p_starts {
        base.to_owned().concat("/").concat(path)
    } else {
        base.to_owned().concat(path)
    }
}

/// Classifies the initial response of stream establishment: any 2xx status
/// opens the stream; anything else is a fatal transport error carrying the
/// status and the response body, surfaced before any event.
pub fn classify_establishment(status: u16, body: String) -> (r: Result<(), Error>)
    ensures
        200 <= status < 300 ==> r is Ok,
        !(200 <= status < 300) ==> r == Err::<(), Error>(
            Error::ApiError { status_code: Some(status), details: body },
        ),
{
    if 200 <= status && status < 300 {
        Ok(())
    } else {
        Err(Error::ApiError { status_code: Some(status), details: body })
    }
}

/// Whether an establishment failure is a rate limit, the one failure the
/// retry controller may retry.
pub fn is_rate_limit(status: u16) -> (r: bool)
    ensures
        r == (status == 429),
{
    status == 429
}

} // verus!
