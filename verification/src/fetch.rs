//! The fetch stage: URL validation, the retrieval interface, and the size
//! screen applied to every body a retrieval hands back.

use vstd::prelude::*;
use vstd::string::StrSliceExecFns;
use crate::errors::FetchError;

verus! {

/// A URL the engine will hand to a retrieval: an `http` or `https` scheme
/// followed by a non-empty remainder.  Anything else is rejected before any
/// network work is attempted.
pub open spec fn is_valid_url(s: Seq<char>) -> bool {
    ||| ("http://"@).is_prefix_of(s) && s.len() > "http://"@.len()
    ||| ("https://"@).is_prefix_of(s) && s.len() > "https://"@.len()
}

/// Whether `p` is a prefix of `s`, by characters.
fn has_prefix(s: &str, p: &str) -> (r: bool)
    ensures
        r == p@.is_prefix_of(s@),
{
    let sl = s.unicode_len();
    let pl = p.unicode_len();
    if pl > sl {
        return false;
    }
    let mut i: usize = 0;
    while i < pl
        invariant
            i <= pl,
            pl <= sl,
            pl == p@.len(),
            sl == s@.len(),
            forall|j: int| 0 <= j < i ==> s@[j] == p@[j],
        decreases pl - i,
    {
        if s.get_char(i) != p.get_char(i) {
            proof {
                assert(!p@.is_prefix_of(s@)) by {
                    assert(s@.subrange(0, p@.len() as int)[i as int] == s@[i as int]);
                };
            }
            return false;
        }
        i += 1;
    }
    proof {
        assert(p@ =~= s@.subrange(0, p@.len() as int));
    }
    true
}

/// Whether the engine accepts `url` as a fetchable URL.
pub fn validate_url(url: &String) -> (r: bool)
    ensures
        r == is_valid_url(url@),
{
    let s = url.as_str();
    let http = has_prefix(s, "http://");
    let https = has_prefix(s, "https://");
    proof {
        reveal_strlit("http://");
        reveal_strlit("https://");
    }
    (http && s.unicode_len() > 7) || (https && s.unicode_len() > 8)
}

/// The retrieval primitive the engine is driven with: one blocking network
/// retrieval per call, yielding the raw body or a transport-level
/// description of what went wrong (connection, DNS, timeout, or a
/// non-success status).  Implementations live outside the library; the
/// engine is verified for every behaviour of this interface.
pub trait Fetcher {
    fn retrieve(&mut self, url: &String) -> (r: Result<Vec<u8>, String>);
}

/// Screens what one retrieval handed back: a transport failure becomes
/// `FetchError::Transport`, a body over `limit` bytes becomes
/// `FetchError::TooLarge`, and a body within the bound passes unchanged.
pub fn screen_body(outcome: Result<Vec<u8>, String>, limit: usize) -> (r: Result<
    Vec<u8>,
    FetchError,
>)
    ensures
        match outcome {
            Ok(body) => {
                if body@.len() > limit {
                    r matches Err(e) && e matches FetchError::TooLarge
                } else {
                    r matches Ok(b) && b@ == body@
                }
            },
            Err(detail) => r matches Err(e) && e matches FetchError::Transport(d) && d@
                == detail@,
        },
{
    match outcome {
        Ok(body) => {
            if body.len() > limit {
                Err(FetchError::TooLarge)
            } else {
                Ok(body)
            }
        },
        Err(detail) => Err(FetchError::Transport(detail)),
    }
}

/// The full fetch stage: reject an invalid URL without touching the
/// network, otherwise perform one retrieval through `fetcher` and screen
/// its body.  A returned body is always within `limit` bytes.
pub fn fetch<F: Fetcher>(fetcher: &mut F, url: &String, limit: usize) -> (r: Result<
    Vec<u8>,
    FetchError,
>)
    ensures
        (r matches Err(e) && e matches FetchError::Invalid) <==> !is_valid_url(url@),
        r matches Ok(body) ==> body@.len() <= limit,
{
    if !validate_url(url) {
        return Err(FetchError::Invalid);
    }
    screen_body(fetcher.retrieve(url), limit)
}

} // verus!
