//! The parse stage: turning one decode outcome into what the engine
//! stores, dropping every entry that carries no link at all.

use vstd::prelude::*;
use crate::errors::ParseError;
use crate::model::{views_of, linked, entries_linked, Entry, EntryView};

verus! {

/// The decode primitive the engine is driven with: one decode per call,
/// yielding each recognized entry's publication time, title and links as
/// plain values, in document order, or a description of why the bytes are
/// not a recognizable feed.  Implementations live outside the library —
/// a decoding library's entry point may abort on exotic inputs, so the
/// shell isolates that call where the abort can be caught — and the
/// engine is verified for every behaviour of this interface.
pub trait FeedDecoder {
    fn decode(&mut self, bytes: &Vec<u8>) -> (r: Result<Vec<Entry>, String>);
}

/// The entries of `s` that keep at least one link, in their original
/// relative order.
pub open spec fn keep_linked(s: Seq<EntryView>) -> Seq<EntryView>
    decreases s.len(),
{
    if s.len() == 0 {
        Seq::empty()
    } else {
        let rest = keep_linked(s.drop_last());
        if linked(s.last()) {
            rest.push(s.last())
        } else {
            rest
        }
    }
}

/// Every entry that the link filter keeps has a non-empty link list: an
/// entry with zero links never reaches the result.
pub proof fn lemma_keep_linked_all_linked(s: Seq<EntryView>)
    ensures
        entries_linked(keep_linked(s)),
    decreases s.len(),
{
    if s.len() > 0 {
        lemma_keep_linked_all_linked(s.drop_last());
    }
}

/// The link filter: copies of the entries of `raw` that keep at least one
/// link, in their original relative order.
pub fn filter_linked(raw: &Vec<Entry>) -> (r: Vec<Entry>)
    ensures
        views_of(r@) == keep_linked(views_of(raw@)),
        entries_linked(views_of(r@)),
{
    let ghost all: Seq<EntryView> = views_of(raw@);
    let mut out: Vec<Entry> = Vec::new();
    let mut i: usize = 0;
    while i < raw.len()
        invariant
            i <= raw.len(),
            all == views_of(raw@),
            views_of(out@) == keep_linked(all.take(i as int)),
        decreases raw.len() - i,
    {
        proof {
            assert(all.take(i + 1).drop_last() =~= all.take(i as int));
            assert(all.take(i + 1).last() == all[i as int]);
            assert(all[i as int].links.len() == raw@[i as int].links@.len());
        }
        if raw[i].links.len() > 0 {
            let d = raw[i].duplicate();
            out.push(d);
            proof {
                assert(views_of(out@) =~= keep_linked(all.take(i + 1)));
            }
        } else {
            proof {
                assert(views_of(out@) == keep_linked(all.take(i + 1)));
            }
        }
        i += 1;
    }
    proof {
        assert(all.take(raw@.len() as int) =~= all);
        lemma_keep_linked_all_linked(all);
    }
    out
}

/// What the parse stage yields for each decode outcome: decoded entries
/// go through the link filter; a decode failure is a `Malformed` error
/// that keeps the decoder's description.
pub fn parse_outcome(outcome: Result<Vec<Entry>, String>) -> (r: Result<Vec<Entry>, ParseError>)
    ensures
        r matches Ok(es) ==> entries_linked(views_of(es@)),
        match outcome {
            Ok(raw) => r matches Ok(es) && views_of(es@) == keep_linked(views_of(raw@)),
            Err(detail) => r matches Err(e) && e matches ParseError::Malformed(d) && d@
                == detail@,
        },
{
    match outcome {
        Ok(raw) => Ok(filter_linked(&raw)),
        Err(detail) => Err(ParseError::Malformed(detail)),
    }
}

/// The full parse stage: decode the bytes through `decoder`, then drop
/// every entry with an empty link list.  Whatever the decoder does, a
/// success only ever holds entries with at least one link; a feed whose
/// entries all lack links is an empty but valid result, not an error.
pub fn parse<D: FeedDecoder>(decoder: &mut D, bytes: &Vec<u8>) -> (r: Result<
    Vec<Entry>,
    ParseError,
>)
    ensures
        r matches Ok(es) ==> entries_linked(views_of(es@)),
        r matches Err(e) ==> e matches ParseError::Malformed(_),
{
    parse_outcome(decoder.decode(bytes))
}

} // verus!
