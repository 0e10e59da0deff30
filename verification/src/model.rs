//! The data the engine works on: syndication entries and feed sources.

use vstd::prelude::*;

verus! {

/// What one syndication entry holds, as specifications see it.
pub ghost struct EntryView {
    /// Publication time, in seconds since the Unix epoch, if the feed gave one.
    pub published: Option<int>,
    /// Title, if the feed gave one.
    pub title: Option<Seq<char>>,
    /// The URLs the entry points at, in feed order.
    pub links: Seq<Seq<char>>,
}

/// One syndication entry: an optional publication time (seconds since the
/// Unix epoch), an optional title, and the links it points at.
///
/// The engine only ever stores entries whose link list is non-empty; the
/// display layer may rely on a first link being present.
#[derive(Debug)]
pub struct Entry {
    pub published: Option<i64>,
    pub title: Option<String>,
    pub links: Vec<String>,
}

impl View for Entry {
    type V = EntryView;

    open spec fn view(&self) -> EntryView {
        EntryView {
            published: match self.published {
                Some(t) => Some(t as int),
                None => None,
            },
            title: match self.title {
                Some(t) => Some(t@),
                None => None,
            },
            links: self.links@.map_values(|l: String| l@),
        }
    }
}

/// An entry that keeps at least one link.
pub open spec fn linked(e: EntryView) -> bool {
    e.links.len() > 0
}

/// Every entry of the sequence keeps at least one link.
pub open spec fn entries_linked(s: Seq<EntryView>) -> bool {
    forall|i: int| 0 <= i < s.len() ==> linked(#[trigger] s[i])
}

/// The views of a sequence of entries, in order.
pub open spec fn views_of(s: Seq<Entry>) -> Seq<EntryView> {
    s.map_values(|e: Entry| e@)
}

impl Entry {
    /// An exact copy of the entry.
    pub fn duplicate(&self) -> (r: Entry)
        ensures
            r@ == self@,
    {
        let mut links: Vec<String> = Vec::new();
        let mut i: usize = 0;
        while i < self.links.len()
            invariant
                i <= self.links.len(),
                links@.len() == i,
                forall|j: int| 0 <= j < i ==> links@[j]@ == self.links@[j]@,
            decreases self.links.len() - i,
        {
            links.push(self.links[i].clone());
            i += 1;
        }
        let published = self.published;
        let title = match &self.title {
            Some(t) => Some(t.clone()),
            None => None,
        };
        let r = Entry { published, title, links };
        proof {
            assert(r@.links =~= self@.links);
            assert(r@ == self@);
        }
        r
    }
}

/// An exact copy of a list of entries, in order.
pub fn duplicate_entries(es: &Vec<Entry>) -> (r: Vec<Entry>)
    ensures
        views_of(r@) == views_of(es@),
{
    let mut r: Vec<Entry> = Vec::new();
    let mut i: usize = 0;
    while i < es.len()
        invariant
            i <= es@.len(),
            r@.len() == i,
            forall|j: int| 0 <= j < i ==> (#[trigger] r@[j])@ == es@[j]@,
        decreases es@.len() - i,
    {
        r.push(es[i].duplicate());
        i += 1;
    }
    proof {
        assert(views_of(r@) =~= views_of(es@));
    }
    r
}

/// What one registered source holds, as specifications see it.
pub ghost struct SourceView {
    pub name: Seq<char>,
    pub url: Seq<char>,
}

/// One registered feed source: a display name and the URL that keys the
/// cache.  Sources are only ever appended to the registry; re-adding a URL
/// makes a second registry row but still at most one cache entry.
#[derive(Debug)]
pub struct Source {
    pub name: String,
    pub url: String,
}

impl View for Source {
    type V = SourceView;

    open spec fn view(&self) -> SourceView {
        SourceView { name: self.name@, url: self.url@ }
    }
}

/// The views of a sequence of sources, in order.
pub open spec fn source_views_of(s: Seq<Source>) -> Seq<SourceView> {
    s.map_values(|x: Source| x@)
}

} // verus!
