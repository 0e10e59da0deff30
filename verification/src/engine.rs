//! The engine: the source registry, the per-URL entry cache, the current
//! selection, the fetch-then-parse pipeline, and the command dispatcher.
//!
//! The cache maps a URL to the entries parsed from it, populated at most
//! once per URL for the life of the process and never invalidated.  A key
//! is present exactly when fetch and parse both succeeded for it at least
//! once; a failure at either stage leaves the engine exactly as it was.
//!
//! Everything here runs on one thread: a dispatch fully resolves one
//! request before the next, and `get_or_fetch` blocks its caller for the
//! duration of the retrieval.

use vstd::prelude::*;
use vstd::string::StringExecFns;
use crate::control::{response_of, missing_argument_msg, unknown_command_msg, ControlRequest,
    ControlResponse};
use crate::errors::{CacheError, DispatchError, FetchError};
use crate::fetch::{fetch, is_valid_url, Fetcher};
use crate::model::{duplicate_entries, entries_linked, source_views_of, views_of, Entry,
    EntryView, Source, SourceView};
use crate::parse::{parse, FeedDecoder};

verus! {

/// What the engine holds, as specifications see it: the registry rows in
/// insertion order, the cache as a map from URL to parsed entries, and the
/// currently selected URL.
pub ghost struct EngineView {
    pub registry: Seq<SourceView>,
    pub cache: Map<Seq<char>, Seq<EntryView>>,
    pub selection: Option<Seq<char>>,
}

/// One cached row keeps only entries with at least one link.
spec fn pair_linked(p: (String, Vec<Entry>)) -> bool {
    entries_linked(views_of(p.1@))
}

/// No two cached rows share a URL.
spec fn keys_unique(l: Seq<(String, Vec<Entry>)>) -> bool {
    forall|i: int, j: int| 0 <= i < j < l.len() ==> (#[trigger] l[i]).0@ != (#[trigger] l[j]).0@
}

/// The map a row list denotes: each URL bound to the views of its entries.
spec fn cache_map_of(l: Seq<(String, Vec<Entry>)>) -> Map<Seq<char>, Seq<EntryView>>
    decreases l.len(),
{
    if l.len() == 0 {
        Map::empty()
    } else {
        cache_map_of(l.drop_last()).insert(l.last().0@, views_of(l.last().1@))
    }
}

proof fn lemma_cache_map_contains(l: Seq<(String, Vec<Entry>)>, k: Seq<char>)
    ensures
        cache_map_of(l).contains_key(k) <==> exists|i: int|
            0 <= i < l.len() && (#[trigger] l[i]).0@ == k,
    decreases l.len(),
{
    if l.len() > 0 {
        lemma_cache_map_contains(l.drop_last(), k);
        if l.last().0@ == k {
            assert((l[l.len() - 1]).0@ == k);
        } else {
            if exists|i: int| 0 <= i < l.len() && (#[trigger] l[i]).0@ == k {
                let i = choose|i: int| 0 <= i < l.len() && (#[trigger] l[i]).0@ == k;
                assert(l.drop_last()[i].0@ == k);
            }
            if cache_map_of(l).contains_key(k) {
                let i = choose|i: int|
                    0 <= i < l.drop_last().len() && (#[trigger] l.drop_last()[i]).0@ == k;
                assert((l[i]).0@ == k);
            }
        }
    }
}

proof fn lemma_cache_map_value(l: Seq<(String, Vec<Entry>)>, i: int)
    requires
        keys_unique(l),
        0 <= i < l.len(),
    ensures
        cache_map_of(l).contains_key(l[i].0@),
        cache_map_of(l)[l[i].0@] == views_of(l[i].1@),
    decreases l.len(),
{
    if i == l.len() - 1 {
        assert(l.last() == l[i]);
    } else {
        assert(keys_unique(l.drop_last())) by {
            assert forall|a: int, b: int|
                0 <= a < b < l.drop_last().len() implies (#[trigger] l.drop_last()[a]).0@
                != (#[trigger] l.drop_last()[b]).0@ by {
                assert(l.drop_last()[a] == l[a]);
                assert(l.drop_last()[b] == l[b]);
            }
        }
        lemma_cache_map_value(l.drop_last(), i);
        assert(l.drop_last()[i] == l[i]);
        assert(l.last() == l[l.len() - 1]);
        assert(l.last().0@ != l[i].0@);
    }
}

proof fn lemma_cache_map_push(l: Seq<(String, Vec<Entry>)>, p: (String, Vec<Entry>))
    ensures
        cache_map_of(l.push(p)) == cache_map_of(l).insert(p.0@, views_of(p.1@)),
{
    assert(l.push(p).drop_last() =~= l);
    assert(l.push(p).last() == p);
}

/// Finds the row holding `url`, if any.
fn find_key(cache: &Vec<(String, Vec<Entry>)>, url: &String) -> (r: Option<usize>)
    ensures
        match r {
            Some(i) => i < cache@.len() && (cache@[i as int]).0@ == url@,
            None => forall|i: int| 0 <= i < cache@.len() ==> (#[trigger] cache@[i]).0@ != url@,
        },
{
    let mut i: usize = 0;
    while i < cache.len()
        invariant
            i <= cache@.len(),
            forall|j: int| 0 <= j < i ==> (#[trigger] cache@[j]).0@ != url@,
        decreases cache@.len() - i,
    {
        if cache[i].0 == *url {
            return Some(i);
        }
        i += 1;
    }
    None
}

/// The fetch-then-parse pipeline, with no cache in front of it: validate
/// the URL, retrieve one body through `fetcher`, screen its size against
/// `limit`, decode it through `decoder`, and drop entries without links.
/// The first stage that fails is reported, wrapped in `CacheError`.
pub fn get_articles<F: Fetcher, D: FeedDecoder>(
    fetcher: &mut F,
    decoder: &mut D,
    url: &String,
    limit: usize,
) -> (r: Result<Vec<Entry>, CacheError>)
    ensures
        match r {
            Ok(es) => {
                &&& is_valid_url(url@)
                &&& entries_linked(views_of(es@))
            },
            Err(e) => match e {
                CacheError::Fetch(fe) => (fe matches FetchError::Invalid <==> !is_valid_url(
                    url@,
                )),
                CacheError::Parse(_) => is_valid_url(url@),
            },
        },
{
    let body = match fetch(fetcher, url, limit) {
        Ok(b) => b,
        Err(fe) => {
            return Err(CacheError::Fetch(fe));
        },
    };
    match parse(decoder, &body) {
        Ok(es) => Ok(es),
        Err(pe) => Err(CacheError::Parse(pe)),
    }
}

/// The engine value that owns the registry, the cache, and the selection.
/// It is driven from outside with a `Fetcher`; everything it decides is
/// stated in the contracts of its methods.
pub struct Engine {
    sources: Vec<Source>,
    cache: Vec<(String, Vec<Entry>)>,
    selected: Option<String>,
}

impl View for Engine {
    type V = EngineView;

    closed spec fn view(&self) -> EngineView {
        EngineView {
            registry: source_views_of(self.sources@),
            cache: cache_map_of(self.cache@),
            selection: match self.selected {
                Some(u) => Some(u@),
                None => None,
            },
        }
    }
}

impl Engine {
    #[verifier::type_invariant]
    spec fn wf(self) -> bool {
        &&& keys_unique(self.cache@)
        &&& forall|i: int| 0 <= i < self.cache@.len() ==> pair_linked(#[trigger] self.cache@[i])
    }

    /// An engine with no sources, an empty cache, and no selection.
    pub fn new() -> (e: Engine)
        ensures
            e@.registry.len() == 0,
            e@.cache == Map::<Seq<char>, Seq<EntryView>>::empty(),
            e@.selection is None,
    {
        Engine { sources: Vec::new(), cache: Vec::new(), selected: None }
    }

    /// Appends one source row, unconditionally: no uniqueness check and no
    /// name validation, so re-adding a URL makes a second row.
    pub fn add_source(&mut self, name: String, url: String)
        ensures
            final(self)@.registry == old(self)@.registry.push(
                SourceView { name: name@, url: url@ },
            ),
            final(self)@.cache == old(self)@.cache,
            final(self)@.selection == old(self)@.selection,
    {
        proof {
            use_type_invariant(&*self);
        }
        let ghost before = self.sources@;
        let mut sources: Vec<Source> = Vec::new();
        core::mem::swap(&mut sources, &mut self.sources);
        sources.push(Source { name, url });
        self.sources = sources;
        proof {
            assert(source_views_of(self.sources@) =~= source_views_of(before).push(
                SourceView { name: name@, url: url@ },
            ));
        }
    }

    /// The registry rows, in insertion order.
    pub fn list_sources(&self) -> (r: &Vec<Source>)
        ensures
            source_views_of(r@) == self@.registry,
    {
        &self.sources
    }

    /// Makes `url` the current selection.
    pub fn select(&mut self, url: String)
        ensures
            final(self)@.selection == Some(url@),
            final(self)@.registry == old(self)@.registry,
            final(self)@.cache == old(self)@.cache,
    {
        proof {
            use_type_invariant(&*self);
        }
        self.selected = Some(url);
    }

    /// Clears the current selection.
    pub fn clear_selection(&mut self)
        ensures
            final(self)@.selection is None,
            final(self)@.registry == old(self)@.registry,
            final(self)@.cache == old(self)@.cache,
    {
        proof {
            use_type_invariant(&*self);
        }
        self.selected = None;
    }

    /// The currently selected URL, if any.
    pub fn selection(&self) -> (r: Option<&String>)
        ensures
            match r {
                Some(u) => self@.selection == Some(u@),
                None => self@.selection is None,
            },
    {
        match &self.selected {
            Some(u) => Some(u),
            None => None,
        }
    }

    /// Whether entries for `url` are already cached.
    pub fn has_cached(&self, url: &String) -> (r: bool)
        ensures
            r == self@.cache.contains_key(url@),
    {
        proof {
            lemma_cache_map_contains(self.cache@, url@);
        }
        match find_key(&self.cache, url) {
            Some(_) => true,
            None => false,
        }
    }

    /// The cache in front of the pipeline.  A cached URL is answered
    /// immediately, with no retrieval; an uncached one goes through fetch
    /// and parse, and only a fully successful run inserts the entries —
    /// a failure at either stage leaves the engine exactly as it was, so
    /// a later call will try the URL again.  The caller gets its own copy
    /// of the cached list.  A hit touches neither the fetcher nor the
    /// decoder: no retrieval and no decode happen for a cached URL.
    pub fn get_or_fetch<F: Fetcher, D: FeedDecoder>(
        &mut self,
        fetcher: &mut F,
        decoder: &mut D,
        url: &String,
        limit: usize,
    ) -> (r: Result<Vec<Entry>, CacheError>)
        ensures
            final(self)@.registry == old(self)@.registry,
            final(self)@.selection == old(self)@.selection,
            old(self)@.cache.contains_key(url@) ==> r is Ok && final(self)@ == old(self)@
                && *final(fetcher) == *old(fetcher) && *final(decoder) == *old(decoder),
            match r {
                Ok(es) => {
                    &&& entries_linked(views_of(es@))
                    &&& final(self)@.cache.contains_key(url@)
                    &&& final(self)@.cache[url@] == views_of(es@)
                    &&& if old(self)@.cache.contains_key(url@) {
                        views_of(es@) == old(self)@.cache[url@]
                    } else {
                        &&& final(self)@.cache == old(self)@.cache.insert(url@, views_of(es@))
                        &&& is_valid_url(url@)
                    }
                },
                Err(e) => {
                    &&& final(self)@ == old(self)@
                    &&& !old(self)@.cache.contains_key(url@)
                    &&& match e {
                        CacheError::Fetch(fe) => (fe matches FetchError::Invalid
                            <==> !is_valid_url(url@)),
                        CacheError::Parse(_) => is_valid_url(url@),
                    }
                },
            },
    {
        proof {
            use_type_invariant(&*self);
            lemma_cache_map_contains(self.cache@, url@);
        }
        match find_key(&self.cache, url) {
            Some(i) => {
                proof {
                    lemma_cache_map_value(self.cache@, i as int);
                }
                let out = duplicate_entries(&self.cache[i].1);
                Ok(out)
            },
            None => {
                match get_articles(fetcher, decoder, url, limit) {
                    Ok(es) => {
                        let stored = duplicate_entries(&es);
                        let key = url.clone();
                        let ghost before = self.cache@;
                        let mut cache: Vec<(String, Vec<Entry>)> = Vec::new();
                        core::mem::swap(&mut cache, &mut self.cache);
                        cache.push((key, stored));
                        proof {
                            assert(keys_unique(cache@)) by {
                                assert(forall|j: int|
                                    0 <= j < before.len() ==> (#[trigger] cache@[j]) == before[j]);
                            }
                            assert(forall|j: int|
                                0 <= j < cache@.len() ==> pair_linked(#[trigger] cache@[j]))
                                by {
                                assert(forall|j: int|
                                    0 <= j < before.len() ==> (#[trigger] cache@[j]) == before[j]);
                                assert(pair_linked(cache@[cache@.len() - 1]));
                            }
                        }
                        self.cache = cache;
                        proof {
                            lemma_cache_map_push(before, (key, stored));
                        }
                        Ok(es)
                    },
                    Err(e) => Err(e),
                }
            },
        }
    }

    /// The display layer's read: the entries of the currently selected
    /// URL, fetching them on first access.  With nothing selected it
    /// yields no entries; a pipeline failure clears the selection, so the
    /// display is not left showing the previous feed under a new label,
    /// and caches nothing.  Neither the fetcher nor the decoder is
    /// touched unless the selected URL is missing from the cache.
    pub fn current_entries<F: Fetcher, D: FeedDecoder>(
        &mut self,
        fetcher: &mut F,
        decoder: &mut D,
        limit: usize,
    ) -> (r: Result<Vec<Entry>, CacheError>)
        ensures
            final(self)@.registry == old(self)@.registry,
            match old(self)@.selection {
                None => r matches Ok(es) && es@.len() == 0 && final(self)@ == old(self)@
                    && *final(fetcher) == *old(fetcher) && *final(decoder) == *old(decoder),
                Some(u) => match r {
                    Ok(es) => {
                        &&& final(self)@.selection == old(self)@.selection
                        &&& entries_linked(views_of(es@))
                        &&& final(self)@.cache.contains_key(u)
                        &&& final(self)@.cache[u] == views_of(es@)
                        &&& (old(self)@.cache.contains_key(u) ==> final(self)@ == old(self)@
                            && views_of(es@) == old(self)@.cache[u] && *final(fetcher) == *old(
                            fetcher,
                        ) && *final(decoder) == *old(decoder))
                        &&& (!old(self)@.cache.contains_key(u) ==> final(self)@.cache == old(
                            self,
                        )@.cache.insert(u, views_of(es@)) && is_valid_url(u))
                    },
                    Err(e) => {
                        &&& final(self)@.selection is None
                        &&& final(self)@.cache == old(self)@.cache
                        &&& final(self)@.registry == old(self)@.registry
                        &&& !old(self)@.cache.contains_key(u)
                    },
                },
            },
    {
        let url = match &self.selected {
            Some(u) => u.clone(),
            None => {
                return Ok(Vec::new());
            },
        };
        match self.get_or_fetch(fetcher, decoder, &url, limit) {
            Ok(es) => Ok(es),
            Err(e) => {
                proof {
                    use_type_invariant(&*self);
                }
                self.selected = None;
                Err(e)
            },
        }
    }

    /// Carries out one decoded control request.  The one recognized action
    /// is `add_url`, which needs a name and a URL and appends a registry
    /// row; too few parameters or any other action change nothing.
    pub fn apply_command(&mut self, req: &ControlRequest) -> (r: Result<Vec<String>, DispatchError>)
        ensures
            final(self)@.cache == old(self)@.cache,
            final(self)@.selection == old(self)@.selection,
            (if req@.action == "add_url"@ {
                if req@.params.len() >= 2 {
                    &&& r matches Ok(v) && v@.map_values(|s: String| s@) == seq![""@]
                    &&& final(self)@.registry == old(self)@.registry.push(
                        SourceView { name: req@.params[0], url: req@.params[1] },
                    )
                } else {
                    &&& final(self)@ == old(self)@
                    &&& r matches Err(e) && e matches DispatchError::MissingArgument
                }
            } else {
                &&& final(self)@ == old(self)@
                &&& r matches Err(e) && e matches DispatchError::UnknownAction(a) && a@
                    == req@.action
            }),
    {
        let add = String::from_str("add_url");
        if req.action == add {
            if req.params.len() >= 2 {
                let name = req.params[0].clone();
                let url = req.params[1].clone();
                self.add_source(name, url);
                let mut v: Vec<String> = Vec::new();
                v.push(String::new());
                proof {
                    reveal_strlit("");
                    assert(""@ =~= Seq::<char>::empty());
                    assert(v@.map_values(|s: String| s@) =~= seq![""@]);
                }
                Ok(v)
            } else {
                Err(DispatchError::MissingArgument)
            }
        } else {
            Err(DispatchError::UnknownAction(req.action.clone()))
        }
    }

    /// One full control exchange: carry the request out and build the
    /// response sent back.  A recognized, well-formed `add_url` answers
    /// with one empty result string and no error; a known action with too
    /// few parameters answers with the missing-argument error line; an
    /// unknown action answers with its own error line.  An error never
    /// aborts the dispatcher and never mutates the engine.
    pub fn dispatch(&mut self, req: &ControlRequest) -> (r: ControlResponse)
        ensures
            final(self)@.cache == old(self)@.cache,
            final(self)@.selection == old(self)@.selection,
            (if req@.action == "add_url"@ && req@.params.len() >= 2 {
                &&& final(self)@.registry == old(self)@.registry.push(
                    SourceView { name: req@.params[0], url: req@.params[1] },
                )
                &&& r@.result == seq![""@]
                &&& r@.error.len() == 0
            } else {
                &&& final(self)@ == old(self)@
                &&& r@.result.len() == 0
                &&& (if req@.action == "add_url"@ {
                    r@.error == seq![missing_argument_msg()]
                } else {
                    r@.error == seq![unknown_command_msg(req@.action)]
                })
            }),
    {
        let outcome = self.apply_command(req);
        response_of(outcome)
    }
}

} // verus!
