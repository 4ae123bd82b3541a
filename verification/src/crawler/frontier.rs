//! The set of pages a crawl has already queued, by their normalized URLs.

use vstd::prelude::*;

use crate::url::{normalize_url, UrlNormalizer};

verus! {

/// The normalized forms of `seen` together with those of `urls`.
pub open spec fn seen_after(seen: Set<Seq<char>>, urls: Seq<Seq<char>>) -> Set<Seq<char>>
    decreases urls.len(),
{
    if urls.len() == 0 {
        seen
    } else {
        seen_after(seen, urls.drop_last()).insert(normalize_url(urls.last()))
    }
}

/// The URLs among `urls` that are queued when they are offered in order to
/// a crawl that has seen `seen`: each one whose normalized form was neither
/// seen nor offered before it.
pub open spec fn admitted(seen: Set<Seq<char>>, urls: Seq<Seq<char>>) -> Seq<Seq<char>>
    decreases urls.len(),
{
    if urls.len() == 0 {
        Seq::empty()
    } else {
        let before = admitted(seen, urls.drop_last());
        if seen_after(seen, urls.drop_last()).contains(normalize_url(urls.last())) {
            before
        } else {
            before.push(urls.last())
        }
    }
}

/// The views of a list of strings.
pub open spec fn string_views(v: Seq<String>) -> Seq<Seq<char>> {
    v.map_values(|s: String| s@)
}

/// The normalized URLs of the pages a crawl has queued.
pub struct VisitedUrls {
    urls: Vec<String>,
}

impl VisitedUrls {
    #[verifier::type_invariant]
    spec fn distinct(&self) -> bool {
        forall|i: int, j: int|
            0 <= i < j < self.urls@.len() ==> self.urls@[i]@ != self.urls@[j]@
    }

    /// The normalized URLs seen so far.
    pub closed spec fn seen(&self) -> Set<Seq<char>> {
        Set::new(|u: Seq<char>| exists|i: int| 0 <= i < self.urls@.len() && self.urls@[i]@ == u)
    }

    /// Nothing seen.
    pub fn new() -> (r: Self)
        ensures
            r.seen() == Set::<Seq<char>>::empty(),
    {
        let r = VisitedUrls { urls: Vec::new() };
        assert(r.seen() =~= Set::<Seq<char>>::empty());
        r
    }

    /// How many distinct normalized URLs were seen.
    pub fn len(&self) -> (r: usize)
        ensures
            r == self.seen().len(),
    {
        proof {
            use_type_invariant(self);
            self.lemma_seen_len();
        }
        self.urls.len()
    }

    proof fn lemma_seen_len(&self)
        requires
            self.distinct(),
        ensures
            self.seen().finite(),
            self.seen().len() == self.urls@.len(),
        decreases self.urls@.len(),
    {
        let views = string_views(self.urls@);
        assert forall|i: int, j: int| 0 <= i < j < views.len() implies views[i] != views[j] by {}
        assert(views.no_duplicates());
        views.unique_seq_to_set();
        assert(self.seen() =~= views.to_set()) by {
            assert forall|u: Seq<char>| self.seen().contains(u) implies views.to_set().contains(u) by {
                let i = choose|i: int| 0 <= i < self.urls@.len() && self.urls@[i]@ == u;
                assert(views[i] == u);
            }
            assert forall|u: Seq<char>| views.to_set().contains(u) implies self.seen().contains(u) by {
                let i = choose|i: int| 0 <= i < views.len() && views[i] == u;
                assert(self.urls@[i]@ == u);
            }
        }
    }

    /// Whether the normalized URL `normalized` was seen.
    pub fn contains(&self, normalized: &String) -> (r: bool)
        ensures
            r == self.seen().contains(normalized@),
    {
        let mut i: usize = 0;
        while i < self.urls.len()
            invariant
                i <= self.urls@.len(),
                forall|k: int| 0 <= k < i ==> self.urls@[k]@ != normalized@,
            decreases self.urls@.len() - i,
        {
            if self.urls[i] == *normalized {
                return true;
            }
            i = i + 1;
        }
        false
    }

    /// Records `url` by its normalized form; returns whether that form is new
    /// (the page is to be queued).
    pub fn insert(&mut self, url: &str) -> (new: bool)
        ensures
            new == !old(self).seen().contains(normalize_url(url@)),
            final(self).seen() == old(self).seen().insert(normalize_url(url@)),
    {
        proof {
            use_type_invariant(&*self);
        }
        let normalized = UrlNormalizer::normalize(url);
        if self.contains(&normalized) {
            assert(self.seen() =~= self.seen().insert(normalize_url(url@)));
            false
        } else {
            let ghost before = self.seen();
            let ghost n = self.urls@.len();
            let mut urls: Vec<String> = Vec::new();
            std::mem::swap(&mut urls, &mut self.urls);
            urls.push(normalized);
            self.urls = urls;
            assert(self.seen() =~= before.insert(normalize_url(url@))) by {
                assert(self.urls@[n as int]@ == normalize_url(url@));
                assert forall|u: Seq<char>| before.contains(u) implies self.seen().contains(u) by {
                    let i = choose|i: int| 0 <= i < n && old(self).urls@[i]@ == u;
                    assert(self.urls@[i]@ == u);
                }
                assert forall|u: Seq<char>| self.seen().contains(u) implies #[trigger] before.insert(
                    normalize_url(url@),
                ).contains(u) by {
                    let i = choose|i: int| 0 <= i < self.urls@.len() && self.urls@[i]@ == u;
                    if i < n {
                        assert(old(self).urls@[i]@ == u);
                    }
                }
            }
            true
        }
    }

    /// Offers `urls` in order; returns those to queue, each one whose
    /// normalized form was neither seen nor offered before it.
    pub fn offer(&mut self, urls: &Vec<String>) -> (queued: Vec<String>)
        ensures
            string_views(queued@) == admitted(old(self).seen(), string_views(urls@)),
            final(self).seen() == seen_after(old(self).seen(), string_views(urls@)),
    {
        let ghost seen0 = self.seen();
        let ghost views = string_views(urls@);
        let mut queued: Vec<String> = Vec::new();
        let mut i: usize = 0;
        while i < urls.len()
            invariant
                i <= urls@.len(),
                views == string_views(urls@),
                string_views(queued@) == admitted(seen0, views.take(i as int)),
                self.seen() == seen_after(seen0, views.take(i as int)),
            decreases urls@.len() - i,
        {
            let ghost t = views.take(i + 1);
            assert(t.drop_last() =~= views.take(i as int));
            assert(t.last() == urls@[i as int]@);
            let ghost before = string_views(queued@);
            if self.insert(urls[i].as_str()) {
                let u = urls[i].clone();
                queued.push(u);
                assert(string_views(queued@) =~= before.push(urls@[i as int]@));
            }
            i = i + 1;
        }
        assert(views.take(urls@.len() as int) =~= views);
        queued
    }
}

/// Offering URLs queues every new page: each offered URL whose normalized
/// form was neither seen before nor offered earlier in the batch is among
/// the queued URLs.
pub proof fn new_pages_are_queued(seen: Set<Seq<char>>, urls: Seq<Seq<char>>, k: int)
    requires
        0 <= k < urls.len(),
        !seen_after(seen, urls.take(k)).contains(normalize_url(urls[k])),
    ensures
        admitted(seen, urls).contains(urls[k]),
    decreases urls.len(),
{
    let d = urls.drop_last();
    if k == urls.len() - 1 {
        assert(urls.take(k) =~= d);
        let b = admitted(seen, d).push(urls.last());
        assert(b[b.len() - 1] == urls[k]);
    } else {
        assert(d.take(k) =~= urls.take(k));
        assert(d[k] == urls[k]);
        new_pages_are_queued(seen, d, k);
        let a = admitted(seen, d);
        let i = choose|i: int| 0 <= i < a.len() && a[i] == urls[k];
        if !seen_after(seen, d).contains(normalize_url(urls.last())) {
            assert(a.push(urls.last())[i] == urls[k]);
        }
    }
}

/// Offering URLs never queues a page twice: every queued URL's normalized
/// form is new to the crawl and differs from those of the other queued URLs,
/// and every offered URL counts as seen afterwards.
pub proof fn admitted_pages_are_distinct(seen: Set<Seq<char>>, urls: Seq<Seq<char>>)
    ensures
        seen.subset_of(seen_after(seen, urls)),
        forall|i: int|
            0 <= i < admitted(seen, urls).len() ==> !seen.contains(
                normalize_url(#[trigger] admitted(seen, urls)[i]),
            ) && seen_after(seen, urls).contains(normalize_url(admitted(seen, urls)[i])),
        forall|i: int, j: int|
            0 <= i < j < admitted(seen, urls).len() ==> normalize_url(
                #[trigger] admitted(seen, urls)[i],
            ) != normalize_url(#[trigger] admitted(seen, urls)[j]),
        forall|k: int|
            0 <= k < urls.len() ==> seen_after(seen, urls).contains(normalize_url(#[trigger] urls[k])),
    decreases urls.len(),
{
    if urls.len() > 0 {
        let d = urls.drop_last();
        admitted_pages_are_distinct(seen, d);
        let a = admitted(seen, d);
        let s = seen_after(seen, d);
        let n = normalize_url(urls.last());
        assert forall|k: int| 0 <= k < urls.len() implies seen_after(seen, urls).contains(
            normalize_url(#[trigger] urls[k]),
        ) by {
            if k < d.len() {
                assert(urls[k] == d[k]);
            }
        }
        if !s.contains(n) {
            let b = a.push(urls.last());
            assert forall|i: int, j: int| 0 <= i < j < b.len() implies normalize_url(
                #[trigger] b[i],
            ) != normalize_url(#[trigger] b[j]) by {
                if j == a.len() {
                    assert(s.contains(normalize_url(a[i])));
                } else {
                    assert(b[i] == a[i] && b[j] == a[j]);
                }
            }
            assert forall|i: int| 0 <= i < b.len() implies !seen.contains(
                normalize_url(#[trigger] b[i]),
            ) && seen_after(seen, urls).contains(normalize_url(b[i])) by {
                if i < a.len() {
                    assert(b[i] == a[i]);
                }
            }
        }
    }
}

} // verus!
