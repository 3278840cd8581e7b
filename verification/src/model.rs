//! The data model: articles, the favorite relation, the following relation,
//! and the backing store they live in.
//!
//! The store is the single holder of mutable state.  Its mathematical view
//! ([`StoreV`]) is a sequence of article records kept in creation order, a
//! sequence of favorite edges `(viewer, slug)` and a sequence of follow edges
//! `(follower, author)`, plus a logical clock that stamps creations and
//! updates.  Well-formedness ([`StoreV::wf`]) pins down the invariants every
//! command preserves: slugs are unique, creation stamps strictly increase in
//! storage order, edges are unique, and no favorite edge outlives its article.

use vstd::prelude::*;

verus! {

/// A stored article record.
#[derive(Debug)]
pub struct Article {
    pub slug: String,
    pub title: String,
    pub description: String,
    pub body: String,
    pub tag_list: Vec<String>,
    pub created_at: u64,
    pub updated_at: u64,
    pub author: String,
}

/// Ghost mirror of [`Article`].
#[verifier::ext_equal]
pub ghost struct ArticleV {
    pub slug: Seq<char>,
    pub title: Seq<char>,
    pub description: Seq<char>,
    pub body: Seq<char>,
    pub tag_list: Seq<Seq<char>>,
    pub created_at: int,
    pub updated_at: int,
    pub author: Seq<char>,
}

impl View for Article {
    type V = ArticleV;

    open spec fn view(&self) -> ArticleV {
        ArticleV {
            slug: self.slug@,
            title: self.title@,
            description: self.description@,
            body: self.body@,
            tag_list: self.tag_list@.map_values(|t: String| t@),
            created_at: self.created_at as int,
            updated_at: self.updated_at as int,
            author: self.author@,
        }
    }
}

/// The backing store: the only mutable shared state of the core.
///
/// The boundary is expected to reach it through
/// [`crate::dispatch::dispatch`] and never to inspect these fields; they are
/// exposed so that the specifications below can speak about them.
#[derive(Debug)]
pub struct Store {
    pub articles: Vec<Article>,
    pub favs: Vec<(String, String)>,
    pub follows: Vec<(String, String)>,
    pub clock: u64,
}

/// Ghost mirror of [`Store`].
#[verifier::ext_equal]
pub ghost struct StoreV {
    pub articles: Seq<ArticleV>,
    pub favs: Seq<(Seq<char>, Seq<char>)>,
    pub follows: Seq<(Seq<char>, Seq<char>)>,
    pub clock: int,
}

impl View for Store {
    type V = StoreV;

    open spec fn view(&self) -> StoreV {
        StoreV {
            articles: self.articles@.map_values(|a: Article| a@),
            favs: self.favs@.map_values(|p: (String, String)| (p.0@, p.1@)),
            follows: self.follows@.map_values(|p: (String, String)| (p.0@, p.1@)),
            clock: self.clock as int,
        }
    }
}

impl StoreV {
    /// The store that holds nothing.
    pub open spec fn empty() -> StoreV {
        StoreV { articles: seq![], favs: seq![], follows: seq![], clock: 0 }
    }

    /// Some stored article carries this slug.
    pub open spec fn has_slug(self, slug: Seq<char>) -> bool {
        exists|i: int| 0 <= i < self.articles.len() && (#[trigger] self.articles[i]).slug == slug
    }

    /// The storage index of the article with this slug (unique under `wf`).
    pub open spec fn idx_of(self, slug: Seq<char>) -> int {
        choose|i: int| 0 <= i < self.articles.len() && (#[trigger] self.articles[i]).slug == slug
    }

    /// The article carrying this slug.
    pub open spec fn article_at(self, slug: Seq<char>) -> ArticleV {
        self.articles[self.idx_of(slug)]
    }

    /// The favorite relation holds an edge for this viewer and slug.
    pub open spec fn has_fav(self, user: Seq<char>, slug: Seq<char>) -> bool {
        exists|i: int| 0 <= i < self.favs.len() && #[trigger] self.favs[i] == (user, slug)
    }

    /// How many viewers favorited this slug: the cardinality of the edge set.
    pub open spec fn fav_count(self, slug: Seq<char>) -> nat {
        self.favs.filter(edge_at(slug)).len()
    }

    /// The external following relation holds an edge follower -> author.
    pub open spec fn has_follow(self, follower: Seq<char>, author: Seq<char>) -> bool {
        exists|i: int| 0 <= i < self.follows.len() && #[trigger] self.follows[i] == (follower, author)
    }

    /// The invariants every command preserves.
    pub open spec fn wf(self) -> bool {
        &&& forall|i: int, j: int|
            0 <= i < j < self.articles.len() ==> (#[trigger] self.articles[i]).slug != (
            #[trigger] self.articles[j]).slug
        &&& forall|i: int, j: int|
            0 <= i < j < self.articles.len() ==> (#[trigger] self.articles[i]).created_at < (
            #[trigger] self.articles[j]).created_at
        &&& forall|i: int|
            0 <= i < self.articles.len() ==> (#[trigger] self.articles[i]).created_at <= self.articles[i].updated_at
                < self.clock
        &&& forall|i: int, j: int|
            0 <= i < j < self.favs.len() ==> #[trigger] self.favs[i] != #[trigger] self.favs[j]
        &&& forall|i: int|
            0 <= i < self.favs.len() ==> self.has_slug((#[trigger] self.favs[i]).1)
        &&& forall|i: int, j: int|
            0 <= i < j < self.follows.len() ==> #[trigger] self.follows[i]
                != #[trigger] self.follows[j]
        &&& 0 <= self.clock <= u64::MAX
    }
}

/// Holds of a favorite edge that points at `slug`.
pub open spec fn edge_at(slug: Seq<char>) -> spec_fn((Seq<char>, Seq<char>)) -> bool {
    |p: (Seq<char>, Seq<char>)| p.1 == slug
}

/// Holds of a favorite edge that is not the pair `(user, slug)`.
pub open spec fn edge_not_pair(user: Seq<char>, slug: Seq<char>) -> spec_fn(
    (Seq<char>, Seq<char>),
) -> bool {
    |p: (Seq<char>, Seq<char>)| p != (user, slug)
}

/// Holds of a favorite edge that does not point at `slug`.
pub open spec fn edge_not_at(slug: Seq<char>) -> spec_fn((Seq<char>, Seq<char>)) -> bool {
    |p: (Seq<char>, Seq<char>)| p.1 != slug
}

/// Two store views with the same articles agree on which slugs exist.
pub proof fn lemma_same_articles_has_slug(a: StoreV, b: StoreV, slug: Seq<char>)
    requires
        a.articles == b.articles,
        a.has_slug(slug),
    ensures
        b.has_slug(slug),
{
    let w = choose|k: int| 0 <= k < a.articles.len() && (#[trigger] a.articles[k]).slug == slug;
    assert(b.articles[w].slug == slug);
}

/// `filter` of a sequence extended by one element, unfolded once.
pub proof fn lemma_filter_push<A>(s: Seq<A>, e: A, pred: spec_fn(A) -> bool)
    ensures
        s.push(e).filter(pred) == if pred(e) {
            s.filter(pred).push(e)
        } else {
            s.filter(pred)
        },
{
    reveal(Seq::filter);
    assert(s.push(e).drop_last() =~= s);
    assert(s.push(e).last() == e);
}

/// A sequence none of whose elements pass the predicate filters to empty,
/// and one all of whose elements pass filters to itself.
pub proof fn lemma_filter_all<A>(s: Seq<A>, pred: spec_fn(A) -> bool)
    ensures
        (forall|i: int| 0 <= i < s.len() ==> !pred(#[trigger] s[i])) ==> s.filter(pred) =~= seq![],
        (forall|i: int| 0 <= i < s.len() ==> pred(#[trigger] s[i])) ==> s.filter(pred) =~= s,
    decreases s.len(),
{
    reveal(Seq::filter);
    if s.len() > 0 {
        lemma_filter_push(s.drop_last(), s.last(), pred);
        assert(s.drop_last().push(s.last()) =~= s);
        lemma_filter_all(s.drop_last(), pred);
    }
}

impl Store {
    /// A store holding no articles and no edges.
    pub fn new() -> (r: Store)
        ensures
            r@ == StoreV::empty(),
            r@.wf(),
    {
        let r = Store { articles: Vec::new(), favs: Vec::new(), follows: Vec::new(), clock: 0 };
        proof {
            assert(r@ =~= StoreV::empty());
        }
        r
    }

    /// Find the storage index of the article with this slug.
    pub fn find_idx(&self, slug: &String) -> (r: Option<usize>)
        ensures
            match r {
                Some(i) => i < self.articles.len() && self@.articles[i as int].slug == slug@
                    && self@.has_slug(slug@),
                None => !self@.has_slug(slug@),
            },
    {
        let n = self.articles.len();
        let mut i: usize = 0;
        while i < n
            invariant
                i <= n,
                n == self.articles.len(),
                forall|j: int| 0 <= j < i ==> (#[trigger] self@.articles[j]).slug != slug@,
            decreases n - i,
        {
            if self.articles[i].slug == *slug {
                return Some(i);
            }
            i += 1;
        }
        None
    }

    /// Whether the favorite relation holds an edge for this viewer and slug.
    pub fn has_fav_edge(&self, user: &String, slug: &String) -> (r: bool)
        ensures
            r == self@.has_fav(user@, slug@),
    {
        let n = self.favs.len();
        let mut i: usize = 0;
        while i < n
            invariant
                i <= n,
                n == self.favs.len(),
                forall|j: int| 0 <= j < i ==> #[trigger] self@.favs[j] != (user@, slug@),
            decreases n - i,
        {
            if self.favs[i].0 == *user && self.favs[i].1 == *slug {
                assert(self@.favs[i as int] == (user@, slug@));
                return true;
            }
            i += 1;
        }
        false
    }

    /// Whether the following relation holds an edge follower -> author.
    pub fn has_follow_edge(&self, follower: &String, author: &String) -> (r: bool)
        ensures
            r == self@.has_follow(follower@, author@),
    {
        let n = self.follows.len();
        let mut i: usize = 0;
        while i < n
            invariant
                i <= n,
                n == self.follows.len(),
                forall|j: int| 0 <= j < i ==> #[trigger] self@.follows[j] != (follower@, author@),
            decreases n - i,
        {
            if self.follows[i].0 == *follower && self.follows[i].1 == *author {
                assert(self@.follows[i as int] == (follower@, author@));
                return true;
            }
            i += 1;
        }
        false
    }

    /// Count the favorite edges that point at this slug.
    pub fn fav_count_of(&self, slug: &String) -> (r: usize)
        ensures
            r == self@.fav_count(slug@),
    {
        let n = self.favs.len();
        let mut i: usize = 0;
        let mut count: usize = 0;
        proof {
            assert(self@.favs.take(0) =~= seq![]);
            reveal(Seq::filter);
        }
        while i < n
            invariant
                i <= n,
                count <= i,
                n == self.favs.len(),
                count == self@.favs.take(i as int).filter(edge_at(slug@)).len(),
            decreases n - i,
        {
            proof {
                assert(self@.favs.take(i + 1) =~= self@.favs.take(i as int).push(
                    self@.favs[i as int],
                ));
                lemma_filter_push(self@.favs.take(i as int), self@.favs[i as int], edge_at(slug@));
            }
            if self.favs[i].1 == *slug {
                count += 1;
            }
            i += 1;
        }
        proof {
            assert(self@.favs.take(n as int) =~= self@.favs);
        }
        count
    }

    /// Record that `follower` follows `author` in the external following
    /// relation; already-present edges are not duplicated.
    pub fn follow(&mut self, follower: String, author: String)
        ensures
            final(self)@ == (StoreV {
                follows: if old(self)@.has_follow(follower@, author@) {
                    old(self)@.follows
                } else {
                    old(self)@.follows.push((follower@, author@))
                },
                ..old(self)@
            }),
            old(self)@.wf() ==> final(self)@.wf(),
            final(self)@.has_follow(follower@, author@),
    {
        let ghost prev = self@;
        let ghost fname = follower@;
        let ghost aname = author@;
        if self.has_follow_edge(&follower, &author) {
            proof {
                assert(self@ =~= (StoreV { follows: prev.follows, ..prev }));
            }
        } else {
            self.follows.push((follower, author));
            proof {
                assert(self@ =~= (StoreV { follows: prev.follows.push((fname, aname)), ..prev }));
                let m = prev.follows.len() as int;
                assert(self@.follows[m] == (fname, aname));
                if prev.wf() {
                    assert(!prev.has_follow(fname, aname));
                    assert forall|i: int, j: int| 0 <= i < j < self@.follows.len() implies #[trigger] self@.follows[i] != #[trigger] self@.follows[j] by {
                        if j < prev.follows.len() as int {
                            assert(prev.follows[i] != prev.follows[j]);
                        } else {
                            assert(self@.follows[j] == (fname, aname));
                            assert(!(prev.follows[i] == (fname, aname)));
                        }
                    }
                    assert(self@.articles == prev.articles);
                    assert(self@.favs == prev.favs);
                    assert(self@.clock == prev.clock);
                    assert(forall|i: int|
                        0 <= i < self@.favs.len() ==> prev.has_slug(
                            (#[trigger] self@.favs[i]).1,
                        ));
                    assert forall|i: int| 0 <= i < self@.favs.len() implies self@.has_slug(
                        (#[trigger] self@.favs[i]).1,
                    ) by {
                        let s = self@.favs[i].1;
                        let w = choose|k: int|
                            0 <= k < prev.articles.len() && (#[trigger] prev.articles[k]).slug
                                == s;
                        assert(self@.articles[w].slug == s);
                    }
                    assert(self@.wf());
                }
            }
        }
    }
}

} // verus!
