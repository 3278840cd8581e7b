//! The article query engine: filtering, ordering, pagination.
//!
//! A listing takes the stored articles most-recently-created first (the
//! store keeps creation stamps strictly increasing, and equal stamps cannot
//! arise, so this order is total and pagination is deterministic), keeps
//! those that match every present filter, and returns one page of rendered
//! views together with the total number of matches before pagination.  The
//! feed is the same machinery over a different source set: the articles
//! whose author the viewer follows.

use vstd::prelude::*;
use crate::messages::{
    viewer_name, viewer_of, ArticlesParams, Auth, FeedParams, FeedParamsV, GetArticles, GetFeed,
    ParamsV,
};
use crate::model::{lemma_filter_push, Article, ArticleV, Store, StoreV};
use crate::respond::{render, ArticleListResponse, ArticleResponseInner, ListV, RespV};
use crate::store::contains_string;

verus! {

/// Most articles one page may carry; larger requested limits clamp here so
/// no request forces an unbounded scan.
pub const MAX_LIMIT: usize = 100;

/// Default page size of the general listing when no limit is supplied.
pub const DEFAULT_LIST_LIMIT: usize = 20;

/// Default page size of the feed when no limit is supplied.
pub const DEFAULT_FEED_LIMIT: usize = 10;

/// The filters of a general listing; whichever are present must all hold,
/// by exact string match.
#[verifier::ext_equal]
pub ghost struct FilterV {
    pub tag: Option<Seq<char>>,
    pub author: Option<Seq<char>>,
    pub favorited: Option<Seq<char>>,
}

/// The view of an optional string parameter.
pub open spec fn opt_view(o: Option<String>) -> Option<Seq<char>> {
    match o {
        Some(s) => Some(s@),
        None => None,
    }
}

/// Whether an article matches every present filter: the tag filter wants
/// the tag among the article's tags, the author filter wants the exact
/// author, the favorited filter wants a favorite edge by that viewer.
pub open spec fn fmatch(sv: StoreV, a: ArticleV, f: FilterV) -> bool {
    &&& match f.tag {
        Some(t) => a.tag_list.contains(t),
        None => true,
    }
    &&& match f.author {
        Some(u) => a.author == u,
        None => true,
    }
    &&& match f.favorited {
        Some(u) => sv.has_fav(u, a.slug),
        None => true,
    }
}

/// `fmatch` as a predicate over articles.
pub open spec fn match_pred(sv: StoreV, f: FilterV) -> spec_fn(ArticleV) -> bool {
    |a: ArticleV| fmatch(sv, a, f)
}

/// The matching articles, most recently created first.
pub open spec fn candidates(sv: StoreV, f: FilterV) -> Seq<ArticleV> {
    sv.articles.reverse().filter(match_pred(sv, f))
}

/// The feed's source predicate: the viewer follows the author.
pub open spec fn feed_pred(sv: StoreV, user: Seq<char>) -> spec_fn(ArticleV) -> bool {
    |a: ArticleV| sv.has_follow(user, a.author)
}

/// The feed's candidates, most recently created first.
pub open spec fn feed_candidates(sv: StoreV, user: Seq<char>) -> Seq<ArticleV> {
    sv.articles.reverse().filter(feed_pred(sv, user))
}

/// A supplied value, or the default where none was supplied.
pub open spec fn or_default(o: Option<int>, d: int) -> int {
    match o {
        Some(x) => x,
        None => d,
    }
}

/// Limits above [`MAX_LIMIT`] clamp to it.
pub open spec fn clamp_limit(l: int) -> int {
    if l > MAX_LIMIT {
        MAX_LIMIT as int
    } else {
        l
    }
}

/// One page: skip `offset` matches, return at most `limit` of the rest.
pub open spec fn page(s: Seq<ArticleV>, offset: int, limit: int) -> Seq<ArticleV>
    recommends
        0 <= offset,
        0 <= limit,
{
    if offset >= s.len() {
        seq![]
    } else if offset + limit >= s.len() {
        s.subrange(offset, s.len() as int)
    } else {
        s.subrange(offset, offset + limit)
    }
}

/// Each page entry rendered for the viewer.
pub open spec fn render_page(sv: StoreV, viewer: Option<Seq<char>>, s: Seq<ArticleV>) -> Seq<
    RespV,
> {
    s.map_values(|a: ArticleV| render(sv, viewer, a))
}

/// The filters a listing request carries.
pub open spec fn filter_of(p: ParamsV) -> FilterV {
    FilterV { tag: p.tag, author: p.author, favorited: p.favorited }
}

/// Everything a general listing returns: one page of rendered matches and
/// the total match count before pagination.
pub open spec fn list_result(sv: StoreV, viewer: Option<Seq<char>>, p: ParamsV) -> ListV {
    let cand = candidates(sv, filter_of(p));
    let lim = clamp_limit(or_default(p.limit, DEFAULT_LIST_LIMIT as int));
    let off = or_default(p.offset, 0);
    ListV {
        articles: render_page(sv, viewer, page(cand, off, lim)),
        articles_count: cand.len() as int,
    }
}

/// Everything a feed returns for its viewer.
pub open spec fn feed_result(sv: StoreV, user: Seq<char>, p: FeedParamsV) -> ListV {
    let cand = feed_candidates(sv, user);
    let lim = clamp_limit(or_default(p.limit, DEFAULT_FEED_LIMIT as int));
    let off = or_default(p.offset, 0);
    ListV {
        articles: render_page(sv, Some(user), page(cand, off, lim)),
        articles_count: cand.len() as int,
    }
}

impl Store {
    /// Whether one article passes every present filter.
    fn matches_filter(
        &self,
        a: &Article,
        tag: &Option<String>,
        author: &Option<String>,
        favorited: &Option<String>,
    ) -> (r: bool)
        ensures
            r == fmatch(
                self@,
                a@,
                FilterV { tag: opt_view(*tag), author: opt_view(*author), favorited: opt_view(*favorited) },
            ),
    {
        let tag_ok = match tag {
            Some(t) => contains_string(&a.tag_list, t),
            None => true,
        };
        let author_ok = match author {
            Some(u) => a.author == *u,
            None => true,
        };
        let fav_ok = match favorited {
            Some(u) => self.has_fav_edge(u, &a.slug),
            None => true,
        };
        tag_ok && author_ok && fav_ok
    }

    /// Render the page `[offset, offset + limit)` of a candidate row.
    fn render_slice(
        &self,
        viewer: Option<&Auth>,
        cand: &Vec<&Article>,
        offset: usize,
        limit: usize,
    ) -> (out: Vec<ArticleResponseInner>)
        ensures
            out@.map_values(|x: ArticleResponseInner| x@) == render_page(
                self@,
                viewer_of(viewer),
                page(cand@.map_values(|x: &Article| x@), offset as int, limit as int),
            ),
    {
        let total = cand.len();
        let start = if offset > total {
            total
        } else {
            offset
        };
        let end = if total - start > limit {
            start + limit
        } else {
            total
        };
        let mut out: Vec<ArticleResponseInner> = Vec::new();
        let mut j = start;
        while j < end
            invariant
                start <= j <= end <= total,
                total == cand.len(),
                out@.len() == j - start,
                forall|m: int|
                    0 <= m < j - start ==> (#[trigger] out@[m])@ == render(
                        self@,
                        viewer_of(viewer),
                        cand@[start + m]@,
                    ),
            decreases end - j,
        {
            let row = self.assemble(viewer, cand[j]);
            out.push(row);
            j += 1;
        }
        proof {
            let cs = cand@.map_values(|x: &Article| x@);
            let pg = page(cs, offset as int, limit as int);
            assert(pg.len() == end - start);
            assert forall|m: int| 0 <= m < pg.len() implies pg[m] == cand@[start + m]@ by {
                assert(pg[m] == cs[offset + m]);
            }
            assert(out@.map_values(|x: ArticleResponseInner| x@) =~= render_page(
                self@,
                viewer_of(viewer),
                pg,
            ));
        }
        out
    }

    /// List articles: apply the present filters, order newest first, return
    /// the requested page and the total match count.  Anonymous viewers get
    /// `favorited == false` throughout.
    pub fn list(&self, cmd: GetArticles) -> (r: ArticleListResponse)
        ensures
            r@ == list_result(self@, viewer_name(cmd.auth), cmd.params@),
    {
        let GetArticles { auth, params } = cmd;
        let ghost pv = params@;
        let ArticlesParams { tag, author, favorited, limit, offset } = params;
        let lim0 = match limit {
            Some(l) => l,
            None => DEFAULT_LIST_LIMIT,
        };
        let lim = if lim0 > MAX_LIMIT {
            MAX_LIMIT
        } else {
            lim0
        };
        let off = match offset {
            Some(o) => o,
            None => 0,
        };
        let n = self.articles.len();
        let mut cand: Vec<&Article> = Vec::new();
        let mut k = n;
        proof {
            assert(self@.articles.subrange(n as int, n as int).reverse().filter(
                match_pred(
                    self@,
                    FilterV {
                        tag: opt_view(tag),
                        author: opt_view(author),
                        favorited: opt_view(favorited),
                    },
                ),
            ) =~= Seq::<ArticleV>::empty());
            assert(cand@.map_values(|x: &Article| x@) =~= Seq::<ArticleV>::empty());
        }
        while k > 0
            invariant
                k <= n,
                n == self.articles.len(),
                cand@.map_values(|x: &Article| x@) == self@.articles.subrange(
                    k as int,
                    n as int,
                ).reverse().filter(
                    match_pred(
                        self@,
                        FilterV {
                            tag: opt_view(tag),
                            author: opt_view(author),
                            favorited: opt_view(favorited),
                        },
                    ),
                ),
            decreases k,
        {
            k -= 1;
            let ghost f = FilterV {
                tag: opt_view(tag),
                author: opt_view(author),
                favorited: opt_view(favorited),
            };
            let ghost pre = cand@.map_values(|x: &Article| x@);
            proof {
                assert(self@.articles.subrange(k as int, n as int).reverse()
                    =~= self@.articles.subrange(k + 1, n as int).reverse().push(
                    self@.articles[k as int],
                ));
                lemma_filter_push(
                    self@.articles.subrange(k + 1, n as int).reverse(),
                    self@.articles[k as int],
                    match_pred(self@, f),
                );
            }
            if self.matches_filter(&self.articles[k], &tag, &author, &favorited) {
                cand.push(&self.articles[k]);
                proof {
                    assert(cand@.map_values(|x: &Article| x@) =~= pre.push(
                        self@.articles[k as int],
                    ));
                }
            }
        }
        proof {
            assert(self@.articles.subrange(0, n as int) =~= self@.articles);
        }
        let total = cand.len();
        let viewer = match &auth {
            Some(u) => Some(u),
            None => None,
        };
        let rows = self.render_slice(viewer, &cand, off, lim);
        let r = ArticleListResponse { articles: rows, articles_count: total };
        proof {
            assert(r@ =~= list_result(self@, viewer_name(auth), pv));
        }
        r
    }

    /// The viewer's feed: articles whose author the viewer follows, newest
    /// first, paginated like the general listing; following nobody yields
    /// an empty page, not an error.
    pub fn feed(&self, cmd: GetFeed) -> (r: ArticleListResponse)
        ensures
            r@ == feed_result(self@, cmd.auth.username@, cmd.params@),
    {
        let GetFeed { auth, params } = cmd;
        let ghost pv = params@;
        let FeedParams { limit, offset } = params;
        let lim0 = match limit {
            Some(l) => l,
            None => DEFAULT_FEED_LIMIT,
        };
        let lim = if lim0 > MAX_LIMIT {
            MAX_LIMIT
        } else {
            lim0
        };
        let off = match offset {
            Some(o) => o,
            None => 0,
        };
        let n = self.articles.len();
        let mut cand: Vec<&Article> = Vec::new();
        let mut k = n;
        proof {
            assert(self@.articles.subrange(n as int, n as int).reverse().filter(
                feed_pred(self@, auth.username@),
            ) =~= Seq::<ArticleV>::empty());
            assert(cand@.map_values(|x: &Article| x@) =~= Seq::<ArticleV>::empty());
        }
        while k > 0
            invariant
                k <= n,
                n == self.articles.len(),
                cand@.map_values(|x: &Article| x@) == self@.articles.subrange(
                    k as int,
                    n as int,
                ).reverse().filter(feed_pred(self@, auth.username@)),
            decreases k,
        {
            k -= 1;
            let ghost pre = cand@.map_values(|x: &Article| x@);
            proof {
                assert(self@.articles.subrange(k as int, n as int).reverse()
                    =~= self@.articles.subrange(k + 1, n as int).reverse().push(
                    self@.articles[k as int],
                ));
                lemma_filter_push(
                    self@.articles.subrange(k + 1, n as int).reverse(),
                    self@.articles[k as int],
                    feed_pred(self@, auth.username@),
                );
            }
            if self.has_follow_edge(&auth.username, &self.articles[k].author) {
                cand.push(&self.articles[k]);
                proof {
                    assert(cand@.map_values(|x: &Article| x@) =~= pre.push(
                        self@.articles[k as int],
                    ));
                }
            }
        }
        proof {
            assert(self@.articles.subrange(0, n as int) =~= self@.articles);
        }
        let total = cand.len();
        let rows = self.render_slice(Some(&auth), &cand, off, lim);
        let r = ArticleListResponse { articles: rows, articles_count: total };
        proof {
            assert(r@ =~= feed_result(self@, auth.username@, pv));
        }
        r
    }
}

} // verus!
