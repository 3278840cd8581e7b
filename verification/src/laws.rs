//! The stated guarantees of the core, proved over the same spec functions
//! the commands' contracts use.

use vstd::prelude::*;
use crate::errors::ErrV;
use crate::messages::{CreateV, FeedParamsV, ParamsV, UpdateV};
use crate::model::{
    edge_not_pair, lemma_filter_all, lemma_same_articles_has_slug,
    ArticleV, StoreV,
};
use crate::query::{
    candidates, feed_candidates, feed_pred, feed_result, filter_of, list_result, or_default, page,
    render_page,
};
use crate::respond::render;
use crate::store::{
    create_next, create_outcome, delete_next, delete_outcome, favorite_next, unfavorite_next,
    update_next, update_outcome,
};
use crate::validate::{create_valid, create_validation, update_valid};

verus! {

/// Favoriting is idempotent: a second favorite by the same viewer leaves
/// the store exactly where the first left it, so the favorite count after
/// two calls equals the count after one.
pub proof fn lemma_favorite_idempotent(sv: StoreV, user: Seq<char>, slug: Seq<char>)
    ensures
        favorite_next(favorite_next(sv, user, slug), user, slug) == favorite_next(sv, user, slug),
        favorite_next(favorite_next(sv, user, slug), user, slug).fav_count(slug) == favorite_next(
            sv,
            user,
            slug,
        ).fav_count(slug),
{
    let s1 = favorite_next(sv, user, slug);
    if sv.has_slug(slug) && !sv.has_fav(user, slug) {
        let m = sv.favs.len() as int;
        assert(s1.favs[m] == (user, slug));
        assert(s1.has_fav(user, slug));
        lemma_same_articles_has_slug(sv, s1, slug);
        assert(favorite_next(s1, user, slug) == s1);
    }
}

/// Unfavoriting a pair that holds no edge succeeds and changes nothing.
pub proof fn lemma_unfavorite_absent_noop(sv: StoreV, user: Seq<char>, slug: Seq<char>)
    requires
        !sv.has_fav(user, slug),
    ensures
        unfavorite_next(sv, user, slug) == sv,
{
    if sv.has_slug(slug) {
        let pred = edge_not_pair(user, slug);
        assert forall|i: int| 0 <= i < sv.favs.len() implies pred(#[trigger] sv.favs[i]) by {
            assert(!(sv.favs[i] == (user, slug)));
        }
        lemma_filter_all(sv.favs, pred);
        assert((StoreV { favs: sv.favs.filter(pred), ..sv }) =~= sv);
    }
}

/// An identity that does not own an article cannot update it: the command
/// reports `Forbidden` and every stored field stays as it was.
pub proof fn lemma_update_denied(sv: StoreV, user: Seq<char>, slug: Seq<char>, u: UpdateV)
    requires
        update_valid(u),
        sv.has_slug(slug),
        sv.article_at(slug).author != user,
    ensures
        update_next(sv, user, slug, u) == sv,
        update_outcome(sv, user, slug, u) == Some(ErrV::Forbidden),
{
}

/// An identity that does not own an article cannot delete it: the command
/// reports `Forbidden` and the store is unchanged.
pub proof fn lemma_delete_denied(sv: StoreV, user: Seq<char>, slug: Seq<char>)
    requires
        sv.has_slug(slug),
        sv.article_at(slug).author != user,
    ensures
        delete_next(sv, user, slug) == sv,
        delete_outcome(sv, user, slug) == Some(ErrV::Forbidden),
{
}

/// An update that supplies only a title leaves description, body and tag
/// list at their prior values, keeps the slug, the creation stamp and the
/// owner, and touches no other article.
pub proof fn lemma_partial_update(sv: StoreV, user: Seq<char>, slug: Seq<char>, u: UpdateV)
    requires
        sv.wf(),
        update_outcome(sv, user, slug, u) is None,
        u.title is Some,
        u.description is None,
        u.body is None,
        u.tag_list is None,
    ensures
        ({
            let i = sv.idx_of(slug);
            let nv = update_next(sv, user, slug, u);
            &&& nv.articles.len() == sv.articles.len()
            &&& nv.articles[i].title == u.title->0
            &&& nv.articles[i].description == sv.articles[i].description
            &&& nv.articles[i].body == sv.articles[i].body
            &&& nv.articles[i].tag_list == sv.articles[i].tag_list
            &&& nv.articles[i].slug == sv.articles[i].slug
            &&& nv.articles[i].created_at == sv.articles[i].created_at
            &&& nv.articles[i].author == sv.articles[i].author
            &&& forall|j: int|
                0 <= j < sv.articles.len() && j != i ==> nv.articles[j] == sv.articles[j]
        }),
{
}

/// Pagination is deterministic: over any fixed candidate row, the page at
/// `offset` of size `l1` followed by the page at `offset + l1` of size `l2`
/// is exactly the page at `offset` of size `l1 + l2`, rendered or not.
pub proof fn lemma_page_concat(
    sv: StoreV,
    viewer: Option<Seq<char>>,
    s: Seq<ArticleV>,
    offset: int,
    l1: int,
    l2: int,
)
    requires
        0 <= offset,
        0 <= l1,
        0 <= l2,
    ensures
        page(s, offset, l1) + page(s, offset + l1, l2) == page(s, offset, l1 + l2),
        render_page(sv, viewer, page(s, offset, l1)) + render_page(
            sv,
            viewer,
            page(s, offset + l1, l2),
        ) == render_page(sv, viewer, page(s, offset, l1 + l2)),
{
    assert(page(s, offset, l1) + page(s, offset + l1, l2) =~= page(s, offset, l1 + l2));
    assert(render_page(sv, viewer, page(s, offset, l1)) + render_page(
        sv,
        viewer,
        page(s, offset + l1, l2),
    ) =~= render_page(sv, viewer, page(s, offset, l1 + l2)));
}

/// The reported total is the count of matches before pagination, so it is
/// the same whatever page of the same filters is requested.
pub proof fn lemma_total_stable(
    sv: StoreV,
    viewer: Option<Seq<char>>,
    pa: ParamsV,
    pb: ParamsV,
)
    requires
        pa.tag == pb.tag,
        pa.author == pb.author,
        pa.favorited == pb.favorited,
    ensures
        list_result(sv, viewer, pa).articles_count == list_result(sv, viewer, pb).articles_count,
{
    assert(filter_of(pa) == filter_of(pb));
}

/// An anonymous viewer always sees `favorited == false` and
/// `following == false`, whatever the article's favorite count.
pub proof fn lemma_anonymous_not_favorited(sv: StoreV, a: ArticleV)
    ensures
        render(sv, None, a).favorited == false,
        render(sv, None, a).author.following == false,
        render(sv, None, a).favorites_count == sv.fav_count(a.slug) as int,
{
}

/// A create with an invalid payload short-circuits: it reports the
/// validation failure, stores nothing, and any later listing over the
/// untouched store sees exactly what it saw before.
pub proof fn lemma_create_invalid(
    sv: StoreV,
    user: Seq<char>,
    v: CreateV,
    viewer: Option<Seq<char>>,
    p: ParamsV,
)
    requires
        !create_valid(v),
    ensures
        create_next(sv, user, v) == sv,
        create_outcome(sv, v) == Some(create_validation(v)),
        list_result(create_next(sv, user, v), viewer, p) == list_result(sv, viewer, p),
{
}

/// Every feed candidate is authored by someone the viewer follows.
pub proof fn lemma_feed_scoped(sv: StoreV, user: Seq<char>)
    ensures
        forall|m: int|
            0 <= m < feed_candidates(sv, user).len() ==> sv.has_follow(
                user,
                (#[trigger] feed_candidates(sv, user)[m]).author,
            ),
{
    let cand = feed_candidates(sv, user);
    assert forall|m: int| 0 <= m < cand.len() implies sv.has_follow(
        user,
        (#[trigger] cand[m]).author,
    ) by {
        sv.articles.reverse().lemma_filter_pred(feed_pred(sv, user), m);
    }
}

/// Every row a feed page shows is authored by someone the viewer follows:
/// an author the viewer does not follow never appears, however new their
/// articles are.
pub proof fn lemma_feed_result_scoped(sv: StoreV, user: Seq<char>, p: FeedParamsV)
    requires
        0 <= or_default(p.offset, 0),
        0 <= or_default(p.limit, 10),
    ensures
        forall|m: int|
            0 <= m < feed_result(sv, user, p).articles.len() ==> sv.has_follow(
                user,
                (#[trigger] feed_result(sv, user, p).articles[m]).author.username,
            ),
{
    let cand = feed_candidates(sv, user);
    let res = feed_result(sv, user, p);
    lemma_feed_scoped(sv, user);
    assert forall|m: int| 0 <= m < res.articles.len() implies sv.has_follow(
        user,
        (#[trigger] res.articles[m]).author.username,
    ) by {
        let off = or_default(p.offset, 0);
        let pg = page(cand, off, crate::query::clamp_limit(or_default(p.limit, 10)));
        assert(res.articles[m] == render(sv, Some(user), pg[m]));
        assert(pg[m] == cand[off + m]);
        assert(sv.has_follow(user, cand[off + m].author));
    }
}

/// The general listing never reports a match that fails a present filter:
/// every candidate passes all of them.
pub proof fn lemma_list_filtered(sv: StoreV, p: ParamsV)
    ensures
        forall|m: int|
            0 <= m < candidates(sv, filter_of(p)).len() ==> crate::query::fmatch(
                sv,
                #[trigger] candidates(sv, filter_of(p))[m],
                filter_of(p),
            ),
{
    let f = filter_of(p);
    let cand = candidates(sv, f);
    assert forall|m: int| 0 <= m < cand.len() implies crate::query::fmatch(
        sv,
        #[trigger] cand[m],
        f,
    ) by {
        sv.articles.reverse().lemma_filter_pred(crate::query::match_pred(sv, f), m);
    }
}

} // verus!
