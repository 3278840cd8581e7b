//! The per-article mutation path: create, get, update, delete, favorite,
//! unfavorite.
//!
//! Each command is a total function of the old store view: a `*_outcome`
//! spec function says which error, if any, the command reports, and a
//! `*_next` spec function says the store it leaves behind.  The executable
//! methods are proved to follow both exactly, to preserve well-formedness,
//! and to return the rendered view of the affected article on success.
//! Validation and ownership are checked before any mutation, so a rejected
//! command leaves the store untouched.

use vstd::prelude::*;
use vstd::pervasive::VecAdditionalExecFns;
use vstd::string::{StrSliceExecFns, StringExecFns};
use crate::errors::{DomainError, ErrV};
use crate::messages::{
    Auth, CreateArticleOuter, CreateV, DeleteArticle, FavoriteArticle, GetArticle,
    UnfavoriteArticle, UpdateArticle, UpdateArticleOuter, UpdateV,
};
use crate::model::{
    edge_not_at, edge_not_pair, lemma_filter_push, lemma_same_articles_has_slug, Article,
    ArticleV, Store, StoreV,
};
use crate::respond::{render, ArticleResponse};
use crate::validate::{
    create_valid, create_validation, update_valid, update_validation, validate_create,
    validate_update,
};

verus! {

/// How one title character appears in a slug: ASCII letters are kept in
/// lower case, ASCII digits are kept, everything else becomes a hyphen.
pub open spec fn slug_char(c: char) -> char {
    if 'A' <= c && c <= 'Z' {
        (((c as u8) + 32) as char)
    } else if ('a' <= c && c <= 'z') || ('0' <= c && c <= '9') {
        c
    } else {
        '-'
    }
}

/// The slug derived from a title at creation; stable thereafter.
pub open spec fn slug_of(title: Seq<char>) -> Seq<char> {
    title.map_values(|c: char| slug_char(c))
}

/// Tag lists are stored as ordered sets: first occurrences kept in order,
/// later duplicates dropped.
pub open spec fn dedup_tags(s: Seq<Seq<char>>) -> Seq<Seq<char>>
    decreases s.len(),
{
    if s.len() == 0 {
        seq![]
    } else {
        let rest = dedup_tags(s.drop_last());
        if rest.contains(s.last()) {
            rest
        } else {
            rest.push(s.last())
        }
    }
}

/// The record a successful create appends, stamped with the current clock.
pub open spec fn created_article(sv: StoreV, user: Seq<char>, v: CreateV) -> ArticleV {
    ArticleV {
        slug: slug_of(v.title),
        title: v.title,
        description: v.description,
        body: v.body,
        tag_list: dedup_tags(v.tag_list),
        created_at: sv.clock,
        updated_at: sv.clock,
        author: user,
    }
}

/// Which error a create command reports, if any: validation first, then
/// slug uniqueness, then clock exhaustion.
pub open spec fn create_outcome(sv: StoreV, v: CreateV) -> Option<ErrV> {
    if !create_valid(v) {
        Some(create_validation(v))
    } else if sv.has_slug(slug_of(v.title)) {
        Some(ErrV::Conflict)
    } else if sv.clock >= u64::MAX {
        Some(ErrV::Transient)
    } else {
        None
    }
}

/// The store a create command leaves behind.
pub open spec fn create_next(sv: StoreV, user: Seq<char>, v: CreateV) -> StoreV {
    if create_outcome(sv, v) is None {
        StoreV {
            articles: sv.articles.push(created_article(sv, user, v)),
            clock: sv.clock + 1,
            ..sv
        }
    } else {
        sv
    }
}

/// Every element a filter keeps was an element of the sequence.
pub proof fn lemma_filter_sub<A>(s: Seq<A>, pred: spec_fn(A) -> bool)
    ensures
        forall|k: int|
            0 <= k < s.filter(pred).len() ==> s.contains(#[trigger] s.filter(pred)[k]),
    decreases s.len(),
{
    reveal(Seq::filter);
    if s.len() > 0 {
        let x = s.drop_last();
        lemma_filter_sub(x, pred);
        lemma_filter_push(x, s.last(), pred);
        assert(x.push(s.last()) =~= s);
        assert forall|k: int| 0 <= k < s.filter(pred).len() implies s.contains(
            #[trigger] s.filter(pred)[k],
        ) by {
            if k < x.filter(pred).len() {
                let e = x.filter(pred)[k];
                assert(x.contains(e));
                let w = choose|w: int| 0 <= w < x.len() && x[w] == e;
                assert(s[w] == e);
            } else {
                assert(s.filter(pred)[k] == s.last());
                assert(s[s.len() - 1] == s.last());
            }
        }
    }
}

/// A filter of a duplicate-free sequence is duplicate-free.
pub proof fn lemma_filter_unique<A>(s: Seq<A>, pred: spec_fn(A) -> bool)
    requires
        forall|i: int, j: int| 0 <= i < j < s.len() ==> s[i] != s[j],
    ensures
        forall|i: int, j: int|
            0 <= i < j < s.filter(pred).len() ==> s.filter(pred)[i] != s.filter(pred)[j],
    decreases s.len(),
{
    reveal(Seq::filter);
    if s.len() > 0 {
        let x = s.drop_last();
        assert(forall|i: int, j: int| 0 <= i < j < x.len() ==> x[i] != x[j]);
        lemma_filter_unique(x, pred);
        lemma_filter_push(x, s.last(), pred);
        assert(x.push(s.last()) =~= s);
        if pred(s.last()) {
            lemma_filter_sub(x, pred);
            assert forall|i: int, j: int|
                0 <= i < j < s.filter(pred).len() implies s.filter(pred)[i] != s.filter(
                pred,
            )[j] by {
                if j == s.filter(pred).len() - 1 {
                    let e = x.filter(pred)[i];
                    assert(x.contains(e));
                    let w = choose|w: int| 0 <= w < x.len() && x[w] == e;
                    assert(s[w] == e);
                    assert(s[s.len() - 1] == s.last());
                }
            }
        }
    }
}

/// Under well-formedness the index found for a slug is the chosen one.
pub proof fn lemma_idx_unique(sv: StoreV, i: int, slug: Seq<char>)
    requires
        sv.wf(),
        0 <= i < sv.articles.len(),
        sv.articles[i].slug == slug,
    ensures
        sv.has_slug(slug),
        sv.idx_of(slug) == i,
{
    assert(sv.has_slug(slug));
    let j = sv.idx_of(slug);
    assert(0 <= j < sv.articles.len() && sv.articles[j].slug == slug);
    if i < j {
        assert(sv.articles[i].slug != sv.articles[j].slug);
    } else if j < i {
        assert(sv.articles[j].slug != sv.articles[i].slug);
    }
}

/// Appending a fresh article stamped with the clock preserves
/// well-formedness.
pub proof fn lemma_wf_push(sv: StoreV, a: ArticleV)
    requires
        sv.wf(),
        !sv.has_slug(a.slug),
        a.created_at == sv.clock,
        a.updated_at == sv.clock,
        sv.clock + 1 <= u64::MAX,
    ensures
        (StoreV { articles: sv.articles.push(a), clock: sv.clock + 1, ..sv }).wf(),
{
    let nv = StoreV { articles: sv.articles.push(a), clock: sv.clock + 1, ..sv };
    let n = sv.articles.len() as int;
    assert(forall|i: int| 0 <= i < n ==> nv.articles[i] == sv.articles[i]);
    assert(nv.articles[n] == a);
    assert forall|i: int, j: int| 0 <= i < j < nv.articles.len() implies (
    #[trigger] nv.articles[i]).slug != (#[trigger] nv.articles[j]).slug by {
        if j < n {
            assert(sv.articles[i].slug != sv.articles[j].slug);
        } else {
            assert(sv.articles[i].slug != a.slug);
        }
    }
    assert forall|i: int, j: int| 0 <= i < j < nv.articles.len() implies (
    #[trigger] nv.articles[i]).created_at < (#[trigger] nv.articles[j]).created_at by {
        if j < n {
            assert(sv.articles[i].created_at < sv.articles[j].created_at);
        } else {
            assert(sv.articles[i].created_at < sv.clock);
        }
    }
    assert forall|i: int| 0 <= i < nv.favs.len() implies nv.has_slug(
        (#[trigger] nv.favs[i]).1,
    ) by {
        assert(sv.has_slug(sv.favs[i].1));
        lemma_same_articles_has_slug_grow(sv, nv, sv.favs[i].1);
    }
}

/// A slug that exists keeps existing when an article is appended.
pub proof fn lemma_same_articles_has_slug_grow(a: StoreV, b: StoreV, slug: Seq<char>)
    requires
        a.has_slug(slug),
        a.articles.len() <= b.articles.len(),
        forall|i: int| 0 <= i < a.articles.len() ==> a.articles[i] == b.articles[i],
    ensures
        b.has_slug(slug),
{
    let w = choose|k: int| 0 <= k < a.articles.len() && (#[trigger] a.articles[k]).slug == slug;
    assert(b.articles[w].slug == slug);
}

/// One slug character, as executable text.
fn slug_char_str(c: char) -> (r: &'static str)
    ensures
        r@ == seq![slug_char(c)],
{
    proof {
        reveal_strlit("a");
        reveal_strlit("b");
        reveal_strlit("c");
        reveal_strlit("d");
        reveal_strlit("e");
        reveal_strlit("f");
        reveal_strlit("g");
        reveal_strlit("h");
        reveal_strlit("i");
        reveal_strlit("j");
        reveal_strlit("k");
        reveal_strlit("l");
        reveal_strlit("m");
        reveal_strlit("n");
        reveal_strlit("o");
        reveal_strlit("p");
        reveal_strlit("q");
        reveal_strlit("r");
        reveal_strlit("s");
        reveal_strlit("t");
        reveal_strlit("u");
        reveal_strlit("v");
        reveal_strlit("w");
        reveal_strlit("x");
        reveal_strlit("y");
        reveal_strlit("z");
        reveal_strlit("0");
        reveal_strlit("1");
        reveal_strlit("2");
        reveal_strlit("3");
        reveal_strlit("4");
        reveal_strlit("5");
        reveal_strlit("6");
        reveal_strlit("7");
        reveal_strlit("8");
        reveal_strlit("9");
        reveal_strlit("-");
    }
    match c {
        'A' | 'a' => "a",
        'B' | 'b' => "b",
        'C' | 'c' => "c",
        'D' | 'd' => "d",
        'E' | 'e' => "e",
        'F' | 'f' => "f",
        'G' | 'g' => "g",
        'H' | 'h' => "h",
        'I' | 'i' => "i",
        'J' | 'j' => "j",
        'K' | 'k' => "k",
        'L' | 'l' => "l",
        'M' | 'm' => "m",
        'N' | 'n' => "n",
        'O' | 'o' => "o",
        'P' | 'p' => "p",
        'Q' | 'q' => "q",
        'R' | 'r' => "r",
        'S' | 's' => "s",
        'T' | 't' => "t",
        'U' | 'u' => "u",
        'V' | 'v' => "v",
        'W' | 'w' => "w",
        'X' | 'x' => "x",
        'Y' | 'y' => "y",
        'Z' | 'z' => "z",
        '0' => "0",
        '1' => "1",
        '2' => "2",
        '3' => "3",
        '4' => "4",
        '5' => "5",
        '6' => "6",
        '7' => "7",
        '8' => "8",
        '9' => "9",
        _ => "-",
    }
}

/// Derive the slug of a title.
pub fn slugify(title: &str) -> (r: String)
    ensures
        r@ == slug_of(title@),
{
    let n = title.unicode_len();
    let mut out = String::new();
    let mut i: usize = 0;
    proof {
        assert(title@.take(0) =~= Seq::<char>::empty());
        assert(slug_of(title@.take(0)) =~= Seq::<char>::empty());
    }
    while i < n
        invariant
            i <= n,
            n == title@.len(),
            out@ == slug_of(title@.take(i as int)),
        decreases n - i,
    {
        let c = title.get_char(i);
        let s = slug_char_str(c);
        out.append(s);
        proof {
            assert(out@ == slug_of(title@.take(i as int)).push(slug_char(c)));
            assert(slug_of(title@.take(i + 1)) =~= slug_of(title@.take(i as int)).push(
                slug_char(title@[i as int]),
            ));
        }
        i += 1;
    }
    proof {
        assert(title@.take(n as int) =~= title@);
    }
    out
}

/// Whether a tag vector already holds this text.
pub fn contains_string(v: &Vec<String>, s: &String) -> (r: bool)
    ensures
        r == v@.map_values(|t: String| t@).contains(s@),
{
    let n = v.len();
    let mut i: usize = 0;
    while i < n
        invariant
            i <= n,
            n == v.len(),
            forall|j: int| 0 <= j < i ==> (#[trigger] v@[j])@ != s@,
        decreases n - i,
    {
        if v[i] == *s {
            proof {
                assert(v@.map_values(|t: String| t@)[i as int] == s@);
            }
            return true;
        }
        i += 1;
    }
    proof {
        let mapped = v@.map_values(|t: String| t@);
        assert forall|k: int| 0 <= k < mapped.len() implies mapped[k] != s@ by {
            assert(mapped[k] == v@[k]@);
        }
    }
    false
}

/// Copy a tag vector, keeping first occurrences and dropping duplicates.
pub fn dedup_tag_vec(tags: &Vec<String>) -> (r: Vec<String>)
    ensures
        r@.map_values(|t: String| t@) == dedup_tags(tags@.map_values(|t: String| t@)),
{
    let ghost mapped = tags@.map_values(|t: String| t@);
    let n = tags.len();
    let mut out: Vec<String> = Vec::new();
    let mut i: usize = 0;
    proof {
        assert(out@.map_values(|t: String| t@) =~= dedup_tags(mapped.take(0)));
    }
    while i < n
        invariant
            i <= n,
            n == tags.len(),
            mapped == tags@.map_values(|t: String| t@),
            out@.map_values(|t: String| t@) == dedup_tags(mapped.take(i as int)),
        decreases n - i,
    {
        let ghost pre = out@.map_values(|t: String| t@);
        let present = contains_string(&out, &tags[i]);
        proof {
            assert(mapped.take(i + 1).drop_last() =~= mapped.take(i as int));
            assert(mapped.take(i + 1).last() == mapped[i as int]);
            assert(mapped[i as int] == tags@[i as int]@);
        }
        if !present {
            out.push(tags[i].clone());
            proof {
                assert(out@.map_values(|t: String| t@) =~= pre.push(tags@[i as int]@));
            }
        }
        i += 1;
    }
    proof {
        assert(mapped.take(n as int) =~= mapped);
    }
    out
}

/// Copy a tag vector as it stands.
pub fn clone_tags(v: &Vec<String>) -> (r: Vec<String>)
    ensures
        r@.map_values(|t: String| t@) == v@.map_values(|t: String| t@),
{
    let n = v.len();
    let mut out: Vec<String> = Vec::new();
    let mut i: usize = 0;
    while i < n
        invariant
            i <= n,
            n == v.len(),
            out@.len() == i,
            forall|j: int| 0 <= j < i ==> (#[trigger] out@[j])@ == v@[j]@,
        decreases n - i,
    {
        out.push(v[i].clone());
        i += 1;
    }
    proof {
        assert(out@.map_values(|t: String| t@) =~= v@.map_values(|t: String| t@));
    }
    out
}

impl Store {
    /// Create an article: validate the payload, derive the slug, refuse a
    /// taken slug with `Conflict`, stamp both timestamps with the clock, and
    /// return the rendered view for the requesting owner.
    pub fn create(&mut self, cmd: CreateArticleOuter) -> (r: Result<ArticleResponse, DomainError>)
        requires
            old(self)@.wf(),
        ensures
            final(self)@.wf(),
            final(self)@ == create_next(old(self)@, cmd.auth.username@, cmd.article@),
            match create_outcome(old(self)@, cmd.article@) {
                None => r matches Ok(resp) && resp@ == render(
                    final(self)@,
                    Some(cmd.auth.username@),
                    created_article(old(self)@, cmd.auth.username@, cmd.article@),
                ),
                Some(e) => r matches Err(err) && err@ == e,
            },
    {
        let CreateArticleOuter { auth, article: payload } = cmd;
        match validate_create(&payload) {
            Err(e) => {
                return Err(e);
            },
            Ok(_) => {},
        }
        let slug = slugify(payload.title.as_str());
        match self.find_idx(&slug) {
            Some(_) => {
                return Err(DomainError::Conflict);
            },
            None => {},
        }
        if self.clock == u64::MAX {
            return Err(DomainError::Transient);
        }
        let ghost prev = self@;
        let stamp = self.clock;
        self.clock = self.clock + 1;
        let tags = dedup_tag_vec(&payload.tag_list);
        let record = Article {
            slug,
            title: payload.title,
            description: payload.description,
            body: payload.body,
            tag_list: tags,
            created_at: stamp,
            updated_at: stamp,
            author: auth.username.clone(),
        };
        proof {
            assert(record@ =~= created_article(prev, auth.username@, payload@));
        }
        self.articles.push(record);
        proof {
            assert(self@ =~= (StoreV {
                articles: prev.articles.push(created_article(prev, auth.username@, payload@)),
                clock: prev.clock + 1,
                ..prev
            }));
            lemma_wf_push(prev, created_article(prev, auth.username@, payload@));
        }
        let idx = self.articles.len() - 1;
        let inner = self.assemble(Some(&auth), &self.articles[idx]);
        Ok(ArticleResponse { article: inner })
    }

    /// Read one article; `NotFound` exactly when the slug does not exist.
    pub fn get(&self, cmd: GetArticle) -> (r: Result<ArticleResponse, DomainError>)
        requires
            self@.wf(),
        ensures
            match r {
                Ok(resp) => self@.has_slug(cmd.slug@) && resp@ == render(
                    self@,
                    crate::messages::viewer_name(cmd.auth),
                    self@.article_at(cmd.slug@),
                ),
                Err(e) => !self@.has_slug(cmd.slug@) && e@ == ErrV::NotFound,
            },
    {
        let GetArticle { auth, slug } = cmd;
        match self.find_idx(&slug) {
            Some(i) => {
                proof {
                    lemma_idx_unique(self@, i as int, slug@);
                }
                let inner = match &auth {
                    Some(u) => self.assemble(Some(u), &self.articles[i]),
                    None => self.assemble(None, &self.articles[i]),
                };
                Ok(ArticleResponse { article: inner })
            },
            None => Err(DomainError::NotFound),
        }
    }
}

/// The record an accepted update leaves at the target index: supplied
/// fields overwrite, omitted fields keep their prior values, the update
/// stamp moves to `stamp`; slug, creation stamp and owner never change.
pub open spec fn patched_article(a: ArticleV, u: UpdateV, stamp: int) -> ArticleV {
    ArticleV {
        title: match u.title {
            Some(t) => t,
            None => a.title,
        },
        description: match u.description {
            Some(t) => t,
            None => a.description,
        },
        body: match u.body {
            Some(t) => t,
            None => a.body,
        },
        tag_list: match u.tag_list {
            Some(t) => dedup_tags(t),
            None => a.tag_list,
        },
        updated_at: stamp,
        ..a
    }
}

/// Which error an update command reports, if any: validation first, then
/// existence, then ownership, then clock exhaustion.
pub open spec fn update_outcome(sv: StoreV, user: Seq<char>, slug: Seq<char>, u: UpdateV) -> Option<
    ErrV,
> {
    if !update_valid(u) {
        Some(update_validation(u))
    } else if !sv.has_slug(slug) {
        Some(ErrV::NotFound)
    } else if sv.article_at(slug).author != user {
        Some(ErrV::Forbidden)
    } else if sv.clock >= u64::MAX {
        Some(ErrV::Transient)
    } else {
        None
    }
}

/// The store an update command leaves behind; a rejected update changes
/// nothing.
pub open spec fn update_next(sv: StoreV, user: Seq<char>, slug: Seq<char>, u: UpdateV) -> StoreV {
    if update_outcome(sv, user, slug, u) is None {
        StoreV {
            articles: sv.articles.update(
                sv.idx_of(slug),
                patched_article(sv.article_at(slug), u, sv.clock),
            ),
            clock: sv.clock + 1,
            ..sv
        }
    } else {
        sv
    }
}

/// Which error a delete command reports, if any.
pub open spec fn delete_outcome(sv: StoreV, user: Seq<char>, slug: Seq<char>) -> Option<ErrV> {
    if !sv.has_slug(slug) {
        Some(ErrV::NotFound)
    } else if sv.article_at(slug).author != user {
        Some(ErrV::Forbidden)
    } else {
        None
    }
}

/// The store a delete command leaves behind: the article goes and its
/// favorite edges go with it.
pub open spec fn delete_next(sv: StoreV, user: Seq<char>, slug: Seq<char>) -> StoreV {
    if delete_outcome(sv, user, slug) is None {
        StoreV {
            articles: sv.articles.remove(sv.idx_of(slug)),
            favs: sv.favs.filter(edge_not_at(slug)),
            ..sv
        }
    } else {
        sv
    }
}

/// Which error a favorite or unfavorite command reports, if any.
pub open spec fn favorite_outcome(sv: StoreV, slug: Seq<char>) -> Option<ErrV> {
    if !sv.has_slug(slug) {
        Some(ErrV::NotFound)
    } else {
        None
    }
}

/// The store a favorite command leaves behind: at most one edge per pair,
/// so favoriting twice adds nothing.
pub open spec fn favorite_next(sv: StoreV, user: Seq<char>, slug: Seq<char>) -> StoreV {
    if !sv.has_slug(slug) {
        sv
    } else if sv.has_fav(user, slug) {
        sv
    } else {
        StoreV { favs: sv.favs.push((user, slug)), ..sv }
    }
}

/// The store an unfavorite command leaves behind: the pair's edge goes if
/// it was there; removing an absent edge changes nothing.
pub open spec fn unfavorite_next(sv: StoreV, user: Seq<char>, slug: Seq<char>) -> StoreV {
    if !sv.has_slug(slug) {
        sv
    } else {
        StoreV { favs: sv.favs.filter(edge_not_pair(user, slug)), ..sv }
    }
}

/// Replacing an article in place, with the same slug and creation stamp and
/// the update stamp at the clock, preserves well-formedness.
pub proof fn lemma_wf_update(sv: StoreV, i: int, a: ArticleV)
    requires
        sv.wf(),
        0 <= i < sv.articles.len(),
        a.slug == sv.articles[i].slug,
        a.created_at == sv.articles[i].created_at,
        a.updated_at == sv.clock,
        sv.clock + 1 <= u64::MAX,
    ensures
        (StoreV { articles: sv.articles.update(i, a), clock: sv.clock + 1, ..sv }).wf(),
{
    let nv = StoreV { articles: sv.articles.update(i, a), clock: sv.clock + 1, ..sv };
    assert(forall|j: int|
        0 <= j < nv.articles.len() ==> (#[trigger] nv.articles[j]).slug == sv.articles[j].slug
            && nv.articles[j].created_at == sv.articles[j].created_at);
    assert(sv.articles[i].created_at <= sv.articles[i].updated_at < sv.clock);
    assert forall|j: int| 0 <= j < nv.favs.len() implies nv.has_slug(
        (#[trigger] nv.favs[j]).1,
    ) by {
        assert(sv.has_slug(sv.favs[j].1));
        let w = choose|k: int|
            0 <= k < sv.articles.len() && (#[trigger] sv.articles[k]).slug == sv.favs[j].1;
        assert(nv.articles[w].slug == sv.favs[j].1);
    }
}

/// Removing an article and filtering its favorite edges out preserves
/// well-formedness.
pub proof fn lemma_wf_delete(sv: StoreV, i: int)
    requires
        sv.wf(),
        0 <= i < sv.articles.len(),
    ensures
        (StoreV {
            articles: sv.articles.remove(i),
            favs: sv.favs.filter(edge_not_at(sv.articles[i].slug)),
            ..sv
        }).wf(),
{
    let slug = sv.articles[i].slug;
    let pred = edge_not_at(slug);
    let na = sv.articles.remove(i);
    let nf = sv.favs.filter(pred);
    let nv = StoreV { articles: na, favs: nf, ..sv };
    sv.articles.remove_ensures(i);
    assert(forall|j: int| 0 <= j < i ==> #[trigger] na[j] == sv.articles[j]);
    assert(forall|j: int| i <= j < na.len() ==> #[trigger] na[j] == sv.articles[j + 1]);
    assert forall|p: int, q: int| 0 <= p < q < na.len() implies (#[trigger] na[p]).slug != (
    #[trigger] na[q]).slug && na[p].created_at < na[q].created_at by {
        let op = if p < i { p } else { p + 1 };
        let oq = if q < i { q } else { q + 1 };
        assert(na[p] == sv.articles[op]);
        assert(na[q] == sv.articles[oq]);
        assert(sv.articles[op].slug != sv.articles[oq].slug);
        assert(sv.articles[op].created_at < sv.articles[oq].created_at);
    }
    assert forall|j: int| 0 <= j < na.len() implies (#[trigger] na[j]).created_at <= na[j].updated_at
        < nv.clock by {
        let oj = if j < i { j } else { j + 1 };
        assert(na[j] == sv.articles[oj]);
    }
    lemma_filter_unique(sv.favs, pred);
    lemma_filter_sub(sv.favs, pred);
    assert forall|k: int| 0 <= k < nf.len() implies nv.has_slug((#[trigger] nf[k]).1) by {
        sv.favs.lemma_filter_pred(pred, k);
        assert(pred(nf[k]));
        assert(nf[k].1 != slug);
        assert(sv.favs.contains(nf[k]));
        let w = choose|w: int| 0 <= w < sv.favs.len() && sv.favs[w] == nf[k];
        assert(sv.favs[w] == nf[k]);
        assert(sv.has_slug(sv.favs[w].1));
        let aw = choose|c: int|
            0 <= c < sv.articles.len() && (#[trigger] sv.articles[c]).slug == sv.favs[w].1;
        assert(sv.articles[aw].slug == nf[k].1);
        assert(sv.articles[i].slug == slug);
        assert(aw != i);
        let nj = if aw < i { aw } else { aw - 1 };
        assert(na[nj] == sv.articles[aw]);
        assert(nv.articles[nj].slug == nf[k].1);
    }
}

/// Adding a favorite edge for an existing slug and a pair that has no edge
/// yet preserves well-formedness.
pub proof fn lemma_wf_fav_push(sv: StoreV, user: Seq<char>, slug: Seq<char>)
    requires
        sv.wf(),
        sv.has_slug(slug),
        !sv.has_fav(user, slug),
    ensures
        (StoreV { favs: sv.favs.push((user, slug)), ..sv }).wf(),
{
    let nv = StoreV { favs: sv.favs.push((user, slug)), ..sv };
    let m = sv.favs.len() as int;
    assert(forall|k: int| 0 <= k < m ==> nv.favs[k] == sv.favs[k]);
    assert(nv.favs[m] == (user, slug));
    assert forall|p: int, q: int| 0 <= p < q < nv.favs.len() implies #[trigger] nv.favs[p]
        != #[trigger] nv.favs[q] by {
        if q < m {
            assert(sv.favs[p] != sv.favs[q]);
        } else {
            assert(!(sv.favs[p] == (user, slug)));
        }
    }
    assert forall|k: int| 0 <= k < nv.favs.len() implies nv.has_slug(
        (#[trigger] nv.favs[k]).1,
    ) by {
        if k < m {
            assert(sv.has_slug(sv.favs[k].1));
            lemma_same_articles_has_slug(sv, nv, sv.favs[k].1);
        } else {
            lemma_same_articles_has_slug(sv, nv, slug);
        }
    }
}

/// Filtering favorite edges with any predicate preserves well-formedness.
pub proof fn lemma_wf_fav_filter(sv: StoreV, pred: spec_fn((Seq<char>, Seq<char>)) -> bool)
    requires
        sv.wf(),
    ensures
        (StoreV { favs: sv.favs.filter(pred), ..sv }).wf(),
{
    let nv = StoreV { favs: sv.favs.filter(pred), ..sv };
    lemma_filter_unique(sv.favs, pred);
    lemma_filter_sub(sv.favs, pred);
    assert forall|k: int| 0 <= k < nv.favs.len() implies nv.has_slug(
        (#[trigger] nv.favs[k]).1,
    ) by {
        assert(sv.favs.contains(nv.favs[k]));
        let w = choose|w: int| 0 <= w < sv.favs.len() && sv.favs[w] == nv.favs[k];
        assert(sv.has_slug(sv.favs[w].1));
        lemma_same_articles_has_slug(sv, nv, sv.favs[w].1);
    }
}

impl Store {
    /// Update an article: only the owner may; supplied fields overwrite,
    /// omitted fields stay; the slug never changes.
    pub fn update(&mut self, cmd: UpdateArticleOuter) -> (r: Result<ArticleResponse, DomainError>)
        requires
            old(self)@.wf(),
        ensures
            final(self)@.wf(),
            final(self)@ == update_next(old(self)@, cmd.auth.username@, cmd.slug@, cmd.article@),
            match update_outcome(old(self)@, cmd.auth.username@, cmd.slug@, cmd.article@) {
                None => r matches Ok(resp) && resp@ == render(
                    final(self)@,
                    Some(cmd.auth.username@),
                    patched_article(
                        old(self)@.article_at(cmd.slug@),
                        cmd.article@,
                        old(self)@.clock,
                    ),
                ),
                Some(e) => r matches Err(err) && err@ == e,
            },
    {
        let UpdateArticleOuter { auth, slug, article: payload } = cmd;
        match validate_update(&payload) {
            Err(e) => {
                return Err(e);
            },
            Ok(_) => {},
        }
        let i = match self.find_idx(&slug) {
            Some(i) => i,
            None => {
                return Err(DomainError::NotFound);
            },
        };
        proof {
            lemma_idx_unique(self@, i as int, slug@);
        }
        if !(self.articles[i].author == auth.username) {
            return Err(DomainError::Forbidden);
        }
        if self.clock == u64::MAX {
            return Err(DomainError::Transient);
        }
        let ghost prev = self@;
        let ghost pv = payload@;
        let stamp = self.clock;
        self.clock = self.clock + 1;
        let UpdateArticle { title: p_title, description: p_desc, body: p_body, tag_list: p_tags } =
            payload;
        let new_title = match p_title {
            Some(t) => t,
            None => self.articles[i].title.clone(),
        };
        let new_desc = match p_desc {
            Some(t) => t,
            None => self.articles[i].description.clone(),
        };
        let new_body = match p_body {
            Some(t) => t,
            None => self.articles[i].body.clone(),
        };
        let new_tags = match &p_tags {
            Some(t) => dedup_tag_vec(t),
            None => clone_tags(&self.articles[i].tag_list),
        };
        let record = Article {
            slug: self.articles[i].slug.clone(),
            title: new_title,
            description: new_desc,
            body: new_body,
            tag_list: new_tags,
            created_at: self.articles[i].created_at,
            updated_at: stamp,
            author: self.articles[i].author.clone(),
        };
        proof {
            assert(record@ =~= patched_article(prev.article_at(slug@), pv, prev.clock));
        }
        self.articles.set(i, record);
        proof {
            assert(self@ =~= (StoreV {
                articles: prev.articles.update(
                    i as int,
                    patched_article(prev.article_at(slug@), pv, prev.clock),
                ),
                clock: prev.clock + 1,
                ..prev
            }));
            lemma_wf_update(prev, i as int, patched_article(prev.article_at(slug@), pv, prev.clock));
            assert(self@ == update_next(prev, auth.username@, slug@, pv));
        }
        let inner = self.assemble(Some(&auth), &self.articles[i]);
        Ok(ArticleResponse { article: inner })
    }

    /// Delete an article: only the owner may; its favorite edges are
    /// removed with it, so no edge outlives the article.
    pub fn delete(&mut self, cmd: DeleteArticle) -> (r: Result<(), DomainError>)
        requires
            old(self)@.wf(),
        ensures
            final(self)@.wf(),
            final(self)@ == delete_next(old(self)@, cmd.auth.username@, cmd.slug@),
            match delete_outcome(old(self)@, cmd.auth.username@, cmd.slug@) {
                None => r is Ok,
                Some(e) => r matches Err(err) && err@ == e,
            },
    {
        let DeleteArticle { auth, slug } = cmd;
        let i = match self.find_idx(&slug) {
            Some(i) => i,
            None => {
                return Err(DomainError::NotFound);
            },
        };
        proof {
            lemma_idx_unique(self@, i as int, slug@);
        }
        if !(self.articles[i].author == auth.username) {
            return Err(DomainError::Forbidden);
        }
        let ghost prev = self@;
        let ghost pred = edge_not_at(slug@);
        let n = self.favs.len();
        let mut kept: Vec<(String, String)> = Vec::new();
        let mut k: usize = 0;
        proof {
            assert(kept@.map_values(|p: (String, String)| (p.0@, p.1@)) =~= prev.favs.take(
                0,
            ).filter(pred));
        }
        while k < n
            invariant
                k <= n,
                n == self.favs.len(),
                self@ == prev,
                pred == edge_not_at(slug@),
                kept@.map_values(|p: (String, String)| (p.0@, p.1@)) == prev.favs.take(
                    k as int,
                ).filter(pred),
            decreases n - k,
        {
            let ghost pre = kept@.map_values(|p: (String, String)| (p.0@, p.1@));
            proof {
                assert(prev.favs.take(k + 1) =~= prev.favs.take(k as int).push(
                    prev.favs[k as int],
                ));
                lemma_filter_push(prev.favs.take(k as int), prev.favs[k as int], pred);
            }
            if !(self.favs[k].1 == slug) {
                kept.push((self.favs[k].0.clone(), self.favs[k].1.clone()));
                proof {
                    assert(kept@.map_values(|p: (String, String)| (p.0@, p.1@)) =~= pre.push(
                        prev.favs[k as int],
                    ));
                }
            }
            k += 1;
        }
        proof {
            assert(prev.favs.take(n as int) =~= prev.favs);
        }
        self.favs = kept;
        self.articles.remove(i);
        proof {
            assert(self@ =~= (StoreV {
                articles: prev.articles.remove(i as int),
                favs: prev.favs.filter(pred),
                ..prev
            }));
            lemma_wf_delete(prev, i as int);
        }
        Ok(())
    }

    /// Favorite an article: adds the edge for this viewer unless it is
    /// already there, so the count never grows twice for one pair.
    pub fn favorite(&mut self, cmd: FavoriteArticle) -> (r: Result<ArticleResponse, DomainError>)
        requires
            old(self)@.wf(),
        ensures
            final(self)@.wf(),
            final(self)@ == favorite_next(old(self)@, cmd.auth.username@, cmd.slug@),
            match favorite_outcome(old(self)@, cmd.slug@) {
                None => r matches Ok(resp) && resp@ == render(
                    final(self)@,
                    Some(cmd.auth.username@),
                    old(self)@.article_at(cmd.slug@),
                ),
                Some(e) => r matches Err(err) && err@ == e,
            },
    {
        let FavoriteArticle { auth, slug } = cmd;
        let i = match self.find_idx(&slug) {
            Some(i) => i,
            None => {
                return Err(DomainError::NotFound);
            },
        };
        proof {
            lemma_idx_unique(self@, i as int, slug@);
        }
        let ghost prev = self@;
        if !self.has_fav_edge(&auth.username, &slug) {
            self.favs.push((auth.username.clone(), slug.clone()));
            proof {
                assert(self@ =~= (StoreV {
                    favs: prev.favs.push((auth.username@, slug@)),
                    ..prev
                }));
                lemma_wf_fav_push(prev, auth.username@, slug@);
            }
        }
        let inner = self.assemble(Some(&auth), &self.articles[i]);
        Ok(ArticleResponse { article: inner })
    }

    /// Unfavorite an article: removes the edge for this viewer if present;
    /// removing an absent edge succeeds and changes nothing.
    pub fn unfavorite(&mut self, cmd: UnfavoriteArticle) -> (r: Result<
        ArticleResponse,
        DomainError,
    >)
        requires
            old(self)@.wf(),
        ensures
            final(self)@.wf(),
            final(self)@ == unfavorite_next(old(self)@, cmd.auth.username@, cmd.slug@),
            match favorite_outcome(old(self)@, cmd.slug@) {
                None => r matches Ok(resp) && resp@ == render(
                    final(self)@,
                    Some(cmd.auth.username@),
                    old(self)@.article_at(cmd.slug@),
                ),
                Some(e) => r matches Err(err) && err@ == e,
            },
    {
        let UnfavoriteArticle { auth, slug } = cmd;
        let i = match self.find_idx(&slug) {
            Some(i) => i,
            None => {
                return Err(DomainError::NotFound);
            },
        };
        proof {
            lemma_idx_unique(self@, i as int, slug@);
        }
        let ghost prev = self@;
        let ghost pred = edge_not_pair(auth.username@, slug@);
        let n = self.favs.len();
        let mut kept: Vec<(String, String)> = Vec::new();
        let mut k: usize = 0;
        proof {
            assert(kept@.map_values(|p: (String, String)| (p.0@, p.1@)) =~= prev.favs.take(
                0,
            ).filter(pred));
        }
        while k < n
            invariant
                k <= n,
                n == self.favs.len(),
                self@ == prev,
                pred == edge_not_pair(auth.username@, slug@),
                kept@.map_values(|p: (String, String)| (p.0@, p.1@)) == prev.favs.take(
                    k as int,
                ).filter(pred),
            decreases n - k,
        {
            let ghost pre = kept@.map_values(|p: (String, String)| (p.0@, p.1@));
            proof {
                assert(prev.favs.take(k + 1) =~= prev.favs.take(k as int).push(
                    prev.favs[k as int],
                ));
                lemma_filter_push(prev.favs.take(k as int), prev.favs[k as int], pred);
            }
            if !(self.favs[k].0 == auth.username && self.favs[k].1 == slug) {
                kept.push((self.favs[k].0.clone(), self.favs[k].1.clone()));
                proof {
                    assert(kept@.map_values(|p: (String, String)| (p.0@, p.1@)) =~= pre.push(
                        prev.favs[k as int],
                    ));
                }
            } else {
                proof {
                    assert(prev.favs[k as int] == (auth.username@, slug@));
                }
            }
            k += 1;
        }
        proof {
            assert(prev.favs.take(n as int) =~= prev.favs);
        }
        self.favs = kept;
        proof {
            assert(self@ =~= (StoreV { favs: prev.favs.filter(pred), ..prev }));
            lemma_wf_fav_filter(prev, pred);
        }
        let inner = self.assemble(Some(&auth), &self.articles[i]);
        Ok(ArticleResponse { article: inner })
    }
}

} // verus!
