//! The response assembler: a pure read-side projection.
//!
//! [`render`] says what a viewer sees of a stored article: its immutable
//! fields, whether this viewer has a favorite edge for it (`false` for an
//! anonymous viewer, whoever else favorited it), the current favorite count,
//! and the author's public projection with the viewer-relative follow flag.
//! Assembly never mutates the store.

use vstd::prelude::*;
use crate::messages::{viewer_of, Auth};
use crate::model::{Article, ArticleV, Store, StoreV};
use crate::store::clone_tags;

verus! {

/// The author of an article, as shown to a viewer.
#[derive(Debug)]
pub struct ProfileResponseInner {
    pub username: String,
    pub following: bool,
}

/// Ghost mirror of [`ProfileResponseInner`].
#[verifier::ext_equal]
pub ghost struct ProfileV {
    pub username: Seq<char>,
    pub following: bool,
}

impl View for ProfileResponseInner {
    type V = ProfileV;

    open spec fn view(&self) -> ProfileV {
        ProfileV { username: self.username@, following: self.following }
    }
}

/// One article as shown to a viewer.
#[derive(Debug)]
pub struct ArticleResponseInner {
    pub slug: String,
    pub title: String,
    pub description: String,
    pub body: String,
    pub tag_list: Vec<String>,
    pub created_at: u64,
    pub updated_at: u64,
    pub favorited: bool,
    pub favorites_count: usize,
    pub author: ProfileResponseInner,
}

/// Ghost mirror of [`ArticleResponseInner`].
#[verifier::ext_equal]
pub ghost struct RespV {
    pub slug: Seq<char>,
    pub title: Seq<char>,
    pub description: Seq<char>,
    pub body: Seq<char>,
    pub tag_list: Seq<Seq<char>>,
    pub created_at: int,
    pub updated_at: int,
    pub favorited: bool,
    pub favorites_count: int,
    pub author: ProfileV,
}

impl View for ArticleResponseInner {
    type V = RespV;

    open spec fn view(&self) -> RespV {
        RespV {
            slug: self.slug@,
            title: self.title@,
            description: self.description@,
            body: self.body@,
            tag_list: self.tag_list@.map_values(|t: String| t@),
            created_at: self.created_at as int,
            updated_at: self.updated_at as int,
            favorited: self.favorited,
            favorites_count: self.favorites_count as int,
            author: self.author@,
        }
    }
}

/// Wire wrapper of a single-article response.
#[derive(Debug)]
pub struct ArticleResponse {
    pub article: ArticleResponseInner,
}

impl View for ArticleResponse {
    type V = RespV;

    open spec fn view(&self) -> RespV {
        self.article@
    }
}

/// Wire shape of a listing response: one page of articles plus the total
/// number of matches before pagination.
#[derive(Debug)]
pub struct ArticleListResponse {
    pub articles: Vec<ArticleResponseInner>,
    pub articles_count: usize,
}

/// Ghost mirror of [`ArticleListResponse`].
#[verifier::ext_equal]
pub ghost struct ListV {
    pub articles: Seq<RespV>,
    pub articles_count: int,
}

impl View for ArticleListResponse {
    type V = ListV;

    open spec fn view(&self) -> ListV {
        ListV {
            articles: self.articles@.map_values(|a: ArticleResponseInner| a@),
            articles_count: self.articles_count as int,
        }
    }
}

/// What `viewer` sees of stored article `a`: an anonymous viewer always
/// sees `favorited == false` and `following == false`.
pub open spec fn render(sv: StoreV, viewer: Option<Seq<char>>, a: ArticleV) -> RespV {
    RespV {
        slug: a.slug,
        title: a.title,
        description: a.description,
        body: a.body,
        tag_list: a.tag_list,
        created_at: a.created_at,
        updated_at: a.updated_at,
        favorited: match viewer {
            Some(u) => sv.has_fav(u, a.slug),
            None => false,
        },
        favorites_count: sv.fav_count(a.slug) as int,
        author: ProfileV {
            username: a.author,
            following: match viewer {
                Some(u) => sv.has_follow(u, a.author),
                None => false,
            },
        },
    }
}

impl Store {
    /// Join one stored article with the viewer-relative facts.
    pub fn assemble(&self, viewer: Option<&Auth>, a: &Article) -> (r: ArticleResponseInner)
        ensures
            r@ == render(self@, viewer_of(viewer), a@),
    {
        let favorited = match viewer {
            Some(u) => self.has_fav_edge(&u.username, &a.slug),
            None => false,
        };
        let count = self.fav_count_of(&a.slug);
        let following = match viewer {
            Some(u) => self.has_follow_edge(&u.username, &a.author),
            None => false,
        };
        let r = ArticleResponseInner {
            slug: a.slug.clone(),
            title: a.title.clone(),
            description: a.description.clone(),
            body: a.body.clone(),
            tag_list: clone_tags(&a.tag_list),
            created_at: a.created_at,
            updated_at: a.updated_at,
            favorited,
            favorites_count: count,
            author: ProfileResponseInner { username: a.author.clone(), following },
        };
        proof {
            assert(r@ =~= render(self@, viewer_of(viewer), a@));
        }
        r
    }
}

} // verus!
