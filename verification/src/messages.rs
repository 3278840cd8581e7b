//! Command envelopes and the request shapes they carry.
//!
//! Each envelope is an immutable value pairing a resolved viewer identity
//! with one operation-specific payload.  Operations that mutate carry a
//! mandatory [`Auth`]; read operations carry an optional one.  The viewer is
//! always threaded explicitly, never read from ambient state.

use vstd::prelude::*;

verus! {

/// A resolved viewer identity, as handed over by the identity resolver.
/// The core never inspects credentials; it only consumes this outcome.
#[derive(Debug)]
pub struct Auth {
    pub username: String,
}

/// The name of the viewer behind an optional borrowed identity: `None` is
/// anonymous.
pub open spec fn viewer_of(a: Option<&Auth>) -> Option<Seq<char>> {
    match a {
        Some(auth) => Some(auth.username@),
        None => None,
    }
}

/// The name of the viewer behind an optional identity: `None` is anonymous.
pub open spec fn viewer_name(a: Option<Auth>) -> Option<Seq<char>> {
    match a {
        Some(auth) => Some(auth.username@),
        None => None,
    }
}

/// Wire wrapper: mutation payloads arrive nested under an `article` key.
#[derive(Debug)]
pub struct In<T> {
    pub article: T,
}

/// Path parameter of the single-article operations.
#[derive(Debug)]
pub struct ArticlePath {
    pub slug: String,
}

/// Query parameters of the general listing; absent limit defaults to 20,
/// absent offset to 0 at the boundary.
#[derive(Debug)]
pub struct ArticlesParams {
    pub tag: Option<String>,
    pub author: Option<String>,
    pub favorited: Option<String>,
    pub limit: Option<usize>,
    pub offset: Option<usize>,
}

/// Ghost mirror of [`ArticlesParams`].
#[verifier::ext_equal]
pub ghost struct ParamsV {
    pub tag: Option<Seq<char>>,
    pub author: Option<Seq<char>>,
    pub favorited: Option<Seq<char>>,
    pub limit: Option<int>,
    pub offset: Option<int>,
}

impl View for ArticlesParams {
    type V = ParamsV;

    open spec fn view(&self) -> ParamsV {
        ParamsV {
            tag: match self.tag {
                Some(t) => Some(t@),
                None => None,
            },
            author: match self.author {
                Some(t) => Some(t@),
                None => None,
            },
            favorited: match self.favorited {
                Some(t) => Some(t@),
                None => None,
            },
            limit: match self.limit {
                Some(l) => Some(l as int),
                None => None,
            },
            offset: match self.offset {
                Some(o) => Some(o as int),
                None => None,
            },
        }
    }
}

/// Query parameters of the feed; absent limit defaults to 10, absent offset
/// to 0 at the boundary.
#[derive(Debug)]
pub struct FeedParams {
    pub limit: Option<usize>,
    pub offset: Option<usize>,
}

/// Ghost mirror of [`FeedParams`].
#[verifier::ext_equal]
pub ghost struct FeedParamsV {
    pub limit: Option<int>,
    pub offset: Option<int>,
}

impl View for FeedParams {
    type V = FeedParamsV;

    open spec fn view(&self) -> FeedParamsV {
        FeedParamsV {
            limit: match self.limit {
                Some(l) => Some(l as int),
                None => None,
            },
            offset: match self.offset {
                Some(o) => Some(o as int),
                None => None,
            },
        }
    }
}

/// Payload of the create command.
#[derive(Debug)]
pub struct CreateArticle {
    pub title: String,
    pub description: String,
    pub body: String,
    pub tag_list: Vec<String>,
}

/// Ghost mirror of [`CreateArticle`].
#[verifier::ext_equal]
pub ghost struct CreateV {
    pub title: Seq<char>,
    pub description: Seq<char>,
    pub body: Seq<char>,
    pub tag_list: Seq<Seq<char>>,
}

impl View for CreateArticle {
    type V = CreateV;

    open spec fn view(&self) -> CreateV {
        CreateV {
            title: self.title@,
            description: self.description@,
            body: self.body@,
            tag_list: self.tag_list@.map_values(|t: String| t@),
        }
    }
}

/// The create command: a mandatory identity plus its payload.
#[derive(Debug)]
pub struct CreateArticleOuter {
    pub auth: Auth,
    pub article: CreateArticle,
}

/// The single-article read command; the identity is optional.
#[derive(Debug)]
pub struct GetArticle {
    pub auth: Option<Auth>,
    pub slug: String,
}

/// Payload of the update command; absent fields are left untouched.
#[derive(Debug)]
pub struct UpdateArticle {
    pub title: Option<String>,
    pub description: Option<String>,
    pub body: Option<String>,
    pub tag_list: Option<Vec<String>>,
}

/// Ghost mirror of [`UpdateArticle`].
#[verifier::ext_equal]
pub ghost struct UpdateV {
    pub title: Option<Seq<char>>,
    pub description: Option<Seq<char>>,
    pub body: Option<Seq<char>>,
    pub tag_list: Option<Seq<Seq<char>>>,
}

impl View for UpdateArticle {
    type V = UpdateV;

    open spec fn view(&self) -> UpdateV {
        UpdateV {
            title: match self.title {
                Some(t) => Some(t@),
                None => None,
            },
            description: match self.description {
                Some(t) => Some(t@),
                None => None,
            },
            body: match self.body {
                Some(t) => Some(t@),
                None => None,
            },
            tag_list: match self.tag_list {
                Some(t) => Some(t@.map_values(|s: String| s@)),
                None => None,
            },
        }
    }
}

/// The update command: a mandatory identity, the target slug, the payload.
#[derive(Debug)]
pub struct UpdateArticleOuter {
    pub auth: Auth,
    pub slug: String,
    pub article: UpdateArticle,
}

/// The delete command.
#[derive(Debug)]
pub struct DeleteArticle {
    pub auth: Auth,
    pub slug: String,
}

/// The favorite command; favoriting twice is idempotent.
#[derive(Debug)]
pub struct FavoriteArticle {
    pub auth: Auth,
    pub slug: String,
}

/// The unfavorite command; removing an absent edge is a no-op success.
#[derive(Debug)]
pub struct UnfavoriteArticle {
    pub auth: Auth,
    pub slug: String,
}

/// The general listing command; the identity is optional.
#[derive(Debug)]
pub struct GetArticles {
    pub auth: Option<Auth>,
    pub params: ArticlesParams,
}

/// The feed command; the identity is mandatory.
#[derive(Debug)]
pub struct GetFeed {
    pub auth: Auth,
    pub params: FeedParams,
}

} // verus!
