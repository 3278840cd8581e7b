//! The dispatcher: one envelope in, exactly one typed outcome out.
//!
//! The boundary never touches store internals; it wraps each request in an
//! [`Envelope`] and receives exactly one [`Response`] or one
//! [`DomainError`].  Identity requirements are resolved before dispatch:
//! [`require_auth`] is the identity resolver's contract for operations that
//! mandate a viewer.

use vstd::prelude::*;
use crate::errors::{DomainError, ErrV};
use crate::messages::{
    viewer_name, Auth, CreateArticleOuter, DeleteArticle, FavoriteArticle, GetArticle,
    GetArticles, GetFeed, UnfavoriteArticle, UpdateArticleOuter,
};
use crate::model::Store;
use crate::query::{feed_result, list_result};
use crate::respond::{render, ArticleListResponse, ArticleResponse};
use crate::store::{
    create_next, create_outcome, created_article, delete_next, delete_outcome, favorite_next,
    favorite_outcome, patched_article, unfavorite_next, update_next, update_outcome,
};

verus! {

/// One unit of work: a resolved identity paired with one typed payload.
#[derive(Debug)]
pub enum Envelope {
    Create(CreateArticleOuter),
    Get(GetArticle),
    Update(UpdateArticleOuter),
    Delete(DeleteArticle),
    Favorite(FavoriteArticle),
    Unfavorite(UnfavoriteArticle),
    List(GetArticles),
    Feed(GetFeed),
}

/// The one success shape each envelope kind produces.
#[derive(Debug)]
pub enum Response {
    Article(ArticleResponse),
    List(ArticleListResponse),
    Empty,
}

/// The identity resolver's strict contract: operations that mandate a
/// viewer receive the resolved identity or fail `Unauthorized` before any
/// store access.
pub fn require_auth(a: Option<Auth>) -> (r: Result<Auth, DomainError>)
    ensures
        match a {
            Some(u) => r matches Ok(x) && x == u,
            None => r matches Err(e) && e@ == ErrV::Unauthorized,
        },
{
    match a {
        Some(u) => Ok(u),
        None => Err(DomainError::Unauthorized),
    }
}

/// Send one envelope to the store and await its one outcome.  Every arm
/// follows the corresponding command's effect and outcome functions; read
/// arms leave the store untouched.
pub fn dispatch(store: &mut Store, env: Envelope) -> (r: Result<Response, DomainError>)
    requires
        old(store)@.wf(),
    ensures
        final(store)@.wf(),
        match env {
            Envelope::Create(cmd) => {
                &&& final(store)@ == create_next(old(store)@, cmd.auth.username@, cmd.article@)
                &&& match create_outcome(old(store)@, cmd.article@) {
                    None => r matches Ok(Response::Article(resp)) && resp@ == render(
                        final(store)@,
                        Some(cmd.auth.username@),
                        created_article(old(store)@, cmd.auth.username@, cmd.article@),
                    ),
                    Some(e) => r matches Err(err) && err@ == e,
                }
            },
            Envelope::Get(cmd) => {
                &&& final(store)@ == old(store)@
                &&& match r {
                    Ok(resp) => old(store)@.has_slug(cmd.slug@) && (resp matches
                    Response::Article(a) && a@ == render(
                        old(store)@,
                        viewer_name(cmd.auth),
                        old(store)@.article_at(cmd.slug@),
                    )),
                    Err(e) => !old(store)@.has_slug(cmd.slug@) && e@ == ErrV::NotFound,
                }
            },
            Envelope::Update(cmd) => {
                &&& final(store)@ == update_next(
                    old(store)@,
                    cmd.auth.username@,
                    cmd.slug@,
                    cmd.article@,
                )
                &&& match update_outcome(old(store)@, cmd.auth.username@, cmd.slug@, cmd.article@) {
                    None => r matches Ok(Response::Article(resp)) && resp@ == render(
                        final(store)@,
                        Some(cmd.auth.username@),
                        patched_article(
                            old(store)@.article_at(cmd.slug@),
                            cmd.article@,
                            old(store)@.clock,
                        ),
                    ),
                    Some(e) => r matches Err(err) && err@ == e,
                }
            },
            Envelope::Delete(cmd) => {
                &&& final(store)@ == delete_next(old(store)@, cmd.auth.username@, cmd.slug@)
                &&& match delete_outcome(old(store)@, cmd.auth.username@, cmd.slug@) {
                    None => r matches Ok(resp) && resp is Empty,
                    Some(e) => r matches Err(err) && err@ == e,
                }
            },
            Envelope::Favorite(cmd) => {
                &&& final(store)@ == favorite_next(old(store)@, cmd.auth.username@, cmd.slug@)
                &&& match favorite_outcome(old(store)@, cmd.slug@) {
                    None => r matches Ok(Response::Article(resp)) && resp@ == render(
                        final(store)@,
                        Some(cmd.auth.username@),
                        old(store)@.article_at(cmd.slug@),
                    ),
                    Some(e) => r matches Err(err) && err@ == e,
                }
            },
            Envelope::Unfavorite(cmd) => {
                &&& final(store)@ == unfavorite_next(old(store)@, cmd.auth.username@, cmd.slug@)
                &&& match favorite_outcome(old(store)@, cmd.slug@) {
                    None => r matches Ok(Response::Article(resp)) && resp@ == render(
                        final(store)@,
                        Some(cmd.auth.username@),
                        old(store)@.article_at(cmd.slug@),
                    ),
                    Some(e) => r matches Err(err) && err@ == e,
                }
            },
            Envelope::List(cmd) => {
                &&& final(store)@ == old(store)@
                &&& r matches Ok(Response::List(resp)) && resp@ == list_result(
                    old(store)@,
                    viewer_name(cmd.auth),
                    cmd.params@,
                )
            },
            Envelope::Feed(cmd) => {
                &&& final(store)@ == old(store)@
                &&& r matches Ok(Response::List(resp)) && resp@ == feed_result(
                    old(store)@,
                    cmd.auth.username@,
                    cmd.params@,
                )
            },
        },
{
    match env {
        Envelope::Create(cmd) => match store.create(cmd) {
            Ok(resp) => Ok(Response::Article(resp)),
            Err(e) => Err(e),
        },
        Envelope::Get(cmd) => match store.get(cmd) {
            Ok(resp) => Ok(Response::Article(resp)),
            Err(e) => Err(e),
        },
        Envelope::Update(cmd) => match store.update(cmd) {
            Ok(resp) => Ok(Response::Article(resp)),
            Err(e) => Err(e),
        },
        Envelope::Delete(cmd) => match store.delete(cmd) {
            Ok(_) => Ok(Response::Empty),
            Err(e) => Err(e),
        },
        Envelope::Favorite(cmd) => match store.favorite(cmd) {
            Ok(resp) => Ok(Response::Article(resp)),
            Err(e) => Err(e),
        },
        Envelope::Unfavorite(cmd) => match store.unfavorite(cmd) {
            Ok(resp) => Ok(Response::Article(resp)),
            Err(e) => Err(e),
        },
        Envelope::List(cmd) => Ok(Response::List(store.list(cmd))),
        Envelope::Feed(cmd) => Ok(Response::List(store.feed(cmd))),
    }
}

} // verus!
