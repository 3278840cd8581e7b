use conduit_core::dispatch::{dispatch, require_auth, Envelope, Response};
use conduit_core::errors::{DomainError, Field};
use conduit_core::messages::{
    ArticlesParams, Auth, CreateArticle, CreateArticleOuter, DeleteArticle, FavoriteArticle,
    FeedParams, GetArticle, GetArticles, GetFeed, UnfavoriteArticle, UpdateArticle,
    UpdateArticleOuter,
};
use conduit_core::model::Store;
use conduit_core::respond::ArticleResponse;

fn auth(name: &str) -> Auth {
    Auth { username: name.to_string() }
}

fn create_cmd(user: &str, title: &str, description: &str, body: &str, tags: &[&str]) -> CreateArticleOuter {
    CreateArticleOuter {
        auth: auth(user),
        article: CreateArticle {
            title: title.to_string(),
            description: description.to_string(),
            body: body.to_string(),
            tag_list: tags.iter().map(|t| t.to_string()).collect(),
        },
    }
}

fn seed(store: &mut Store, user: &str, title: &str, tags: &[&str]) -> ArticleResponse {
    store
        .create(create_cmd(user, title, "desc", "body", tags))
        .expect("create should succeed")
}

fn no_update() -> UpdateArticle {
    UpdateArticle { title: None, description: None, body: None, tag_list: None }
}

fn list_all(store: &Store) -> conduit_core::respond::ArticleListResponse {
    store.list(GetArticles {
        auth: None,
        params: ArticlesParams { tag: None, author: None, favorited: None, limit: None, offset: None },
    })
}

#[test]
fn create_derives_slug_and_renders() {
    let mut store = Store::new();
    let resp = seed(&mut store, "alice", "Hello, World!", &["greeting", "intro"]);
    assert_eq!(resp.article.slug, "hello--world-");
    assert_eq!(resp.article.title, "Hello, World!");
    assert_eq!(resp.article.description, "desc");
    assert_eq!(resp.article.body, "body");
    assert_eq!(resp.article.tag_list, vec!["greeting".to_string(), "intro".to_string()]);
    assert!(!resp.article.favorited);
    assert_eq!(resp.article.favorites_count, 0);
    assert_eq!(resp.article.author.username, "alice");
    let got = store
        .get(GetArticle { auth: None, slug: "hello--world-".to_string() })
        .expect("stored article should be readable");
    assert_eq!(got.article.title, "Hello, World!");
}

#[test]
fn create_same_title_conflicts() {
    let mut store = Store::new();
    seed(&mut store, "alice", "Same Title", &["t"]);
    let second = store.create(create_cmd("bob", "Same Title", "d", "b", &["t"]));
    assert!(matches!(second, Err(DomainError::Conflict)));
}

#[test]
fn create_empty_title_short_circuits() {
    let mut store = Store::new();
    let r = store.create(create_cmd("alice", "", "d", "b", &["t"]));
    match r {
        Err(DomainError::Validation(errs)) => {
            assert_eq!(errs.len(), 1);
            assert_eq!(errs[0].field, Field::Title);
            assert_eq!(errs[0].reason, "fails validation - cannot be empty");
        },
        other => panic!("expected a validation failure, got {:?}", other),
    }
    let listing = list_all(&store);
    assert_eq!(listing.articles_count, 0);
    assert!(listing.articles.is_empty());
}

#[test]
fn create_reports_every_failing_field() {
    let mut store = Store::new();
    let r = store.create(create_cmd("alice", "", "", "", &[]));
    match r {
        Err(DomainError::Validation(errs)) => {
            let fields: Vec<Field> = errs.iter().map(|e| e.field).collect();
            assert_eq!(fields, vec![Field::Title, Field::Description, Field::Body, Field::TagList]);
            assert!(errs.iter().all(|e| e.reason == "fails validation - cannot be empty"));
        },
        other => panic!("expected a validation failure, got {:?}", other),
    }
}

#[test]
fn create_empty_tag_entry_rejected() {
    let mut store = Store::new();
    let r = store.create(create_cmd("alice", "T", "d", "b", &["ok", ""]));
    assert!(matches!(r, Err(DomainError::Validation(_))));
}

#[test]
fn whitespace_only_title_is_not_trimmed() {
    let mut store = Store::new();
    let r = store.create(create_cmd("alice", "   ", "d", "b", &["t"]));
    assert!(r.is_ok(), "whitespace-only input counts as non-empty: no trimming");
    assert_eq!(r.unwrap().article.slug, "---");
}

#[test]
fn create_dedups_tags_keeping_first_occurrences() {
    let mut store = Store::new();
    let resp = seed(&mut store, "alice", "Tagged", &["a", "b", "a", "c", "b"]);
    assert_eq!(resp.article.tag_list, vec!["a".to_string(), "b".to_string(), "c".to_string()]);
}

#[test]
fn update_with_only_title_keeps_the_rest() {
    let mut store = Store::new();
    seed(&mut store, "alice", "Old Title", &["keep"]);
    let resp = store
        .update(UpdateArticleOuter {
            auth: auth("alice"),
            slug: "old-title".to_string(),
            article: UpdateArticle { title: Some("New Title".to_string()), ..no_update() },
        })
        .expect("owner update should succeed");
    assert_eq!(resp.article.title, "New Title");
    assert_eq!(resp.article.description, "desc");
    assert_eq!(resp.article.body, "body");
    assert_eq!(resp.article.tag_list, vec!["keep".to_string()]);
    assert_eq!(resp.article.slug, "old-title", "the slug is stable under title changes");
}

#[test]
fn update_by_non_owner_is_forbidden_and_changes_nothing() {
    let mut store = Store::new();
    seed(&mut store, "alice", "Hers", &["t"]);
    let r = store.update(UpdateArticleOuter {
        auth: auth("mallory"),
        slug: "hers".to_string(),
        article: UpdateArticle { title: Some("Mine Now".to_string()), ..no_update() },
    });
    assert!(matches!(r, Err(DomainError::Forbidden)));
    let got = store.get(GetArticle { auth: None, slug: "hers".to_string() }).unwrap();
    assert_eq!(got.article.title, "Hers");
}

#[test]
fn update_missing_slug_is_not_found() {
    let mut store = Store::new();
    let r = store.update(UpdateArticleOuter {
        auth: auth("alice"),
        slug: "absent".to_string(),
        article: UpdateArticle { title: Some("X".to_string()), ..no_update() },
    });
    assert!(matches!(r, Err(DomainError::NotFound)));
}

#[test]
fn update_present_empty_field_fails_validation() {
    let mut store = Store::new();
    seed(&mut store, "alice", "Valid", &["t"]);
    let r = store.update(UpdateArticleOuter {
        auth: auth("alice"),
        slug: "valid".to_string(),
        article: UpdateArticle { body: Some("".to_string()), ..no_update() },
    });
    match r {
        Err(DomainError::Validation(errs)) => {
            assert_eq!(errs.len(), 1);
            assert_eq!(errs[0].field, Field::Body);
        },
        other => panic!("expected a validation failure, got {:?}", other),
    }
}

#[test]
fn delete_by_non_owner_is_forbidden() {
    let mut store = Store::new();
    seed(&mut store, "alice", "Keep Me", &["t"]);
    let r = store.delete(DeleteArticle { auth: auth("mallory"), slug: "keep-me".to_string() });
    assert!(matches!(r, Err(DomainError::Forbidden)));
    assert!(store.get(GetArticle { auth: None, slug: "keep-me".to_string() }).is_ok());
}

#[test]
fn favorite_twice_counts_once() {
    let mut store = Store::new();
    seed(&mut store, "alice", "Liked", &["t"]);
    let first = store
        .favorite(FavoriteArticle { auth: auth("bob"), slug: "liked".to_string() })
        .unwrap();
    assert!(first.article.favorited);
    assert_eq!(first.article.favorites_count, 1);
    let second = store
        .favorite(FavoriteArticle { auth: auth("bob"), slug: "liked".to_string() })
        .unwrap();
    assert!(second.article.favorited);
    assert_eq!(second.article.favorites_count, 1);
}

#[test]
fn unfavorite_never_favorited_is_a_noop_success() {
    let mut store = Store::new();
    seed(&mut store, "alice", "Calm", &["t"]);
    store.favorite(FavoriteArticle { auth: auth("carol"), slug: "calm".to_string() }).unwrap();
    let r = store
        .unfavorite(UnfavoriteArticle { auth: auth("bob"), slug: "calm".to_string() })
        .unwrap();
    assert!(!r.article.favorited);
    assert_eq!(r.article.favorites_count, 1, "someone else's edge is untouched");
}

#[test]
fn unfavorite_removes_only_this_viewers_edge() {
    let mut store = Store::new();
    seed(&mut store, "alice", "Popular", &["t"]);
    store.favorite(FavoriteArticle { auth: auth("bob"), slug: "popular".to_string() }).unwrap();
    store.favorite(FavoriteArticle { auth: auth("carol"), slug: "popular".to_string() }).unwrap();
    let r = store
        .unfavorite(UnfavoriteArticle { auth: auth("bob"), slug: "popular".to_string() })
        .unwrap();
    assert!(!r.article.favorited);
    assert_eq!(r.article.favorites_count, 1);
}

#[test]
fn favorite_missing_slug_is_not_found() {
    let mut store = Store::new();
    let r = store.favorite(FavoriteArticle { auth: auth("bob"), slug: "ghost".to_string() });
    assert!(matches!(r, Err(DomainError::NotFound)));
}

#[test]
fn delete_cascades_favorite_edges_and_frees_the_slug() {
    let mut store = Store::new();
    seed(&mut store, "alice", "Gone Soon", &["t"]);
    store.favorite(FavoriteArticle { auth: auth("bob"), slug: "gone-soon".to_string() }).unwrap();
    store.delete(DeleteArticle { auth: auth("alice"), slug: "gone-soon".to_string() }).unwrap();
    let gone = store.get(GetArticle { auth: None, slug: "gone-soon".to_string() });
    assert!(matches!(gone, Err(DomainError::NotFound)));
    let fav = store.favorite(FavoriteArticle { auth: auth("bob"), slug: "gone-soon".to_string() });
    assert!(matches!(fav, Err(DomainError::NotFound)), "no edge can outlive the article");
    let again = seed(&mut store, "alice", "Gone Soon", &["t"]);
    assert_eq!(again.article.slug, "gone-soon");
    assert_eq!(again.article.favorites_count, 0, "the cascade removed the old edges");
}

#[test]
fn anonymous_viewer_never_sees_favorited() {
    let mut store = Store::new();
    seed(&mut store, "alice", "Starred", &["t"]);
    store.favorite(FavoriteArticle { auth: auth("bob"), slug: "starred".to_string() }).unwrap();
    let anon = store.get(GetArticle { auth: None, slug: "starred".to_string() }).unwrap();
    assert!(!anon.article.favorited);
    assert_eq!(anon.article.favorites_count, 1);
    let bob = store
        .get(GetArticle { auth: Some(auth("bob")), slug: "starred".to_string() })
        .unwrap();
    assert!(bob.article.favorited);
    let listing = list_all(&store);
    assert!(!listing.articles[0].favorited);
}

#[test]
fn list_orders_newest_first_and_paginates_deterministically() {
    let mut store = Store::new();
    for title in ["One", "Two", "Three", "Four"] {
        seed(&mut store, "alice", title, &["t"]);
    }
    let params = |limit: Option<usize>, offset: Option<usize>| GetArticles {
        auth: None,
        params: ArticlesParams { tag: None, author: None, favorited: None, limit, offset },
    };
    let whole = store.list(params(Some(4), Some(0)));
    let titles: Vec<&str> = whole.articles.iter().map(|a| a.title.as_str()).collect();
    assert_eq!(titles, vec!["Four", "Three", "Two", "One"]);
    let first = store.list(params(Some(2), Some(0)));
    let second = store.list(params(Some(2), Some(2)));
    assert_eq!(first.articles_count, 4);
    assert_eq!(second.articles_count, 4);
    assert_eq!(whole.articles_count, 4);
    let glued: Vec<&str> = first
        .articles
        .iter()
        .chain(second.articles.iter())
        .map(|a| a.title.as_str())
        .collect();
    assert_eq!(glued, titles);
}

#[test]
fn list_offset_beyond_matches_is_an_empty_page() {
    let mut store = Store::new();
    seed(&mut store, "alice", "Only", &["t"]);
    let r = store.list(GetArticles {
        auth: None,
        params: ArticlesParams {
            tag: None,
            author: None,
            favorited: None,
            limit: Some(5),
            offset: Some(10),
        },
    });
    assert_eq!(r.articles_count, 1);
    assert!(r.articles.is_empty());
}

#[test]
fn list_filters_combine_as_and() {
    let mut store = Store::new();
    seed(&mut store, "alice", "Rust Post", &["rust"]);
    seed(&mut store, "bob", "Go Post", &["go"]);
    seed(&mut store, "alice", "Go Too", &["go"]);
    store.favorite(FavoriteArticle { auth: auth("carol"), slug: "go-too".to_string() }).unwrap();
    let by = |tag: Option<&str>, author: Option<&str>, favorited: Option<&str>| {
        store.list(GetArticles {
            auth: None,
            params: ArticlesParams {
                tag: tag.map(|s| s.to_string()),
                author: author.map(|s| s.to_string()),
                favorited: favorited.map(|s| s.to_string()),
                limit: None,
                offset: None,
            },
        })
    };
    assert_eq!(by(Some("go"), None, None).articles_count, 2);
    assert_eq!(by(None, Some("alice"), None).articles_count, 2);
    assert_eq!(by(Some("go"), Some("alice"), None).articles_count, 1);
    assert_eq!(by(None, None, Some("carol")).articles_count, 1);
    assert_eq!(by(Some("rust"), None, Some("carol")).articles_count, 0);
    assert_eq!(by(Some("none"), None, None).articles_count, 0);
}

#[test]
fn list_default_limit_is_twenty() {
    let mut store = Store::new();
    for i in 0..25 {
        seed(&mut store, "alice", &format!("Title {}", i), &["t"]);
    }
    let r = list_all(&store);
    assert_eq!(r.articles_count, 25);
    assert_eq!(r.articles.len(), 20);
}

#[test]
fn feed_shows_only_followed_authors() {
    let mut store = Store::new();
    store.follow("viewer".to_string(), "x".to_string());
    store.follow("viewer".to_string(), "y".to_string());
    seed(&mut store, "x", "From X", &["t"]);
    seed(&mut store, "y", "From Y", &["t"]);
    seed(&mut store, "z", "From Z Newest", &["t"]);
    let r = store.feed(GetFeed {
        auth: auth("viewer"),
        params: FeedParams { limit: None, offset: None },
    });
    assert_eq!(r.articles_count, 2);
    let authors: Vec<&str> = r.articles.iter().map(|a| a.author.username.as_str()).collect();
    assert_eq!(authors, vec!["y", "x"], "newest first, and never the unfollowed z");
    assert!(r.articles.iter().all(|a| a.author.following));
}

#[test]
fn feed_of_a_lonely_viewer_is_empty_not_an_error() {
    let mut store = Store::new();
    seed(&mut store, "alice", "Exists", &["t"]);
    let r = store.feed(GetFeed {
        auth: auth("nobody"),
        params: FeedParams { limit: None, offset: None },
    });
    assert_eq!(r.articles_count, 0);
    assert!(r.articles.is_empty());
}

#[test]
fn dispatch_routes_every_envelope() {
    let mut store = Store::new();
    let created = dispatch(&mut store, Envelope::Create(create_cmd("alice", "Via Bus", "d", "b", &["t"])));
    assert!(matches!(created, Ok(Response::Article(_))));
    let got = dispatch(&mut store, Envelope::Get(GetArticle { auth: None, slug: "via-bus".to_string() }));
    assert!(matches!(got, Ok(Response::Article(_))));
    let listed = dispatch(
        &mut store,
        Envelope::List(GetArticles {
            auth: None,
            params: ArticlesParams { tag: None, author: None, favorited: None, limit: None, offset: None },
        }),
    );
    match listed {
        Ok(Response::List(l)) => assert_eq!(l.articles_count, 1),
        other => panic!("expected a listing, got {:?}", other),
    }
    let deleted = dispatch(
        &mut store,
        Envelope::Delete(DeleteArticle { auth: auth("alice"), slug: "via-bus".to_string() }),
    );
    assert!(matches!(deleted, Ok(Response::Empty)));
}

#[test]
fn require_auth_rejects_the_anonymous() {
    let ok = require_auth(Some(auth("alice")));
    assert_eq!(ok.unwrap().username, "alice");
    let missing = require_auth(None);
    assert!(matches!(missing, Err(DomainError::Unauthorized)));
}

#[test]
fn error_categories_are_distinct_labels() {
    assert_eq!(DomainError::Unauthorized.category(), "unauthorized");
    assert_eq!(DomainError::Forbidden.category(), "forbidden");
    assert_eq!(DomainError::NotFound.category(), "not found");
    assert_eq!(DomainError::Conflict.category(), "conflict");
    assert_eq!(DomainError::Transient.category(), "transient");
    assert_eq!(DomainError::Validation(Vec::new()).category(), "validation");
}

#[test]
fn update_replaces_tags_and_dedups_them() {
    let mut store = Store::new();
    seed(&mut store, "alice", "Retag", &["old"]);
    let resp = store
        .update(UpdateArticleOuter {
            auth: auth("alice"),
            slug: "retag".to_string(),
            article: UpdateArticle {
                tag_list: Some(vec!["x".to_string(), "y".to_string(), "x".to_string()]),
                ..no_update()
            },
        })
        .expect("owner update should succeed");
    assert_eq!(resp.article.tag_list, vec!["x".to_string(), "y".to_string()]);
}

#[test]
fn list_limit_clamps_at_one_hundred() {
    let mut store = Store::new();
    for i in 0..105 {
        seed(&mut store, "alice", &format!("Clamp {}", i), &["t"]);
    }
    let r = store.list(GetArticles {
        auth: None,
        params: ArticlesParams {
            tag: None,
            author: None,
            favorited: None,
            limit: Some(1000),
            offset: None,
        },
    });
    assert_eq!(r.articles_count, 105);
    assert_eq!(r.articles.len(), 100);
}
