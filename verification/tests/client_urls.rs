use conduit_core::client::{dec_string, limit, query_encode, Articles, HttpMethod};

#[test]
fn decimal_text_is_exact() {
    assert_eq!(dec_string(0), "0");
    assert_eq!(dec_string(7), "7");
    assert_eq!(dec_string(10), "10");
    assert_eq!(dec_string(1234567890), "1234567890");
    assert_eq!(dec_string(u64::MAX), "18446744073709551615");
}

#[test]
fn limit_fragment_multiplies_page_by_count() {
    assert_eq!(limit(10, 0), "limit=10&offset=0");
    assert_eq!(limit(10, 3), "limit=10&offset=30");
    assert_eq!(limit(20, 2), "limit=20&offset=40");
}

#[test]
fn query_encode_escapes_the_reserved_set() {
    assert_eq!(query_encode("a b"), "a%20b");
    assert_eq!(query_encode("c&d"), "c%26d");
    assert_eq!(query_encode("x=y?z"), "x%3Dy%3Fz");
    assert_eq!(query_encode("50%"), "50%25");
    assert_eq!(query_encode(""), "");
}

#[test]
fn query_encode_keeps_unreserved_text() {
    assert_eq!(query_encode("rust"), "rust");
    assert_eq!(query_encode("A-Za-z0-9_.*"), "A-Za-z0-9_.*");
}

#[test]
fn query_encode_escapes_utf8_bytes() {
    assert_eq!(query_encode("caf\u{e9}"), "caf%C3%A9");
}

#[test]
fn all_builds_the_paged_listing_url() {
    let mut api = Articles::new();
    let r = api.all(0);
    assert_eq!(r.method, HttpMethod::Get);
    assert_eq!(r.url, "/articles?limit=10&offset=0");
    let r2 = api.all(2);
    assert_eq!(r2.url, "/articles?limit=10&offset=20");
}

#[test]
fn by_author_encodes_the_author() {
    let mut api = Articles::new();
    let r = api.by_author("a b".to_string(), 0);
    assert_eq!(r.method, HttpMethod::Get);
    assert_eq!(r.url, "/articles?author=a%20b&limit=10&offset=0");
}

#[test]
fn by_tag_encodes_the_tag() {
    let mut api = Articles::new();
    let r = api.by_tag("c&d".to_string(), 1);
    assert_eq!(r.method, HttpMethod::Get);
    assert_eq!(r.url, "/articles?tag=c%26d&limit=10&offset=10");
}

#[test]
fn favorited_by_encodes_the_viewer() {
    let mut api = Articles::new();
    let r = api.favorited_by("carol".to_string(), 0);
    assert_eq!(r.method, HttpMethod::Get);
    assert_eq!(r.url, "/articles?favorited=carol&limit=10&offset=0");
}

#[test]
fn single_article_requests_use_the_slug_path() {
    let mut api = Articles::new();
    let g = api.get("hello-world".to_string());
    assert_eq!(g.method, HttpMethod::Get);
    assert_eq!(g.url, "/articles/hello-world");
    let d = api.del("hello-world".to_string());
    assert_eq!(d.method, HttpMethod::Delete);
    assert_eq!(d.url, "/articles/hello-world");
    let u = api.update("hello-world".to_string());
    assert_eq!(u.method, HttpMethod::Put);
    assert_eq!(u.url, "/articles/hello-world");
}

#[test]
fn favorite_requests_toggle_by_method() {
    let mut api = Articles::new();
    let f = api.favorite("liked".to_string());
    assert_eq!(f.method, HttpMethod::Post);
    assert_eq!(f.url, "/articles/liked/favorite");
    let u = api.unfavorite("liked".to_string());
    assert_eq!(u.method, HttpMethod::Delete);
    assert_eq!(u.url, "/articles/liked/favorite");
}

#[test]
fn feed_and_create_have_fixed_urls() {
    let mut api = Articles::new();
    let f = api.feed();
    assert_eq!(f.method, HttpMethod::Get);
    assert_eq!(f.url, "/articles/feed?limit=10&offset=0");
    let c = api.create();
    assert_eq!(c.method, HttpMethod::Post);
    assert_eq!(c.url, "/articles");
}

#[test]
fn default_articles_service_is_ready() {
    let mut api = Articles::default();
    assert_eq!(api.all(0).url, "/articles?limit=10&offset=0");
}
