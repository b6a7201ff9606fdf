use tokio_request::Url;

#[test]
fn parse_splits_a_url_into_its_parts() {
    let u = Url::parse("http://example.com/path?x=1#frag").unwrap();
    assert_eq!(u.base(), "http://example.com/path");
    assert_eq!(u.query(), Some("x=1"));
    assert_eq!(u.fragment(), Some("frag"));
}

#[test]
fn parse_gives_the_root_path_to_a_bare_host() {
    let u = Url::parse("http://example.com").unwrap();
    assert_eq!(u.base(), "http://example.com/");
    assert_eq!(u.query(), None);
    assert_eq!(u.fragment(), None);
    assert_eq!(u.to_text(), "http://example.com/");
}

#[test]
fn parse_brings_a_url_into_normal_form() {
    let u = Url::parse("HTTP://EXAMPLE.com/a b").unwrap();
    assert_eq!(u.to_text(), "http://example.com/a%20b");
}

#[test]
fn parse_keeps_an_empty_query_apart_from_none() {
    let u = Url::parse("http://example.com/?").unwrap();
    assert_eq!(u.query(), Some(""));
    assert_eq!(u.to_text(), "http://example.com/?");
}

#[test]
fn parse_rejects_a_text_without_a_scheme() {
    let e = Url::parse("not a url").unwrap_err();
    assert_eq!(e.cause, url::ParseError::RelativeUrlWithoutBase);
}

#[test]
fn parse_rejects_a_url_without_a_host() {
    let e = Url::parse("http://").unwrap_err();
    assert_eq!(e.cause, url::ParseError::EmptyHost);
}

#[test]
fn parse_rejects_the_empty_text() {
    assert!(Url::parse("").is_err());
}

#[test]
fn to_text_writes_all_parts_back() {
    let text = "https://user@example.com:8443/a/b?x=1&y=2#top";
    assert_eq!(Url::parse(text).unwrap().to_text(), text);
}

#[test]
fn with_query_adds_a_query_where_there_is_none() {
    let u = Url::parse("http://example.com/").unwrap();
    assert_eq!(u.with_query("a=1").to_text(), "http://example.com/?a=1");
}

#[test]
fn with_query_follows_an_existing_query() {
    let u = Url::parse("http://example.com/?z=0").unwrap();
    assert_eq!(u.with_query("a=1").to_text(), "http://example.com/?z=0&a=1");
}

#[test]
fn with_query_fills_an_empty_query() {
    let u = Url::parse("http://example.com/?").unwrap();
    assert_eq!(u.with_query("a=1").to_text(), "http://example.com/?a=1");
}

#[test]
fn with_query_stays_before_the_fragment() {
    let u = Url::parse("http://example.com/p#frag").unwrap();
    assert_eq!(u.with_query("a=1").to_text(), "http://example.com/p?a=1#frag");
}

#[test]
fn with_empty_query_changes_nothing() {
    let u = Url::parse("http://example.com/p?x#frag").unwrap();
    assert_eq!(u.with_query(""), u);
    let v = Url::parse("http://example.com/p").unwrap();
    assert_eq!(v.with_query("").to_text(), "http://example.com/p");
}

#[test]
fn clone_of_a_url_is_equal_to_it() {
    let u = Url::parse("http://example.com/p?x=1#frag").unwrap();
    assert_eq!(u.clone(), u);
}
