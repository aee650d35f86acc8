use http_api_service::common::{PathParam, QueryParam, TextMap};
use http_api_service::header::{
    add_header_authentication, add_header_authentication_bearer, HeaderError, HeaderSet,
};
use http_api_service::locator::{append_query, resolve, sendable, UrlError};
use http_api_service::request::Request;
use http_api_service::simple_api::{build_request, headers_for, locate, ApiError};
use http_api_service::template::{compose_query, substitute};
use http_api_service::text::{chars_of, replace_all, string_of};
use std::str::FromStr;

fn map(entries: &[(&str, &str)]) -> TextMap {
    let mut m = TextMap::new();
    for (k, v) in entries {
        m.insert(k.to_string(), v.to_string());
    }
    m
}

fn entries(m: &TextMap) -> Vec<(String, String)> {
    let mut out = Vec::new();
    let mut i = 0;
    while let Some((k, v)) = m.get_at(i) {
        out.push((k.clone(), v.clone()));
        i += 1;
    }
    out
}

fn headers(h: &HeaderSet) -> Vec<(String, String)> {
    let mut out = Vec::new();
    let mut i = 0;
    while let Some((k, v)) = h.get_at(i) {
        out.push((k.clone(), v.clone()));
        i += 1;
    }
    out
}

fn pair(k: &str, v: &str) -> (String, String) {
    (k.to_string(), v.to_string())
}

fn build(
    base: &str,
    defaults: &Option<HeaderSet>,
    method: &str,
    relative: &str,
    content_type: &str,
    path: Option<PathParam>,
    query: Option<QueryParam>,
    body: &[u8],
) -> Result<Request, ApiError> {
    build_request(base, defaults, method.to_string(), relative, content_type, &path, &query, body.to_vec())
}

fn replace(s: &str, pat: &str, to: &str) -> String {
    string_of(&replace_all(&chars_of(s), &chars_of(pat), &chars_of(to)))
}

#[test]
fn text_round_trips_through_characters() {
    assert_eq!(chars_of("a/{b}é"), vec!['a', '/', '{', 'b', '}', 'é']);
    assert_eq!(string_of(&vec!['x', 'ÿ', '1']), "xÿ1");
    assert_eq!(string_of(&chars_of("")), "");
}

#[test]
fn replace_all_agrees_with_the_standard_replace() {
    let cases = [
        ("/products/{id}", "{id}", "3"),
        ("{id}{id}", "{id}", "ab"),
        ("aaaa", "aa", "b"),
        ("aaa", "aa", "b"),
        ("abc", "x", "y"),
        ("abc", "abcd", "y"),
        ("{{id}", "{id}", "id}"),
        ("", "a", "b"),
        ("abab", "ab", ""),
    ];
    for (s, pat, to) in cases {
        assert_eq!(replace(s, pat, to), s.replace(pat, to), "{} {} {}", s, pat, to);
    }
    assert_eq!(replace("aaaa", "aa", "b"), "bb");
    assert_eq!(replace("{{id}", "{id}", "id}"), "{id}");
    assert_eq!(replace("abc", "", "x"), "abc");
}

#[test]
fn every_placeholder_of_the_parameter_is_filled() {
    let filled = substitute("/a/{id}/b/{id}?x={id}", &map(&[("id", "7")]));
    assert_eq!(filled, "/a/7/b/7?x=7");
}

#[test]
fn other_placeholders_are_left_alone() {
    let filled = substitute("/{kind}/{id}/{other}", &map(&[("id", "3")]));
    assert_eq!(filled, "/{kind}/3/{other}");
    assert_eq!(substitute("/{Id}/{id }", &map(&[("id", "3")])), "/{Id}/{id }");
}

#[test]
fn parameters_are_filled_in_the_order_of_the_map() {
    let filled = substitute("/{a}/{b}", &map(&[("a", "{b}"), ("b", "x")]));
    assert_eq!(filled, "/x/x");
    let other = substitute("/{a}/{b}", &map(&[("b", "x"), ("a", "{b}")]));
    assert_eq!(other, "/{b}/x");
    assert_eq!(substitute("/plain", &TextMap::new()), "/plain");
}

#[test]
fn values_are_not_escaped() {
    assert_eq!(substitute("/f/{name}", &map(&[("name", "a b/c?d")])), "/f/a b/c?d");
}

#[test]
fn query_holds_every_parameter() {
    assert_eq!(compose_query(&TextMap::new()), "");
    assert_eq!(compose_query(&map(&[("soft", "true")])), "soft=true");
    assert_eq!(compose_query(&map(&[("a", "1"), ("b", "2"), ("c", "3")])), "a=1&b=2&c=3");
}

#[test]
fn last_write_for_a_key_wins() {
    let mut m = TextMap::new();
    assert_eq!(m.insert("a".to_string(), "1".to_string()), None);
    assert_eq!(m.insert("b".to_string(), "2".to_string()), None);
    assert_eq!(m.insert("a".to_string(), "3".to_string()), Some("1".to_string()));
    assert_eq!(m.len(), 2);
    assert!(!m.is_empty());
    assert_eq!(m.get("a"), Some(&"3".to_string()));
    assert_eq!(m.get("b"), Some(&"2".to_string()));
    assert_eq!(m.get("c"), None);
    assert!(m.contains_key("a"));
    assert!(!m.contains_key("A"));
    assert_eq!(entries(&m), vec![pair("a", "3"), pair("b", "2")]);
    assert_eq!(compose_query(&m), "a=3&b=2");
    assert_eq!(entries(&m.clone()), entries(&m));
    assert!(m.get_at(2).is_none());
}

#[test]
fn resolve_follows_the_rules_of_joining() {
    assert_eq!(resolve("http://localhost:3400", "/products/3").unwrap(), "http://localhost:3400/products/3");
    assert_eq!(resolve("https://example.net/a/b.html", "c.png").unwrap(), "https://example.net/a/c.png");
    assert_eq!(resolve("https://example.net/a/b/", "c.png").unwrap(), "https://example.net/a/b/c.png");
    assert_eq!(resolve("https://alice.com/a", "http://eve.com/b").unwrap(), "http://eve.com/b");
    assert_eq!(resolve("http://localhost", "").unwrap(), "http://localhost/");
    assert!(matches!(resolve("localhost", "/x"), Err(UrlError::Base(_))));
    assert!(matches!(resolve("", "http://h/x"), Err(UrlError::Base(_))));
    assert!(matches!(resolve("http://localhost", "http://[::1"), Err(UrlError::Resolve(_))));
}

#[test]
fn append_query_keeps_what_the_query_string_holds() {
    assert_eq!(append_query("http://h/p", "a=1&b=2").unwrap(), "http://h/p?a=1&b=2");
    assert_eq!(append_query("http://h/p?old=1#frag", "new=2").unwrap(), "http://h/p?old=1&new=2#frag");
    assert_eq!(append_query("http://h/p?", "new=2").unwrap(), "http://h/p?new=2");
    assert_eq!(append_query("http://h/p", "a=b c").unwrap(), "http://h/p?a=b%20c");
    assert_eq!(append_query("http://h/p?x=%20y", "a=b").unwrap(), "http://h/p?x=%20y&a=b");
    assert!(matches!(append_query("not a url", "a=1"), Err(UrlError::Query(_))));
}

#[test]
fn sendable_asks_for_a_uri() {
    assert!(sendable("http://localhost:3400/products/3?soft=true").is_ok());
    assert!(matches!(sendable(""), Err(UrlError::Uri(_))));
    assert!(matches!(sendable("http://h/a b"), Err(UrlError::Uri(_))));
}

#[test]
fn delete_with_path_and_query_parameters() {
    let request = build(
        "http://localhost:3400",
        &None,
        "DELETE",
        "/products/{id}",
        "",
        Some(map(&[("id", "3")])),
        Some(map(&[("soft", "true")])),
        b"",
    )
    .unwrap();
    assert_eq!(request.method, "DELETE");
    assert_eq!(request.uri, "http://localhost:3400/products/3?soft=true");
    let uri = http::Uri::from_str(&request.uri).unwrap();
    assert_eq!(uri.path_and_query().unwrap().as_str(), "/products/3?soft=true");
    assert_eq!(request.headers.len(), 0);
    assert!(request.body.is_empty());
}

#[test]
fn several_query_parameters_are_all_kept() {
    let uri = locate(
        "http://localhost:3400",
        "/search",
        &None,
        &Some(map(&[("q", "rust"), ("page", "2"), ("soft", "true")])),
    )
    .unwrap();
    assert_eq!(uri, "http://localhost:3400/search?q=rust&page=2&soft=true");
    let parsed = url::Url::parse(&uri).unwrap();
    let mut seen: Vec<(String, String)> =
        parsed.query_pairs().map(|(k, v)| (k.into_owned(), v.into_owned())).collect();
    seen.sort();
    assert_eq!(seen, vec![pair("page", "2"), pair("q", "rust"), pair("soft", "true")]);
}

#[test]
fn an_empty_query_map_sets_no_query() {
    let uri = locate("http://localhost:3400", "/a?keep=1", &None, &Some(TextMap::new())).unwrap();
    assert_eq!(uri, "http://localhost:3400/a?keep=1");
    let appended = locate("http://localhost:3400", "/a?keep=1", &None, &Some(map(&[("x", "y")]))).unwrap();
    assert_eq!(appended, "http://localhost:3400/a?keep=1&x=y");
}

#[test]
fn relative_template_without_slash_joins_to_the_base_path() {
    assert_eq!(locate("http://h/api/v1/", "items/{id}", &Some(map(&[("id", "9")])), &None).unwrap(), "http://h/api/v1/items/9");
    assert_eq!(locate("http://h/api/v1", "items", &None, &None).unwrap(), "http://h/api/items");
    assert_eq!(locate("http://h/api/v1", "/items", &None, &None).unwrap(), "http://h/items");
    assert_eq!(locate("http://h/api", "https://other/x", &None, &None).unwrap(), "https://other/x");
}

#[test]
fn url_errors_are_told_apart() {
    let bad_base = build("nonsense", &None, "GET", "/x", "", None, None, b"");
    assert!(matches!(bad_base, Err(ApiError::Url(UrlError::Base(_)))));
    let bad_reference = build("http://h", &None, "GET", "//[", "", None, None, b"");
    assert!(matches!(bad_reference, Err(ApiError::Url(UrlError::Resolve(_)))));
    let long = "a".repeat(70000);
    let too_long_for_a_uri = build("http://h", &None, "GET", &long, "", None, None, b"");
    assert!(matches!(too_long_for_a_uri, Err(ApiError::Url(UrlError::Uri(_)))));
    let huge = "b".repeat(0x400_0001);
    let too_long = locate("http://h", "/x", &None, &Some(map(&[("k", &huge)])));
    assert!(matches!(too_long, Err(UrlError::TooLong)));
}

#[test]
fn url_error_comes_before_header_error() {
    let both = build("nonsense", &None, "GET", "/x", "bad\nvalue", None, None, b"");
    assert!(matches!(both, Err(ApiError::Url(_))));
    let header_only = build("http://h", &None, "GET", "/x", "bad\nvalue", None, None, b"");
    assert!(matches!(header_only, Err(ApiError::Header(HeaderError::Value(_)))));
}

#[test]
fn content_type_is_set_over_the_default_headers() {
    let mut defaults = HeaderSet::new();
    defaults.insert("Authorization", "Bearer MY_TOKEN").unwrap();
    defaults.insert("Content-Type", "text/plain").unwrap();
    defaults.insert("X-Mode", "test").unwrap();
    let request = build(
        "http://localhost:3400",
        &Some(defaults),
        "PUT",
        "/products/{id}",
        "application/json",
        Some(map(&[("id", "5")])),
        None,
        b"{}",
    )
    .unwrap();
    assert_eq!(
        headers(&request.headers),
        vec![
            pair("authorization", "Bearer MY_TOKEN"),
            pair("content-type", "application/json"),
            pair("x-mode", "test"),
        ]
    );
    assert_eq!(request.uri, "http://localhost:3400/products/5");
    assert_eq!(request.body, b"{}");
    assert_eq!(request.method, "PUT");
}

#[test]
fn empty_content_type_sets_no_header() {
    let plain = headers_for(&None, "").unwrap();
    assert_eq!(plain.len(), 0);
    let typed = headers_for(&None, "application/json").unwrap();
    assert_eq!(headers(&typed), vec![pair("content-type", "application/json")]);
    assert_eq!(typed.get_content_type(), Some(&"application/json".to_string()));
    assert_eq!(plain.get_content_type(), None);
}

#[test]
fn header_names_are_normalised_and_values_checked() {
    let mut h = HeaderSet::new();
    h.insert("X-Trace", "abc").unwrap();
    h.insert("x-trace", "def").unwrap();
    h.insert("Accept", "a\tb").unwrap();
    assert_eq!(headers(&h), vec![pair("x-trace", "def"), pair("accept", "a\tb")]);
    assert_eq!(h.get("X-TRACE"), Some(&"def".to_string()));
    assert_eq!(h.get("missing"), None);
    assert_eq!(h.get("bad name"), None);
    assert!(matches!(h.insert("bad name", "v"), Err(HeaderError::Name(_))));
    assert!(matches!(h.insert("", "v"), Err(HeaderError::Name(_))));
    assert!(matches!(h.insert("ok", "line\r\nbreak"), Err(HeaderError::Value(_))));
    assert!(matches!(h.insert("bad name", "bad\u{7f}"), Err(HeaderError::Value(_))));
    assert!(h.insert("utf", "grüße").is_ok());
    assert_eq!(h.len(), 3);
    assert_eq!(headers(&h.clone()), headers(&h));
}

#[test]
fn call_headers_are_merged_over_defaults() {
    let defaults = add_header_authentication_bearer(HeaderSet::new(), "MY_TOKEN".to_string()).unwrap();
    let mut call = HeaderSet::new();
    call.insert("X-Trace", "abc").unwrap();
    let mut merged = defaults.clone();
    merged.merge(&call);
    assert_eq!(
        headers(&merged),
        vec![pair("authorization", "Bearer MY_TOKEN"), pair("x-trace", "abc")]
    );
    let mut overriding = HeaderSet::new();
    overriding.insert("Authorization", "Basic xyz").unwrap();
    overriding.insert("X-Trace", "1").unwrap();
    let mut second = merged.clone();
    second.merge(&overriding);
    assert_eq!(
        headers(&second),
        vec![pair("authorization", "Basic xyz"), pair("x-trace", "1")]
    );
    let mut untouched = merged.clone();
    untouched.merge(&HeaderSet::new());
    assert_eq!(headers(&untouched), headers(&merged));
}

#[test]
fn authentication_helpers_set_the_authorization_header() {
    let raw = add_header_authentication(HeaderSet::new(), "secret".to_string()).unwrap();
    assert_eq!(headers(&raw), vec![pair("authorization", "secret")]);
    let bearer = add_header_authentication_bearer(raw, "MY_TOKEN".to_string()).unwrap();
    assert_eq!(headers(&bearer), vec![pair("authorization", "Bearer MY_TOKEN")]);
    assert_eq!(bearer.get("Authorization"), Some(&"Bearer MY_TOKEN".to_string()));
    assert!(matches!(
        add_header_authentication(HeaderSet::new(), "a\nb".to_string()),
        Err(HeaderError::Value(_))
    ));
    assert!(matches!(
        add_header_authentication_bearer(HeaderSet::new(), "a\0b".to_string()),
        Err(HeaderError::Value(_))
    ));
}

#[test]
fn new_request_is_a_get_for_the_root() {
    let request = Request::new(b"x".to_vec());
    assert_eq!(request.method, "GET");
    assert_eq!(request.uri, "/");
    assert_eq!(request.headers.len(), 0);
    assert_eq!(request.body, b"x");
}

#[test]
fn parameters_without_a_placeholder_change_nothing() {
    assert_eq!(substitute("/a/{id}/b", &map(&[("x", "1"), ("id", "3"), ("y", "2")])), "/a/3/b");
    assert_eq!(substitute("/a/b", &map(&[("x", "1"), ("y", "2")])), "/a/b");
    assert_eq!(substitute("/{kind}/x{id}y/{kind}", &map(&[("id", "3")])), "/{kind}/x3y/{kind}");
}

#[test]
fn a_value_can_complete_the_placeholder_of_a_later_parameter() {
    assert_eq!(substitute("/{{k}}", &map(&[("k", "j"), ("j", "x")])), "/x");
    assert_eq!(substitute("/{{k}}", &map(&[("j", "x"), ("k", "j")])), "/{j}");
    assert_eq!(substitute("/{{k}}", &map(&[("k", "k")])), "/{k}");
}
