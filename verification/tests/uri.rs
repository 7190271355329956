use std::str::FromStr;
use teatime::error::ErrorKind;
use teatime::uri::{join_path, join_text, resolve, AbsoluteUrl, RequestTarget};

fn url(text: &str) -> AbsoluteUrl {
    AbsoluteUrl::parse(text).unwrap()
}

fn relative(path: &str) -> RequestTarget {
    RequestTarget::RelativePath(path.to_string())
}

#[test]
fn resolve_relative_path_under_base() {
    let resolved = resolve(&url("https://h/api/"), relative("/v1/items")).unwrap();
    assert_eq!(resolved.as_str(), "https://h/api/v1/items");
}

#[test]
fn join_text_exact_values() {
    assert_eq!(join_text("https://h/api/", "/v1/items").unwrap(), "https://h/api/v1/items");
    assert_eq!(join_text("https://h/api", "/v1/items").unwrap(), "https://h/api/v1/items");
    assert_eq!(join_text("https://h/api", "v1/items").unwrap(), "https://h/api/v1/items");
    assert_eq!(join_text("https://h/api/", "v1/items").unwrap(), "https://h/api/v1/items");
    assert_eq!(join_text("", "x").unwrap(), "/x");
}

#[test]
fn only_one_leading_separator_is_stripped() {
    assert_eq!(join_text("https://h/api", "//v1").unwrap(), "https://h/api//v1");
    let resolved = resolve(&url("https://h/api"), relative("//v1")).unwrap();
    assert_eq!(resolved.as_str(), "https://h/api//v1");
}

#[test]
fn base_ends_with_exactly_one_separator() {
    assert_eq!(join_text("https://h/api//", "v1").unwrap(), "https://h/api/v1");
    assert_eq!(join_text("https://h/api///", "/v1").unwrap(), "https://h/api/v1");
    assert_eq!(join_text("//", "v1").unwrap(), "/v1");
    let resolved = resolve(&url("https://h/api//"), relative("v1")).unwrap();
    assert_eq!(resolved.as_str(), "https://h/api/v1");
}

#[test]
fn trailing_separator_of_base_does_not_matter() {
    for path in ["/v1/items", "v1/items", "x", "/x?page=2&per_page=3"] {
        let without = resolve(&url("https://h/api"), relative(path)).unwrap();
        let with = resolve(&url("https://h/api/"), relative(path)).unwrap();
        assert_eq!(without, with);
        assert_eq!(without.as_str(), with.as_str());
    }
    let without = resolve(&url("https://h/api"), relative("/"));
    let with = resolve(&url("https://h/api/"), relative("/"));
    assert_eq!(without, with);
}

#[test]
fn absolute_target_ignores_base() {
    let first = resolve(&url("https://h/api/"), RequestTarget::AbsoluteUrl(url("https://other/x?page=2"))).unwrap();
    let second = resolve(&url("http://elsewhere:8080"), RequestTarget::AbsoluteUrl(url("https://other/x?page=2"))).unwrap();
    assert_eq!(first, second);
    assert_eq!(first.as_str(), "https://other/x?page=2");
}

#[test]
fn empty_relative_path_is_an_invalid_target() {
    for path in ["", "/"] {
        let error = resolve(&url("https://h/api/"), relative(path)).unwrap_err();
        assert_eq!(error.kind(), ErrorKind::InvalidTarget);
        assert_eq!(error.description(), "relative target is empty");
        let error = join_text("https://h/api/", path).unwrap_err();
        assert_eq!(error.kind(), ErrorKind::InvalidTarget);
    }
}

#[test]
fn join_path_onto_host_without_path() {
    let joined = join_path(&url("https://h"), "v1").unwrap();
    assert_eq!(joined.as_str(), "https://h/v1");
}

#[test]
fn join_is_only_for_a_path_onto_a_url() {
    let base = RequestTarget::AbsoluteUrl(url("https://h/api"));
    let joined = base.join(&relative("/v1/items")).unwrap();
    assert_eq!(joined.as_str(), "https://h/api/v1/items");

    let error = base.join(&RequestTarget::AbsoluteUrl(url("https://other/"))).unwrap_err();
    assert_eq!(error.kind(), ErrorKind::Configuration);
    assert_eq!(error.description(), "only a relative path can be joined onto an absolute URL");

    let error = relative("/a").join(&relative("/b")).unwrap_err();
    assert_eq!(error.kind(), ErrorKind::Configuration);
    let error = relative("/a").join(&base).unwrap_err();
    assert_eq!(error.kind(), ErrorKind::Configuration);

    let error = base.join(&relative("/")).unwrap_err();
    assert_eq!(error.kind(), ErrorKind::InvalidTarget);
}

#[test]
fn parse_refuses_what_is_no_absolute_url() {
    let error = AbsoluteUrl::parse("").unwrap_err();
    assert_eq!(error.kind(), ErrorKind::Configuration);
    assert_eq!(error.description(), "empty Uri string");

    let error = AbsoluteUrl::parse("https://").unwrap_err();
    assert_eq!(error.kind(), ErrorKind::Configuration);
    assert_eq!(error.description(), "absolute Uri missing authority segment");

    let error = AbsoluteUrl::parse("v1/items").unwrap_err();
    assert_eq!(error.kind(), ErrorKind::Configuration);
    assert_eq!(error.description(), "invalid character in Uri authority");

    let error = AbsoluteUrl::parse("/v1/items").unwrap_err();
    assert_eq!(error.kind(), ErrorKind::Configuration);
    assert_eq!(error.description(), "URI is not in absolute form");

    let error = AbsoluteUrl::parse("localhost").unwrap_err();
    assert_eq!(error.kind(), ErrorKind::Configuration);
    assert_eq!(error.description(), "URI is not in absolute form");
}

#[test]
fn absolute_urls_hold_a_scheme_separator_and_begin_with_no_slash() {
    assert!(AbsoluteUrl::parse("https://h").is_ok());
    assert!(AbsoluteUrl::parse("a:b://c").is_ok());
    assert!(AbsoluteUrl::parse("x://y").is_ok());
    assert!(AbsoluteUrl::parse("/https://h").is_err());
    assert!(AbsoluteUrl::parse("https:/h").is_err());
    assert!(AbsoluteUrl::parse("h:80").is_err());
    assert!(AbsoluteUrl::parse("*").is_err());
    assert!(AbsoluteUrl::parse("/").is_err());
    assert!(hyper::Uri::from_str("/a://b").unwrap().is_absolute() == false);
    assert!(hyper::Uri::from_str("://b").unwrap().is_absolute());
}

#[test]
fn from_parsed_takes_the_parse_result() {
    let parsed = AbsoluteUrl::from_parsed(hyper::Uri::from_str("https://h/x")).unwrap();
    assert_eq!(parsed.as_str(), "https://h/x");
    assert_eq!(parsed.as_uri(), &hyper::Uri::from_str("https://h/x").unwrap());
    assert!(AbsoluteUrl::from_parsed(hyper::Uri::from_str("/x")).is_err());
    assert!(AbsoluteUrl::from_parsed(hyper::Uri::from_str("")).is_err());
}

#[test]
fn unbalanced_bracket_in_the_authority_is_refused() {
    let error = AbsoluteUrl::parse("https://[h/api").unwrap_err();
    assert_eq!(error.kind(), ErrorKind::Configuration);
    assert_eq!(error.description(), "invalid character in Uri authority");
}

#[test]
fn target_of_a_parsed_uri() {
    let absolute = RequestTarget::from_uri(hyper::Uri::from_str("https://h/x?page=2").unwrap());
    assert_eq!(absolute, RequestTarget::AbsoluteUrl(url("https://h/x?page=2")));
    let path = RequestTarget::from_uri(hyper::Uri::from_str("/v1/items").unwrap());
    assert_eq!(path, relative("/v1/items"));
}

#[test]
fn origin_is_scheme_and_authority() {
    assert_eq!(url("https://gitlab.example.com/api/v4").origin().unwrap(), "https://gitlab.example.com");
    assert_eq!(url("http://127.0.0.1:8200").origin().unwrap(), "http://127.0.0.1:8200");
    assert_eq!(url("https://user:pw@h:1/a/b?c=d#e").origin().unwrap(), "https://user:pw@h:1");
}

#[test]
fn origin_needs_a_readable_authority() {
    let odd = url("a:\u{20ac}://x");
    let error = odd.origin().unwrap_err();
    assert_eq!(error.kind(), ErrorKind::Configuration);
    assert_eq!(error.description(), "Invalid base URI");
}
