use teatime::error::{ClientError, ErrorKind};
use teatime::http::{RawHeader, Response};
use teatime::pagination::{autopagination, next_page_uri, Paging};
use teatime::uri::{AbsoluteUrl, RequestTarget};

fn value(text: &str) -> serde_json::Value {
    serde_json::from_str(text).unwrap()
}

fn absolute(text: &str) -> RequestTarget {
    RequestTarget::AbsoluteUrl(AbsoluteUrl::parse(text).unwrap())
}

fn page(body: &str, next: Option<&str>) -> Response {
    let headers = match next {
        Some(url) => vec![RawHeader {
            name: "Link".to_string(),
            value: format!("<https://h/items?page=1>; rel=\"first\", <{}>; rel=\"next\"", url).into_bytes(),
        }],
        None => Vec::new(),
    };
    Response { status: 200, headers, body: body.as_bytes().to_vec() }
}

fn target_text(state: &Paging) -> String {
    match state.target() {
        Some(RequestTarget::AbsoluteUrl(url)) => url.as_str().to_string(),
        Some(RequestTarget::RelativePath(path)) => path.clone(),
        None => panic!("the walk has ended"),
    }
}

#[test]
fn walk_over_pages_returns_them_in_request_order() {
    for n in 1..6usize {
        let mut state = autopagination(RequestTarget::RelativePath("/items".to_string()));
        let mut requested = vec![target_text(&state)];
        for i in 1..=n {
            let body = format!("[{}]", i);
            let next = if i < n { Some(format!("https://h/items?page={}", i + 1)) } else { None };
            state = state.on_response(Ok(page(&body, next.as_deref())));
            if i < n {
                requested.push(target_text(&state));
            }
        }
        assert!(state.target().is_none());
        let expected_requests: Vec<String> = (1..=n)
            .map(|i| if i == 1 { "/items".to_string() } else { format!("https://h/items?page={}", i) })
            .collect();
        assert_eq!(requested, expected_requests);
        let expected: Vec<serde_json::Value> = (1..=n).map(|i| value(&format!("[{}]", i))).collect();
        assert_eq!(state, Paging::Done { pages: expected.clone() });
        assert_eq!(state.into_result(), Some(Ok(serde_json::Value::Array(expected))));
    }
}

#[test]
fn single_page_without_link_header() {
    let state = autopagination(RequestTarget::RelativePath("/items".to_string()));
    let state = state.on_response(Ok(page(r#"{"only": true}"#, None)));
    assert_eq!(state, Paging::Done { pages: vec![value(r#"{"only":true}"#)] });
    assert_eq!(state.into_result(), Some(Ok(value(r#"[{"only":true}]"#))));
}

#[test]
fn link_header_without_next_ends_the_walk() {
    let response = Response {
        status: 200,
        headers: vec![RawHeader { name: "link".to_string(), value: b"<https://h/items?page=1>; rel=\"prev\"".to_vec() }],
        body: b"[2]".to_vec(),
    };
    let state = autopagination(absolute("https://h/items?page=2")).on_response(Ok(response));
    assert_eq!(state, Paging::Done { pages: vec![value("[2]")] });
}

#[test]
fn walk_under_way_has_no_result() {
    let state = autopagination(RequestTarget::RelativePath("/items".to_string()));
    assert_eq!(state.into_result(), None);
    let state = autopagination(RequestTarget::RelativePath("/items".to_string()))
        .on_response(Ok(page("[1]", Some("https://h/items?page=2"))));
    assert_eq!(target_text(&state), "https://h/items?page=2");
    assert_eq!(state.into_result(), None);
}

#[test]
fn empty_body_is_an_empty_page() {
    let state = autopagination(RequestTarget::RelativePath("/items".to_string()))
        .on_response(Ok(page("", None)));
    assert_eq!(state.into_result(), Some(Ok(value("[[]]"))));
}

#[test]
fn failure_on_a_later_page_gives_up_the_earlier_ones() {
    let state = autopagination(RequestTarget::RelativePath("/items".to_string()))
        .on_response(Ok(page("[1]", Some("https://h/items?page=2"))))
        .on_response(Ok(page("<html>", Some("https://h/items?page=3"))));
    assert!(state.target().is_none());
    match state.into_result() {
        Some(Err(error)) => {
            assert_eq!(error.kind(), ErrorKind::Decode);
            assert_eq!(error.description(), "Failed to parse JSON: <html>");
        },
        other => panic!("unexpected result: {:?}", other),
    }
}

#[test]
fn transport_error_ends_the_walk_as_it_is() {
    let state = autopagination(RequestTarget::RelativePath("/items".to_string()))
        .on_response(Ok(page("[1]", Some("https://h/items?page=2"))))
        .on_response(Err(ClientError::new(ErrorKind::Transport, "connection refused")));
    assert_eq!(state, Paging::Failed { error: ClientError::new(ErrorKind::Transport, "connection refused") });
    assert_eq!(state.into_result(), Some(Err(ClientError::new(ErrorKind::Transport, "connection refused"))));
}

#[test]
fn body_is_judged_before_the_link_header() {
    let response = Response {
        status: 200,
        headers: vec![RawHeader { name: "Link".to_string(), value: b"garbage".to_vec() }],
        body: b"not json".to_vec(),
    };
    let state = autopagination(RequestTarget::RelativePath("/items".to_string())).on_response(Ok(response));
    match state {
        Paging::Failed { error } => assert_eq!(error.kind(), ErrorKind::Decode),
        other => panic!("unexpected state: {:?}", other),
    }
}

#[test]
fn malformed_link_header_is_a_parse_error() {
    let response = Response {
        status: 200,
        headers: vec![RawHeader { name: "Link".to_string(), value: b"garbage".to_vec() }],
        body: b"[1]".to_vec(),
    };
    let error = next_page_uri(&response).unwrap_err();
    assert_eq!(error.kind(), ErrorKind::Parse);
    assert_eq!(error.description(), "malformed Link header: garbage");
    let state = autopagination(RequestTarget::RelativePath("/items".to_string())).on_response(Ok(response));
    assert_eq!(
        state,
        Paging::Failed { error: ClientError::new(ErrorKind::Parse, "malformed Link header: garbage") }
    );
}

#[test]
fn ended_walk_takes_no_more_responses() {
    let done = autopagination(RequestTarget::RelativePath("/items".to_string()))
        .on_response(Ok(page("[1]", None)));
    let still = done.on_response(Ok(page("[2]", Some("https://h/items?page=3"))));
    assert_eq!(still, Paging::Done { pages: vec![value("[1]")] });
    let still = still.on_response(Err(ClientError::new(ErrorKind::Transport, "late")));
    assert_eq!(still, Paging::Done { pages: vec![value("[1]")] });
    let still = still.advance(Ok(value("[3]")), Ok(None));
    assert_eq!(still, Paging::Done { pages: vec![value("[1]")] });

    let failed = autopagination(RequestTarget::RelativePath("/items".to_string()))
        .on_response(Err(ClientError::new(ErrorKind::Transport, "down")));
    let still = failed.on_response(Ok(page("[2]", None)));
    assert_eq!(still, Paging::Failed { error: ClientError::new(ErrorKind::Transport, "down") });
}

#[test]
fn advance_with_what_the_caller_found() {
    let state = autopagination(RequestTarget::RelativePath("/a".to_string()));
    let state = state.advance(Ok(value("1")), Ok(Some(RequestTarget::RelativePath("/b".to_string()))));
    assert_eq!(
        state,
        Paging::Fetching { target: RequestTarget::RelativePath("/b".to_string()), pages: vec![value("1")] }
    );
    let state = state.advance(Ok(value("2")), Err(ClientError::new(ErrorKind::Parse, "bad header")));
    assert_eq!(state, Paging::Failed { error: ClientError::new(ErrorKind::Parse, "bad header") });

    let state = autopagination(RequestTarget::RelativePath("/a".to_string()))
        .advance(Err(ClientError::new(ErrorKind::Decode, "bad body")), Ok(None));
    assert_eq!(state, Paging::Failed { error: ClientError::new(ErrorKind::Decode, "bad body") });
}

#[test]
fn next_page_of_a_response() {
    assert_eq!(next_page_uri(&page("[]", None)), Ok(None));
    assert_eq!(
        next_page_uri(&page("[]", Some("https://h/items?page=2"))),
        Ok(Some(absolute("https://h/items?page=2")))
    );
    assert_eq!(
        next_page_uri(&page("[]", Some("/items?page=2"))),
        Ok(Some(RequestTarget::RelativePath("/items?page=2".to_string())))
    );
    assert_eq!(next_page_uri(&page("[]", Some("items?page=2"))), Ok(None));
    let two_lines = Response {
        status: 200,
        headers: vec![
            RawHeader { name: "Link".to_string(), value: b"<https://h/a>; rel=\"next\"".to_vec() },
            RawHeader { name: "Link".to_string(), value: b"<https://h/b>; rel=\"next\"".to_vec() },
        ],
        body: Vec::new(),
    };
    let error = next_page_uri(&two_lines).unwrap_err();
    assert_eq!(error.kind(), ErrorKind::Parse);
    assert_eq!(
        error.description(),
        "Link header must have exactly one line; <https://h/a>; rel=\"next\"; <https://h/b>; rel=\"next\""
    );
}
