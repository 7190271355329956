//! Requests and responses as the framework sees them: plain values that a
//! transport turns into one round trip over the network.

use crate::error::{ClientError, ClientErrorView};
use crate::text::{chars_of, decimal, decimal_text, lines_view, text_view};
use crate::uri::AbsoluteUrl;
use vstd::prelude::*;
use vstd::string::StringExecFns;
use vstd::utf8::encode_utf8;

verus! {

/// The method of a request.
#[derive(Debug, PartialEq, Eq)]
pub enum Method {
    Options,
    Get,
    Post,
    Put,
    Delete,
    Head,
    Trace,
    Connect,
    Patch,
    /// A method that has no variant of its own, by its name.
    Extension(String),
}

/// A header of a request: its name and its value.
#[derive(Debug, PartialEq, Eq)]
pub struct Header {
    pub name: String,
    pub value: String,
}

/// A `Header` as contracts see it.
pub struct HeaderView {
    pub name: Seq<char>,
    pub value: Seq<char>,
}

impl View for Header {
    type V = HeaderView;

    open spec fn view(&self) -> HeaderView {
        HeaderView { name: self.name@, value: self.value@ }
    }
}

/// The headers of a request as contracts see them.
pub open spec fn headers_view(headers: Seq<Header>) -> Seq<HeaderView> {
    Seq::new(headers.len(), |i: int| headers[i]@)
}

/// A request that is ready to be sent: the transport adds nothing to it.
#[derive(Debug, PartialEq, Eq)]
pub struct Request {
    pub method: Method,
    pub uri: AbsoluteUrl,
    pub headers: Vec<Header>,
    pub body: Option<String>,
}

/// A `Request` as contracts see it.
pub struct RequestView {
    pub method: Method,
    pub uri: hyper::Uri,
    pub headers: Seq<HeaderView>,
    pub body: Option<Seq<char>>,
}

impl View for Request {
    type V = RequestView;

    open spec fn view(&self) -> RequestView {
        RequestView {
            method: self.method,
            uri: self.uri.uri(),
            headers: headers_view(self.headers@),
            body: text_view(self.body),
        }
    }
}

/// The header that declares a JSON body.
pub open spec fn content_type_json() -> HeaderView {
    HeaderView { name: "Content-Type"@, value: "application/json"@ }
}

/// The header that carries an OAuth bearer token.
pub open spec fn bearer(token: Seq<char>) -> HeaderView {
    HeaderView { name: "Authorization"@, value: "Bearer "@ + token }
}

/// The header that gives the length of the body in bytes: 0 where there is
/// no body.
pub open spec fn content_length(body: Option<Seq<char>>) -> HeaderView {
    HeaderView {
        name: "Content-Length"@,
        value: decimal_text(
            match body {
                Some(text) => encode_utf8(text).len(),
                None => 0,
            },
        ),
    }
}

/// A header with the given name and value.
pub fn header(name: &str, value: &str) -> (h: Header)
    ensures
        h@ == (HeaderView { name: name@, value: value@ }),
{
    Header { name: name.to_owned(), value: value.to_owned() }
}

/// The header that declares a JSON body.
pub fn json_content_type() -> (h: Header)
    ensures
        h@ == content_type_json(),
{
    header("Content-Type", "application/json")
}

/// The header that carries an OAuth bearer token.
pub fn bearer_header(token: &str) -> (h: Header)
    ensures
        h@ == bearer(token@),
{
    let mut value: String = "Bearer ".to_owned();
    value.append(token);
    Header { name: "Authorization".to_owned(), value }
}

/// The header that gives the length of the body in bytes.
pub fn content_length_header(body: Option<&String>) -> (h: Header)
    ensures
        h@ == content_length(
            match body {
                Some(text) => Some(text@),
                None => None,
            },
        ),
{
    let length: usize = match body {
        Some(text) => text.as_str().as_bytes().len(),
        None => 0,
    };
    Header { name: "Content-Length".to_owned(), value: decimal(length) }
}

/// One line of a response header, as it came over the wire.
#[derive(Debug, PartialEq, Eq)]
pub struct RawHeader {
    pub name: String,
    pub value: Vec<u8>,
}

/// A response as the transport hands it over.
#[derive(Debug, PartialEq, Eq)]
pub struct Response {
    pub status: u16,
    pub headers: Vec<RawHeader>,
    pub body: Vec<u8>,
}

/// An answer of the transport as contracts see it.
pub open spec fn answer_view(r: Result<Response, ClientError>) -> Result<Response, ClientErrorView> {
    match r {
        Ok(response) => Ok(response),
        Err(e) => Err(e@),
    }
}

/// A prepared request, or the error that kept it from being made, as
/// contracts see them.
pub open spec fn request_outcome(r: Result<Request, ClientError>) -> Result<
    RequestView,
    ClientErrorView,
> {
    match r {
        Ok(request) => Ok(request@),
        Err(e) => Err(e@),
    }
}

/// What a login hands back, as contracts see it: the request to send, if
/// one has to be sent.
pub open spec fn step_outcome(r: Result<Option<Request>, ClientError>) -> Result<
    Option<RequestView>,
    ClientErrorView,
> {
    match r {
        Ok(Some(request)) => Ok(Some(request@)),
        Ok(None) => Ok(None),
        Err(e) => Err(e@),
    }
}

/// `c` in lower case where it is an ASCII capital, else `c` itself.
pub open spec fn ascii_lower(c: char) -> char {
    if 'A' <= c && c <= 'Z' {
        ((c as u8) + 32) as char
    } else {
        c
    }
}

/// Whether two header names are the same: the case of ASCII letters does not
/// count.
pub open spec fn same_name(a: Seq<char>, b: Seq<char>) -> bool {
    a.len() == b.len() && forall|i: int| 0 <= i < a.len() ==> ascii_lower(a[i]) == ascii_lower(b[i])
}

/// The lines of the headers with the name `name`, in their order.
pub open spec fn lines_named(headers: Seq<RawHeader>, name: Seq<char>) -> Seq<Seq<u8>>
    decreases headers.len(),
{
    if headers.len() == 0 {
        Seq::empty()
    } else if same_name(headers.last().name@, name) {
        lines_named(headers.drop_last(), name).push(headers.last().value@)
    } else {
        lines_named(headers.drop_last(), name)
    }
}

/// `c` in lower case where it is an ASCII capital, else `c` itself.
fn to_ascii_lower(c: char) -> (lower: char)
    ensures
        lower == ascii_lower(c),
{
    if 'A' <= c && c <= 'Z' {
        ((c as u8) + 32) as char
    } else {
        c
    }
}

/// Whether two header names are the same but for the case of ASCII letters.
pub fn names_match(a: &str, b: &str) -> (same: bool)
    ensures
        same == same_name(a@, b@),
{
    let left: Vec<char> = chars_of(a);
    let right: Vec<char> = chars_of(b);
    if left.len() != right.len() {
        return false;
    }
    let mut i: usize = 0;
    while i < left.len()
        invariant
            i <= left.len(),
            left.len() == right.len(),
            left@ == a@,
            right@ == b@,
            forall|j: int| 0 <= j < i ==> ascii_lower(left@[j]) == ascii_lower(right@[j]),
        decreases left.len() - i,
    {
        if to_ascii_lower(left[i]) != to_ascii_lower(right[i]) {
            return false;
        }
        i += 1;
    }
    true
}

impl Response {
    /// The lines of the headers with the name `name`, in their order.
    pub fn header_lines(&self, name: &str) -> (lines: Vec<Vec<u8>>)
        ensures
            lines_view(lines@) == lines_named(self.headers@, name@),
    {
        let mut lines: Vec<Vec<u8>> = Vec::new();
        let mut i: usize = 0;
        assert(self.headers@.take(0) =~= Seq::<RawHeader>::empty());
        assert(lines_view(lines@) =~= Seq::<Seq<u8>>::empty());
        while i < self.headers.len()
            invariant
                i <= self.headers.len(),
                lines_view(lines@) == lines_named(self.headers@.take(i as int), name@),
            decreases self.headers.len() - i,
        {
            let ghost before = lines_view(lines@);
            assert(self.headers@.take(i + 1).drop_last() =~= self.headers@.take(i as int));
            if names_match(self.headers[i].name.as_str(), name) {
                lines.push(self.headers[i].value.clone());
                assert(lines_view(lines@) =~= before.push(self.headers@[i as int].value@));
            }
            i += 1;
        }
        assert(self.headers@.take(i as int) =~= self.headers@);
        lines
    }
}

} // verus!
