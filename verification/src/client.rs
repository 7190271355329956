//! What a binding to one API supplies, and what the framework makes of it.
//!
//! A binding knows its base URI, how to log in and which headers its
//! requests carry. The framework resolves the target of a request against
//! the base URI, lets the binding decorate the request and hands it back
//! ready to be sent; it walks through the pages of a collection with what
//! the binding says of the page that follows.

use crate::credentials::ApiCredentials;
use crate::error::{ClientError, ClientErrorView};
use crate::http::{
    answer_view, headers_view, request_outcome, Header, HeaderView, Method, Request,
    RequestView, Response,
};
use crate::json::response_to_json;
use crate::pagination::{continuation_view, respond_spec, start_spec, Paging};
use crate::text::{text_view, text_view_ref};
use crate::uri::{resolve, resolve_spec, url_outcome, AbsoluteUrl, RequestTarget, RequestTargetView};
use vstd::prelude::*;

verus! {

/// The request for `target` with the given headers, or the error that keeps
/// it from being made: the target is resolved against the base URI.
pub open spec fn prepared(
    base: Seq<char>,
    headers: Seq<HeaderView>,
    method: Method,
    target: RequestTargetView,
    body: Option<Seq<char>>,
) -> Result<RequestView, ClientErrorView> {
    match resolve_spec(base, target) {
        Ok(uri) => Ok(RequestView { method, uri, headers, body }),
        Err(e) => Err(e),
    }
}

/// A client of one API, without its transport.
pub trait ApiClient: Sized {
    /// The base URI, onto which relative targets are joined. A login does
    /// not change it.
    spec fn base(&self) -> AbsoluteUrl;

    /// The headers that the client gives to a request with the body `body`.
    spec fn decoration(&self, body: Option<Seq<char>>) -> Seq<HeaderView>;

    /// The base URI.
    fn base_uri(&self) -> (base: &AbsoluteUrl)
        ensures
            *base == self.base(),
    ;

    /// The headers of a request with the body `body`: the hook through which
    /// the client declares the body and shows its token.
    fn decorate(&self, body: Option<&String>) -> (headers: Vec<Header>)
        ensures
            headers_view(headers@) == self.decoration(text_view_ref(body)),
    ;

    /// Begins a login. Where it can be done at once, nothing is handed back;
    /// else the request to send, whose answer goes to `finish_login`. Without
    /// credentials and with an API key no request is ever needed, and the
    /// login succeeds. A login that needs a request or fails leaves the client
    /// as it was.
    fn login(&mut self, creds: &ApiCredentials) -> (r: Result<Option<Request>, ClientError>)
        ensures
            final(self).base() == old(self).base(),
            creds@ is NoAuth || creds@ is ApiKey ==> r == Ok::<Option<Request>, ClientError>(None),
            r != Ok::<Option<Request>, ClientError>(None) ==> *final(self) == *old(self),
    ;

    /// Ends a login with the answer to its request. An error of the
    /// transport is handed on as it is, and a login that fails leaves the
    /// client as it was.
    fn finish_login(&mut self, answer: Result<Response, ClientError>) -> (r: Result<
        (),
        ClientError,
    >)
        ensures
            final(self).base() == old(self).base(),
            answer matches Err(e) ==> r == Err::<(), ClientError>(e),
            r is Err ==> *final(self) == *old(self),
    ;

    /// The URL that a request to `target` goes to.
    fn full_uri(&self, target: RequestTarget) -> (r: Result<AbsoluteUrl, ClientError>)
        ensures
            url_outcome(r) == resolve_spec(self.base()@, target@),
    {
        resolve(self.base_uri(), target)
    }

    /// The request for `target`, ready to be sent: the target is resolved
    /// against the base URI, and the client decorates the request. A target
    /// that cannot be resolved is an error, and nothing is to be sent.
    fn request(&self, method: Method, target: RequestTarget, body: Option<String>) -> (r: Result<
        Request,
        ClientError,
    >)
        ensures
            request_outcome(r) == prepared(
                self.base()@,
                self.decoration(text_view(body)),
                method,
                target@,
                text_view(body),
            ),
    {
        match resolve(self.base_uri(), target) {
            Ok(uri) => {
                let headers: Vec<Header> = self.decorate(body.as_ref());
                Ok(Request { method, uri, headers, body })
            },
            Err(e) => Err(e),
        }
    }
}

/// A client of an API that answers in JSON, page by page.
pub trait JsonApiClient: ApiClient {
    /// What `response` says of the page that follows it.
    spec fn continuation(&self, response: Response) -> Result<
        Option<RequestTargetView>,
        ClientErrorView,
    >;

    /// The target of the page that follows `response`, if it names one.
    fn next_page_uri(&self, response: &Response) -> (r: Result<Option<RequestTarget>, ClientError>)
        ensures
            continuation_view(r) == self.continuation(*response),
    ;

    /// Begins a walk through the pages of the collection at `target`.
    fn autopagination(&self, target: RequestTarget) -> (state: Paging)
        ensures
            state@ == start_spec(target@),
    {
        Paging::Fetching { target, pages: Vec::new() }
    }

    /// Takes the answer of the transport to the request that the walk asked
    /// for: the page is decoded and kept, and the walk goes on to the page
    /// that this client finds named in the response.
    fn next_page(&self, state: Paging, answer: Result<Response, ClientError>) -> (next: Paging)
        ensures
            next@ == respond_spec(
                state@,
                answer_view(answer),
                match answer {
                    Ok(response) => self.continuation(response),
                    Err(_) => Ok(None),
                },
            ),
    {
        match answer {
            Err(error) => match state {
                Paging::Fetching { .. } => Paging::Failed { error },
                Paging::Done { pages } => Paging::Done { pages },
                Paging::Failed { error } => Paging::Failed { error },
            },
            Ok(response) => match response_to_json(response.body.as_slice()) {
                Err(error) => state.advance(Err(error), Ok(None)),
                Ok(json) => {
                    let continuation = self.next_page_uri(&response);
                    state.advance(Ok(json), continuation)
                },
            },
        }
    }
}

} // verus!
