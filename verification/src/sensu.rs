//! The Sensu binding: no login, no pagination, and requests that state the
//! length of their body.

use crate::client::{ApiClient, JsonApiClient};
use crate::credentials::ApiCredentials;
use crate::error::{ClientError, ClientErrorView};
use crate::http::{
    content_length, content_length_header, content_type_json, headers_view, json_content_type,
    Header, HeaderView, Request, Response,
};
use crate::text::text_view_ref;
use crate::uri::{absolute_of, uri_parsed, AbsoluteUrl, RequestTarget, RequestTargetView};
use vstd::prelude::*;

verus! {

/// The headers of a request with the given body: its length, then the
/// content type.
pub open spec fn sensu_headers(body: Option<Seq<char>>) -> Seq<HeaderView> {
    seq![content_length(body), content_type_json()]
}

/// A Sensu client: its base URI.
#[derive(Debug, PartialEq, Eq)]
pub struct SensuClient {
    api_uri: AbsoluteUrl,
}

impl SensuClient {
    /// A client for the API at `api_uri`, which must be an absolute URL.
    pub fn new(api_uri: &str) -> (r: Result<SensuClient, ClientError>)
        ensures
            match r {
                Ok(client) => absolute_of(uri_parsed(api_uri@)) == Ok::<
                    hyper::Uri,
                    ClientErrorView,
                >(client.base().uri()),
                Err(e) => absolute_of(uri_parsed(api_uri@)) == Err::<hyper::Uri, ClientErrorView>(
                    e@,
                ),
            },
    {
        match AbsoluteUrl::parse(api_uri) {
            Ok(url) => Ok(SensuClient { api_uri: url }),
            Err(e) => Err(e),
        }
    }
}

impl ApiClient for SensuClient {
    closed spec fn base(&self) -> AbsoluteUrl {
        self.api_uri
    }

    /// The length of the body, then the content type.
    open spec fn decoration(&self, body: Option<Seq<char>>) -> Seq<HeaderView> {
        sensu_headers(body)
    }

    fn base_uri(&self) -> (base: &AbsoluteUrl) {
        &self.api_uri
    }

    fn decorate(&self, body: Option<&String>) -> (headers: Vec<Header>) {
        let mut headers: Vec<Header> = Vec::new();
        headers.push(content_length_header(body));
        headers.push(json_content_type());
        assert(headers_view(headers@) =~= sensu_headers(text_view_ref(body)));
        headers
    }

    /// Sensu needs no login: whatever the credentials, nothing is sent and
    /// nothing changes.
    fn login(&mut self, creds: &ApiCredentials) -> (r: Result<Option<Request>, ClientError>)
        ensures
            r == Ok::<Option<Request>, ClientError>(None),
            *final(self) == *old(self),
    {
        Ok(None)
    }

    /// No login asks for a request, so no answer is awaited: an answer
    /// changes nothing, and only an error of the transport is handed on.
    fn finish_login(&mut self, answer: Result<Response, ClientError>) -> (r: Result<
        (),
        ClientError,
    >)
        ensures
            *final(self) == *old(self),
            answer is Ok ==> r is Ok,
    {
        match answer {
            Ok(_) => Ok(()),
            Err(e) => Err(e),
        }
    }
}

impl JsonApiClient for SensuClient {
    /// Sensu answers in one page: no response names a page after it.
    open spec fn continuation(&self, response: Response) -> Result<
        Option<RequestTargetView>,
        ClientErrorView,
    > {
        Ok(None)
    }

    fn next_page_uri(&self, response: &Response) -> (r: Result<
        Option<RequestTarget>,
        ClientError,
    >) {
        Ok(None)
    }
}

} // verus!
