//! The GitLab binding: tokens, the headers that carry them, the
//! password-grant login and the `Link` pagination.

use crate::client::{ApiClient, JsonApiClient};
use crate::credentials::{ApiCredentials, ApiCredentialsView};
use crate::error::{ClientError, ClientErrorView, ErrorKind};
use crate::http::{
    answer_view, bearer, bearer_header, content_type_json, header, headers_view,
    json_content_type, step_outcome, Header, HeaderView, Method, Request, RequestView, Response,
};
use crate::json::{
    body_json, json_member, json_object_value, json_rendered, json_string, json_text_value,
    member, no_members, response_to_json, JsonParams,
};
use crate::pagination::{continuation_spec, next_page_uri};
use crate::uri::{
    absolute_of, origin_spec, uri_parsed, AbsoluteUrl, RequestTarget, RequestTargetView,
};
use vstd::prelude::*;
use vstd::string::StringExecFns;

verus! {

/// The token of a session, and with it the header that carries it.
#[derive(Debug, PartialEq, Eq)]
pub enum TokenType {
    /// An OAuth token, sent as a bearer token.
    Oauth(String),
    /// A personal access token, sent in a header of its own.
    PersonalAccess(String),
}

/// A `TokenType` as contracts see it.
pub enum TokenTypeView {
    Oauth(Seq<char>),
    PersonalAccess(Seq<char>),
}

impl View for TokenType {
    type V = TokenTypeView;

    open spec fn view(&self) -> TokenTypeView {
        match self {
            TokenType::Oauth(token) => TokenTypeView::Oauth(token@),
            TokenType::PersonalAccess(token) => TokenTypeView::PersonalAccess(token@),
        }
    }
}

impl Clone for TokenType {
    fn clone(&self) -> (copy: TokenType)
        ensures
            copy@ == self@,
    {
        match self {
            TokenType::Oauth(token) => TokenType::Oauth(token.clone()),
            TokenType::PersonalAccess(token) => TokenType::PersonalAccess(token.clone()),
        }
    }
}

/// An optional token as contracts see it.
pub open spec fn token_view(token: Option<TokenType>) -> Option<TokenTypeView> {
    match token {
        Some(t) => Some(t@),
        None => None,
    }
}

/// The header that carries a personal access token.
pub open spec fn private_token(token: Seq<char>) -> HeaderView {
    HeaderView { name: "Private-Token"@, value: token }
}

/// The headers of a request: the content type, then the token, if there
/// is one.
pub open spec fn gitlab_headers(token: Option<TokenTypeView>) -> Seq<HeaderView> {
    match token {
        Some(TokenTypeView::Oauth(t)) => seq![content_type_json(), bearer(t)],
        Some(TokenTypeView::PersonalAccess(t)) => seq![content_type_json(), private_token(t)],
        None => seq![content_type_json()],
    }
}

/// The members of the body of a login request.
pub open spec fn login_members(user: Seq<char>, pass: Seq<char>) -> Map<
    Seq<char>,
    serde_json::Value,
> {
    no_members().insert("grant_type"@, json_text_value("password"@)).insert(
        "username"@,
        json_text_value(user),
    ).insert("password"@, json_text_value(pass))
}

/// The URI at which a client with the base URI `base` logs in: the path
/// `/oauth/token` at the origin of the base, whatever path the base has.
pub open spec fn token_endpoint(base: hyper::Uri) -> Result<hyper::Uri, ClientErrorView> {
    match origin_spec(base) {
        Ok(origin) => absolute_of(uri_parsed(origin + "/oauth/token"@)),
        Err(e) => Err(e),
    }
}

/// The request that logs in with user name and password.
pub open spec fn login_request(
    base: hyper::Uri,
    token: Option<TokenTypeView>,
    user: Seq<char>,
    pass: Seq<char>,
) -> Result<RequestView, ClientErrorView> {
    match token_endpoint(base) {
        Ok(uri) => Ok(
            RequestView {
                method: Method::Post,
                uri,
                headers: gitlab_headers(token),
                body: Some(json_rendered(json_object_value(login_members(user, pass)))),
            },
        ),
        Err(e) => Err(e),
    }
}

/// The text of the error for a login response without a token.
pub open spec fn no_token_text() -> Seq<char> {
    "Could not log in with given username and password"@
}

/// The token in the document that answers a login: the string
/// `access_token`. A document without this member, and one in which it is no
/// string, is an authentication error.
pub open spec fn access_token_spec(document: serde_json::Value) -> Result<
    Seq<char>,
    ClientErrorView,
> {
    let missing = Err::<Seq<char>, ClientErrorView>(
        ClientErrorView { kind: ErrorKind::Auth, message: no_token_text() },
    );
    match json_member(document, "access_token"@) {
        Some(member) => match json_string(member) {
            Some(text) => Ok(text),
            None => missing,
        },
        None => missing,
    }
}

/// The token that the answer to a login request gives.
pub open spec fn login_answer(answer: Result<Response, ClientErrorView>) -> Result<
    Seq<char>,
    ClientErrorView,
> {
    match answer {
        Ok(response) => match body_json(response.body@) {
            Ok(document) => access_token_spec(document),
            Err(e) => Err(e),
        },
        Err(e) => Err(e),
    }
}

/// An answer to a login whose document has no member `access_token` is an
/// authentication error, whatever else the document holds: the body was
/// decoded, so it is no decode error.
pub proof fn lemma_missing_token_is_auth_error(response: Response)
    requires
        body_json(response.body@) is Ok,
        json_member(body_json(response.body@)->Ok_0, "access_token"@) is None,
    ensures
        login_answer(Ok(response)) == Err::<Seq<char>, ClientErrorView>(
            ClientErrorView { kind: ErrorKind::Auth, message: no_token_text() },
        ),
{
}

/// The token in the document that answers a login.
pub fn access_token(document: &serde_json::Value) -> (r: Result<String, ClientError>)
    ensures
        match r {
            Ok(token) => access_token_spec(*document) == Ok::<Seq<char>, ClientErrorView>(token@),
            Err(e) => access_token_spec(*document) == Err::<Seq<char>, ClientErrorView>(e@),
        },
{
    let found: &serde_json::Value = match member(document, "access_token") {
        Some(found) => found,
        None => {
            return Err(
                ClientError::new(
                    ErrorKind::Auth,
                    "Could not log in with given username and password",
                ),
            );
        },
    };
    match found.as_str() {
        Some(text) => Ok(text.to_owned()),
        None => Err(
            ClientError::new(
                ErrorKind::Auth,
                "Could not log in with given username and password",
            ),
        ),
    }
}

/// A GitLab client: its base URI and the token of its session.
#[derive(Debug, PartialEq, Eq)]
pub struct GitlabClient {
    base_uri: AbsoluteUrl,
    token: Option<TokenType>,
}

impl GitlabClient {
    /// The token of the session, if the client has logged in.
    pub closed spec fn session(&self) -> Option<TokenTypeView> {
        token_view(self.token)
    }

    /// A client for the API at `base_uri`, which must be an absolute URL.
    /// It has no token yet.
    pub fn new(base_uri: String) -> (r: Result<GitlabClient, ClientError>)
        ensures
            match r {
                Ok(client) => absolute_of(uri_parsed(base_uri@)) == Ok::<
                    hyper::Uri,
                    ClientErrorView,
                >(client.base().uri()) && client.session() is None,
                Err(e) => absolute_of(uri_parsed(base_uri@)) == Err::<hyper::Uri, ClientErrorView>(
                    e@,
                ),
            },
    {
        match AbsoluteUrl::parse(base_uri.as_str()) {
            Ok(url) => Ok(GitlabClient { base_uri: url, token: None }),
            Err(e) => Err(e),
        }
    }

    /// The token of the session.
    pub fn token(&self) -> (token: Option<&TokenType>)
        ensures
            match token {
                Some(t) => self.session() == Some(t@),
                None => self.session() is None,
            },
    {
        self.token.as_ref()
    }

    /// The request that logs in with user name and password.
    fn password_grant(&self, user: &str, pass: &str) -> (r: Result<Option<Request>, ClientError>)
        ensures
            step_outcome(r) == (match login_request(
                self.base().uri(),
                self.session(),
                user@,
                pass@,
            ) {
                Ok(request) => Ok::<Option<RequestView>, ClientErrorView>(Some(request)),
                Err(e) => Err(e),
            }),
    {
        let mut params = JsonParams::new();
        params.insert_text("grant_type", "password");
        params.insert_text("username", user);
        params.insert_text("password", pass);
        let mut endpoint: String = match self.base_uri.origin() {
            Ok(origin) => origin,
            Err(e) => {
                return Err(e);
            },
        };
        endpoint.append("/oauth/token");
        let uri: AbsoluteUrl = match AbsoluteUrl::parse(endpoint.as_str()) {
            Ok(uri) => uri,
            Err(e) => {
                return Err(e);
            },
        };
        Ok(
            Some(
                Request {
                    method: Method::Post,
                    uri,
                    headers: self.decorate(None),
                    body: Some(params.to_text()),
                },
            ),
        )
    }
}

impl ApiClient for GitlabClient {
    closed spec fn base(&self) -> AbsoluteUrl {
        self.base_uri
    }

    /// The content type, then the token of the session.
    open spec fn decoration(&self, body: Option<Seq<char>>) -> Seq<HeaderView> {
        gitlab_headers(self.session())
    }

    fn base_uri(&self) -> (base: &AbsoluteUrl) {
        &self.base_uri
    }

    fn decorate(&self, body: Option<&String>) -> (headers: Vec<Header>) {
        let mut headers: Vec<Header> = Vec::new();
        headers.push(json_content_type());
        match &self.token {
            Some(TokenType::Oauth(token)) => {
                headers.push(bearer_header(token.as_str()));
                assert(headers_view(headers@) =~= gitlab_headers(self.session()));
            },
            Some(TokenType::PersonalAccess(token)) => {
                headers.push(header("Private-Token", token.as_str()));
                assert(headers_view(headers@) =~= gitlab_headers(self.session()));
            },
            None => {
                assert(headers_view(headers@) =~= gitlab_headers(self.session()));
            },
        }
        headers
    }

    /// Without credentials the token is dropped, and an API key becomes the
    /// token as it is: both are done at once. User name and password need one
    /// request, to the path `/oauth/token` at the origin of the base URI.
    fn login(&mut self, creds: &ApiCredentials) -> (r: Result<Option<Request>, ClientError>)
        ensures
            match creds@ {
                ApiCredentialsView::NoAuth => final(self).session() is None,
                ApiCredentialsView::ApiKey(key) => final(self).session() == Some(
                    TokenTypeView::PersonalAccess(key),
                ),
                ApiCredentialsView::UserPass(user, pass) => *final(self) == *old(self)
                    && step_outcome(r) == (match login_request(
                    old(self).base().uri(),
                    old(self).session(),
                    user,
                    pass,
                ) {
                    Ok(request) => Ok::<Option<RequestView>, ClientErrorView>(Some(request)),
                    Err(e) => Err(e),
                }),
                ApiCredentialsView::UserPassTwoFactor(user, pass, _) => *final(self) == *old(self)
                    && step_outcome(r) == (match login_request(
                    old(self).base().uri(),
                    old(self).session(),
                    user,
                    pass,
                ) {
                    Ok(request) => Ok::<Option<RequestView>, ClientErrorView>(Some(request)),
                    Err(e) => Err(e),
                }),
            },
    {
        match creds {
            ApiCredentials::NoAuth => {
                self.token = None;
                Ok(None)
            },
            ApiCredentials::ApiKey(key) => {
                self.token = Some(TokenType::PersonalAccess(key.clone()));
                Ok(None)
            },
            ApiCredentials::UserPass(user, pass) => self.password_grant(
                user.as_str(),
                pass.as_str(),
            ),
            ApiCredentials::UserPassTwoFactor(user, pass, _) => self.password_grant(
                user.as_str(),
                pass.as_str(),
            ),
        }
    }

    /// The token of the answer becomes the token of the session: a login
    /// that succeeds leaves the client with a token. An answer without a
    /// token and one that is no JSON are errors.
    fn finish_login(&mut self, answer: Result<Response, ClientError>) -> (r: Result<
        (),
        ClientError,
    >)
        ensures
            match login_answer(answer_view(answer)) {
                Ok(token) => r is Ok && final(self).session() == Some(
                    TokenTypeView::Oauth(token),
                ),
                Err(e) => r matches Err(error) && error@ == e,
            },
    {
        let response: Response = match answer {
            Ok(response) => response,
            Err(e) => {
                return Err(e);
            },
        };
        let document: serde_json::Value = match response_to_json(response.body.as_slice()) {
            Ok(document) => document,
            Err(e) => {
                return Err(e);
            },
        };
        match access_token(&document) {
            Ok(token) => {
                self.token = Some(TokenType::Oauth(token));
                Ok(())
            },
            Err(e) => Err(e),
        }
    }
}

impl JsonApiClient for GitlabClient {
    /// The page that the `Link` header names as `next`.
    open spec fn continuation(&self, response: Response) -> Result<
        Option<RequestTargetView>,
        ClientErrorView,
    > {
        continuation_spec(response)
    }

    fn next_page_uri(&self, response: &Response) -> (r: Result<
        Option<RequestTarget>,
        ClientError,
    >) {
        next_page_uri(response)
    }
}

} // verus!
