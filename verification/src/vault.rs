//! The Vault binding: the token header and the LDAP login.

use crate::client::{ApiClient, JsonApiClient};
use crate::credentials::{ApiCredentials, ApiCredentialsView};
use crate::error::{ClientError, ClientErrorView, ErrorKind};
use crate::http::{
    answer_view, content_type_json, header, headers_view, json_content_type, step_outcome,
    Header, HeaderView, Method, Request, RequestView, Response,
};
use crate::json::{
    body_json, json_member, json_object_value, json_rendered, json_string, json_text_value,
    member, no_members, response_to_json, JsonParams,
};
use crate::text::text_view;
use crate::uri::{absolute_of, uri_parsed, AbsoluteUrl, RequestTarget, RequestTargetView};
use vstd::prelude::*;
use vstd::string::StringExecFns;

verus! {

/// The header that carries a Vault token.
pub open spec fn vault_token(token: Seq<char>) -> HeaderView {
    HeaderView { name: "X-Vault-Token"@, value: token }
}

/// The headers of a request: the content type, then the token, if there
/// is one.
pub open spec fn vault_headers(token: Option<Seq<char>>) -> Seq<HeaderView> {
    match token {
        Some(t) => seq![content_type_json(), vault_token(t)],
        None => seq![content_type_json()],
    }
}

/// The members of the body of a login request: the password, and the
/// one-time code where there is one.
pub open spec fn login_members(pass: Seq<char>, code: Option<Seq<char>>) -> Map<
    Seq<char>,
    serde_json::Value,
> {
    match code {
        Some(c) => no_members().insert("password"@, json_text_value(pass)).insert(
            "passcode"@,
            json_text_value(c),
        ),
        None => no_members().insert("password"@, json_text_value(pass)),
    }
}

/// The text of the URI at which `user` logs in, for a client with the base
/// URI of the text `base`.
pub open spec fn login_uri_text(base: Seq<char>, user: Seq<char>) -> Seq<char> {
    base + "/v1/auth/ldap/login/"@ + user
}

/// The request that logs `user` in.
pub open spec fn login_request(
    base: Seq<char>,
    token: Option<Seq<char>>,
    user: Seq<char>,
    pass: Seq<char>,
    code: Option<Seq<char>>,
) -> Result<RequestView, ClientErrorView> {
    match absolute_of(uri_parsed(login_uri_text(base, user))) {
        Ok(uri) => Ok(
            RequestView {
                method: Method::Post,
                uri,
                headers: vault_headers(token),
                body: Some(json_rendered(json_object_value(login_members(pass, code)))),
            },
        ),
        Err(e) => Err(e),
    }
}

/// The text of the error for a login response without a token.
pub open spec fn no_token_text() -> Seq<char> {
    "Could not retrieve auth token"@
}

/// The token in the document that answers a login: the string
/// `client_token` of the member `auth`.
pub open spec fn client_token_spec(document: serde_json::Value) -> Result<
    Seq<char>,
    ClientErrorView,
> {
    let missing = Err::<Seq<char>, ClientErrorView>(
        ClientErrorView { kind: ErrorKind::Auth, message: no_token_text() },
    );
    match json_member(document, "auth"@) {
        Some(auth) => match json_member(auth, "client_token"@) {
            Some(token) => match json_string(token) {
                Some(text) => Ok(text),
                None => missing,
            },
            None => missing,
        },
        None => missing,
    }
}

/// The token that the answer to a login request gives.
pub open spec fn login_answer(answer: Result<Response, ClientErrorView>) -> Result<
    Seq<char>,
    ClientErrorView,
> {
    match answer {
        Ok(response) => match body_json(response.body@) {
            Ok(document) => client_token_spec(document),
            Err(e) => Err(e),
        },
        Err(e) => Err(e),
    }
}

/// An answer to a login whose document has no member `auth` is an
/// authentication error: the body was decoded, so it is no decode error.
pub proof fn lemma_missing_token_is_auth_error(response: Response)
    requires
        body_json(response.body@) is Ok,
        json_member(body_json(response.body@)->Ok_0, "auth"@) is None,
    ensures
        login_answer(Ok(response)) == Err::<Seq<char>, ClientErrorView>(
            ClientErrorView { kind: ErrorKind::Auth, message: no_token_text() },
        ),
{
}

/// The token in the document that answers a login.
pub fn client_token(document: &serde_json::Value) -> (r: Result<String, ClientError>)
    ensures
        match r {
            Ok(token) => client_token_spec(*document) == Ok::<Seq<char>, ClientErrorView>(token@),
            Err(e) => client_token_spec(*document) == Err::<Seq<char>, ClientErrorView>(e@),
        },
{
    let auth: &serde_json::Value = match member(document, "auth") {
        Some(auth) => auth,
        None => {
            return Err(ClientError::new(ErrorKind::Auth, "Could not retrieve auth token"));
        },
    };
    let token: &serde_json::Value = match member(auth, "client_token") {
        Some(token) => token,
        None => {
            return Err(ClientError::new(ErrorKind::Auth, "Could not retrieve auth token"));
        },
    };
    match token.as_str() {
        Some(text) => Ok(text.to_owned()),
        None => Err(ClientError::new(ErrorKind::Auth, "Could not retrieve auth token")),
    }
}

/// A Vault client: its base URI and the token of its session.
#[derive(Debug, PartialEq, Eq)]
pub struct VaultClient {
    api_uri: AbsoluteUrl,
    token: Option<String>,
}

impl VaultClient {
    /// The token of the session, if the client has one.
    pub closed spec fn session(&self) -> Option<Seq<char>> {
        text_view(self.token)
    }

    /// A client for the API at `api_uri`, which must be an absolute URL,
    /// with the token of an earlier session, if there is one.
    pub fn new(api_uri: &str, token: Option<String>) -> (r: Result<VaultClient, ClientError>)
        ensures
            match r {
                Ok(client) => absolute_of(uri_parsed(api_uri@)) == Ok::<
                    hyper::Uri,
                    ClientErrorView,
                >(client.base().uri()) && client.session() == text_view(token),
                Err(e) => absolute_of(uri_parsed(api_uri@)) == Err::<hyper::Uri, ClientErrorView>(
                    e@,
                ),
            },
    {
        match AbsoluteUrl::parse(api_uri) {
            Ok(url) => Ok(VaultClient { api_uri: url, token }),
            Err(e) => Err(e),
        }
    }

    /// The token of the session.
    pub fn token(&self) -> (token: Option<&String>)
        ensures
            match token {
                Some(t) => self.session() == Some(t@),
                None => self.session() is None,
            },
    {
        self.token.as_ref()
    }

    /// The request that logs `user` in.
    fn ldap_login(&self, user: &str, pass: &str, code: Option<&String>) -> (r: Result<
        Option<Request>,
        ClientError,
    >)
        ensures
            step_outcome(r) == (match login_request(
                self.base()@,
                self.session(),
                user@,
                pass@,
                match code {
                    Some(c) => Some(c@),
                    None => None,
                },
            ) {
                Ok(request) => Ok::<Option<RequestView>, ClientErrorView>(Some(request)),
                Err(e) => Err(e),
            }),
    {
        let mut params = JsonParams::new();
        params.insert_text("password", pass);
        match code {
            Some(c) => {
                params.insert_text("passcode", c.as_str());
            },
            None => {},
        }
        let mut text: String = self.api_uri.as_str().to_owned();
        text.append("/v1/auth/ldap/login/");
        text.append(user);
        let uri: AbsoluteUrl = match AbsoluteUrl::parse(text.as_str()) {
            Ok(uri) => uri,
            Err(e) => {
                return Err(e);
            },
        };
        Ok(
            Some(
                Request {
                    method: Method::Post,
                    uri,
                    headers: self.decorate(None),
                    body: Some(params.to_text()),
                },
            ),
        )
    }
}

impl ApiClient for VaultClient {
    closed spec fn base(&self) -> AbsoluteUrl {
        self.api_uri
    }

    /// The content type, then the token of the session.
    open spec fn decoration(&self, body: Option<Seq<char>>) -> Seq<HeaderView> {
        vault_headers(self.session())
    }

    fn base_uri(&self) -> (base: &AbsoluteUrl) {
        &self.api_uri
    }

    fn decorate(&self, body: Option<&String>) -> (headers: Vec<Header>) {
        let mut headers: Vec<Header> = Vec::new();
        headers.push(json_content_type());
        match &self.token {
            Some(token) => {
                headers.push(header("X-Vault-Token", token.as_str()));
                assert(headers_view(headers@) =~= vault_headers(self.session()));
            },
            None => {
                assert(headers_view(headers@) =~= vault_headers(self.session()));
            },
        }
        headers
    }

    /// Without credentials the token is dropped, and an API key becomes the
    /// token as it is: both are done at once. User name and password, with or
    /// without a one-time code, need one request, to the LDAP login of the
    /// user under the base URI.
    fn login(&mut self, creds: &ApiCredentials) -> (r: Result<Option<Request>, ClientError>)
        ensures
            match creds@ {
                ApiCredentialsView::NoAuth => final(self).session() is None,
                ApiCredentialsView::ApiKey(key) => final(self).session() == Some(key),
                ApiCredentialsView::UserPass(user, pass) => *final(self) == *old(self)
                    && step_outcome(r) == (match login_request(
                    old(self).base()@,
                    old(self).session(),
                    user,
                    pass,
                    None,
                ) {
                    Ok(request) => Ok::<Option<RequestView>, ClientErrorView>(Some(request)),
                    Err(e) => Err(e),
                }),
                ApiCredentialsView::UserPassTwoFactor(user, pass, code) => *final(self) == *old(
                    self,
                ) && step_outcome(r) == (match login_request(
                    old(self).base()@,
                    old(self).session(),
                    user,
                    pass,
                    Some(code),
                ) {
                    Ok(request) => Ok::<Option<RequestView>, ClientErrorView>(Some(request)),
                    Err(e) => Err(e),
                }),
            },
    {
        match creds {
            ApiCredentials::NoAuth => {
                self.token = None;
                Ok(None)
            },
            ApiCredentials::ApiKey(key) => {
                self.token = Some(key.clone());
                Ok(None)
            },
            ApiCredentials::UserPass(user, pass) => self.ldap_login(
                user.as_str(),
                pass.as_str(),
                None,
            ),
            ApiCredentials::UserPassTwoFactor(user, pass, code) => self.ldap_login(
                user.as_str(),
                pass.as_str(),
                Some(code),
            ),
        }
    }

    /// The token of the answer becomes the token of the session. An answer
    /// without a token and one that is no JSON are errors.
    fn finish_login(&mut self, answer: Result<Response, ClientError>) -> (r: Result<
        (),
        ClientError,
    >)
        ensures
            match login_answer(answer_view(answer)) {
                Ok(token) => r is Ok && final(self).session() == Some(token),
                Err(e) => r matches Err(error) && error@ == e,
            },
    {
        let response: Response = match answer {
            Ok(response) => response,
            Err(e) => {
                return Err(e);
            },
        };
        let document: serde_json::Value = match response_to_json(response.body.as_slice()) {
            Ok(document) => document,
            Err(e) => {
                return Err(e);
            },
        };
        match client_token(&document) {
            Ok(token) => {
                self.token = Some(token);
                Ok(())
            },
            Err(e) => Err(e),
        }
    }
}

impl JsonApiClient for VaultClient {
    /// Vault answers in one page: no response names a page after it.
    open spec fn continuation(&self, response: Response) -> Result<
        Option<RequestTargetView>,
        ClientErrorView,
    > {
        Ok(None)
    }

    fn next_page_uri(&self, response: &Response) -> (r: Result<
        Option<RequestTarget>,
        ClientError,
    >) {
        Ok(None)
    }
}

} // verus!
