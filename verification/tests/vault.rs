use teatime::client::{ApiClient, JsonApiClient};
use teatime::error::{ClientError, ErrorKind};
use teatime::http::{Header, Method, RawHeader, Response};
use teatime::uri::RequestTarget;
use teatime::vault::{client_token, VaultClient};
use teatime::ApiCredentials;

fn value(text: &str) -> serde_json::Value {
    serde_json::from_str(text).unwrap()
}

fn client() -> VaultClient {
    VaultClient::new("https://vault.example.com:8200", None).unwrap()
}

fn answer(body: &str) -> Result<Response, ClientError> {
    Ok(Response { status: 200, headers: Vec::new(), body: body.as_bytes().to_vec() })
}

fn head(name: &str, value: &str) -> Header {
    Header { name: name.to_string(), value: value.to_string() }
}

#[test]
fn new_client_keeps_the_token_it_was_given() {
    assert!(client().token().is_none());
    let client = VaultClient::new("https://vault.example.com:8200", Some("s.abc".to_string())).unwrap();
    assert_eq!(client.token(), Some(&"s.abc".to_string()));
    assert_eq!(client.base_uri().as_str(), "https://vault.example.com:8200/");
    let error = VaultClient::new("vault/path", None).unwrap_err();
    assert_eq!(error.kind(), ErrorKind::Configuration);
}

#[test]
fn request_carries_the_token() {
    let client = VaultClient::new("https://vault.example.com:8200", Some("s.abc".to_string())).unwrap();
    let request = client
        .request(Method::Get, RequestTarget::RelativePath("/v1/secret/x".to_string()), None)
        .unwrap();
    assert_eq!(request.method, Method::Get);
    assert_eq!(request.uri.as_str(), "https://vault.example.com:8200/v1/secret/x");
    assert_eq!(
        request.headers,
        vec![head("Content-Type", "application/json"), head("X-Vault-Token", "s.abc")]
    );
    let request = self::client()
        .request(Method::Post, RequestTarget::RelativePath("v1/x".to_string()), Some("{}".to_string()))
        .unwrap();
    assert_eq!(request.headers, vec![head("Content-Type", "application/json")]);
    assert_eq!(request.body, Some("{}".to_string()));
    assert_eq!(
        self::client().full_uri(RequestTarget::RelativePath("v1/x".to_string())).unwrap().as_str(),
        "https://vault.example.com:8200/v1/x"
    );
}

#[test]
fn login_without_password_sends_nothing() {
    let mut client = VaultClient::new("https://vault.example.com:8200", Some("s.abc".to_string())).unwrap();
    assert_eq!(client.login(&ApiCredentials::NoAuth), Ok(None));
    assert!(client.token().is_none());
    assert_eq!(client.login(&ApiCredentials::ApiKey("s.key".to_string())), Ok(None));
    assert_eq!(client.token(), Some(&"s.key".to_string()));
}

#[test]
fn login_with_password() {
    let mut client = VaultClient::new("https://vault.example.com:8200/", None).unwrap();
    let creds = ApiCredentials::UserPass("alice".to_string(), "s3cret".to_string());
    let request = client.login(&creds).unwrap().unwrap();
    assert_eq!(request.method, Method::Post);
    assert_eq!(request.uri.as_str(), "https://vault.example.com:8200//v1/auth/ldap/login/alice");
    assert_eq!(request.body.as_deref(), Some(r#"{"password":"s3cret"}"#));
    assert_eq!(request.headers, vec![head("Content-Type", "application/json")]);
    assert!(client.token().is_none());
}

#[test]
fn login_with_one_time_code() {
    let mut client = VaultClient::new("https://vault.example.com:8200/v", Some("old".to_string())).unwrap();
    let creds = ApiCredentials::UserPassTwoFactor("bob".to_string(), "pw".to_string(), "123456".to_string());
    let request = client.login(&creds).unwrap().unwrap();
    assert_eq!(request.uri.as_str(), "https://vault.example.com:8200/v/v1/auth/ldap/login/bob");
    assert_eq!(request.body.as_deref(), Some(r#"{"passcode":"123456","password":"pw"}"#));
    assert_eq!(
        request.headers,
        vec![head("Content-Type", "application/json"), head("X-Vault-Token", "old")]
    );
    assert_eq!(client.token(), Some(&"old".to_string()));
}

#[test]
fn vault_login_ends_with_the_token_of_the_answer() {
    let mut client = client();
    assert_eq!(
        client.finish_login(answer(r#"{"auth": {"client_token": "s.new", "policies": []}}"#)),
        Ok(())
    );
    assert_eq!(client.token(), Some(&"s.new".to_string()));
}

#[test]
fn vault_answer_without_token_is_an_auth_error() {
    let mut client = VaultClient::new("https://vault.example.com:8200", Some("kept".to_string())).unwrap();
    for body in [
        r#"{"errors": ["ldap operation failed"]}"#,
        r#"{"auth": null}"#,
        r#"{"auth": {}}"#,
        r#"{"auth": {"client_token": 5}}"#,
        r#"{"client_token": "s.new"}"#,
        "",
    ] {
        let error = client.finish_login(answer(body)).unwrap_err();
        assert_eq!(error.kind(), ErrorKind::Auth);
        assert_eq!(error.description(), "Could not retrieve auth token");
        assert_eq!(client.token(), Some(&"kept".to_string()));
    }
    let error = client.finish_login(answer("{")).unwrap_err();
    assert_eq!(error.kind(), ErrorKind::Decode);
    let error = client.finish_login(Err(ClientError::new(ErrorKind::Transport, "down"))).unwrap_err();
    assert_eq!(error.kind(), ErrorKind::Transport);
    assert_eq!(client.token(), Some(&"kept".to_string()));
}

#[test]
fn client_token_of_a_document() {
    assert_eq!(client_token(&value(r#"{"auth": {"client_token": "t"}}"#)), Ok("t".to_string()));
    assert!(client_token(&value(r#"{"auth": ["client_token"]}"#)).is_err());
}

#[test]
fn vault_has_one_page() {
    let response = Response {
        status: 200,
        headers: vec![RawHeader { name: "Link".to_string(), value: b"<https://h/a>; rel=\"next\"".to_vec() }],
        body: Vec::new(),
    };
    assert_eq!(client().next_page_uri(&response), Ok(None));
}
