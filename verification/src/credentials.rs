//! The credentials that a login takes, and how they are made of what the
//! user typed at a terminal.

use crate::text::{drop_last_char, without_last};
use vstd::prelude::*;

verus! {

/// The line that introduces the prompts.
pub const CREDENTIALS_BANNER: &'static str = "Please enter credentials to proceed";

/// The prompt for the user name, which is echoed.
pub const USERNAME_PROMPT: &'static str = "Username: ";

/// The prompt for the password, which is not echoed.
pub const PASSWORD_PROMPT: &'static str = "Password: ";

/// The prompt for the one-time code, which is echoed.
pub const TWO_FACTOR_PROMPT: &'static str = "2FA: ";

/// The ways in which a client can be told who its user is.
#[derive(Debug, PartialEq, Eq)]
pub enum ApiCredentials {
    /// No authentication.
    NoAuth,
    /// An API key.
    ApiKey(String),
    /// User name and password.
    UserPass(String, String),
    /// User name, password and one-time code.
    UserPassTwoFactor(String, String, String),
}

/// `ApiCredentials` as contracts see them.
pub enum ApiCredentialsView {
    NoAuth,
    ApiKey(Seq<char>),
    UserPass(Seq<char>, Seq<char>),
    UserPassTwoFactor(Seq<char>, Seq<char>, Seq<char>),
}

impl View for ApiCredentials {
    type V = ApiCredentialsView;

    open spec fn view(&self) -> ApiCredentialsView {
        match self {
            ApiCredentials::NoAuth => ApiCredentialsView::NoAuth,
            ApiCredentials::ApiKey(key) => ApiCredentialsView::ApiKey(key@),
            ApiCredentials::UserPass(user, pass) => ApiCredentialsView::UserPass(user@, pass@),
            ApiCredentials::UserPassTwoFactor(user, pass, code) => {
                ApiCredentialsView::UserPassTwoFactor(user@, pass@, code@)
            },
        }
    }
}

/// What the user entered on a line: the line without the character that
/// ends it.
pub open spec fn entered(line: Seq<char>) -> Seq<char> {
    without_last(line)
}

/// What the user entered on a line that was read from the terminal: the
/// line without the line feed at its end.
pub fn interactive_text(line: &str) -> (text: String)
    ensures
        text@ == entered(line@),
{
    drop_last_char(line).to_owned()
}

impl ApiCredentials {
    /// User name and password, of the line that answered the prompt for the
    /// user name and of the password as it was read.
    pub fn interactive_get_uname_pw(username_line: &str, password: String) -> (pair: (
        String,
        String,
    ))
        ensures
            pair.0@ == entered(username_line@),
            pair.1@ == password@,
    {
        (interactive_text(username_line), password)
    }

    /// The one-time code, of the line that answered the prompt for it.
    pub fn interactive_get_2fa(code_line: &str) -> (code: String)
        ensures
            code@ == entered(code_line@),
    {
        interactive_text(code_line)
    }

    /// The credentials of what the user typed: with a one-time code where a
    /// line answered the prompt for it, else user name and password alone.
    pub fn interactive_get(username_line: &str, password: String, code_line: Option<&str>) -> (creds:
        ApiCredentials)
        ensures
            creds@ == (match code_line {
                Some(line) => ApiCredentialsView::UserPassTwoFactor(
                    entered(username_line@),
                    password@,
                    entered(line@),
                ),
                None => ApiCredentialsView::UserPass(entered(username_line@), password@),
            }),
    {
        let (username, pass) = ApiCredentials::interactive_get_uname_pw(username_line, password);
        match code_line {
            Some(line) => {
                let code: String = ApiCredentials::interactive_get_2fa(line);
                ApiCredentials::UserPassTwoFactor(username, pass, code)
            },
            None => ApiCredentials::UserPass(username, pass),
        }
    }
}

} // verus!
