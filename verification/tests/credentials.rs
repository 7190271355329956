use teatime::credentials::{
    CREDENTIALS_BANNER, PASSWORD_PROMPT, TWO_FACTOR_PROMPT, USERNAME_PROMPT,
};
use teatime::{interactive_text, ApiCredentials};

#[test]
fn entered_text_is_the_line_without_its_end() {
    assert_eq!(interactive_text("alice\n"), "alice");
    assert_eq!(interactive_text("\n"), "");
    assert_eq!(interactive_text(""), "");
    assert_eq!(interactive_text("two words \n"), "two words ");
    assert_eq!(interactive_text("alice\r\n"), "alice\r");
    assert_eq!(interactive_text("no end"), "no en");
}

#[test]
fn username_and_password() {
    let (user, pass) = ApiCredentials::interactive_get_uname_pw("alice\n", "s3cret".to_string());
    assert_eq!(user, "alice");
    assert_eq!(pass, "s3cret");
}

#[test]
fn one_time_code() {
    assert_eq!(ApiCredentials::interactive_get_2fa("123456\n"), "123456");
    assert_eq!(ApiCredentials::interactive_get_2fa("\n"), "");
}

#[test]
fn credentials_with_and_without_code() {
    assert_eq!(
        ApiCredentials::interactive_get("alice\n", "pw\n".to_string(), None),
        ApiCredentials::UserPass("alice".to_string(), "pw\n".to_string())
    );
    assert_eq!(
        ApiCredentials::interactive_get("alice\n", "pw".to_string(), Some("000111\n")),
        ApiCredentials::UserPassTwoFactor("alice".to_string(), "pw".to_string(), "000111".to_string())
    );
}

#[test]
fn prompts() {
    assert_eq!(CREDENTIALS_BANNER, "Please enter credentials to proceed");
    assert_eq!(USERNAME_PROMPT, "Username: ");
    assert_eq!(PASSWORD_PROMPT, "Password: ");
    assert_eq!(TWO_FACTOR_PROMPT, "2FA: ");
}
