use uart_remote::auth::TokenAuth;

#[test]
fn accepts_matching_token() {
    assert!(TokenAuth::new("secret").verify("secret").is_ok());
}

#[test]
fn rejects_wrong_token() {
    assert!(TokenAuth::new("secret").verify("wrong").is_err());
}

#[test]
fn a_wrong_token_is_told_so() {
    let error = TokenAuth::new("secret").verify("wrong").unwrap_err();
    assert_eq!(error.message(), "authentication failed");
}

#[test]
fn every_character_of_a_token_counts() {
    let auth = TokenAuth::new(String::from("secret"));
    for token in ["", "s", "secre", "secrets", "Secret", "secreu", "tecret", "sécret"] {
        assert!(auth.verify(token).is_err(), "{token}");
    }
    assert!(auth.clone().verify("secret").is_ok());
}

#[test]
fn an_empty_token_accepts_only_itself() {
    let auth = TokenAuth::new("");
    assert!(auth.verify("").is_ok());
    assert!(auth.verify(" ").is_err());
}

#[test]
fn tokens_are_compared_as_text() {
    let auth = TokenAuth::new("口令");
    assert!(auth.verify("口令").is_ok());
    assert!(auth.verify("口今").is_err());
}
