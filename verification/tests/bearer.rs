use auth_core::AuthError;
use auth_core::extract_bearer_token;

#[test]
fn missing_header_is_missing_auth_token() {
    assert_eq!(
        extract_bearer_token(None),
        Err(AuthError::MissingAuthToken)
    );
}

#[test]
fn plain_bearer_header_yields_token() {
    let r = extract_bearer_token(Some(&b"Bearer fpKL54jvWmEGVoRdCNjG"[..]));
    assert_eq!(r, Ok("fpKL54jvWmEGVoRdCNjG".to_string()));
}

#[test]
fn scheme_is_case_insensitive() {
    assert_eq!(
        extract_bearer_token(Some(&b"bEaReR abc"[..])),
        Ok("abc".to_string())
    );
    assert_eq!(
        extract_bearer_token(Some(&b"BEARER abc"[..])),
        Ok("abc".to_string())
    );
}

#[test]
fn leading_blanks_before_token_are_trimmed() {
    assert_eq!(
        extract_bearer_token(Some(&b"Bearer    abc"[..])),
        Ok("abc".to_string())
    );
    assert_eq!(
        extract_bearer_token(Some(&b"Bearer \t abc"[..])),
        Ok("abc".to_string())
    );
}

#[test]
fn interior_token_bytes_are_kept_verbatim() {
    assert_eq!(
        extract_bearer_token(Some(&b"Bearer a b\tc"[..])),
        Ok("a b\tc".to_string())
    );
}

#[test]
fn empty_token_is_accepted_by_the_grammar() {
    assert_eq!(extract_bearer_token(Some(&b"Bearer "[..])), Ok(String::new()));
    assert_eq!(
        extract_bearer_token(Some(&b"Bearer    "[..])),
        Ok(String::new())
    );
}

#[test]
fn wrong_scheme_is_invalid_auth_token() {
    assert_eq!(
        extract_bearer_token(Some(&b"Basic QWxhZGRpbg=="[..])),
        Err(AuthError::InvalidAuthToken)
    );
    assert_eq!(
        extract_bearer_token(Some(&b"Bearex abc"[..])),
        Err(AuthError::InvalidAuthToken)
    );
}

#[test]
fn missing_space_after_scheme_is_invalid() {
    assert_eq!(
        extract_bearer_token(Some(&b"Bearerabc"[..])),
        Err(AuthError::InvalidAuthToken)
    );
    assert_eq!(
        extract_bearer_token(Some(&b"Bearer"[..])),
        Err(AuthError::InvalidAuthToken)
    );
}

#[test]
fn short_or_empty_values_are_invalid() {
    assert_eq!(
        extract_bearer_token(Some(&b""[..])),
        Err(AuthError::InvalidAuthToken)
    );
    assert_eq!(
        extract_bearer_token(Some(&b"B"[..])),
        Err(AuthError::InvalidAuthToken)
    );
}

#[test]
fn non_text_bytes_are_invalid() {
    assert_eq!(
        extract_bearer_token(Some(&b"Bearer ab\x00c"[..])),
        Err(AuthError::InvalidAuthToken)
    );
    assert_eq!(
        extract_bearer_token(Some(&[66, 101, 97, 114, 101, 114, 32, 200][..])),
        Err(AuthError::InvalidAuthToken)
    );
    assert_eq!(
        extract_bearer_token(Some(&b"Bearer ab\x7fc"[..])),
        Err(AuthError::InvalidAuthToken)
    );
}
