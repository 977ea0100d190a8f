use ephemeral_proxy::auth::authorize;
use ephemeral_proxy::errors::ServiceError;

fn unauthorized(message: &str) -> Result<(), ServiceError> {
    Err(ServiceError::Unauthorized { message: message.to_string() })
}

#[test]
fn matching_token_is_let_through() {
    assert_eq!(authorize(Some(b"Bearer s3cret"), b"s3cret"), Ok(()));
}

#[test]
fn missing_header_is_refused() {
    assert_eq!(authorize(None, b"s3cret"), unauthorized("missing Authorization header"));
}

#[test]
fn header_with_a_control_byte_is_refused() {
    assert_eq!(
        authorize(Some(b"Bearer s3\x01cret"), b"s3cret"),
        unauthorized("bad Authorization header")
    );
}

#[test]
fn header_with_a_high_byte_is_refused() {
    assert_eq!(
        authorize(Some(b"Bearer s3cret\xff"), b"s3cret\xff"),
        unauthorized("bad Authorization header")
    );
}

#[test]
fn header_with_delete_is_refused() {
    assert_eq!(
        authorize(Some(b"Bearer s3cret\x7f"), b"s3cret\x7f"),
        unauthorized("bad Authorization header")
    );
}

#[test]
fn text_is_checked_before_the_prefix() {
    assert_eq!(authorize(Some(b"\x00"), b"s3cret"), unauthorized("bad Authorization header"));
}

#[test]
fn tab_and_tilde_are_text() {
    assert_eq!(authorize(Some(b"Bearer a\tb~"), b"a\tb~"), Ok(()));
}

#[test]
fn other_scheme_is_refused() {
    assert_eq!(
        authorize(Some(b"Basic czNjcmV0"), b"s3cret"),
        unauthorized("bad Bearer token format")
    );
}

#[test]
fn scheme_is_case_sensitive() {
    assert_eq!(
        authorize(Some(b"bearer s3cret"), b"s3cret"),
        unauthorized("bad Bearer token format")
    );
}

#[test]
fn scheme_without_space_is_refused() {
    assert_eq!(authorize(Some(b"Bearer"), b""), unauthorized("bad Bearer token format"));
    assert_eq!(authorize(Some(b"Bearers3cret"), b"s3cret"), unauthorized("bad Bearer token format"));
}

#[test]
fn scheme_followed_by_tab_is_refused() {
    assert_eq!(
        authorize(Some(b"Bearer\ts3cret"), b"s3cret"),
        unauthorized("bad Bearer token format")
    );
}

#[test]
fn empty_header_is_refused() {
    assert_eq!(authorize(Some(b""), b"s3cret"), unauthorized("bad Bearer token format"));
}

#[test]
fn wrong_token_is_refused() {
    assert_eq!(authorize(Some(b"Bearer s3cres"), b"s3cret"), unauthorized("bad token"));
}

#[test]
fn token_that_differs_in_the_first_byte_is_refused() {
    assert_eq!(authorize(Some(b"Bearer t3cret"), b"s3cret"), unauthorized("bad token"));
}

#[test]
fn shorter_token_is_refused() {
    assert_eq!(authorize(Some(b"Bearer s3cre"), b"s3cret"), unauthorized("bad token"));
}

#[test]
fn longer_token_is_refused() {
    assert_eq!(authorize(Some(b"Bearer s3crets"), b"s3cret"), unauthorized("bad token"));
}

#[test]
fn token_is_not_trimmed() {
    assert_eq!(authorize(Some(b"Bearer  s3cret"), b"s3cret"), unauthorized("bad token"));
    assert_eq!(authorize(Some(b"Bearer s3cret "), b"s3cret"), unauthorized("bad token"));
}

#[test]
fn empty_token_matches_only_an_empty_secret() {
    assert_eq!(authorize(Some(b"Bearer "), b""), Ok(()));
    assert_eq!(authorize(Some(b"Bearer "), b"s3cret"), unauthorized("bad token"));
}

#[test]
fn secret_that_is_not_text_is_never_matched() {
    let secret = "pässword".as_bytes();
    let mut header = b"Bearer ".to_vec();
    header.extend_from_slice(secret);
    assert_eq!(authorize(Some(&header), secret), unauthorized("bad Authorization header"));
}

#[test]
fn every_failure_is_answered_with_401() {
    let headers: Vec<Option<&[u8]>> =
        vec![None, Some(&b"\x80"[..]), Some(&b"Token s3cret"[..]), Some(&b"Bearer nope"[..])];
    for header in headers {
        match authorize(header, b"s3cret") {
            Err(e) => assert_eq!(e.status(), 401),
            Ok(()) => panic!("let through"),
        }
    }
}
