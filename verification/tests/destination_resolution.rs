use kiosk_rotation::destination::resolve_destination;
use kiosk_rotation::error::CommandError;

#[test]
fn absolute_url_resolves_to_its_serialization() {
    assert_eq!(resolve_destination("https://a.test"), Ok("https://a.test/".to_string()));
    assert_eq!(resolve_destination("https://a.test/"), Ok("https://a.test/".to_string()));
}

#[test]
fn resolution_normalizes_the_address() {
    assert_eq!(
        resolve_destination("HTTPS://Example.COM/a/../b?q=1#f"),
        Ok("https://example.com/b?q=1#f".to_string())
    );
    assert_eq!(resolve_destination("https://example.com:443/"), Ok("https://example.com/".to_string()));
}

#[test]
fn resolved_address_matches_the_parser() {
    let text = "http://user@host.test:8080/path with space";
    let expected = url::Url::parse(text).unwrap();
    assert_eq!(resolve_destination(text), Ok(expected.as_str().to_string()));
}

#[test]
fn text_that_is_no_absolute_url_is_invalid() {
    assert_eq!(resolve_destination("not a url"), Err(CommandError::InvalidDestination));
    assert_eq!(resolve_destination(""), Err(CommandError::InvalidDestination));
    assert_eq!(resolve_destination("/relative/path"), Err(CommandError::InvalidDestination));
    assert_eq!(resolve_destination("https://"), Err(CommandError::InvalidDestination));
    assert_eq!(resolve_destination("https://a.test:99999/"), Err(CommandError::InvalidDestination));
}

#[test]
fn error_messages_name_the_failure() {
    assert_eq!(CommandError::SurfaceNotFound.message(), "no display surface exists");
    assert_eq!(CommandError::InvalidDestination.message(), "invalid URL provided");
    assert_eq!(CommandError::DelegationFailure.message(), "the display host failed");
}
