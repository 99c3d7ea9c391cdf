//! Resolving destination text into the address the display host loads.

use vstd::prelude::*;
use crate::error::CommandError;

verus! {

/// `url::ParseError`, the error of `url::Url::parse`. Opaque here: it is
/// only carried from the parser to the place where it becomes
/// [`CommandError::InvalidDestination`].
#[verifier::external_type_specification]
#[verifier::external_body]
pub struct ExParseError(url::ParseError);

/// What `url::Url::parse` makes of `text`: the serialization of the URL it
/// returns, or `None` where it returns an error.
pub uninterp spec fn parsed_url(text: Seq<char>) -> Option<Seq<char>>;

/// Calls `url::Url::parse` and hands back the parsed URL as its
/// serialization. Trusted: the result is the one named by [`parsed_url`],
/// nothing more is claimed of it.
#[verifier::external_body]
fn parse_url(text: &str) -> (parsed: Result<String, url::ParseError>)
    ensures
        match parsed {
            Ok(address) => parsed_url(text@) == Some(address@),
            Err(_) => parsed_url(text@) is None,
        },
{
    url::Url::parse(text).map(String::from)
}

/// The address to load for `destination`, or `InvalidDestination` where the
/// text is no absolute URL.
pub fn resolve_destination(destination: &str) -> (resolved: Result<String, CommandError>)
    ensures
        match resolved {
            Ok(address) => parsed_url(destination@) == Some(address@),
            Err(e) => e == CommandError::InvalidDestination && parsed_url(destination@) is None,
        },
{
    match parse_url(destination) {
        Ok(address) => Ok(address),
        Err(_) => Err(CommandError::InvalidDestination),
    }
}

} // verus!
