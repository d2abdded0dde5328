//! The URL validator: accept only absolute URLs with a host component.

use vstd::prelude::*;
use crate::errors::CreateError;

verus! {

/// Whether the string parses as an absolute URL whose authority carries a
/// host. The exact grammar is the url crate's; the library does not restate
/// it, it only names the outcome, which depends on the characters alone.
pub uninterp spec fn url_ok(s: Seq<char>) -> bool;

/// Relies on url::Url::parse and url::Url::has_host: whether `input` parses
/// as an absolute URL and the parsed URL has a host component. Both are
/// pure functions of `input`.
#[verifier::external_body]
fn parse_has_host(input: &str) -> (r: bool)
    ensures
        r == url_ok(input@),
{
    match url::Url::parse(input) {
        Ok(parsed) => parsed.has_host(),
        Err(_) => false,
    }
}

/// Accept only well-formed absolute URLs with a host component; reject
/// malformed strings and host-less schemes such as `mailto:`. A pure,
/// synchronous check with no storage access.
pub fn validate_url(input: &str) -> (r: Result<(), CreateError>)
    ensures
        r is Ok <==> url_ok(input@),
        r is Err ==> r == Err::<(), CreateError>(CreateError::InvalidUrl),
{
    if parse_has_host(input) {
        Ok(())
    } else {
        Err(CreateError::InvalidUrl)
    }
}

} // verus!
