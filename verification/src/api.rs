//! The request and response values exchanged over the HTTP boundary.

use vstd::prelude::*;

verus! {

/// A request to create a new short link.
#[derive(Clone, Debug)]
pub struct CreateLinkRequest {
    /// The original URL to be shortened.
    pub url: String,
}

/// The response for a newly created (or already existing) short link.
#[derive(Clone, Debug)]
pub struct CreateLinkResponse {
    /// The short code of the link.
    pub code: String,
    /// The original URL the code stands for.
    pub url: String,
}

/// Information about an existing short link.
#[derive(Clone, Debug)]
pub struct InfoResponse {
    /// The short code of the link.
    pub code: String,
    /// The original URL the short link redirects to.
    pub url: String,
    /// The Unix timestamp (in seconds) recorded when the link was created.
    pub created_at: i64,
}

} // verus!
