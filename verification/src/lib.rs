//! Typed bindings for a mod-hosting platform's REST API.
//!
//! The library builds the requests — validated identifiers, joined path
//! segments, encoded query strings — and classifies the responses (rate-limit
//! detection and typed errors). Sending the requests over the network is left
//! to the caller.

use vstd::prelude::*;

pub mod api_calls;
pub mod facet;
pub mod json;
pub mod percent;
pub mod rate_limit;
pub mod strutil;
pub mod structures;
pub mod url_ext;
pub mod validate;

pub use validate::{check_id_slug, check_sha1_hash};

verus! {

/// The errors this library reports.
#[derive(Debug, Clone, Copy, PartialEq, Eq, Structural)]
pub enum Error {
    /// The given string is not a valid platform ID or slug.
    InvalidIDorSlug,
    /// The given string is not a 40-character lowercase hexadecimal SHA-1 digest.
    InvalidSHA1,
    /// The server reported that the client is rate limited; retry after this
    /// many seconds.
    RateLimitExceeded(usize),
    /// The server reported that this API base is deprecated.
    ApiDeprecated,
    /// The server answered with an error status code.
    HttpStatus(u16),
}

/// Marks a client that sends an authentication token with every request.
pub struct Authenticated;

} // verus!
