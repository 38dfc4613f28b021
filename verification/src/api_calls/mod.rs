//! Request construction for each of the platform's endpoints.
//!
//! Every function here validates its identifiers, joins the path segments
//! onto the configured base address and encodes the query parameters, and
//! returns the fully-determined request. Nothing here sends anything: the
//! caller performs the transfer and hands the response back to
//! [`crate::rate_limit::process_status`].

use vstd::prelude::*;

use crate::url_ext::Url;

pub mod misc;
pub mod project;
pub mod search;
pub mod tag;
pub mod team;
pub mod user;
pub mod version;
pub mod version_file;

verus! {

/// The HTTP method of a request.
#[derive(Debug, Clone, Copy, PartialEq, Eq, Structural)]
pub enum Method {
    Get,
    Post,
    Patch,
    Delete,
}

/// A fully-determined request, not yet sent. Where an endpoint takes a JSON
/// body, the body is the caller's to serialise and attach.
#[derive(Debug)]
pub struct Request {
    pub method: Method,
    pub url: Url,
}

/// What a successfully built request must be: its method, base address, path
/// segments and query pairs, exactly.
pub open spec fn is_request(
    r: Result<Request, crate::Error>,
    method: Method,
    base: Seq<char>,
    path: Seq<Seq<char>>,
    query: Seq<(Seq<char>, Seq<char>)>,
) -> bool {
    match r {
        Ok(req) => req.method == method && req.url.base@ == base && req.url.path_view() == path
            && req.url.query_view() == query,
        Err(_) => false,
    }
}

/// Builds requests for each endpoint from explicitly configured addresses,
/// so tests can point it at any instance.
#[derive(Debug, Clone)]
pub struct Api {
    /// The versioned API base address, without a trailing slash.
    pub base: String,
    /// The instance's root address, without a trailing slash.
    pub root: String,
}

impl Api {
    /// An `Api` for the given root and versioned base addresses.
    pub fn new(root: String, base: String) -> (r: Api)
        ensures
            r.root == root,
            r.base == base,
    {
        Api { root, base }
    }

    /// The addresses of the Modrinth instance this library is written
    /// against.
    pub fn modrinth() -> (r: Api)
        ensures
            r.root@ == "https://api.modrinth.com"@,
            r.base@ == "https://api.modrinth.com/v2"@,
    {
        Api {
            root: "https://api.modrinth.com".to_owned(),
            base: "https://api.modrinth.com/v2".to_owned(),
        }
    }

    /// A request on the versioned base with the given path and no query.
    pub(crate) fn seg_request(&self, method: Method, segments: Vec<String>) -> (r: Request)
        requires
            segments@.len() >= 1,
        ensures
            r.method == method,
            r.url.base@ == self.base@,
            r.url.path_view() == segments.deep_view(),
            r.url.query_view() == Seq::<(Seq<char>, Seq<char>)>::empty(),
    {
        let ghost segs = segments.deep_view();
        let url = Url::new(self.base.clone()).join_all(segments);
        proof {
            assert(url.path_view() =~= segs);
        }
        Request { method, url }
    }
}

} // verus!
