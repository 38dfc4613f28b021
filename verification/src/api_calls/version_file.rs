//! Requests for the version-file endpoints, addressed by SHA-1 hash.

use vstd::prelude::*;

use crate::api_calls::{is_request, Api, Method, Request};
use crate::json::json_string;
use crate::validate::{
    all_sha1_hashes, check_sha1_hash, is_id_slug, is_sha1_hash, valid_id_slug, valid_sha1_hash,
};
use crate::Error;

verus! {

/// The query of a request that deletes a version file: the version to delete
/// it from, where one was given.
pub open spec fn delete_from_hash_query(version_id: Option<Seq<char>>) -> Seq<
    (Seq<char>, Seq<char>),
> {
    match version_id {
        Some(v) => seq![("version_id"@, v)],
        None => Seq::empty(),
    }
}

impl Api {
    /// Delete the version file of `hash`, optionally from the version of
    /// `version_id` where several files share the hash.
    pub fn version_file_delete_from_hash(&self, hash: &str, version_id: Option<&str>) -> (r:
        Result<Request, Error>)
        ensures
            !is_sha1_hash(hash@) ==> r == Err::<Request, Error>(Error::InvalidSHA1),
            is_sha1_hash(hash@) && (match version_id {
                Some(v) => !is_id_slug(v@),
                None => false,
            }) ==> r == Err::<Request, Error>(Error::InvalidIDorSlug),
            is_sha1_hash(hash@) && (match version_id {
                Some(v) => is_id_slug(v@),
                None => true,
            }) ==> is_request(
                r,
                Method::Delete,
                self.base@,
                seq!["version_file"@, hash@],
                delete_from_hash_query(version_id.deep_view()),
            ),
    {
        if !valid_sha1_hash(hash) {
            return Err(Error::InvalidSHA1);
        }
        let req = self.seg_request(
            Method::Delete,
            vec!["version_file".to_owned(), hash.to_owned()],
        );
        let mut url = req.url;
        if let Some(v) = version_id {
            if !valid_id_slug(v) {
                return Err(Error::InvalidIDorSlug);
            }
            url = url.with_query("version_id", v);
        }
        let req = Request { method: Method::Delete, url };
        proof {
            assert(req.url.path_view() =~= seq!["version_file"@, hash@]);
            assert(req.url.query_view() =~= delete_from_hash_query(version_id.deep_view()));
        }
        Ok(req)
    }

    /// Get the version of the version file of `hash`.
    pub fn version_get_from_hash(&self, hash: &str) -> (r: Result<Request, Error>)
        ensures
            is_sha1_hash(hash@) ==> is_request(
                r,
                Method::Get,
                self.base@,
                seq!["version_file"@, hash@],
                Seq::empty(),
            ),
            !is_sha1_hash(hash@) ==> r == Err::<Request, Error>(Error::InvalidSHA1),
    {
        if !valid_sha1_hash(hash) {
            return Err(Error::InvalidSHA1);
        }
        let req = self.seg_request(Method::Get, vec!["version_file".to_owned(), hash.to_owned()]);
        proof {
            assert(req.url.path_view() =~= seq!["version_file"@, hash@]);
        }
        Ok(req)
    }

    /// Get the versions of the version files of `hashes`; the caller attaches
    /// the hashes and algorithm as the body.
    pub fn version_get_from_multiple_hashes(&self, hashes: &[&str]) -> (r: Result<Request, Error>)
        ensures
            all_sha1_hashes(hashes@) ==> is_request(
                r,
                Method::Post,
                self.base@,
                seq!["version_files"@],
                Seq::empty(),
            ),
            !all_sha1_hashes(hashes@) ==> r == Err::<Request, Error>(Error::InvalidSHA1),
    {
        if let Err(e) = check_sha1_hash(hashes) {
            return Err(e);
        }
        let req = self.seg_request(Method::Post, vec!["version_files".to_owned()]);
        proof {
            assert(req.url.path_view() =~= seq!["version_files"@]);
        }
        Ok(req)
    }

    /// Get the latest version of the project of the version file of `hash`;
    /// the caller attaches the filters as the body.
    pub fn version_get_latest_from_hash(&self, hash: &str) -> (r: Result<Request, Error>)
        ensures
            is_sha1_hash(hash@) ==> is_request(
                r,
                Method::Post,
                self.base@,
                seq!["version_file"@, hash@, "update"@],
                seq![("algorithm"@, json_string("sha1"@))],
            ),
            !is_sha1_hash(hash@) ==> r == Err::<Request, Error>(Error::InvalidSHA1),
    {
        if !valid_sha1_hash(hash) {
            return Err(Error::InvalidSHA1);
        }
        let req = self.seg_request(
            Method::Post,
            vec!["version_file".to_owned(), hash.to_owned(), "update".to_owned()],
        );
        let algorithm = crate::json::json_encode_string("sha1");
        let url = req.url.with_query("algorithm", algorithm.as_str());
        let req = Request { method: Method::Post, url };
        proof {
            assert(req.url.path_view() =~= seq!["version_file"@, hash@, "update"@]);
            assert(req.url.query_view() =~= seq![("algorithm"@, json_string("sha1"@))]);
        }
        Ok(req)
    }

    /// Get the latest versions of the projects of the version files of
    /// `hashes`; the caller attaches the hashes and filters as the body.
    pub fn version_get_latest_from_multiple_hashes(&self, hashes: &[&str]) -> (r: Result<
        Request,
        Error,
    >)
        ensures
            all_sha1_hashes(hashes@) ==> is_request(
                r,
                Method::Post,
                self.base@,
                seq!["version_files"@, "update"@],
                Seq::empty(),
            ),
            !all_sha1_hashes(hashes@) ==> r == Err::<Request, Error>(Error::InvalidSHA1),
    {
        if let Err(e) = check_sha1_hash(hashes) {
            return Err(e);
        }
        let req = self.seg_request(
            Method::Post,
            vec!["version_files".to_owned(), "update".to_owned()],
        );
        proof {
            assert(req.url.path_view() =~= seq!["version_files"@, "update"@]);
        }
        Ok(req)
    }
}

} // verus!
