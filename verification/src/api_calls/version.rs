//! Requests for the version endpoints.

use vstd::prelude::*;

use crate::api_calls::{is_request, Api, Method, Request};
use crate::json::{json_string, json_string_list, strs_view};
use crate::strutil::{bool_chars, bool_string};
use crate::structures::version::RequestedStatus;
use crate::validate::{all_id_slugs, check_id_slug, is_id_slug, valid_id_slug};
use crate::Error;

verus! {

/// The query of a filtered version listing: each present filter appended in
/// order, the lists as JSON arrays and the flag as a JSON boolean.
pub open spec fn version_filter_query(
    loaders: Option<Seq<Seq<char>>>,
    game_versions: Option<Seq<Seq<char>>>,
    featured: Option<bool>,
) -> Seq<(Seq<char>, Seq<char>)> {
    let q = Seq::<(Seq<char>, Seq<char>)>::empty();
    let q = match loaders {
        Some(l) => q.push(("loaders"@, json_string_list(l))),
        None => q,
    };
    let q = match game_versions {
        Some(g) => q.push(("game_versions"@, json_string_list(g))),
        None => q,
    };
    match featured {
        Some(f) => q.push(("featured"@, bool_chars(f))),
        None => q,
    }
}

impl Api {
    /// Delete the version of `version_id`.
    pub fn version_delete(&self, version_id: &str) -> (r: Result<Request, Error>)
        ensures
            is_id_slug(version_id@) ==> is_request(
                r,
                Method::Delete,
                self.base@,
                seq!["version"@, version_id@],
                Seq::empty(),
            ),
            !is_id_slug(version_id@) ==> r == Err::<Request, Error>(Error::InvalidIDorSlug),
    {
        if !valid_id_slug(version_id) {
            return Err(Error::InvalidIDorSlug);
        }
        let req = self.seg_request(
            Method::Delete,
            vec!["version".to_owned(), version_id.to_owned()],
        );
        proof {
            assert(req.url.path_view() =~= seq!["version"@, version_id@]);
        }
        Ok(req)
    }

    /// Schedule a change to `requested_status` at `time` (ISO 8601 text) for
    /// the version of `version_id`.
    pub fn version_schedule(
        &self,
        version_id: &str,
        time: &str,
        requested_status: &RequestedStatus,
    ) -> (r: Result<Request, Error>)
        ensures
            is_id_slug(version_id@) ==> is_request(
                r,
                Method::Post,
                self.base@,
                seq!["version"@, version_id@, "schedule"@],
                seq![
                    ("time"@, json_string(time@)),
                    ("requested_status"@, json_string(requested_status.spec_str())),
                ],
            ),
            !is_id_slug(version_id@) ==> r == Err::<Request, Error>(Error::InvalidIDorSlug),
    {
        if !valid_id_slug(version_id) {
            return Err(Error::InvalidIDorSlug);
        }
        let req = self.seg_request(
            Method::Post,
            vec!["version".to_owned(), version_id.to_owned(), "schedule".to_owned()],
        );
        let time_json = crate::json::json_encode_string(time);
        let status_json = crate::json::json_encode_string(requested_status.as_str());
        let url = req.url.with_query("time", time_json.as_str()).with_query(
            "requested_status",
            status_json.as_str(),
        );
        let req = Request { method: Method::Post, url };
        proof {
            assert(req.url.path_view() =~= seq!["version"@, version_id@, "schedule"@]);
            assert(req.url.query_view() =~= seq![
                ("time"@, json_string(time@)),
                ("requested_status"@, json_string(requested_status.spec_str())),
            ]);
        }
        Ok(req)
    }

    /// Get the versions of the project of `project_id`.
    pub fn version_list(&self, project_id: &str) -> (r: Result<Request, Error>)
        ensures
            is_id_slug(project_id@) ==> is_request(
                r,
                Method::Get,
                self.base@,
                seq!["project"@, project_id@, "version"@],
                Seq::empty(),
            ),
            !is_id_slug(project_id@) ==> r == Err::<Request, Error>(Error::InvalidIDorSlug),
    {
        if !valid_id_slug(project_id) {
            return Err(Error::InvalidIDorSlug);
        }
        let req = self.seg_request(
            Method::Get,
            vec!["project".to_owned(), project_id.to_owned(), "version".to_owned()],
        );
        proof {
            assert(req.url.path_view() =~= seq!["project"@, project_id@, "version"@]);
        }
        Ok(req)
    }

    /// Get the versions of the project of `project_id`, filtered by loaders,
    /// game versions, and whether the version is featured.
    pub fn version_list_filtered(
        &self,
        project_id: &str,
        loaders: Option<&[&str]>,
        game_versions: Option<&[&str]>,
        featured: Option<bool>,
    ) -> (r: Result<Request, Error>)
        ensures
            is_id_slug(project_id@) ==> is_request(
                r,
                Method::Get,
                self.base@,
                seq!["project"@, project_id@, "version"@],
                version_filter_query(loaders.deep_view(), game_versions.deep_view(), featured),
            ),
            !is_id_slug(project_id@) ==> r == Err::<Request, Error>(Error::InvalidIDorSlug),
    {
        if !valid_id_slug(project_id) {
            return Err(Error::InvalidIDorSlug);
        }
        let req = self.seg_request(
            Method::Get,
            vec!["project".to_owned(), project_id.to_owned(), "version".to_owned()],
        );
        let mut url = req.url;
        if let Some(l) = loaders {
            let v = crate::json::json_encode_str_list(l);
            url = url.with_query("loaders", v.as_str());
            proof {
                assert(strs_view(l@) =~= l.deep_view());
            }
        }
        if let Some(g) = game_versions {
            let v = crate::json::json_encode_str_list(g);
            url = url.with_query("game_versions", v.as_str());
            proof {
                assert(strs_view(g@) =~= g.deep_view());
            }
        }
        if let Some(f) = featured {
            let v = bool_string(f);
            url = url.with_query("featured", v.as_str());
        }
        let req = Request { method: Method::Get, url };
        proof {
            assert(req.url.path_view() =~= seq!["project"@, project_id@, "version"@]);
            assert(req.url.query_view() =~= version_filter_query(
                loaders.deep_view(),
                game_versions.deep_view(),
                featured,
            ));
        }
        Ok(req)
    }

    /// Get the version of `version_id`.
    pub fn version_get(&self, version_id: &str) -> (r: Result<Request, Error>)
        ensures
            is_id_slug(version_id@) ==> is_request(
                r,
                Method::Get,
                self.base@,
                seq!["version"@, version_id@],
                Seq::empty(),
            ),
            !is_id_slug(version_id@) ==> r == Err::<Request, Error>(Error::InvalidIDorSlug),
    {
        if !valid_id_slug(version_id) {
            return Err(Error::InvalidIDorSlug);
        }
        let req = self.seg_request(Method::Get, vec!["version".to_owned(), version_id.to_owned()]);
        proof {
            assert(req.url.path_view() =~= seq!["version"@, version_id@]);
        }
        Ok(req)
    }

    /// Get the version of the version `number` from the project of
    /// `project_id`.
    pub fn version_get_from_number(&self, project_id: &str, number: &str) -> (r: Result<
        Request,
        Error,
    >)
        ensures
            is_id_slug(project_id@) ==> is_request(
                r,
                Method::Get,
                self.base@,
                seq!["project"@, project_id@, "version"@, number@],
                Seq::empty(),
            ),
            !is_id_slug(project_id@) ==> r == Err::<Request, Error>(Error::InvalidIDorSlug),
    {
        if !valid_id_slug(project_id) {
            return Err(Error::InvalidIDorSlug);
        }
        let req = self.seg_request(
            Method::Get,
            vec![
                "project".to_owned(),
                project_id.to_owned(),
                "version".to_owned(),
                number.to_owned(),
            ],
        );
        proof {
            assert(req.url.path_view() =~= seq!["project"@, project_id@, "version"@, number@]);
        }
        Ok(req)
    }

    /// Get the versions of `version_ids`.
    pub fn version_get_multiple(&self, version_ids: &[&str]) -> (r: Result<Request, Error>)
        ensures
            all_id_slugs(version_ids@) ==> is_request(
                r,
                Method::Get,
                self.base@,
                seq!["versions"@],
                seq![("ids"@, json_string_list(strs_view(version_ids@)))],
            ),
            !all_id_slugs(version_ids@) ==> r == Err::<Request, Error>(Error::InvalidIDorSlug),
    {
        if let Err(e) = check_id_slug(version_ids) {
            return Err(e);
        }
        let ids = crate::json::json_encode_str_list(version_ids);
        let req = self.seg_request(Method::Get, vec!["versions".to_owned()]);
        let url = req.url.with_query("ids", ids.as_str());
        let req = Request { method: Method::Get, url };
        proof {
            assert(req.url.path_view() =~= seq!["versions"@]);
            assert(req.url.query_view() =~= seq![
                ("ids"@, json_string_list(strs_view(version_ids@))),
            ]);
        }
        Ok(req)
    }
}

} // verus!
