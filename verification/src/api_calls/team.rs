//! Requests for the team endpoints.

use vstd::prelude::*;

use crate::api_calls::{is_request, Api, Method, Request};
use crate::json::{json_string_list, strs_view};
use crate::validate::{all_id_slugs, check_id_slug, is_id_slug, valid_id_slug};
use crate::Error;

verus! {

impl Api {
    /// List the members of the team of the project of `project_id`.
    pub fn team_list_project_members(&self, project_id: &str) -> (r: Result<Request, Error>)
        ensures
            is_id_slug(project_id@) ==> is_request(
                r,
                Method::Get,
                self.base@,
                seq!["project"@, project_id@, "members"@],
                Seq::empty(),
            ),
            !is_id_slug(project_id@) ==> r == Err::<Request, Error>(Error::InvalidIDorSlug),
    {
        if !valid_id_slug(project_id) {
            return Err(Error::InvalidIDorSlug);
        }
        let req = self.seg_request(
            Method::Get,
            vec!["project".to_owned(), project_id.to_owned(), "members".to_owned()],
        );
        proof {
            assert(req.url.path_view() =~= seq!["project"@, project_id@, "members"@]);
        }
        Ok(req)
    }

    /// List the members of the team of `team_id`.
    pub fn team_list_members(&self, team_id: &str) -> (r: Result<Request, Error>)
        ensures
            is_id_slug(team_id@) ==> is_request(
                r,
                Method::Get,
                self.base@,
                seq!["team"@, team_id@, "members"@],
                Seq::empty(),
            ),
            !is_id_slug(team_id@) ==> r == Err::<Request, Error>(Error::InvalidIDorSlug),
    {
        if !valid_id_slug(team_id) {
            return Err(Error::InvalidIDorSlug);
        }
        let req = self.seg_request(
            Method::Get,
            vec!["team".to_owned(), team_id.to_owned(), "members".to_owned()],
        );
        proof {
            assert(req.url.path_view() =~= seq!["team"@, team_id@, "members"@]);
        }
        Ok(req)
    }

    /// List the members of the teams of `team_ids`.
    pub fn team_multiple_list_members(&self, team_ids: &[&str]) -> (r: Result<Request, Error>)
        ensures
            all_id_slugs(team_ids@) ==> is_request(
                r,
                Method::Get,
                self.base@,
                seq!["teams"@],
                seq![("ids"@, json_string_list(strs_view(team_ids@)))],
            ),
            !all_id_slugs(team_ids@) ==> r == Err::<Request, Error>(Error::InvalidIDorSlug),
    {
        if let Err(e) = check_id_slug(team_ids) {
            return Err(e);
        }
        let ids = crate::json::json_encode_str_list(team_ids);
        let req = self.seg_request(Method::Get, vec!["teams".to_owned()]);
        let url = req.url.with_query("ids", ids.as_str());
        let req = Request { method: Method::Get, url };
        proof {
            assert(req.url.path_view() =~= seq!["teams"@]);
            assert(req.url.query_view() =~= seq![
                ("ids"@, json_string_list(strs_view(team_ids@))),
            ]);
        }
        Ok(req)
    }

    /// Send an invite to join the team of `team_id`; the caller attaches the
    /// invited user's ID as the body.
    pub fn team_add_user(&self, team_id: &str) -> (r: Request)
        ensures
            is_request(
                Ok(r),
                Method::Post,
                self.base@,
                seq!["team"@, team_id@, "members"@],
                Seq::empty(),
            ),
    {
        let req = self.seg_request(
            Method::Post,
            vec!["team".to_owned(), team_id.to_owned(), "members".to_owned()],
        );
        proof {
            assert(req.url.path_view() =~= seq!["team"@, team_id@, "members"@]);
        }
        req
    }

    /// Accept an invite to join the team of `team_id`.
    pub fn team_join(&self, team_id: &str) -> (r: Request)
        ensures
            is_request(
                Ok(r),
                Method::Post,
                self.base@,
                seq!["team"@, team_id@, "join"@],
                Seq::empty(),
            ),
    {
        let req = self.seg_request(
            Method::Post,
            vec!["team".to_owned(), team_id.to_owned(), "join".to_owned()],
        );
        proof {
            assert(req.url.path_view() =~= seq!["team"@, team_id@, "join"@]);
        }
        req
    }

    /// Remove the member of `user_id` from the team of `team_id`.
    pub fn team_remove_member(&self, team_id: &str, user_id: &str) -> (r: Request)
        ensures
            is_request(
                Ok(r),
                Method::Delete,
                self.base@,
                seq!["team"@, team_id@, "members"@, user_id@],
                Seq::empty(),
            ),
    {
        let req = self.seg_request(
            Method::Delete,
            vec!["team".to_owned(), team_id.to_owned(), "members".to_owned(), user_id.to_owned()],
        );
        proof {
            assert(req.url.path_view() =~= seq!["team"@, team_id@, "members"@, user_id@]);
        }
        req
    }

    /// Transfer ownership of the team of `team_id`; the caller attaches the
    /// new owner's user ID as the body.
    pub fn team_transfer_ownership(&self, team_id: &str) -> (r: Request)
        ensures
            is_request(
                Ok(r),
                Method::Post,
                self.base@,
                seq!["team"@, team_id@, "owner"@],
                Seq::empty(),
            ),
    {
        let req = self.seg_request(
            Method::Post,
            vec!["team".to_owned(), team_id.to_owned(), "owner".to_owned()],
        );
        proof {
            assert(req.url.path_view() =~= seq!["team"@, team_id@, "owner"@]);
        }
        req
    }
}

} // verus!
