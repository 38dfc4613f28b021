//! Requests for the user endpoints.

use vstd::prelude::*;

use crate::api_calls::{is_request, Api, Method, Request};
use crate::json::{json_string_list, strs_view};
use crate::validate::{all_id_slugs, check_id_slug, is_id_slug, valid_id_slug};
use crate::Error;

verus! {

impl Api {
    /// Get the user of `user_id`.
    pub fn user_get(&self, user_id: &str) -> (r: Result<Request, Error>)
        ensures
            is_id_slug(user_id@) ==> is_request(
                r,
                Method::Get,
                self.base@,
                seq!["user"@, user_id@],
                Seq::empty(),
            ),
            !is_id_slug(user_id@) ==> r == Err::<Request, Error>(Error::InvalidIDorSlug),
    {
        if !valid_id_slug(user_id) {
            return Err(Error::InvalidIDorSlug);
        }
        let req = self.seg_request(Method::Get, vec!["user".to_owned(), user_id.to_owned()]);
        proof {
            assert(req.url.path_view() =~= seq!["user"@, user_id@]);
        }
        Ok(req)
    }

    /// Get the users of `user_ids`.
    pub fn user_get_multiple(&self, user_ids: &[&str]) -> (r: Result<Request, Error>)
        ensures
            all_id_slugs(user_ids@) ==> is_request(
                r,
                Method::Get,
                self.base@,
                seq!["users"@],
                seq![("ids"@, json_string_list(strs_view(user_ids@)))],
            ),
            !all_id_slugs(user_ids@) ==> r == Err::<Request, Error>(Error::InvalidIDorSlug),
    {
        if let Err(e) = check_id_slug(user_ids) {
            return Err(e);
        }
        let ids = crate::json::json_encode_str_list(user_ids);
        let req = self.seg_request(Method::Get, vec!["users".to_owned()]);
        let url = req.url.with_query("ids", ids.as_str());
        let req = Request { method: Method::Get, url };
        proof {
            assert(req.url.path_view() =~= seq!["users"@]);
            assert(req.url.query_view() =~= seq![
                ("ids"@, json_string_list(strs_view(user_ids@))),
            ]);
        }
        Ok(req)
    }

    /// Get the projects of the user of `user_id`.
    pub fn user_list_projects(&self, user_id: &str) -> (r: Result<Request, Error>)
        ensures
            is_id_slug(user_id@) ==> is_request(
                r,
                Method::Get,
                self.base@,
                seq!["user"@, user_id@, "projects"@],
                Seq::empty(),
            ),
            !is_id_slug(user_id@) ==> r == Err::<Request, Error>(Error::InvalidIDorSlug),
    {
        if !valid_id_slug(user_id) {
            return Err(Error::InvalidIDorSlug);
        }
        let req = self.seg_request(
            Method::Get,
            vec!["user".to_owned(), user_id.to_owned(), "projects".to_owned()],
        );
        proof {
            assert(req.url.path_view() =~= seq!["user"@, user_id@, "projects"@]);
        }
        Ok(req)
    }

    /// Get the notifications of the user of `user_id`.
    pub fn user_list_notifications(&self, user_id: &str) -> (r: Result<Request, Error>)
        ensures
            is_id_slug(user_id@) ==> is_request(
                r,
                Method::Get,
                self.base@,
                seq!["user"@, user_id@, "notifications"@],
                Seq::empty(),
            ),
            !is_id_slug(user_id@) ==> r == Err::<Request, Error>(Error::InvalidIDorSlug),
    {
        if !valid_id_slug(user_id) {
            return Err(Error::InvalidIDorSlug);
        }
        let req = self.seg_request(
            Method::Get,
            vec!["user".to_owned(), user_id.to_owned(), "notifications".to_owned()],
        );
        proof {
            assert(req.url.path_view() =~= seq!["user"@, user_id@, "notifications"@]);
        }
        Ok(req)
    }

    /// Get the projects that the user of `user_id` has followed.
    pub fn user_list_followed_projects(&self, user_id: &str) -> (r: Result<Request, Error>)
        ensures
            is_id_slug(user_id@) ==> is_request(
                r,
                Method::Get,
                self.base@,
                seq!["user"@, user_id@, "follows"@],
                Seq::empty(),
            ),
            !is_id_slug(user_id@) ==> r == Err::<Request, Error>(Error::InvalidIDorSlug),
    {
        if !valid_id_slug(user_id) {
            return Err(Error::InvalidIDorSlug);
        }
        let req = self.seg_request(
            Method::Get,
            vec!["user".to_owned(), user_id.to_owned(), "follows".to_owned()],
        );
        proof {
            assert(req.url.path_view() =~= seq!["user"@, user_id@, "follows"@]);
        }
        Ok(req)
    }

    /// Delete the user of `user_id`.
    pub fn user_delete(&self, user_id: &str) -> (r: Result<Request, Error>)
        ensures
            is_id_slug(user_id@) ==> is_request(
                r,
                Method::Delete,
                self.base@,
                seq!["user"@, user_id@],
                Seq::empty(),
            ),
            !is_id_slug(user_id@) ==> r == Err::<Request, Error>(Error::InvalidIDorSlug),
    {
        if !valid_id_slug(user_id) {
            return Err(Error::InvalidIDorSlug);
        }
        let req = self.seg_request(Method::Delete, vec!["user".to_owned(), user_id.to_owned()]);
        proof {
            assert(req.url.path_view() =~= seq!["user"@, user_id@]);
        }
        Ok(req)
    }

    /// Get the user the authorisation header belongs to.
    pub fn user_get_current(&self) -> (r: Request)
        ensures
            is_request(Ok(r), Method::Get, self.base@, seq!["user"@], Seq::empty()),
    {
        let req = self.seg_request(Method::Get, vec!["user".to_owned()]);
        proof {
            assert(req.url.path_view() =~= seq!["user"@]);
        }
        req
    }
}

} // verus!
