//! Requests for the tag endpoints.

use vstd::prelude::*;

use crate::api_calls::{is_request, Api, Method, Request};

verus! {

impl Api {
    /// List the categories, their icons, and applicable project types.
    pub fn tag_list_categories(&self) -> (r: Request)
        ensures
            is_request(Ok(r), Method::Get, self.base@, seq!["tag"@, "category"@], Seq::empty()),
    {
        let req = self.seg_request(Method::Get, vec!["tag".to_owned(), "category".to_owned()]);
        proof {
            assert(req.url.path_view() =~= seq!["tag"@, "category"@]);
        }
        req
    }

    /// List the loaders, their icons, and supported project types.
    pub fn tag_list_loaders(&self) -> (r: Request)
        ensures
            is_request(Ok(r), Method::Get, self.base@, seq!["tag"@, "loader"@], Seq::empty()),
    {
        let req = self.seg_request(Method::Get, vec!["tag".to_owned(), "loader".to_owned()]);
        proof {
            assert(req.url.path_view() =~= seq!["tag"@, "loader"@]);
        }
        req
    }

    /// List the game versions and information about them.
    pub fn tag_list_game_versions(&self) -> (r: Request)
        ensures
            is_request(Ok(r), Method::Get, self.base@, seq!["tag"@, "game_version"@], Seq::empty()),
    {
        let req = self.seg_request(Method::Get, vec!["tag".to_owned(), "game_version".to_owned()]);
        proof {
            assert(req.url.path_view() =~= seq!["tag"@, "game_version"@]);
        }
        req
    }

    /// Get the text and title of the license of `id`.
    pub fn tag_license_text_and_title(&self, id: &str) -> (r: Request)
        ensures
            is_request(Ok(r), Method::Get, self.base@, seq!["tag"@, "license"@, id@], Seq::empty()),
    {
        let req = self.seg_request(
            Method::Get,
            vec!["tag".to_owned(), "license".to_owned(), id.to_owned()],
        );
        proof {
            assert(req.url.path_view() =~= seq!["tag"@, "license"@, id@]);
        }
        req
    }

    /// List donation platforms and information about them.
    pub fn tag_list_donation_platforms(&self) -> (r: Request)
        ensures
            is_request(
                Ok(r),
                Method::Get,
                self.base@,
                seq!["tag"@, "donation_platform"@],
                Seq::empty(),
            ),
    {
        let req = self.seg_request(
            Method::Get,
            vec!["tag".to_owned(), "donation_platform".to_owned()],
        );
        proof {
            assert(req.url.path_view() =~= seq!["tag"@, "donation_platform"@]);
        }
        req
    }

    /// List valid report types.
    pub fn tag_list_report_types(&self) -> (r: Request)
        ensures
            is_request(Ok(r), Method::Get, self.base@, seq!["tag"@, "report_type"@], Seq::empty()),
    {
        let req = self.seg_request(Method::Get, vec!["tag".to_owned(), "report_type".to_owned()]);
        proof {
            assert(req.url.path_view() =~= seq!["tag"@, "report_type"@]);
        }
        req
    }
}

} // verus!
