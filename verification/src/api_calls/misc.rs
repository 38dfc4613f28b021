//! Requests for the miscellaneous endpoints: reports, statistics and the
//! welcome page.

use vstd::prelude::*;

use crate::api_calls::{is_request, Api, Method, Request};
use crate::structures::misc::ReportSubmission;
use crate::url_ext::Url;
use crate::validate::{is_id_slug, valid_id_slug};
use crate::Error;

verus! {

impl Api {
    /// Submit `report` to the moderators; the caller attaches the serialised
    /// report as the body.
    pub fn submit_report(&self, report: &ReportSubmission) -> (r: Result<Request, Error>)
        ensures
            is_id_slug(report.item_id@) ==> is_request(
                r,
                Method::Post,
                self.base@,
                seq!["report"@],
                Seq::empty(),
            ),
            !is_id_slug(report.item_id@) ==> r == Err::<Request, Error>(Error::InvalidIDorSlug),
    {
        if !valid_id_slug(report.item_id.as_str()) {
            return Err(Error::InvalidIDorSlug);
        }
        let req = self.seg_request(Method::Post, vec!["report".to_owned()]);
        proof {
            assert(req.url.path_view() =~= seq!["report"@]);
        }
        Ok(req)
    }

    /// Get various statistics about this instance.
    pub fn instance_statistics(&self) -> (r: Request)
        ensures
            is_request(Ok(r), Method::Get, self.base@, seq!["statistics"@], Seq::empty()),
    {
        let req = self.seg_request(Method::Get, vec!["statistics".to_owned()]);
        proof {
            assert(req.url.path_view() =~= seq!["statistics"@]);
        }
        req
    }

    /// Get the API welcome page, served at the instance's root.
    pub fn welcome(&self) -> (r: Request)
        ensures
            is_request(Ok(r), Method::Get, self.root@, Seq::empty(), Seq::empty()),
    {
        let url = Url::new(self.root.clone());
        Request { method: Method::Get, url }
    }
}

} // verus!
