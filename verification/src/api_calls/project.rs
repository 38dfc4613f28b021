//! Requests for the project endpoints.

use vstd::prelude::*;

use crate::api_calls::{is_request, Api, Method, Request};
use crate::json::{json_string, json_string_list, strs_view};
use crate::strutil::{bool_chars, bool_string, dec_chars, usize_string};
use crate::structures::project::{ImageFileExt, RequestedStatus};
use crate::validate::{all_id_slugs, check_id_slug, is_id_slug, valid_id_slug};
use crate::Error;

verus! {

impl Api {
    /// Get the project of `project_id`.
    pub fn project_get(&self, project_id: &str) -> (r: Result<Request, Error>)
        ensures
            is_id_slug(project_id@) ==> is_request(
                r,
                Method::Get,
                self.base@,
                seq!["project"@, project_id@],
                Seq::empty(),
            ),
            !is_id_slug(project_id@) ==> r == Err::<Request, Error>(Error::InvalidIDorSlug),
    {
        if !valid_id_slug(project_id) {
            return Err(Error::InvalidIDorSlug);
        }
        let req = self.seg_request(Method::Get, vec!["project".to_owned(), project_id.to_owned()]);
        proof {
            assert(req.url.path_view() =~= seq!["project"@, project_id@]);
        }
        Ok(req)
    }

    /// Get the projects of `project_ids`.
    pub fn project_get_multiple(&self, project_ids: &[&str]) -> (r: Result<Request, Error>)
        ensures
            all_id_slugs(project_ids@) ==> is_request(
                r,
                Method::Get,
                self.base@,
                seq!["projects"@],
                seq![("ids"@, json_string_list(strs_view(project_ids@)))],
            ),
            !all_id_slugs(project_ids@) ==> r == Err::<Request, Error>(Error::InvalidIDorSlug),
    {
        if let Err(e) = check_id_slug(project_ids) {
            return Err(e);
        }
        let ids = crate::json::json_encode_str_list(project_ids);
        let req = self.seg_request(Method::Get, vec!["projects".to_owned()]);
        let url = req.url.with_query("ids", ids.as_str());
        let req = Request { method: Method::Get, url };
        proof {
            assert(req.url.path_view() =~= seq!["projects"@]);
            assert(req.url.query_view() =~= seq![
                ("ids"@, json_string_list(strs_view(project_ids@))),
            ]);
        }
        Ok(req)
    }

    /// Get `count` random projects.
    pub fn project_get_random(&self, count: usize) -> (r: Request)
        ensures
            is_request(
                Ok(r),
                Method::Get,
                self.base@,
                seq!["projects_random"@],
                seq![("count"@, dec_chars(count as nat))],
            ),
    {
        let value = usize_string(count);
        let req = self.seg_request(Method::Get, vec!["projects_random".to_owned()]);
        let url = req.url.with_query("count", value.as_str());
        let req = Request { method: Method::Get, url };
        proof {
            assert(req.url.path_view() =~= seq!["projects_random"@]);
            assert(req.url.query_view() =~= seq![("count"@, dec_chars(count as nat))]);
        }
        req
    }

    /// Check whether `project_id` refers to an existing project; the response
    /// carries the project's ID.
    pub fn project_check_validity(&self, project_id: &str) -> (r: Result<Request, Error>)
        ensures
            is_id_slug(project_id@) ==> is_request(
                r,
                Method::Get,
                self.base@,
                seq!["project"@, project_id@, "check"@],
                Seq::empty(),
            ),
            !is_id_slug(project_id@) ==> r == Err::<Request, Error>(Error::InvalidIDorSlug),
    {
        if !valid_id_slug(project_id) {
            return Err(Error::InvalidIDorSlug);
        }
        let req = self.seg_request(
            Method::Get,
            vec!["project".to_owned(), project_id.to_owned(), "check".to_owned()],
        );
        proof {
            assert(req.url.path_view() =~= seq!["project"@, project_id@, "check"@]);
        }
        Ok(req)
    }

    /// Get the dependencies of the project of `project_id`.
    pub fn project_get_dependencies(&self, project_id: &str) -> (r: Result<Request, Error>)
        ensures
            is_id_slug(project_id@) ==> is_request(
                r,
                Method::Get,
                self.base@,
                seq!["project"@, project_id@, "dependencies"@],
                Seq::empty(),
            ),
            !is_id_slug(project_id@) ==> r == Err::<Request, Error>(Error::InvalidIDorSlug),
    {
        if !valid_id_slug(project_id) {
            return Err(Error::InvalidIDorSlug);
        }
        let req = self.seg_request(
            Method::Get,
            vec!["project".to_owned(), project_id.to_owned(), "dependencies".to_owned()],
        );
        proof {
            assert(req.url.path_view() =~= seq!["project"@, project_id@, "dependencies"@]);
        }
        Ok(req)
    }

    /// Delete the project of `project_id`.
    pub fn project_delete(&self, project_id: &str) -> (r: Result<Request, Error>)
        ensures
            is_id_slug(project_id@) ==> is_request(
                r,
                Method::Delete,
                self.base@,
                seq!["project"@, project_id@],
                Seq::empty(),
            ),
            !is_id_slug(project_id@) ==> r == Err::<Request, Error>(Error::InvalidIDorSlug),
    {
        if !valid_id_slug(project_id) {
            return Err(Error::InvalidIDorSlug);
        }
        let req = self.seg_request(
            Method::Delete,
            vec!["project".to_owned(), project_id.to_owned()],
        );
        proof {
            assert(req.url.path_view() =~= seq!["project"@, project_id@]);
        }
        Ok(req)
    }

    /// Bulk edit the projects of `project_ids`; the caller attaches the
    /// serialised edits as the body.
    pub fn project_edit_multiple(&self, project_ids: &[&str]) -> (r: Result<Request, Error>)
        ensures
            all_id_slugs(project_ids@) ==> is_request(
                r,
                Method::Patch,
                self.base@,
                seq!["projects"@],
                Seq::empty(),
            ),
            !all_id_slugs(project_ids@) ==> r == Err::<Request, Error>(Error::InvalidIDorSlug),
    {
        if let Err(e) = check_id_slug(project_ids) {
            return Err(e);
        }
        let req = self.seg_request(Method::Patch, vec!["projects".to_owned()]);
        proof {
            assert(req.url.path_view() =~= seq!["projects"@]);
        }
        Ok(req)
    }

    /// Change the icon of the project of `project_id` to an image of file
    /// extension `ext`; the caller attaches the image as the body.
    pub fn project_edit_icon(&self, project_id: &str, ext: ImageFileExt) -> (r: Result<
        Request,
        Error,
    >)
        ensures
            is_id_slug(project_id@) ==> is_request(
                r,
                Method::Patch,
                self.base@,
                seq!["project"@, project_id@, "icon"@],
                seq![("ext"@, ext.spec_str())],
            ),
            !is_id_slug(project_id@) ==> r == Err::<Request, Error>(Error::InvalidIDorSlug),
    {
        if !valid_id_slug(project_id) {
            return Err(Error::InvalidIDorSlug);
        }
        let req = self.seg_request(
            Method::Patch,
            vec!["project".to_owned(), project_id.to_owned(), "icon".to_owned()],
        );
        let url = req.url.with_query("ext", ext.as_str());
        let req = Request { method: Method::Patch, url };
        proof {
            assert(req.url.path_view() =~= seq!["project"@, project_id@, "icon"@]);
            assert(req.url.query_view() =~= seq![("ext"@, ext.spec_str())]);
        }
        Ok(req)
    }

    /// Delete the icon of the project of `project_id`.
    pub fn project_delete_icon(&self, project_id: &str) -> (r: Result<Request, Error>)
        ensures
            is_id_slug(project_id@) ==> is_request(
                r,
                Method::Delete,
                self.base@,
                seq!["project"@, project_id@, "icon"@],
                Seq::empty(),
            ),
            !is_id_slug(project_id@) ==> r == Err::<Request, Error>(Error::InvalidIDorSlug),
    {
        if !valid_id_slug(project_id) {
            return Err(Error::InvalidIDorSlug);
        }
        let req = self.seg_request(
            Method::Delete,
            vec!["project".to_owned(), project_id.to_owned(), "icon".to_owned()],
        );
        proof {
            assert(req.url.path_view() =~= seq!["project"@, project_id@, "icon"@]);
        }
        Ok(req)
    }

    /// Follow the project of `project_id`.
    pub fn project_follow(&self, project_id: &str) -> (r: Result<Request, Error>)
        ensures
            is_id_slug(project_id@) ==> is_request(
                r,
                Method::Post,
                self.base@,
                seq!["project"@, project_id@, "follow"@],
                Seq::empty(),
            ),
            !is_id_slug(project_id@) ==> r == Err::<Request, Error>(Error::InvalidIDorSlug),
    {
        if !valid_id_slug(project_id) {
            return Err(Error::InvalidIDorSlug);
        }
        let req = self.seg_request(
            Method::Post,
            vec!["project".to_owned(), project_id.to_owned(), "follow".to_owned()],
        );
        proof {
            assert(req.url.path_view() =~= seq!["project"@, project_id@, "follow"@]);
        }
        Ok(req)
    }

    /// Unfollow the project of `project_id`.
    pub fn project_unfollow(&self, project_id: &str) -> (r: Result<Request, Error>)
        ensures
            is_id_slug(project_id@) ==> is_request(
                r,
                Method::Delete,
                self.base@,
                seq!["project"@, project_id@, "follow"@],
                Seq::empty(),
            ),
            !is_id_slug(project_id@) ==> r == Err::<Request, Error>(Error::InvalidIDorSlug),
    {
        if !valid_id_slug(project_id) {
            return Err(Error::InvalidIDorSlug);
        }
        let req = self.seg_request(
            Method::Delete,
            vec!["project".to_owned(), project_id.to_owned(), "follow".to_owned()],
        );
        proof {
            assert(req.url.path_view() =~= seq!["project"@, project_id@, "follow"@]);
        }
        Ok(req)
    }
}

/// The query of a request that adds a gallery image.
pub open spec fn gallery_add_query(
    ext: ImageFileExt,
    featured: bool,
    title: Option<Seq<char>>,
    description: Option<Seq<char>>,
) -> Seq<(Seq<char>, Seq<char>)> {
    let q = seq![("ext"@, ext.spec_str()), ("featured"@, bool_chars(featured))];
    let q = match title {
        Some(t) => q.push(("title"@, t)),
        None => q,
    };
    match description {
        Some(d) => q.push(("description"@, d)),
        None => q,
    }
}

/// The query of a request that edits a gallery image.
pub open spec fn gallery_edit_query(
    url: Seq<char>,
    featured: Option<bool>,
    title: Option<Seq<char>>,
    description: Option<Seq<char>>,
    ordering: Option<usize>,
) -> Seq<(Seq<char>, Seq<char>)> {
    let q = seq![("url"@, url)];
    let q = match featured {
        Some(f) => q.push(("featured"@, bool_chars(f))),
        None => q,
    };
    let q = match title {
        Some(t) => q.push(("title"@, t)),
        None => q,
    };
    let q = match description {
        Some(d) => q.push(("description"@, d)),
        None => q,
    };
    match ordering {
        Some(o) => q.push(("ordering"@, dec_chars(o as nat))),
        None => q,
    }
}

impl Api {
    /// Add an image of file extension `ext` to the gallery of the project of
    /// `project_id`; the caller attaches the image as the body.
    pub fn project_add_gallery_image(
        &self,
        project_id: &str,
        ext: ImageFileExt,
        featured: bool,
        title: Option<&str>,
        description: Option<&str>,
    ) -> (r: Result<Request, Error>)
        ensures
            is_id_slug(project_id@) ==> is_request(
                r,
                Method::Post,
                self.base@,
                seq!["project"@, project_id@, "gallery"@],
                gallery_add_query(ext, featured, title.deep_view(), description.deep_view()),
            ),
            !is_id_slug(project_id@) ==> r == Err::<Request, Error>(Error::InvalidIDorSlug),
    {
        if !valid_id_slug(project_id) {
            return Err(Error::InvalidIDorSlug);
        }
        let req = self.seg_request(
            Method::Post,
            vec!["project".to_owned(), project_id.to_owned(), "gallery".to_owned()],
        );
        let feat = bool_string(featured);
        let mut url = req.url.with_query("ext", ext.as_str()).with_query(
            "featured",
            feat.as_str(),
        );
        if let Some(title) = title {
            url = url.with_query("title", title);
        }
        if let Some(description) = description {
            url = url.with_query("description", description);
        }
        let req = Request { method: Method::Post, url };
        proof {
            assert(req.url.path_view() =~= seq!["project"@, project_id@, "gallery"@]);
            assert(req.url.query_view() =~= gallery_add_query(
                ext,
                featured,
                title.deep_view(),
                description.deep_view(),
            ));
        }
        Ok(req)
    }

    /// Modify the gallery image of `url` of the project of `project_id`.
    pub fn project_edit_gallery_image(
        &self,
        project_id: &str,
        url: &str,
        featured: Option<bool>,
        title: Option<&str>,
        description: Option<&str>,
        ordering: Option<usize>,
    ) -> (r: Result<Request, Error>)
        ensures
            is_id_slug(project_id@) ==> is_request(
                r,
                Method::Patch,
                self.base@,
                seq!["project"@, project_id@, "gallery"@],
                gallery_edit_query(
                    url@,
                    featured,
                    title.deep_view(),
                    description.deep_view(),
                    ordering,
                ),
            ),
            !is_id_slug(project_id@) ==> r == Err::<Request, Error>(Error::InvalidIDorSlug),
    {
        if !valid_id_slug(project_id) {
            return Err(Error::InvalidIDorSlug);
        }
        let req = self.seg_request(
            Method::Patch,
            vec!["project".to_owned(), project_id.to_owned(), "gallery".to_owned()],
        );
        let mut u = req.url.with_query("url", url);
        if let Some(f) = featured {
            let feat = bool_string(f);
            u = u.with_query("featured", feat.as_str());
        }
        if let Some(t) = title {
            u = u.with_query("title", t);
        }
        if let Some(d) = description {
            u = u.with_query("description", d);
        }
        if let Some(o) = ordering {
            let ord = usize_string(o);
            u = u.with_query("ordering", ord.as_str());
        }
        let req = Request { method: Method::Patch, url: u };
        proof {
            assert(req.url.path_view() =~= seq!["project"@, project_id@, "gallery"@]);
            assert(req.url.query_view() =~= gallery_edit_query(
                url@,
                featured,
                title.deep_view(),
                description.deep_view(),
                ordering,
            ));
        }
        Ok(req)
    }

    /// Delete the gallery image of `image_url` from the project of
    /// `project_id`.
    pub fn project_delete_gallery_image(&self, project_id: &str, image_url: &str) -> (r: Result<
        Request,
        Error,
    >)
        ensures
            is_id_slug(project_id@) ==> is_request(
                r,
                Method::Delete,
                self.base@,
                seq!["project"@, project_id@, "gallery"@],
                seq![("url"@, image_url@)],
            ),
            !is_id_slug(project_id@) ==> r == Err::<Request, Error>(Error::InvalidIDorSlug),
    {
        if !valid_id_slug(project_id) {
            return Err(Error::InvalidIDorSlug);
        }
        let req = self.seg_request(
            Method::Delete,
            vec!["project".to_owned(), project_id.to_owned(), "gallery".to_owned()],
        );
        let url = req.url.with_query("url", image_url);
        let req = Request { method: Method::Delete, url };
        proof {
            assert(req.url.path_view() =~= seq!["project"@, project_id@, "gallery"@]);
            assert(req.url.query_view() =~= seq![("url"@, image_url@)]);
        }
        Ok(req)
    }

    /// Schedule a change to `requested_status` at `time` (ISO 8601 text) for
    /// the project of `project_id`.
    pub fn project_schedule(
        &self,
        project_id: &str,
        time: &str,
        requested_status: &RequestedStatus,
    ) -> (r: Result<Request, Error>)
        ensures
            is_id_slug(project_id@) ==> is_request(
                r,
                Method::Post,
                self.base@,
                seq!["project"@, project_id@, "schedule"@],
                seq![
                    ("time"@, json_string(time@)),
                    ("requested_status"@, json_string(requested_status.spec_str())),
                ],
            ),
            !is_id_slug(project_id@) ==> r == Err::<Request, Error>(Error::InvalidIDorSlug),
    {
        if !valid_id_slug(project_id) {
            return Err(Error::InvalidIDorSlug);
        }
        let req = self.seg_request(
            Method::Post,
            vec!["project".to_owned(), project_id.to_owned(), "schedule".to_owned()],
        );
        let time_json = crate::json::json_encode_string(time);
        let status_json = crate::json::json_encode_string(requested_status.as_str());
        let url = req.url.with_query("time", time_json.as_str()).with_query(
            "requested_status",
            status_json.as_str(),
        );
        let req = Request { method: Method::Post, url };
        proof {
            assert(req.url.path_view() =~= seq!["project"@, project_id@, "schedule"@]);
            assert(req.url.query_view() =~= seq![
                ("time"@, json_string(time@)),
                ("requested_status"@, json_string(requested_status.spec_str())),
            ]);
        }
        Ok(req)
    }
}

} // verus!
