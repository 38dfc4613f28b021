//! Search requests: sort orders, facets, and the response records.

use vstd::prelude::*;
use vstd::string::StringExecFns;

use super::{Int, UtcTime, ID};
use crate::strutil::bool_chars;
use crate::structures::project;

verus! {

/// The order search hits are sorted in.
#[derive(Debug, Clone, Copy, PartialEq, Eq, Structural)]
pub enum Sort {
    Relevance,
    /// Sorts matches by the number of downloads
    Downloads,
    /// Sorts matches by the number of followers
    Follows,
    /// Sorts by the time of initial creation
    Newest,
    /// Sorts by the time of the latest update
    Updated,
}

impl Sort {
    /// The lowercase name the API uses for this sort order.
    pub open spec fn spec_str(self) -> Seq<char> {
        match self {
            Sort::Relevance => "relevance"@,
            Sort::Downloads => "downloads"@,
            Sort::Follows => "follows"@,
            Sort::Newest => "newest"@,
            Sort::Updated => "updated"@,
        }
    }

    /// The lowercase name the API uses for this sort order.
    pub fn as_str(&self) -> (r: &'static str)
        ensures
            r@ == self.spec_str(),
    {
        match self {
            Sort::Relevance => "relevance",
            Sort::Downloads => "downloads",
            Sort::Follows => "follows",
            Sort::Newest => "newest",
            Sort::Updated => "updated",
        }
    }
}

/// A search filter term.
#[derive(Debug, Clone, PartialEq)]
pub enum Facet {
    ProjectType(project::ProjectType),
    /// Mod loader or category to filter
    Categories(String),
    /// Game versions to filter
    Versions(String),
    OpenSource(bool),
    /// License ID to filter
    License(String),
    /// A custom facet
    Custom {
        /// The type of metadata to filter
        _type: String,
        /// The comparison to use
        ///
        /// Can be `=`/`:`, `!=`, `>`, `>=`, `<`, `<=`
        operation: String,
        /// The value to compare against
        value: String,
    },
}

impl Facet {
    /// The text this facet is sent as.
    pub open spec fn query_value(self) -> Seq<char> {
        match self {
            Facet::ProjectType(project_type) => "project_type:"@ + project_type.spec_variant_name(),
            Facet::Categories(category) => "categories: "@ + category@,
            Facet::Versions(version) => "versions: "@ + version@,
            Facet::OpenSource(open) => "open_source: "@ + bool_chars(open),
            Facet::License(license_id) => "license: "@ + license_id@,
            Facet::Custom { _type, operation, value } => _type@ + seq![' '] + operation@ + seq![' ']
                + value@,
        }
    }

    /// Render the text this facet is sent as.
    pub fn to_query_value(&self) -> (r: String)
        ensures
            r@ == self.query_value(),
    {
        match self {
            Facet::ProjectType(project_type) => {
                let mut s = "project_type:".to_owned();
                s.append(project_type.variant_name());
                s
            },
            Facet::Categories(category) => {
                let mut s = "categories: ".to_owned();
                s.append(category.as_str());
                s
            },
            Facet::Versions(version) => {
                let mut s = "versions: ".to_owned();
                s.append(version.as_str());
                s
            },
            Facet::OpenSource(open) => {
                let mut s = "open_source: ".to_owned();
                s.append(if *open {
                    "true"
                } else {
                    "false"
                });
                s
            },
            Facet::License(license_id) => {
                let mut s = "license: ".to_owned();
                s.append(license_id.as_str());
                s
            },
            Facet::Custom { _type, operation, value } => {
                let mut s = _type.clone();
                s.append(" ");
                s.append(operation.as_str());
                s.append(" ");
                s.append(value.as_str());
                proof {
                    assert(" "@ =~= seq![' ']) by {
                        reveal_strlit(" ");
                    }
                    assert(_type@ + " "@ + operation@ + " "@ + value@ =~= self.query_value());
                }
                s
            },
        }
    }
}

/// What a search returns.
#[derive(Debug, Clone, PartialEq)]
pub struct Response {
    pub hits: Vec<SearchHit>,
    /// The number of results that were skipped by the query
    pub offset: Int,
    /// The number of results that were returned by the query
    pub limit: Int,
    /// The total number of results that match the query
    pub total_hits: Int,
}

/// One project found by a search.
#[derive(Debug, Clone, PartialEq)]
pub struct SearchHit {
    /// The project's slug, used for vanity URLs.
    /// This can change at any time, so use the [`Self::project_id`] for long term storage.
    pub slug: Option<String>,
    pub title: String,
    pub description: String,
    pub categories: Vec<String>,
    pub client_side: project::ProjectSupportRange,
    pub server_side: project::ProjectSupportRange,
    pub project_type: project::ProjectType,
    pub downloads: Int,
    pub icon_url: Option<String>,
    /// The RGB color of the project, automatically generated from the project icon
    pub color: Option<Int>,
    /// The ID of the moderation thread associated with this project
    pub thread_id: Option<ID>,
    pub monetization_status: Option<project::MonetizationStatus>,
    pub project_id: ID,
    /// Username of the project's author
    pub author: String,
    /// A list of the project's primary/featured categories
    pub display_categories: Vec<String>,
    /// A list of all of the game versions supported by the project
    pub game_versions: Vec<String>,
    pub follows: Int,
    pub date_created: UtcTime,
    pub date_modified: UtcTime,
    /// The latest game version that this project supports
    pub latest_version: String,
    /// The SPDX license ID of a project
    pub license: String,
    pub gallery: Vec<String>,
    pub featured_gallery: Option<String>,
}

} // verus!
