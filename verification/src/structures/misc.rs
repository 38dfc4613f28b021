//! Records for reports, instance statistics, and the welcome page.

use vstd::prelude::*;

use super::{Int, UtcTime, ID};

verus! {

/// A report submitted to the moderators.
#[derive(Debug, Clone, PartialEq)]
pub struct Report {
    pub id: ID,
    pub report_type: String,
    /// The ID of the item being reported
    pub item_id: ID,
    /// The type of item being reported
    pub item_type: ReportItemType,
    /// An extended explanation of the report
    pub body: String,
    /// The ID of the user who submitted the report
    pub reporter: ID,
    pub created: UtcTime,
    pub closed: bool,
    /// The ID of the moderation thread associated with this report
    pub thread_id: ID,
}

/// The contents of a report to submit.
#[derive(Debug, Clone, PartialEq)]
pub struct ReportSubmission {
    pub report_type: String,
    /// The ID of the item being reported
    pub item_id: ID,
    /// The type of item being reported
    pub item_type: ReportItemType,
    /// An extended explanation of the report
    pub body: String,
}

#[derive(Debug, Clone, Copy, PartialEq, Eq, Structural)]
pub enum ReportItemType {
    Project,
    User,
    Version,
    Unknown,
}

/// Statistics about the platform instance.
#[derive(Debug, Clone, Copy, PartialEq)]
pub struct Statistics {
    /// The number of projects
    pub projects: Int,
    /// The number of versions
    pub versions: Int,
    /// The number of version files
    pub files: Int,
    /// The number of authors (users with projects)
    pub authors: Int,
}

/// The API welcome page.
#[derive(Debug, Clone, PartialEq)]
pub struct Welcome {
    pub about: String,
    pub documentation: String,
    pub name: String,
    pub version: String,
}

} // verus!
