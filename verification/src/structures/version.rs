//! Records describing project versions and their files.

use vstd::prelude::*;

use super::{Int, UtcTime, ID};

verus! {

/// A version of a project.
#[derive(Debug, Clone, PartialEq)]
pub struct Version {
    pub name: String,
    /// Ideally will follow semantic versioning
    pub version_number: String,
    pub changelog: Option<String>,
    pub dependencies: Vec<Dependency>,
    pub game_versions: Vec<String>,
    /// The release channel for this version
    pub version_type: VersionType,
    pub loaders: Vec<String>,
    pub featured: bool,
    pub status: Option<Status>,
    pub requested_status: Option<RequestedStatus>,
    pub id: ID,
    pub project_id: ID,
    /// The user ID of the author who published this version
    pub author_id: ID,
    pub date_published: UtcTime,
    pub downloads: Int,
    /// A list of files available for download
    pub files: Vec<VersionFile>,
}

/// A file of a version, available for download.
#[derive(Debug, Clone, PartialEq)]
pub struct VersionFile {
    pub hashes: Hash,
    pub url: String,
    pub filename: String,
    /// Whether the file is the primary file of its version
    ///
    /// There can only be a maximum of one primary file per version.
    /// If there are no primary files specified, the first file can be taken as the primary one.
    pub primary: bool,
    /// The size of the file in bytes
    pub size: Int,
    /// The type of the additional file, used mainly for adding resource packs to datapacks
    pub file_type: Option<AdditionalFileType>,
}

/// The hashes of a version file.
#[derive(Debug, Clone, PartialEq)]
pub struct Hash {
    pub sha512: String,
    pub sha1: String,
    /// Other hashes that may have been provided
    pub others: Vec<(String, String)>,
}

/// Filters for the latest version of a project.
#[derive(Debug, Clone, PartialEq)]
pub struct LatestVersionBody {
    pub loaders: Vec<String>,
    pub game_versions: Vec<String>,
}

/// Filters for the latest versions of the projects of several hashes.
#[derive(Debug, Clone, PartialEq)]
pub struct LatestVersionsBody {
    pub hashes: Vec<String>,
    pub algorithm: HashAlgorithm,
    pub loaders: Vec<String>,
    pub game_versions: Vec<String>,
}

/// A dependency of a version.
#[derive(Debug, Clone, PartialEq)]
pub struct Dependency {
    pub version_id: Option<ID>,
    pub project_id: Option<ID>,
    pub file_name: Option<String>,
    pub dependency_type: DependencyType,
}

#[derive(Debug, Clone, Copy, PartialEq, Eq, Structural)]
pub enum HashAlgorithm {
    SHA512,
    SHA1,
}

impl HashAlgorithm {
    /// The lowercase name the API uses for this algorithm.
    pub open spec fn spec_str(self) -> Seq<char> {
        match self {
            HashAlgorithm::SHA512 => "sha512"@,
            HashAlgorithm::SHA1 => "sha1"@,
        }
    }

    /// The lowercase name the API uses for this algorithm.
    pub fn as_str(&self) -> (r: &'static str)
        ensures
            r@ == self.spec_str(),
    {
        match self {
            HashAlgorithm::SHA512 => "sha512",
            HashAlgorithm::SHA1 => "sha1",
        }
    }
}

#[derive(Debug, Clone, Copy, PartialEq, Eq, Structural)]
pub enum VersionType {
    Release,
    Beta,
    Alpha,
}

#[derive(Debug, Clone, Copy, PartialEq, Eq, Structural)]
pub enum DependencyType {
    Required,
    Optional,
    Incompatible,
    Embedded,
}

#[derive(Debug, Clone, Copy, PartialEq, Eq, Structural)]
pub enum Status {
    Listed,
    Archived,
    Draft,
    Unlisted,
    Scheduled,
    Unknown,
}

#[derive(Debug, Clone, Copy, PartialEq, Eq, Structural)]
pub enum RequestedStatus {
    Listed,
    Archived,
    Draft,
    Unlisted,
}

impl RequestedStatus {
    /// The lowercase name the API uses for this status.
    pub open spec fn spec_str(self) -> Seq<char> {
        match self {
            RequestedStatus::Listed => "listed"@,
            RequestedStatus::Archived => "archived"@,
            RequestedStatus::Draft => "draft"@,
            RequestedStatus::Unlisted => "unlisted"@,
        }
    }

    /// The lowercase name the API uses for this status.
    pub fn as_str(&self) -> (r: &'static str)
        ensures
            r@ == self.spec_str(),
    {
        match self {
            RequestedStatus::Listed => "listed",
            RequestedStatus::Archived => "archived",
            RequestedStatus::Draft => "draft",
            RequestedStatus::Unlisted => "unlisted",
        }
    }
}

#[derive(Debug, Clone, Copy, PartialEq, Eq, Structural)]
pub enum AdditionalFileType {
    RequiredResourcePack,
    OptionalResourcePack,
}

} // verus!
