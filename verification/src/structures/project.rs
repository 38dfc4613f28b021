//! Records describing projects.

use vstd::prelude::*;

use super::{Int, UtcTime, ID};
use crate::structures::version;

verus! {

/// A project hosted on the platform.
#[derive(Debug, Clone, PartialEq)]
pub struct Project {
    /// The project's slug, used for vanity URLs.
    /// This can change at any time, so use the [`Self::id`] for long term storage.
    pub slug: String,
    pub title: String,
    /// A short description of the project
    pub description: String,
    pub categories: Vec<String>,
    pub client_side: ProjectSupportRange,
    pub server_side: ProjectSupportRange,
    /// A long form description of the project
    pub body: String,
    pub status: ProjectStatus,
    /// The status requested. Only visible to those with appropriate permissions
    pub requested_status: Option<RequestedStatus>,
    /// A list of categories which are searchable but non-primary
    pub additional_categories: Vec<String>,
    /// A link to submit bugs or issues with the project
    pub issues_url: Option<String>,
    /// A link to the project's source code
    pub source_url: Option<String>,
    /// A link to the project's wiki page or other relevant information
    pub wiki_url: Option<String>,
    /// The project's Discord server invite
    pub discord_url: Option<String>,
    pub donation_urls: Vec<DonationLink>,
    pub project_type: ProjectType,
    pub downloads: Int,
    pub icon_url: Option<String>,
    /// The RGB color of the project, automatically generated from the project icon
    pub color: Option<Int>,
    /// The ID of the moderation thread associated with this project
    pub thread_id: ID,
    pub monetization_status: MonetizationStatus,
    pub id: ID,
    /// The ID of the team that has ownership of this project
    pub team: ID,
    pub published: UtcTime,
    pub updated: UtcTime,
    /// The date the project's status was approved
    pub approved: Option<UtcTime>,
    pub queued: Option<UtcTime>,
    pub followers: Int,
    pub license: License,
    /// A list of the version IDs of the project.
    /// This will only ever be empty if the project is a draft.
    pub versions: Vec<ID>,
    /// A list of all of the game versions supported by the project
    pub game_versions: Vec<String>,
    /// A list of all of the loaders supported by the project
    pub loaders: Vec<String>,
    /// A list of images that have been uploaded to the project's gallery
    pub gallery: Vec<GalleryItem>,
    /// The ID of the organisation that owns this project
    pub organization: Option<ID>,
}

#[derive(Debug, Clone, PartialEq)]
pub struct License {
    /// The SPDX license ID of a project
    pub id: String,
    pub name: String,
    /// The URL to this license
    pub url: Option<String>,
}

#[derive(Debug, Clone, PartialEq)]
pub struct DonationLink {
    /// The donation platform's ID
    pub id: String,
    pub platform: String,
    /// A link to the donation platform and user
    pub url: String,
}

/// An image that has been uploaded to a project's gallery
#[derive(Debug, Clone, PartialEq)]
pub struct GalleryItem {
    pub url: String,
    pub raw_url: String,
    pub featured: bool,
    pub title: Option<String>,
    pub description: Option<String>,
    pub created: UtcTime,
    /// The order of the gallery image.
    /// Gallery images are sorted by this field and then alphabetically by title.
    pub ordering: isize,
}

#[derive(Debug, Clone, PartialEq)]
pub struct ProjectDependencies {
    pub projects: Vec<Project>,
    pub versions: Vec<version::Version>,
}

/// Fields to edit on the projects specified
#[derive(Debug, Clone, PartialEq)]
pub struct EditMultipleProjectsBody {
    /// Set all of the categories to the categories specified here
    pub categories: Vec<String>,
    /// Add all of the categories specified here
    pub add_categories: Vec<String>,
    /// Remove all of the categories specified here
    pub remove_categories: Vec<String>,
    /// Set all of the additional categories to the categories specified here
    pub additional_categories: Vec<String>,
    /// Add all of the additional categories specified here
    pub add_additional_categories: Vec<String>,
    /// Remove all of the additional categories specified here
    pub remove_additional_categories: Vec<String>,
    /// Set all of the donation links to the donation links specified here
    pub donation_urls: Vec<DonationLink>,
    /// Add all of the donation links specified here
    pub add_donation_urls: Vec<DonationLink>,
    /// Remove all of the donation links specified here
    pub remove_donation_urls: Vec<DonationLink>,
    /// A link to where to submit bugs or issues with the projects
    pub issues_url: Option<String>,
    /// A link to the source code of the projects
    pub source_url: Option<String>,
    /// A link to the projects' wiki page or other relevant information
    pub wiki_url: Option<String>,
    /// An optional invite link to the projects' discord
    pub discord_url: Option<String>,
}

#[derive(Debug, Clone, Copy, PartialEq, Eq, Structural)]
pub enum ProjectStatus {
    Approved,
    Archived,
    /// A moderator's message should be available in the project struct
    Rejected,
    Draft,
    /// The project has been approved and is publicly accessible, but will not show up in search results
    Unlisted,
    /// The project has been submitted for approval and is being reviewed
    Processing,
    Withheld,
    /// The project's status has been scheduled to change.
    /// Check the project's `requested_status` for more information.
    Scheduled,
    Private,
    Unknown,
}

#[derive(Debug, Clone, Copy, PartialEq, Eq, Structural)]
pub enum RequestedStatus {
    Approved,
    Archived,
    Unlisted,
    Private,
    Draft,
}

impl RequestedStatus {
    /// The lowercase name the API uses for this status.
    pub open spec fn spec_str(self) -> Seq<char> {
        match self {
            RequestedStatus::Approved => "approved"@,
            RequestedStatus::Archived => "archived"@,
            RequestedStatus::Unlisted => "unlisted"@,
            RequestedStatus::Private => "private"@,
            RequestedStatus::Draft => "draft"@,
        }
    }

    /// The lowercase name the API uses for this status.
    pub fn as_str(&self) -> (r: &'static str)
        ensures
            r@ == self.spec_str(),
    {
        match self {
            RequestedStatus::Approved => "approved",
            RequestedStatus::Archived => "archived",
            RequestedStatus::Unlisted => "unlisted",
            RequestedStatus::Private => "private",
            RequestedStatus::Draft => "draft",
        }
    }
}

#[derive(Debug, Clone, Copy, PartialEq, Eq, Structural)]
pub enum MonetizationStatus {
    Monetized,
    Demonetized,
    ForceDemonetized,
}

#[derive(Debug, Clone, Copy, PartialEq, Eq, Structural)]
pub enum ProjectSupportRange {
    /// The mod is required on this side to function
    Required,
    /// The mod is not required on this side to function.
    /// However, functionality might be enhanced if it is present.
    Optional,
    /// The mod will not run on this side
    Unsupported,
    /// It is unknown if the project will run on this side
    Unknown,
}

#[derive(Debug, Clone, Copy, PartialEq, Eq, Structural)]
pub enum ProjectType {
    /// WARNING: Can be a mod, plugin, or data pack
    ///
    /// You will have to read the loaders to get more specific information.
    Project,
    Mod,
    Shader,
    Plugin,
    Modpack,
    Datapack,
    ResourcePack,
}

impl ProjectType {
    /// The lowercase name the API uses for this project type.
    pub open spec fn spec_str(self) -> Seq<char> {
        match self {
            ProjectType::Project => "project"@,
            ProjectType::Mod => "mod"@,
            ProjectType::Shader => "shader"@,
            ProjectType::Plugin => "plugin"@,
            ProjectType::Modpack => "modpack"@,
            ProjectType::Datapack => "datapack"@,
            ProjectType::ResourcePack => "resourcepack"@,
        }
    }

    /// The lowercase name the API uses for this project type.
    pub fn as_str(&self) -> (r: &'static str)
        ensures
            r@ == self.spec_str(),
    {
        match self {
            ProjectType::Project => "project",
            ProjectType::Mod => "mod",
            ProjectType::Shader => "shader",
            ProjectType::Plugin => "plugin",
            ProjectType::Modpack => "modpack",
            ProjectType::Datapack => "datapack",
            ProjectType::ResourcePack => "resourcepack",
        }
    }

    /// The capitalized variant name, as written in a search facet.
    pub open spec fn spec_variant_name(self) -> Seq<char> {
        match self {
            ProjectType::Project => "Project"@,
            ProjectType::Mod => "Mod"@,
            ProjectType::Shader => "Shader"@,
            ProjectType::Plugin => "Plugin"@,
            ProjectType::Modpack => "Modpack"@,
            ProjectType::Datapack => "Datapack"@,
            ProjectType::ResourcePack => "ResourcePack"@,
        }
    }

    /// The capitalized variant name, as written in a search facet.
    pub fn variant_name(&self) -> (r: &'static str)
        ensures
            r@ == self.spec_variant_name(),
    {
        match self {
            ProjectType::Project => "Project",
            ProjectType::Mod => "Mod",
            ProjectType::Shader => "Shader",
            ProjectType::Plugin => "Plugin",
            ProjectType::Modpack => "Modpack",
            ProjectType::Datapack => "Datapack",
            ProjectType::ResourcePack => "ResourcePack",
        }
    }
}

/// File extensions for images
#[derive(Debug, Clone, Copy, PartialEq, Eq, Structural)]
pub enum ImageFileExt {
    PNG,
    JPG,
    JPEG,
    BMP,
    GIF,
    WebP,
    SVG,
    SVGZ,
    RGB,
}

impl ImageFileExt {
    /// The lowercase file extension.
    pub open spec fn spec_str(self) -> Seq<char> {
        match self {
            ImageFileExt::PNG => "png"@,
            ImageFileExt::JPG => "jpg"@,
            ImageFileExt::JPEG => "jpeg"@,
            ImageFileExt::BMP => "bmp"@,
            ImageFileExt::GIF => "gif"@,
            ImageFileExt::WebP => "webp"@,
            ImageFileExt::SVG => "svg"@,
            ImageFileExt::SVGZ => "svgz"@,
            ImageFileExt::RGB => "rgb"@,
        }
    }

    /// The lowercase file extension.
    pub fn as_str(&self) -> (r: &'static str)
        ensures
            r@ == self.spec_str(),
    {
        match self {
            ImageFileExt::PNG => "png",
            ImageFileExt::JPG => "jpg",
            ImageFileExt::JPEG => "jpeg",
            ImageFileExt::BMP => "bmp",
            ImageFileExt::GIF => "gif",
            ImageFileExt::WebP => "webp",
            ImageFileExt::SVG => "svg",
            ImageFileExt::SVGZ => "svgz",
            ImageFileExt::RGB => "rgb",
        }
    }
}

} // verus!
