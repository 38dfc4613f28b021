//! Records for the platform's tags: categories, loaders, game versions,
//! licenses and donation platforms.

use vstd::prelude::*;

use super::UtcTime;
use crate::structures::project;

verus! {

/// A category that projects of `project_type` specify
#[derive(Debug, Clone, PartialEq)]
pub struct Category {
    /// An SVG icon for the category
    pub icon: String,
    pub name: String,
    /// The project type this category is applicable to
    pub project_type: project::ProjectType,
    /// The header under which the category should go
    pub header: String,
}

/// A loader that can load projects of its supported project types
#[derive(Debug, Clone, PartialEq)]
pub struct Loader {
    /// An SVG icon for the loader
    pub icon: String,
    pub name: String,
    /// The project types that this loader can load
    pub supported_project_types: Vec<project::ProjectType>,
}

#[derive(Debug, Clone, PartialEq)]
pub struct GameVersion {
    pub version: String,
    /// The type of the game version
    pub version_type: GameVersionType,
    /// When the game version released
    pub date: UtcTime,
    /// Whether this game version was considered a major version
    pub major: bool,
}

/// The text and title of a license.
#[derive(Debug, Clone, PartialEq)]
pub struct License {
    pub title: String,
    pub body: String,
}

#[derive(Debug, Clone, PartialEq)]
pub struct DonationPlatform {
    /// A short identifier for the donation platform
    pub short: String,
    pub name: String,
}

/// The type of a game version
#[derive(Debug, Clone, Copy, PartialEq, Eq, Structural)]
pub enum GameVersionType {
    Release,
    Snapshot,
    Beta,
    Alpha,
}

} // verus!
