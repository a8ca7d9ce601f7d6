//! The error cases the updater can report, with their user-facing texts.

use vstd::prelude::*;

verus! {

/// Everything that can go wrong in the update logic. Network and process
/// failures of the unverified shell are reported by the shell itself; these
/// are the errors this library decides.
#[derive(Clone, Copy, Debug, PartialEq, Eq, Structural)]
pub enum UpdateError {
    /// A version check was requested while one is already in flight.
    AlreadyChecking,
    /// The release document carries no tag name.
    MissingTagName,
    /// The release document carries no asset list.
    MissingAssets,
    /// The selected asset carries no download address.
    MissingDownloadUrl,
    /// No asset of the release matches the installer-name rule.
    NoInstallerAsset,
    /// The release document carries no tag name (version-check variant).
    MissingTagNameInResponse,
    /// The release document carries no asset list (version-check variant).
    MissingAssetsInResponse,
    /// No asset matched and the release page address is missing too.
    MissingReleaseUrl,
    /// An update was requested although none is available.
    NoUpdateAvailable,
    /// An update was requested but no download address is known.
    NoDownloadUrlAvailable,
    /// The release body is not a JSON document.
    InvalidResponse,
    /// The staged installer is not where the plan says it should be.
    StagedInstallerMissing,
    /// The staged installer has no content.
    StagedInstallerEmpty,
    /// The plan's scratch paths collide with its target paths.
    PlanPathsClash,
}

impl UpdateError {
    /// The text reported for this error.
    pub open spec fn text(self) -> Seq<char> {
        match self {
            UpdateError::AlreadyChecking => "Already checking for updates"@,
            UpdateError::MissingTagName => "Missing tag_name"@,
            UpdateError::MissingAssets => "Missing assets"@,
            UpdateError::MissingDownloadUrl => "Missing download URL"@,
            UpdateError::NoInstallerAsset => "No suitable installer found in release assets"@,
            UpdateError::MissingTagNameInResponse => "Missing tag_name in GitHub response"@,
            UpdateError::MissingAssetsInResponse => "Missing assets in GitHub response"@,
            UpdateError::MissingReleaseUrl => "Missing release URL"@,
            UpdateError::NoUpdateAvailable => "No updates available"@,
            UpdateError::NoDownloadUrlAvailable => "No download URL available"@,
            UpdateError::InvalidResponse => "Failed to parse response"@,
            UpdateError::StagedInstallerMissing => "New installer not found"@,
            UpdateError::StagedInstallerEmpty => "Downloaded installer is empty"@,
            UpdateError::PlanPathsClash => "Update paths clash"@,
        }
    }

    /// The text reported for this error.
    pub fn message(&self) -> (m: &'static str)
        ensures
            m@ == self.text(),
    {
        match self {
            UpdateError::AlreadyChecking => "Already checking for updates",
            UpdateError::MissingTagName => "Missing tag_name",
            UpdateError::MissingAssets => "Missing assets",
            UpdateError::MissingDownloadUrl => "Missing download URL",
            UpdateError::NoInstallerAsset => "No suitable installer found in release assets",
            UpdateError::MissingTagNameInResponse => "Missing tag_name in GitHub response",
            UpdateError::MissingAssetsInResponse => "Missing assets in GitHub response",
            UpdateError::MissingReleaseUrl => "Missing release URL",
            UpdateError::NoUpdateAvailable => "No updates available",
            UpdateError::NoDownloadUrlAvailable => "No download URL available",
            UpdateError::InvalidResponse => "Failed to parse response",
            UpdateError::StagedInstallerMissing => "New installer not found",
            UpdateError::StagedInstallerEmpty => "Downloaded installer is empty",
            UpdateError::PlanPathsClash => "Update paths clash",
        }
    }
}

} // verus!
