//! The update manager: what a version check yields and what an update
//! request decides.
//!
//! The unverified shell performs the fetches and process work; this
//! module turns a fetched release body and the running version into the
//! update verdict, assembles the version-check summary, and decides
//! whether a download may begin.

use vstd::prelude::*;
use crate::errors::UpdateError;
use crate::release::ReleaseDoc;
use crate::release::parse_release_body;
use crate::release::extract_update_source;
use crate::release::is_first_match;
use crate::release::no_asset_matches;
use crate::release::trim_v;
use crate::replace::UpdateStage;
use crate::version::version_newer;
use crate::commands::spicetify_wants_update;
use crate::commands::spicetify_update_wanted;

verus! {

/// What a version check of the application itself yields.
#[derive(Debug, Clone, PartialEq, Eq)]
pub struct UpdateInfo {
    pub current_version: String,
    pub latest_version: String,
    pub download_url: String,
    pub update_available: bool,
}

/// One progress report of the self-update flow, pushed to the UI.
#[derive(Debug, Clone, PartialEq, Eq)]
pub struct UpdateProgress {
    pub stage: String,
    pub progress: u32,
    pub message: String,
}

/// What a combined version check yields: the application's own version
/// and update verdict, and the installed tool's.
#[derive(Debug, Clone, PartialEq, Eq)]
pub struct VersionInfo {
    pub installer_version: String,
    pub spicetify_version: Option<String>,
    pub has_installer_update: bool,
    pub has_spicetify_update: bool,
    pub latest_installer_version: Option<String>,
    pub latest_installer_url: Option<String>,
}

/// Drives the application's own update: reads the release verdict and
/// owns nothing beyond its callers' data.
pub struct UpdateManager {}

impl UpdateManager {
    pub fn new() -> (m: Self) {
        UpdateManager {}
    }

    /// `latest` reads as strictly newer than `current` under the
    /// component-wise rule.
    pub fn is_version_newer(&self, latest: &str, current: &str) -> (newer: bool)
        ensures
            newer == version_newer(latest@, current@),
    {
        crate::version::is_version_newer(latest, current)
    }

    /// Turns a fetched latest-release body and the running version into
    /// the update verdict. A body that is no JSON document is refused;
    /// everything else is decided as `evaluate_release` says.
    pub fn check_for_updates(&self, release_body: &[u8], current_version: &str) -> (r: Result<
        UpdateInfo,
        UpdateError,
    >)
        ensures
            r matches Ok(u) ==> u.current_version@ == current_version@ && u.update_available
                == version_newer(u.latest_version@, current_version@),
    {
        match parse_release_body(release_body) {
            None => Err(UpdateError::InvalidResponse),
            Some(doc) => evaluate_release(&doc, current_version),
        }
    }
}

/// Turns a release document and the running version into the update
/// verdict. The verdict carries the download address of the first
/// matching asset, the trimmed tag, and whether the tag reads as newer
/// than the running version.
pub fn evaluate_release(doc: &ReleaseDoc, current_version: &str) -> (r: Result<
    UpdateInfo,
    UpdateError,
>)
    ensures
        r matches Ok(info) ==> info.current_version@ == current_version@ && info.update_available
            == version_newer(info.latest_version@, current_version@),
        doc.tag_name is None ==> r == Err::<UpdateInfo, UpdateError>(UpdateError::MissingTagName),
        doc.tag_name is Some && doc.assets is None ==> r == Err::<UpdateInfo, UpdateError>(
            UpdateError::MissingAssets,
        ),
        doc.tag_name is Some && doc.assets is Some && no_asset_matches(doc.assets->Some_0@) ==> r
            == Err::<UpdateInfo, UpdateError>(UpdateError::NoInstallerAsset),
        doc.tag_name is Some && doc.assets is Some ==> (forall|i: int|
            #[trigger] is_first_match(doc.assets->Some_0@, i)
                ==> (match doc.assets->Some_0@[i].download_url {
                None => r == Err::<UpdateInfo, UpdateError>(UpdateError::MissingDownloadUrl),
                Some(u) => r matches Ok(info) && info.current_version@ == current_version@
                    && info.latest_version@ == trim_v(doc.tag_name->Some_0@) && info.download_url@
                    == u@ && info.update_available == version_newer(
                    trim_v(doc.tag_name->Some_0@),
                    current_version@,
                ),
            })),
{
    match extract_update_source(doc) {
        Err(e) => Err(e),
        Ok((latest_version, download_url)) => {
            let update_available = crate::version::is_version_newer(
                latest_version.as_str(),
                current_version,
            );
            Ok(
                UpdateInfo {
                    current_version: current_version.to_owned(),
                    latest_version,
                    download_url,
                    update_available,
                },
            )
        },
    }
}

/// Assembles the combined version-check summary out of the probe verdict
/// and the release-check outcome: a failed release check yields no latest
/// version and no update; a successful one yields both, with the update
/// verdict read component-wise.
pub fn build_version_info(
    installer_version: &str,
    spicetify_version: Option<String>,
    release: Result<(String, String), UpdateError>,
) -> (info: VersionInfo)
    ensures
        info.installer_version@ == installer_version@,
        info.spicetify_version == spicetify_version,
        info.has_spicetify_update == spicetify_wants_update(spicetify_version),
        release matches Ok(p) ==> info.latest_installer_version == Some(p.0)
            && info.latest_installer_url == Some(p.1) && info.has_installer_update == version_newer(
            p.0@,
            installer_version@,
        ),
        release is Err ==> info.latest_installer_version is None && info.latest_installer_url
            is None && !info.has_installer_update,
{
    let has_spicetify_update = spicetify_update_wanted(&spicetify_version);
    match release {
        Ok((latest, url)) => {
            let has_installer_update = crate::version::is_version_newer(
                latest.as_str(),
                installer_version,
            );
            VersionInfo {
                installer_version: installer_version.to_owned(),
                spicetify_version,
                has_installer_update,
                has_spicetify_update,
                latest_installer_version: Some(latest),
                latest_installer_url: Some(url),
            }
        },
        Err(_) => {
            VersionInfo {
                installer_version: installer_version.to_owned(),
                spicetify_version,
                has_installer_update: false,
                has_spicetify_update,
                latest_installer_version: None,
                latest_installer_url: None,
            }
        },
    }
}

/// Decides whether a download may begin, from the version-check summary:
/// refused without an update verdict, refused without an address, and
/// otherwise the address to fetch.
pub fn decide_download(info: &VersionInfo) -> (r: Result<String, UpdateError>)
    ensures
        !info.has_installer_update ==> r == Err::<String, UpdateError>(
            UpdateError::NoUpdateAvailable,
        ),
        info.has_installer_update && info.latest_installer_url is None ==> r == Err::<
            String,
            UpdateError,
        >(UpdateError::NoDownloadUrlAvailable),
        info.has_installer_update && info.latest_installer_url is Some ==> (r matches Ok(u) && u@
            == info.latest_installer_url->Some_0@),
{
    if !info.has_installer_update {
        return Err(UpdateError::NoUpdateAvailable);
    }
    match &info.latest_installer_url {
        None => Err(UpdateError::NoDownloadUrlAvailable),
        Some(u) => Ok(u.clone()),
    }
}

/// The progress report pushed when a self-update stage begins; the two
/// terminal stages push none.
pub fn progress_for_stage(stage: UpdateStage) -> (r: Option<UpdateProgress>)
    ensures
        stage == UpdateStage::Preparing ==> (r matches Some(p) && p.stage@ == "Preparing update"@
            && p.progress == 0 && p.message@ == "Initializing update process..."@),
        stage == UpdateStage::Downloading ==> (r matches Some(p) && p.stage@ == "Downloading"@
            && p.progress == 10 && p.message@ == "Downloading new installer..."@),
        stage == UpdateStage::WritingHelper ==> (r matches Some(p) && p.stage@
            == "Creating updater"@ && p.progress == 30 && p.message@ == "Creating update script..."@),
        stage == UpdateStage::Spawning ==> (r matches Some(p) && p.stage@ == "Executing update"@
            && p.progress == 50 && p.message@ == "Starting update process..."@),
        stage == UpdateStage::Exiting ==> (r matches Some(p) && p.stage@ == "Completing"@
            && p.progress == 90 && p.message@
            == "Update process started. Application will restart..."@),
        stage == UpdateStage::Done || stage == UpdateStage::Failed ==> r is None,
{
    match stage {
        UpdateStage::Preparing => Some(
            UpdateProgress {
                stage: "Preparing update".to_owned(),
                progress: 0,
                message: "Initializing update process...".to_owned(),
            },
        ),
        UpdateStage::Downloading => Some(
            UpdateProgress {
                stage: "Downloading".to_owned(),
                progress: 10,
                message: "Downloading new installer...".to_owned(),
            },
        ),
        UpdateStage::WritingHelper => Some(
            UpdateProgress {
                stage: "Creating updater".to_owned(),
                progress: 30,
                message: "Creating update script...".to_owned(),
            },
        ),
        UpdateStage::Spawning => Some(
            UpdateProgress {
                stage: "Executing update".to_owned(),
                progress: 50,
                message: "Starting update process...".to_owned(),
            },
        ),
        UpdateStage::Exiting => Some(
            UpdateProgress {
                stage: "Completing".to_owned(),
                progress: 90,
                message: "Update process started. Application will restart...".to_owned(),
            },
        ),
        UpdateStage::Done => None,
        UpdateStage::Failed => None,
    }
}

} // verus!
