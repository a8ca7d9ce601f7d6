use spicetify_installer::commands::CommandKind;
use spicetify_installer::commands::PathProbe;
use spicetify_installer::commands::classify_command;
use spicetify_installer::commands::handler_result;
use spicetify_installer::commands::location_report;
use spicetify_installer::commands::probe_locations;
use spicetify_installer::commands::progress_interval_ms;
use spicetify_installer::commands::progress_schedule;
use spicetify_installer::commands::select_probe_version;
use spicetify_installer::commands::spicetify_update_wanted;
use spicetify_installer::commands::summarize_output;
use spicetify_installer::errors::UpdateError;
use spicetify_installer::update::build_version_info;
use spicetify_installer::update::decide_download;
use spicetify_installer::update::VersionInfo;

#[test]
fn commands_route_to_their_handlers() {
    assert_eq!(
        classify_command("iwr -useb https://raw.x/spicetify-cli/master/install.ps1 | iex"),
        CommandKind::InstallDirect
    );
    assert_eq!(
        classify_command("spicetify restore; Remove-Item -Path $env:APPDATA\\spicetify"),
        CommandKind::Uninstall
    );
    assert_eq!(classify_command("spicetify restore backup apply"), CommandKind::Repair);
    assert_eq!(classify_command("spicetify backup"), CommandKind::Backup);
    // The repair and backup patterns are whole-string matches.
    assert_eq!(classify_command("spicetify backup now"), CommandKind::Generic);
    assert_eq!(classify_command("spicetify apply"), CommandKind::Generic);
    // The restore pattern alone, without the removal, is not the
    // uninstall sequence; it matches nothing else either.
    assert_eq!(classify_command("spicetify restore"), CommandKind::Generic);
}

#[test]
fn each_handler_has_its_progress_sequence() {
    assert_eq!(progress_schedule(CommandKind::InstallDirect), vec![
        10, 15, 20, 30, 50, 70, 80, 90, 95
    ]);
    assert_eq!(progress_schedule(CommandKind::Uninstall), vec![20, 40, 60, 80, 90]);
    assert_eq!(progress_schedule(CommandKind::Repair), vec![20, 30, 50, 70, 90]);
    assert_eq!(progress_schedule(CommandKind::Backup), vec![30, 50, 70, 90]);
    assert_eq!(progress_schedule(CommandKind::Generic), vec![
        10, 20, 30, 40, 50, 60, 70, 80, 90, 100
    ]);
    assert_eq!(progress_interval_ms(CommandKind::InstallDirect), 800);
    assert_eq!(progress_interval_ms(CommandKind::Uninstall), 500);
    assert_eq!(progress_interval_ms(CommandKind::Repair), 500);
    assert_eq!(progress_interval_ms(CommandKind::Backup), 400);
    assert_eq!(progress_interval_ms(CommandKind::Generic), 300);
}

#[test]
fn generic_output_is_summarised_exactly() {
    assert_eq!(
        summarize_output(true, "exit code: 0", "all good\n", "warning\n"),
        Ok("all good\n\nwarning\n".to_string())
    );
    assert_eq!(
        summarize_output(false, "exit code: 1", "partial\n", "boom"),
        Err("Command failed with status code exit code: 1: boom".to_string())
    );
}

#[test]
fn each_handler_words_its_result() {
    assert_eq!(
        handler_result(CommandKind::Uninstall, false, "", "out", "err"),
        Ok("out".to_string())
    );
    assert_eq!(
        handler_result(CommandKind::Repair, true, "", "done", ""),
        Ok("done".to_string())
    );
    assert_eq!(
        handler_result(CommandKind::Repair, false, "", "", "broken"),
        Err("Repair failed: broken".to_string())
    );
    assert_eq!(
        handler_result(CommandKind::Backup, false, "", "", "no space"),
        Err("Backup failed: no space".to_string())
    );
    assert_eq!(
        handler_result(CommandKind::InstallDirect, true, "", "steps", "notes"),
        Ok("Spicetify installation completed successfully.\nsteps\nnotes".to_string())
    );
    assert_eq!(
        handler_result(CommandKind::InstallDirect, false, "", "steps", "bad"),
        Err("Spicetify installation failed: bad\nsteps".to_string())
    );
}

#[test]
fn the_first_usable_probe_wins() {
    let probes = vec![
        None,
        Some(String::new()),
        Some("2.14.1".to_string()),
        Some("9.9".to_string()),
    ];
    assert_eq!(select_probe_version(&probes), Some("2.14.1".to_string()));
    assert_eq!(select_probe_version(&vec![None, Some(String::new())]), None);
    assert_eq!(select_probe_version(&Vec::new()), None);
}

#[test]
fn the_tool_update_rule_reads_the_major_line() {
    assert!(!spicetify_update_wanted(&Some("2.14.1".to_string())));
    assert!(spicetify_update_wanted(&Some("1.2.0".to_string())));
    assert!(spicetify_update_wanted(&Some("30.1".to_string())));
    assert!(!spicetify_update_wanted(&None));
}

#[test]
fn the_probed_locations_are_fixed() {
    let locs = probe_locations();
    assert_eq!(locs, vec![
        "%LOCALAPPDATA%\\spicetify",
        "%USERPROFILE%\\spicetify-cli",
        "%APPDATA%\\spicetify",
    ]);
}

#[test]
fn the_location_report_is_worded_exactly() {
    let entries = vec![
        ("C:\\u\\spicetify".to_string(), true),
        ("C:\\u\\spicetify-cli".to_string(), false),
    ];
    let report = location_report(&entries, &PathProbe::NotFound);
    assert_eq!(
        report,
        "Checking for Spicetify in common locations:\n\
         Checking: C:\\u\\spicetify\n\
         FOUND: C:\\u\\spicetify\n\
         Checking: C:\\u\\spicetify-cli\n\
         Not found: C:\\u\\spicetify-cli\n\
         \nChecking PATH for spicetify:\n\
         Spicetify NOT found in PATH\n"
    );
    let found = location_report(&Vec::new(), &PathProbe::Found("C:\\bin\\spicetify.exe".into()));
    assert_eq!(
        found,
        "Checking for Spicetify in common locations:\n\
         \nChecking PATH for spicetify:\n\
         Spicetify found in PATH: C:\\bin\\spicetify.exe\n"
    );
    let failed = location_report(&Vec::new(), &PathProbe::ProbeFailed("denied".into()));
    assert!(failed.ends_with("Error checking PATH: denied\n"));
}

#[test]
fn the_version_summary_combines_both_checks() {
    let info = build_version_info(
        "1.0.0",
        Some("2.14.1".to_string()),
        Ok(("1.2.0".to_string(), "https://x/dl".to_string())),
    );
    assert_eq!(info.installer_version, "1.0.0");
    assert_eq!(info.spicetify_version.as_deref(), Some("2.14.1"));
    assert!(!info.has_spicetify_update);
    assert!(info.has_installer_update);
    assert_eq!(info.latest_installer_version.as_deref(), Some("1.2.0"));
    assert_eq!(info.latest_installer_url.as_deref(), Some("https://x/dl"));

    let offline = build_version_info("1.0.0", None, Err(UpdateError::InvalidResponse));
    assert!(!offline.has_installer_update);
    assert_eq!(offline.latest_installer_version, None);
    assert_eq!(offline.latest_installer_url, None);
}

#[test]
fn a_download_needs_a_verdict_and_an_address() {
    let base = VersionInfo {
        installer_version: "1.0.0".to_string(),
        spicetify_version: None,
        has_installer_update: false,
        has_spicetify_update: false,
        latest_installer_version: None,
        latest_installer_url: None,
    };
    assert_eq!(decide_download(&base), Err(UpdateError::NoUpdateAvailable));
    assert_eq!(UpdateError::NoUpdateAvailable.message(), "No updates available");

    let mut with_update = base.clone();
    with_update.has_installer_update = true;
    assert_eq!(decide_download(&with_update), Err(UpdateError::NoDownloadUrlAvailable));

    with_update.latest_installer_url = Some("https://x/dl".to_string());
    assert_eq!(decide_download(&with_update), Ok("https://x/dl".to_string()));
}

#[test]
fn every_error_carries_its_text() {
    assert_eq!(UpdateError::MissingTagName.message(), "Missing tag_name");
    assert_eq!(UpdateError::MissingAssets.message(), "Missing assets");
    assert_eq!(UpdateError::MissingDownloadUrl.message(), "Missing download URL");
    assert_eq!(
        UpdateError::NoInstallerAsset.message(),
        "No suitable installer found in release assets"
    );
    assert_eq!(
        UpdateError::MissingTagNameInResponse.message(),
        "Missing tag_name in GitHub response"
    );
    assert_eq!(
        UpdateError::MissingAssetsInResponse.message(),
        "Missing assets in GitHub response"
    );
    assert_eq!(UpdateError::MissingReleaseUrl.message(), "Missing release URL");
    assert_eq!(UpdateError::NoDownloadUrlAvailable.message(), "No download URL available");
    assert_eq!(UpdateError::StagedInstallerMissing.message(), "New installer not found");
    assert_eq!(UpdateError::StagedInstallerEmpty.message(), "Downloaded installer is empty");
    assert_eq!(UpdateError::PlanPathsClash.message(), "Update paths clash");
}
