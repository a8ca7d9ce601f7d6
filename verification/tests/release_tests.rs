use spicetify_installer::errors::UpdateError;
use spicetify_installer::release::AssetDoc;
use spicetify_installer::release::ReleaseDoc;
use spicetify_installer::release::extract_release_source;
use spicetify_installer::release::extract_update_source;
use spicetify_installer::release::name_matches_exec;
use spicetify_installer::release::parse_release_body;
use spicetify_installer::release::select_asset;
use spicetify_installer::release::trim_tag;
use spicetify_installer::update::UpdateManager;
use spicetify_installer::update::evaluate_release;

fn asset(name: Option<&str>, url: Option<&str>) -> AssetDoc {
    AssetDoc { name: name.map(|s| s.to_string()), download_url: url.map(|s| s.to_string()) }
}

fn doc(tag: Option<&str>, html: Option<&str>, assets: Option<Vec<AssetDoc>>) -> ReleaseDoc {
    ReleaseDoc {
        tag_name: tag.map(|s| s.to_string()),
        html_url: html.map(|s| s.to_string()),
        assets,
    }
}

#[test]
fn name_rule_matches_as_stated() {
    assert!(name_matches_exec("app-setup.exe"));
    assert!(name_matches_exec("tool.exe"));
    assert!(name_matches_exec("my-setup-archive.zip"));
    assert!(name_matches_exec("the-installer.tar.gz"));
    assert!(!name_matches_exec("readme.md"));
    assert!(!name_matches_exec("app.exe.sha256"));
    // The rule is case-sensitive.
    assert!(!name_matches_exec("Setup.zip"));
    assert!(!name_matches_exec("INSTALLER.BIN"));
}

#[test]
fn selection_takes_the_first_matching_entry() {
    let assets = vec![
        asset(None, Some("https://x/none")),
        asset(Some("readme.md"), Some("https://x/readme")),
        asset(Some("tool-installer.zip"), Some("https://x/installer")),
        asset(Some("app-setup.exe"), Some("https://x/setup")),
    ];
    assert_eq!(select_asset(&assets), Some(2));
}

#[test]
fn selection_is_deterministic_across_calls() {
    let assets = vec![
        asset(Some("a-setup.zip"), Some("https://x/a")),
        asset(Some("b-setup.zip"), Some("https://x/b")),
    ];
    let first = select_asset(&assets);
    for _ in 0..10 {
        assert_eq!(select_asset(&assets), first);
    }
    assert_eq!(first, Some(0));
}

#[test]
fn selection_yields_nothing_without_a_match() {
    let assets = vec![asset(Some("readme.md"), None), asset(None, None)];
    assert_eq!(select_asset(&assets), None);
    assert_eq!(select_asset(&Vec::new()), None);
}

#[test]
fn tag_markers_are_trimmed() {
    assert_eq!(trim_tag("v1.2.3"), "1.2.3");
    assert_eq!(trim_tag("1.2.3"), "1.2.3");
    assert_eq!(trim_tag("vv2.0"), "2.0");
    assert_eq!(trim_tag(""), "");
}

#[test]
fn update_source_happy_path() {
    let d = doc(
        Some("v1.2.3"),
        None,
        Some(vec![asset(Some("app-setup.exe"), Some("https://x/y/app-setup.exe"))]),
    );
    let (version, url) = extract_update_source(&d).unwrap();
    assert_eq!(version, "1.2.3");
    assert_eq!(url, "https://x/y/app-setup.exe");
}

#[test]
fn update_source_error_cases() {
    let no_tag = doc(None, None, Some(vec![]));
    assert_eq!(extract_update_source(&no_tag), Err(UpdateError::MissingTagName));

    let no_assets = doc(Some("v1.0"), None, None);
    assert_eq!(extract_update_source(&no_assets), Err(UpdateError::MissingAssets));

    let no_match = doc(Some("v1.0"), None, Some(vec![asset(Some("readme.md"), None)]));
    assert_eq!(extract_update_source(&no_match), Err(UpdateError::NoInstallerAsset));

    let no_url = doc(Some("v1.0"), None, Some(vec![asset(Some("app.exe"), None)]));
    assert_eq!(extract_update_source(&no_url), Err(UpdateError::MissingDownloadUrl));
}

#[test]
fn release_source_falls_back_to_the_release_page() {
    let with_page = doc(
        Some("v3.0"),
        Some("https://example.invalid/releases/latest"),
        Some(vec![asset(Some("readme.md"), None)]),
    );
    let (version, url) = extract_release_source(&with_page).unwrap();
    assert_eq!(version, "3.0");
    assert_eq!(url, "https://example.invalid/releases/latest");

    let without_page = doc(Some("v3.0"), None, Some(vec![asset(Some("readme.md"), None)]));
    assert_eq!(extract_release_source(&without_page), Err(UpdateError::MissingReleaseUrl));
}

#[test]
fn release_source_error_cases() {
    let no_tag = doc(None, Some("https://x"), Some(vec![]));
    assert_eq!(extract_release_source(&no_tag), Err(UpdateError::MissingTagNameInResponse));

    let no_assets = doc(Some("v1.0"), Some("https://x"), None);
    assert_eq!(extract_release_source(&no_assets), Err(UpdateError::MissingAssetsInResponse));

    let with_asset = doc(
        Some("v1.0"),
        Some("https://x/page"),
        Some(vec![asset(Some("app-setup.exe"), Some("https://x/direct"))]),
    );
    assert_eq!(
        extract_release_source(&with_asset),
        Ok(("1.0".to_string(), "https://x/direct".to_string()))
    );
}

#[test]
fn evaluate_release_compares_versions() {
    let d = doc(
        Some("v2.0.0"),
        None,
        Some(vec![asset(Some("app-setup.exe"), Some("https://x/app-setup.exe"))]),
    );
    let info = evaluate_release(&d, "1.9.9").unwrap();
    assert_eq!(info.current_version, "1.9.9");
    assert_eq!(info.latest_version, "2.0.0");
    assert_eq!(info.download_url, "https://x/app-setup.exe");
    assert!(info.update_available);

    let same = evaluate_release(&d, "2.0.0").unwrap();
    assert!(!same.update_available);
}

#[test]
fn check_for_updates_reads_a_real_body() {
    let body = br#"{
        "tag_name": "v2.0.0",
        "html_url": "https://example.invalid/releases/v2.0.0",
        "assets": [
            {"name": "checksums.txt", "browser_download_url": "https://example.invalid/sums"},
            {"name": "app-setup.exe", "browser_download_url": "https://example.invalid/v2.0.0/app-setup.exe"}
        ]
    }"#;
    let m = UpdateManager::new();
    let info = m.check_for_updates(body, "1.0.0").unwrap();
    assert_eq!(info.latest_version, "2.0.0");
    assert_eq!(info.download_url, "https://example.invalid/v2.0.0/app-setup.exe");
    assert!(info.update_available);
}

#[test]
fn check_for_updates_refuses_a_broken_body() {
    let m = UpdateManager::new();
    assert_eq!(
        m.check_for_updates(b"this is not json", "1.0.0"),
        Err(UpdateError::InvalidResponse)
    );
    assert_eq!(UpdateError::InvalidResponse.message(), "Failed to parse response");
}

#[test]
fn parse_release_body_reduces_the_fields() {
    let body = br#"{"tag_name": "v9.9", "assets": [{"name": 7}], "html_url": 3}"#;
    let d = parse_release_body(body).unwrap();
    assert_eq!(d.tag_name.as_deref(), Some("v9.9"));
    // A non-string field reads as absent.
    assert_eq!(d.html_url, None);
    let assets = d.assets.unwrap();
    assert_eq!(assets.len(), 1);
    assert_eq!(assets[0].name, None);
    assert_eq!(assets[0].download_url, None);
}
