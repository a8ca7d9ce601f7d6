use spicetify_installer::version::is_version_newer;
use spicetify_installer::update::UpdateManager;

#[test]
fn component_wise_not_lexicographic() {
    // "1.10.0" is newer than "1.2.0": the second component compares as a
    // number, not as text.
    assert!(is_version_newer("1.10.0", "1.2.0"));
    assert!(!is_version_newer("1.2.0", "1.10.0"));
}

#[test]
fn equal_strings_not_newer_either_way() {
    assert!(!is_version_newer("1.2.0", "1.2.0"));
    assert!(!is_version_newer("0.0.0", "0.0.0"));
    assert!(!is_version_newer("", ""));
}

#[test]
fn ordering_is_consistent() {
    let pairs = [
        ("1.0.0", "2.0.0"),
        ("1.2.3", "1.2.4"),
        ("3.1", "3.1.0"),
        ("v5.0", "4.9.9"),
        ("1.x.3", "1.0.3"),
    ];
    for (a, b) in pairs {
        let ab = is_version_newer(a, b);
        let ba = is_version_newer(b, a);
        assert!(!(ab && ba), "contradictory order for {a} / {b}");
    }
}

#[test]
fn missing_components_read_as_zero() {
    assert!(!is_version_newer("1.2", "1.2.0"));
    assert!(!is_version_newer("1.2.0", "1.2"));
    assert!(is_version_newer("1.2.1", "1.2"));
    assert!(is_version_newer("1.3", "1.2.9"));
}

#[test]
fn leading_tag_marker_is_stripped() {
    assert!(is_version_newer("v2.0.0", "1.9.9"));
    assert!(!is_version_newer("v1.0.0", "1.0.0"));
    assert!(is_version_newer("2.0", "v1.9"));
}

#[test]
fn non_numeric_segments_read_as_zero() {
    // "x" reads as zero, so "1.x.3" equals "1.0.3".
    assert!(!is_version_newer("1.x.3", "1.0.3"));
    assert!(!is_version_newer("1.0.3", "1.x.3"));
    // "beta" reads as zero, so "1.beta" equals "1.0".
    assert!(!is_version_newer("1.beta", "1.0"));
    assert!(is_version_newer("1.1", "1.beta"));
}

#[test]
fn leading_zeros_do_not_matter() {
    assert!(!is_version_newer("1.010.0", "1.10.0"));
    assert!(!is_version_newer("1.10.0", "1.010.0"));
    assert!(is_version_newer("1.011", "1.10"));
}

#[test]
fn huge_components_compare_by_value() {
    // Far beyond machine-word range: the longer digit string wins.
    assert!(is_version_newer("1.99999999999999999999999", "1.9"));
    assert!(!is_version_newer("1.9", "1.99999999999999999999999"));
    assert!(!is_version_newer(
        "1.00000000000000000000009",
        "1.9",
    ));
    assert!(!is_version_newer("1.9", "1.00000000000000000000009"));
}

#[test]
fn manager_compares_the_same_way() {
    let m = UpdateManager::new();
    assert!(m.is_version_newer("1.10.0", "1.2.0"));
    assert!(!m.is_version_newer("1.2.0", "1.2.0"));
}
