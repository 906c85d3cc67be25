use wedge::update::{
    find_installer_asset, release_is_newer_than_current, release_is_newer_than_version,
    should_update, tag_components_exec,
};

#[test]
fn test_release_is_newer_than_version() {
    let current = &[1, 1, 1];

    // Same or below is not newer
    assert!(!release_is_newer_than_version("v1.1.1", current));
    assert!(!release_is_newer_than_version("v1.1.0", current));
    assert!(!release_is_newer_than_version("v1.0.1", current));
    assert!(!release_is_newer_than_version("v0.1.1", current));
    assert!(!release_is_newer_than_version("v1.0.0", current));
    assert!(!release_is_newer_than_version("v0.1.0", current));
    assert!(!release_is_newer_than_version("v0.0.1", current));
    assert!(!release_is_newer_than_version("v1.0.2", current));
    assert!(!release_is_newer_than_version("v0.0.2", current));
    assert!(!release_is_newer_than_version("v0.2.0", current));
    assert!(!release_is_newer_than_version("v0.2.1", current));
    assert!(!release_is_newer_than_version("v0.2.2", current));

    // Above is newer
    assert!(release_is_newer_than_version("v2.2.2", current));
    assert!(release_is_newer_than_version("v2.2.1", current));
    assert!(release_is_newer_than_version("v2.1.2", current));
    assert!(release_is_newer_than_version("v1.2.2", current));
    assert!(release_is_newer_than_version("v2.1.1", current));
    assert!(release_is_newer_than_version("v1.2.1", current));
    assert!(release_is_newer_than_version("v1.1.2", current));
}

#[test]
fn test_release_component_count_must_match() {
    let current = &[1, 1, 1];
    assert!(!release_is_newer_than_version("v2.2", current));
    assert!(!release_is_newer_than_version("v2.2.2.2", current));
    assert!(!release_is_newer_than_version("", current));
}

#[test]
fn test_tag_components_parsing() {
    assert_eq!(vec![1, 2, 3], tag_components_exec("v1.2.3"));
    assert_eq!(vec![1, 2, 3], tag_components_exec("1.2.3"));
    assert_eq!(vec![1, 2, 3], tag_components_exec("vvv1.2.3"));
    assert_eq!(vec![1, 2, 3], tag_components_exec(" 1 . 2 . 3 "));
    assert_eq!(vec![1, 0, 3], tag_components_exec("v1.x.3"));
    assert_eq!(vec![0], tag_components_exec(""));
    assert_eq!(vec![0, 0, 0], tag_components_exec(".."));
    assert_eq!(vec![-1, 2, 3], tag_components_exec("-1.2.3"));
    // A component out of 32-bit range counts as zero.
    assert_eq!(vec![0, 1, 1], tag_components_exec("2147483648.1.1"));
    assert_eq!(vec![2147483647, 0, 0], tag_components_exec("2147483647.0.0"));
}

#[test]
fn test_release_is_newer_than_current() {
    // The carried version is 0.1.0.
    assert!(release_is_newer_than_current("v0.2.0"));
    assert!(release_is_newer_than_current("v0.1.1"));
    assert!(release_is_newer_than_current("v1.1.0"));
    assert!(!release_is_newer_than_current("v0.1.0"));
    assert!(!release_is_newer_than_current("v0.0.9"));
    assert!(!release_is_newer_than_current("v1.0"));
}

#[test]
fn test_should_update_skips_drafts_and_prereleases() {
    assert!(should_update("v0.2.0", false, false));
    assert!(!should_update("v0.2.0", true, false));
    assert!(!should_update("v0.2.0", false, true));
    assert!(!should_update("v0.1.0", false, false));
}

#[test]
fn test_find_installer_asset() {
    let names = vec![
        String::from("source.zip"),
        String::from("wedge_installer.exe"),
        String::from("wedge_installer.exe"),
    ];
    assert_eq!(Some(1), find_installer_asset(&names));
    let none = vec![String::from("source.zip")];
    assert_eq!(None, find_installer_asset(&none));
    assert_eq!(None, find_installer_asset(&Vec::new()));
}
