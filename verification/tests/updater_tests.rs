use pwa_marketplace::updater::{is_newer_version, parse_platform_from_filename};

#[test]
fn test_version_comparison() {
    let current = "1.0.0";

    assert!(is_newer_version(current, "1.0.1"));
    assert!(is_newer_version(current, "1.1.0"));
    assert!(is_newer_version(current, "2.0.0"));
    assert!(!is_newer_version(current, "1.0.0"));
    assert!(!is_newer_version(current, "0.9.9"));
}

#[test]
fn test_platform_parsing() {
    assert_eq!(
        parse_platform_from_filename("app-1.0.0-windows-x64.exe"),
        ("windows".to_string(), "x86_64".to_string())
    );

    assert_eq!(
        parse_platform_from_filename("app-1.0.0-macos-arm64.dmg"),
        ("darwin".to_string(), "aarch64".to_string())
    );

    assert_eq!(
        parse_platform_from_filename("app-1.0.0-linux-x86_64.AppImage"),
        ("linux".to_string(), "x86_64".to_string())
    );
}

#[test]
fn test_platform_parsing_unknown_name() {
    assert_eq!(
        parse_platform_from_filename("README.md"),
        ("".to_string(), "".to_string())
    );
}

#[test]
fn test_version_comparison_uneven_lengths() {
    // Missing components count as zero.
    assert!(is_newer_version("1.0", "1.0.1"));
    assert!(!is_newer_version("1.0.0", "1.0"));
    assert!(is_newer_version("1", "1.0.1"));
    // Non-numeric segments are passed over.
    assert!(is_newer_version("1.0.0", "2.beta.0"));
}
