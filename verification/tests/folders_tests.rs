use std::path::Path;

use pwa_marketplace::folders::{FolderPick, FolderSelectionOptions, FolderSelector,
    FolderSelectorError};

fn pick(path: &str, exists: bool, writable: bool) -> FolderPick {
    FolderPick { path: path.to_string(), exists, writable }
}

#[test]
fn test_folder_selector_creation() {
    let selector = FolderSelector::new();
    assert!(selector.is_ok());
}

#[test]
fn test_default_paths() {
    let defaults = FolderSelector::get_default_paths().unwrap();
    assert!(Path::new(&defaults.documents_folder).is_absolute());
    assert!(Path::new(&defaults.apps_folder).is_absolute());
    assert!(Path::new(&defaults.data_folder).is_absolute());
}

#[test]
fn test_path_resolution() {
    let selector = FolderSelector::new().unwrap();

    let abs_path = "/tmp/test";
    let resolved = selector.resolve_path(abs_path).unwrap();
    assert_eq!(resolved, abs_path.to_string());

    let rel_path = "test_folder";
    let resolved = selector.resolve_path(rel_path).unwrap();
    assert!(Path::new(&resolved).is_absolute());
}

#[test]
fn test_resolution_of_special_prefixes() {
    let selector = FolderSelector::new().unwrap();
    let suggestions = selector.get_suggested_folders();
    let documents = suggestions[2].1.clone();
    let downloads = suggestions[3].1.clone();
    assert_eq!(
        selector.resolve_path("$DOCUMENTS/notes").unwrap(),
        format!("{}/notes", documents)
    );
    assert_eq!(
        selector.resolve_path("$DOWNLOADS/setup.bin").unwrap(),
        format!("{}/setup.bin", downloads)
    );
}

#[test]
fn test_security_restrictions() {
    let selector = FolderSelector::new().unwrap();

    assert!(selector.check_security_restrictions("/system").is_err());

    let temp_dir = tempfile::TempDir::new().unwrap();
    let safe_path = temp_dir.path().to_string_lossy().to_string();
    assert!(selector.check_security_restrictions(&safe_path).is_ok());
}

#[test]
fn test_security_restrictions_are_case_insensitive() {
    let selector = FolderSelector::new().unwrap();
    assert!(selector.check_security_restrictions("/SYSTEM/fonts").is_err());
    assert!(selector.check_security_restrictions("C:\\Windows\\System32").is_err());
    assert!(selector.check_security_restrictions("/home/user/system-designs").is_ok());
}

#[test]
fn test_folder_info() {
    let selector = FolderSelector::new().unwrap();
    let temp_dir = tempfile::TempDir::new().unwrap();
    let path = temp_dir.path().to_string_lossy().to_string();

    let info = selector.get_folder_info(&path, true, true, true, &Vec::new());
    assert!(info.exists);
    assert!(info.readable);
    assert!(info.writable);
}

#[test]
fn test_folder_info_sums_sizes() {
    let selector = FolderSelector::new().unwrap();
    let sizes = vec![3 * 1024 * 1024, 1024 * 1024, 512 * 1024];
    let info = selector.get_folder_info("/data", true, true, false, &sizes);
    assert_eq!(info.file_count, 3);
    assert_eq!(info.size_mb, 4);
    assert!(!info.writable);

    let missing = selector.get_folder_info("/gone", false, true, true, &sizes);
    assert!(!missing.exists);
    assert_eq!(missing.size_mb, 0);
    assert_eq!(missing.file_count, 0);
}

#[test]
fn test_select_folder_cancelled() {
    let selector = FolderSelector::new().unwrap();
    let options = FolderSelectionOptions::default();
    let r = selector.select_folder(&options, None);
    assert!(matches!(r, Err(FolderSelectorError::NoSelection)));
}

#[test]
fn test_select_apps_folder_accepts_writable_folder() {
    let selector = FolderSelector::new().unwrap();
    let r = selector.select_apps_folder(Some(pick("/home/user/PWA-Apps", false, true)));
    assert_eq!(r.unwrap(), "/home/user/PWA-Apps");
}

#[test]
fn test_select_data_folder_refuses_unwritable_folder() {
    let selector = FolderSelector::new().unwrap();
    let r = selector.select_data_folder(Some(pick("/home/user/PWA-Data", true, false)));
    assert!(matches!(r, Err(FolderSelectorError::PermissionDenied(_))));
}

#[test]
fn test_select_custom_folder_requires_existing_folder() {
    let selector = FolderSelector::new().unwrap();
    // Nothing is auto-created for a custom grant.
    let r = selector.select_custom_folder("editor", Some(pick("/home/user/missing", false, true)));
    assert!(matches!(r, Err(FolderSelectorError::FolderNotExists(_))));
    let ok = selector.select_custom_folder("editor", Some(pick("/home/user/docs", true, true)));
    assert_eq!(ok.unwrap(), "/home/user/docs");
}

#[test]
fn test_select_folder_refuses_system_directory() {
    let selector = FolderSelector::new().unwrap();
    let r = selector.select_apps_folder(Some(pick("/system/apps", true, true)));
    assert!(matches!(r, Err(FolderSelectorError::PermissionDenied(_))));
}

#[test]
fn test_select_multiple_folders_stops_at_cancel() {
    let selector = FolderSelector::new().unwrap();
    let picks = vec![
        Some(pick("/home/user/a", true, true)),
        Some(pick("/home/user/b", true, true)),
        None,
        Some(pick("/home/user/c", true, true)),
    ];
    let r = selector.select_multiple_folders(picks).unwrap();
    assert_eq!(r, vec!["/home/user/a".to_string(), "/home/user/b".to_string()]);
}

#[test]
fn test_select_multiple_folders_fails_on_bad_pick() {
    let selector = FolderSelector::new().unwrap();
    let picks = vec![
        Some(pick("/home/user/a", true, true)),
        Some(pick("/home/user/missing", false, true)),
    ];
    let r = selector.select_multiple_folders(picks);
    assert!(matches!(r, Err(FolderSelectorError::FolderNotExists(_))));
}

#[test]
fn test_select_multiple_folders_empty_is_no_selection() {
    let selector = FolderSelector::new().unwrap();
    let r = selector.select_multiple_folders(vec![None]);
    assert!(matches!(r, Err(FolderSelectorError::NoSelection)));
    let r2 = selector.select_multiple_folders(Vec::new());
    assert!(matches!(r2, Err(FolderSelectorError::NoSelection)));
}

#[test]
fn test_suggested_folders_are_labelled() {
    let selector = FolderSelector::new().unwrap();
    let suggestions = selector.get_suggested_folders();
    assert_eq!(suggestions.len(), 4);
    assert_eq!(suggestions[0].0, "Documents/PWA-Apps");
    assert_eq!(suggestions[1].0, "Documents/PWA-Data");
    assert_eq!(suggestions[2].0, "Documents");
    assert_eq!(suggestions[3].0, "Downloads");
    assert!(suggestions[0].1.ends_with("PWA-Apps"));
}

#[test]
fn test_selection_options_default() {
    let options = FolderSelectionOptions::default();
    assert_eq!(options.title, "Select Folder");
    assert!(options.default_path.is_none());
    assert!(options.create_if_missing);
    assert!(options.validate_permissions);
}

#[test]
fn test_is_safe_app_folder() {
    let selector = FolderSelector::new().unwrap();
    assert!(selector.is_safe_app_folder("/home/user/apps", true));
    // Not absolute.
    assert!(!selector.is_safe_app_folder("apps", true));
    // System directory.
    assert!(!selector.is_safe_app_folder("/system/apps", true));
    // Not writable.
    assert!(!selector.is_safe_app_folder("/home/user/apps", false));
}
