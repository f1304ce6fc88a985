use tidymac::engine::{clean, clean_dry_run, CleanMode};
use tidymac::errors::TidyError;
use tidymac::permissions;
use tidymac::safety::{
    check_paths, is_protected, validate_clean_operation, BulkLimit, MAX_BYTES_WARNING_THRESHOLD,
    MAX_FILES_PER_OPERATION,
};
use tidymac::targets::{Category, FileEntry, SafetyLevel, ScanItem};

fn home() -> Option<String> {
    dirs::home_dir().map(|h| h.to_string_lossy().to_string())
}

#[test]
fn test_root_is_protected() {
    assert!(is_protected("/", &home()));
}

#[test]
fn test_system_dirs_protected() {
    assert!(is_protected("/System", &home()));
    assert!(is_protected("/Users", &home()));
    assert!(is_protected("/Applications", &home()));
    assert!(is_protected("/Library", &home()));
}

#[test]
fn test_home_dir_protected() {
    if let Some(h) = home() {
        let home = Some(h.clone());
        assert!(is_protected(&h, &home));
        assert!(is_protected(&format!("{}/Desktop", h), &home));
        assert!(is_protected(&format!("{}/Documents", h), &home));
        assert!(is_protected(&format!("{}/Downloads", h), &home));
        assert!(is_protected(&format!("{}/.ssh", h), &home));
    }
}

#[test]
fn test_cache_dir_not_protected() {
    if let Some(h) = home() {
        let home = Some(h.clone());
        assert!(!is_protected(&format!("{}/Library/Caches/com.example.app", h), &home));
        assert!(!is_protected(&format!("{}/Library/Logs/old.log", h), &home));
        assert!(!is_protected(&format!("{}/.Trash/deleted.txt", h), &home));
    }
}

#[test]
fn test_tmp_not_protected() {
    assert!(!is_protected("/tmp/somefile", &home()));
}

#[test]
fn protected_set_is_exact_for_a_fixed_home() {
    let home = Some("/Users/alice".to_string());
    assert!(is_protected("/Users/alice", &home));
    assert!(is_protected("/Users/alice/Library", &home));
    assert!(is_protected("/Users/alice/.gnupg", &home));
    assert!(!is_protected("/Users/alice/Library/Caches", &home));
    assert!(!is_protected("/System/Library", &home));
    assert!(!is_protected("/Users/alice/", &home));
    assert!(!is_protected("/Users/bob/Desktop", &home));
    assert!(!is_protected("/Users/alice/Desktop", &None));
}

#[test]
fn check_paths_returns_protected_in_order() {
    let home = Some("/Users/alice".to_string());
    let paths = vec![
        "/tmp/x".to_string(),
        "/usr".to_string(),
        "/Users/alice/Music".to_string(),
        "/Users/alice/Music/a.mp3".to_string(),
    ];
    let bad = check_paths(&paths, &home);
    assert_eq!(bad, vec!["/usr".to_string(), "/Users/alice/Music".to_string()]);
}

#[test]
fn test_validate_clean_within_limits() {
    let result = validate_clean_operation(100, 1024 * 1024);
    assert!(result.is_ok());
}

#[test]
fn test_validate_clean_too_many_files() {
    let result = validate_clean_operation(MAX_FILES_PER_OPERATION + 1, 1024);
    assert!(result.is_err());
    assert_eq!(result, Err(BulkLimit::TooManyFiles));
}

#[test]
fn test_validate_clean_too_many_bytes() {
    let result = validate_clean_operation(10, MAX_BYTES_WARNING_THRESHOLD + 1);
    assert!(result.is_err());
    assert_eq!(result, Err(BulkLimit::TooManyBytes));
}

#[test]
fn validate_clean_limits_are_inclusive() {
    assert!(validate_clean_operation(MAX_FILES_PER_OPERATION, MAX_BYTES_WARNING_THRESHOLD).is_ok());
    assert_eq!(MAX_BYTES_WARNING_THRESHOLD, 50 * 1024 * 1024 * 1024);
}

#[test]
fn test_sip_protected_paths() {
    assert!(permissions::is_sip_protected("/System/Library"));
    assert!(permissions::is_sip_protected("/usr/bin/ls"));
    assert!(!permissions::is_sip_protected("/Applications/Safari.app"));
    assert!(!permissions::is_sip_protected("/tmp/test"));
}

#[test]
fn test_fda_paths() {
    assert!(permissions::requires_full_disk_access("/Users/test/Library/Mail/V9"));
    assert!(permissions::requires_full_disk_access("/Users/test/Library/Safari/History.db"));
    assert!(!permissions::requires_full_disk_access("/Users/test/Library/Caches/foo"));
}

#[test]
fn permission_hint_picks_the_reason() {
    assert!(permissions::permission_hint("/usr/lib").contains("System Integrity Protection"));
    assert!(permissions::permission_hint("/Users/a/Library/Mail/x").contains("Full Disk Access"));
    assert_eq!(
        permissions::permission_hint("/tmp/x"),
        "Check file permissions for '/tmp/x'. You may need to run with sudo for system paths."
    );
}

fn item(path: &str, files: Vec<(&str, u64)>, size: u64) -> ScanItem {
    ScanItem {
        name: "Test".to_string(),
        category: Category::TempFiles,
        path: path.to_string(),
        size_bytes: size,
        file_count: files.len(),
        safety: SafetyLevel::Safe,
        reason: "test".to_string(),
        files: files
            .into_iter()
            .map(|(p, s)| FileEntry { path: p.to_string(), size_bytes: s, modified: None })
            .collect(),
    }
}

#[test]
fn safety_gate_trips_on_system() {
    let items = vec![item("/System", vec![], 10)];
    let r = clean(&items, CleanMode::SoftDelete, &home(), "/tmp/stage/files");
    match r {
        Err(TidyError::ProtectedPath { path }) => assert_eq!(path, "/System"),
        other => panic!("expected a protected path error, got {:?}", other.is_ok()),
    }
}

#[test]
fn safety_gate_checks_file_entries() {
    let items = vec![item("/tmp/a", vec![("/tmp/a/x", 1), ("/usr", 2)], 3)];
    let r = clean(&items, CleanMode::HardDelete, &None, "");
    assert!(matches!(r, Err(TidyError::ProtectedPath { ref path }) if path == "/usr"));
}

#[test]
fn soft_clean_numbers_staged_files() {
    let items = vec![
        item("/tmp/a", vec![("/tmp/a/x", 1), ("/tmp/a/y", 2)], 3),
        item("/tmp/b", vec![], 7),
    ];
    let steps = clean(&items, CleanMode::SoftDelete, &None, "/s/files").unwrap();
    assert_eq!(steps.len(), 3);
    assert_eq!(steps[0].original, "/tmp/a/x");
    assert_eq!(steps[0].staged.as_deref(), Some("/s/files/000001"));
    assert_eq!(steps[1].staged.as_deref(), Some("/s/files/000002"));
    assert_eq!(steps[2].original, "/tmp/b");
    assert_eq!(steps[2].size_bytes, 7);
    assert_eq!(steps[2].staged.as_deref(), Some("/s/files/000003"));
    let hard = clean(&items, CleanMode::HardDelete, &None, "/s/files").unwrap();
    assert!(hard.iter().all(|s| s.staged.is_none()));
}

#[test]
fn dry_run_tallies_files_or_items() {
    let items = vec![
        item("/tmp/a", vec![("/tmp/a/x", 100), ("/tmp/a/y", 200)], 999),
        item("/tmp/b", vec![], 50),
    ];
    let r = clean_dry_run(&items);
    assert_eq!(r.mode, CleanMode::DryRun);
    assert_eq!(r.files_removed, 3);
    assert_eq!(r.bytes_freed, 350);
    assert!(r.session_id.is_none());
}
