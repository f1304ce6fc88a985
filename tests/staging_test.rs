use tidymac::engine::{record_outcome, report_from_manifest, check_staging_health, CleanMode, RemovalStep};
use tidymac::manifest::{summarize_session, CleanManifest, ManifestItem};
use tidymac::purger::{empty_purge_report, purge_plan, record_purge};
use tidymac::staging::{record_restore, restore_plan, start_restore_report};
use tidymac::targets::{Category, SafetyLevel};
use tidymac::errors::TidyError;

const NOW: i64 = 1_700_000_000;
const DAY: i64 = 86_400;

#[test]
fn test_manifest_creation() {
    let manifest = CleanManifest::new("developer", "soft_delete", 7, NOW);
    assert_eq!(manifest.profile, "developer");
    assert_eq!(manifest.mode, "soft_delete");
    assert_eq!(manifest.total_bytes, 0);
    assert_eq!(manifest.total_files, 0);
    assert!(!manifest.restored);
    assert!(manifest.expires_at_secs.is_some());
    assert!(!manifest.session_id.is_empty());
    assert_eq!(manifest.session_id, "2023-11-14T22-13-20");
    assert_eq!(manifest.expires_at_secs, Some(NOW + 7 * DAY));
}

#[test]
fn test_manifest_add_item() {
    let mut manifest = CleanManifest::new("quick", "soft_delete", 7, NOW);
    manifest.add_item(ManifestItem {
        original_path: "/tmp/test.txt".to_string(),
        staged_path: Some("/tmp/staged/0001".to_string()),
        size_bytes: 1024,
        category: "TempFiles".to_string(),
        safety: "Safe".to_string(),
        is_dir: false,
        success: true,
        error: None,
    });
    assert_eq!(manifest.total_files, 1);
    assert_eq!(manifest.total_bytes, 1024);
    assert_eq!(manifest.items.len(), 1);
}

#[test]
fn test_manifest_failed_item_not_counted() {
    let mut manifest = CleanManifest::new("quick", "soft_delete", 7, NOW);
    manifest.add_item(ManifestItem {
        original_path: "/tmp/test.txt".to_string(),
        staged_path: None,
        size_bytes: 1024,
        category: "TempFiles".to_string(),
        safety: "Safe".to_string(),
        is_dir: false,
        success: false,
        error: Some("Permission denied".to_string()),
    });
    assert_eq!(manifest.total_files, 0, "Failed items should not be counted");
    assert_eq!(manifest.total_bytes, 0);
    assert_eq!(manifest.items.len(), 1, "Failed items should still be in the list");
}

#[test]
fn test_manifest_hard_delete_no_expiry() {
    let manifest = CleanManifest::new("quick", "hard_delete", 0, NOW);
    assert!(manifest.expires_at_secs.is_none(), "Hard delete should have no expiry");
    assert!(!manifest.is_expired(NOW));
    assert!(!manifest.is_expired(i64::MAX));
}

#[test]
fn expiry_after_backdating() {
    let mut m = CleanManifest::new("quick", "soft_delete", 1, NOW);
    assert!(!m.is_expired(NOW));
    m.timestamp_secs -= 2 * DAY;
    m.expires_at_secs = Some(m.timestamp_secs + DAY);
    assert!(m.is_expired(NOW));
    let summary = summarize_session(&m, 10, NOW);
    assert!(summary.is_expired);
    let plan = purge_plan(&vec![summary.clone()]);
    assert_eq!(plan.len(), 1);
    assert_eq!(plan[0].session_id, m.session_id);
    let left: Vec<_> = vec![summary].into_iter().filter(|s| !s.is_expired).collect();
    assert!(purge_plan(&left).is_empty());
}

#[test]
fn manifest_paths() {
    let m = CleanManifest::new("quick", "soft_delete", 7, NOW);
    assert_eq!(m.staging_session_dir("/h"), "/h/.tidymac/staging/2023-11-14T22-13-20");
    assert_eq!(m.staging_files_dir("/h"), "/h/.tidymac/staging/2023-11-14T22-13-20/files");
}

fn step(orig: &str, staged: Option<&str>, size: u64) -> RemovalStep {
    RemovalStep {
        original: orig.to_string(),
        size_bytes: size,
        category: Category::TempFiles,
        safety: SafetyLevel::Safe,
        staged: staged.map(|s| s.to_string()),
    }
}

#[test]
fn soft_delete_records_and_restores_three_files() {
    let mut m = CleanManifest::new("quick", "soft_delete", 7, NOW);
    record_outcome(&mut m, &step("/t/a", Some("/s/000001"), 5), true, false, Ok(()));
    record_outcome(&mut m, &step("/t/b", Some("/s/000002"), 6), true, false, Ok(()));
    record_outcome(&mut m, &step("/t/c", Some("/s/000003"), 7), true, false, Ok(()));
    record_outcome(&mut m, &step("/t/d", Some("/s/000004"), 8), true, false, Err("busy".to_string()));
    assert_eq!(m.total_files, 3);
    assert_eq!(m.total_bytes, 18);
    assert_eq!(m.items[0].category, "Temporary Files");
    assert_eq!(m.items[3].staged_path, None);
    assert_eq!(m.items[3].error.as_deref(), Some("Failed to stage '/t/d': busy"));
    assert_eq!(m.errors, vec!["Failed to stage '/t/d': busy".to_string()]);
    let report = report_from_manifest(&m, CleanMode::SoftDelete);
    assert_eq!(report.files_removed, 3);
    assert_eq!(report.session_id.as_deref(), Some(m.session_id.as_str()));

    let steps = restore_plan(&m).unwrap();
    assert_eq!(steps.len(), 3);
    assert_eq!(steps[2].staged, "/s/000003");
    assert_eq!(steps[2].original, "/t/c");
    let mut rep = start_restore_report(&m.session_id);
    for s in &steps {
        record_restore(&mut rep, s, Ok(()));
    }
    assert_eq!(rep.restored_count, 3);
    assert_eq!(rep.restored_bytes, 18);
    m.mark_restored();
    assert!(m.restored);
    assert!(matches!(restore_plan(&m), Err(TidyError::StagingError { .. })));
}

#[test]
fn restore_of_session_without_staged_items_fails() {
    let m = CleanManifest::new("quick", "hard_delete", 0, NOW);
    match restore_plan(&m) {
        Err(TidyError::StagingError { message }) => assert!(message.contains("No restorable items")),
        _ => panic!("expected a staging error"),
    }
}

#[test]
fn failed_restore_is_reported() {
    let m = CleanManifest::new("quick", "soft_delete", 7, NOW);
    let mut rep = start_restore_report(&m.session_id);
    let s = tidymac::staging::RestoreStep { staged: "/s/1".to_string(), original: "/t/a".to_string(), size_bytes: 3 };
    record_restore(&mut rep, &s, Err("exists".to_string()));
    assert_eq!(rep.restored_count, 0);
    assert_eq!(rep.errors, vec!["Failed to restore '/t/a': exists".to_string()]);
}

#[test]
fn hard_delete_outcomes() {
    let mut m = CleanManifest::new("quick", "hard_delete", 0, NOW);
    record_outcome(&mut m, &step("/t/a", None, 5), false, true, Ok(()));
    record_outcome(&mut m, &step("/t/b", None, 6), false, false, Err("denied".to_string()));
    assert_eq!(m.total_files, 1);
    assert_eq!(m.items[1].error.as_deref(), Some("denied"));
    assert!(m.errors.is_empty());
    let report = report_from_manifest(&m, CleanMode::HardDelete);
    assert!(report.session_id.is_none());
    assert_eq!(report.bytes_freed, 5);
}

#[test]
fn staging_health_warnings() {
    let mut sessions = Vec::new();
    for i in 0..11 {
        let mut m = CleanManifest::new("quick", "soft_delete", 1, NOW + i);
        m.expires_at_secs = Some(NOW - 1);
        sessions.push(summarize_session(&m, 100, NOW));
    }
    let h = check_staging_health(&sessions);
    assert_eq!(h.session_count, 11);
    assert_eq!(h.expired_count, 11);
    assert_eq!(h.total_size, 1100);
    assert_eq!(h.expired_size, 1100);
    assert_eq!(h.warning.as_deref(), Some("11 expired sessions found. Run 'tidymac purge --expired' to clean up."));
    let none = check_staging_health(&Vec::new());
    assert!(none.warning.is_none());
    assert_eq!(none.total_size, 0);
}

#[test]
fn purge_report_totals() {
    let mut r = empty_purge_report();
    record_purge(&mut r, "s1", 100, 3, Ok(()));
    record_purge(&mut r, "s2", 50, 1, Err("busy".to_string()));
    assert_eq!(r.purged_sessions.len(), 1);
    assert_eq!(r.total_bytes_freed, 100);
    assert_eq!(r.errors, vec!["Failed to purge session 's2': busy".to_string()]);
}
