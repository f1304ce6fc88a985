use tidymac::targets::{self, ScanTarget};
use tidymac::walker::{accept_file, expand_home, extension, is_glob, large_files, physical_size, should_descend};
use tidymac::targets::FileEntry;

fn target_named(list: Vec<ScanTarget>, name: &str) -> ScanTarget {
    list.into_iter().find(|t| t.name == name).unwrap()
}

#[test]
fn test_expand_paths_tilde() {
    let expanded = expand_home("~/Documents", "/Users/test");
    assert!(!expanded.contains('~'), "Tilde should be expanded");
    assert!(expanded.starts_with("/Users/test"), "Expanded path should start with home directory");
    assert_eq!(expanded, "/Users/test/Documents");
}

#[test]
fn globs_and_extensions() {
    assert!(is_glob("/Volumes/*/.Trashes"));
    assert!(!is_glob("~/.Trash"));
    assert_eq!(extension("/d/setup.dmg").as_deref(), Some("dmg"));
    assert_eq!(extension("/d/archive.tar.gz").as_deref(), Some("gz"));
    assert_eq!(extension("/d/.bashrc"), None);
    assert_eq!(extension("/d.x/README"), None);
}

#[test]
fn minimum_age_is_inclusive() {
    let logs = target_named(targets::system_junk_targets(), "System Log Files");
    let now = 1_000_000_000u64;
    let week = 7 * 86_400;
    assert!(accept_file(&logs, "/var/log/a.log", Some(now - week), now));
    assert!(!accept_file(&logs, "/var/log/a.log", Some(now - week + 1), now));
    assert!(accept_file(&logs, "/var/log/a.log", None, now));
}

#[test]
fn installer_filter() {
    let dmgs = target_named(targets::system_junk_targets(), "Downloaded DMG Files");
    let now = 1_000_000_000u64;
    let old = Some(now - 30 * 86_400);
    assert!(accept_file(&dmgs, "/Users/a/Downloads/x.dmg", old, now));
    assert!(accept_file(&dmgs, "/Users/a/Downloads/x.pkg", old, now));
    assert!(!accept_file(&dmgs, "/Users/a/Downloads/x.zip", old, now));
    assert!(!accept_file(&dmgs, "/Users/a/Downloads/dmg", old, now));
}

#[test]
fn walk_helpers() {
    assert_eq!(physical_size(8), 4096);
    assert_eq!(physical_size(u64::MAX), u64::MAX);
    assert!(!should_descend(".git"));
    assert!(!should_descend("node_modules"));
    assert!(!should_descend("Library"));
    assert!(should_descend("src"));
}

fn fe(p: &str, s: u64) -> FileEntry {
    FileEntry { path: p.to_string(), size_bytes: s, modified: None }
}

#[test]
fn test_find_large_files_sorted_descending() {
    let found = large_files(vec![fe("small", 10), fe("medium", 2000), fe("large", 5000), fe("xlarge", 9000)], 1000);
    let sizes: Vec<u64> = found.iter().map(|f| f.size_bytes).collect();
    assert_eq!(sizes, vec![9000, 5000, 2000]);
}

#[test]
fn test_find_large_files_empty_dir() {
    assert!(large_files(Vec::new(), 1000).is_empty());
}
