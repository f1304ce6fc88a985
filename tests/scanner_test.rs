use tidymac::cache::ScanCache;
use tidymac::config::Config;
use tidymac::format::{decimal, format_count, format_path, truncate, zero_padded};
use tidymac::profiles::{builtin_profile, Profile};
use tidymac::scan::{serve_from_cache, ScanResults};
use tidymac::targets::{self, Category, FileEntry, SafetyLevel, ScanItem};

fn load(name: &str) -> Option<Profile> {
    builtin_profile(name)
}

#[test]
fn test_truncate() {
    assert_eq!(truncate("hello", 10), "hello");
    assert_eq!(truncate("hello world", 8), "hello...");
}

#[test]
fn test_truncate_edge_cases() {
    assert_eq!(truncate("", 5), "");
    assert_eq!(truncate("ab", 2), "ab");
    assert_eq!(truncate("abc", 3), "abc");
    assert_eq!(truncate("abcd", 3), "...");
    assert_eq!(truncate("abcde", 4), "a...");
}

#[test]
fn numbers_in_text() {
    assert_eq!(decimal(0), "0");
    assert_eq!(decimal(1234567890), "1234567890");
    assert_eq!(decimal(u64::MAX), "18446744073709551615");
    assert_eq!(zero_padded(1, 6), "000001");
    assert_eq!(zero_padded(123456, 6), "123456");
    assert_eq!(zero_padded(1234567, 6), "1234567");
}

#[test]
fn test_config_defaults() {
    let config = Config::default();
    assert_eq!(config.staging_retention_days, 7);
    assert_eq!(config.large_file_threshold_mb, 500);
    assert_eq!(config.stale_days, 30);
    assert_eq!(config.default_profile, "quick_sweep");
    assert!(config.exclude_paths.is_empty());
}

#[test]
fn test_config_large_file_threshold_bytes() {
    let config = Config::default();
    assert_eq!(config.large_file_threshold_bytes(), 500 * 1024 * 1024);
}

#[test]
fn test_config_is_excluded() {
    let mut config = Config::default();
    config.exclude_paths = vec!["node_modules".to_string(), ".git".to_string()];
    assert!(config.is_excluded("/Users/test/projects/app/node_modules"));
    assert!(config.is_excluded("/Users/test/repos/tidymac/.git"));
    assert!(!config.is_excluded("/Users/test/Documents/report.pdf"));
}

#[test]
fn config_paths_live_under_the_data_dir() {
    assert_eq!(Config::config_path("/Users/a"), "/Users/a/.tidymac/config.toml");
    assert_eq!(Config::staging_dir("/Users/a"), "/Users/a/.tidymac/staging");
    assert_eq!(Config::logs_dir("/Users/a"), "/Users/a/.tidymac/logs");
    assert_eq!(Config::profiles_dir("/Users/a"), "/Users/a/.tidymac/profiles");
}

#[test]
fn test_builtin_profiles_load() {
    let names = ["quick", "quick_sweep", "developer", "dev", "creative", "deep", "deep_clean"];
    for name in &names {
        let profile = load(name);
        assert!(profile.is_some(), "Profile '{}' should load successfully", name);
    }
}

#[test]
fn test_unknown_profile_fails() {
    let result = load("nonexistent_profile_xyz");
    assert!(result.is_none());
}

#[test]
fn test_developer_profile_enables_dev_targets() {
    let profile = load("developer").unwrap();
    assert!(profile.targets.dev.xcode_derived_data);
    assert!(profile.targets.dev.homebrew_cache);
    assert!(profile.targets.dev.npm_cache);
    assert!(profile.targets.dev.pip_cache);
    assert!(profile.targets.dev.cargo_cache);
    assert!(profile.targets.dev.node_modules_stale);
    assert!(profile.targets.dev.venv);
    assert!(profile.includes_dev_projects());
}

#[test]
fn test_quick_profile_disables_dev_targets() {
    let profile = load("quick").unwrap();
    assert!(!profile.targets.dev.xcode_derived_data);
    assert!(!profile.targets.dev.homebrew_cache);
    assert!(!profile.includes_dev_projects());
}

#[test]
fn test_deep_profile_enables_everything() {
    let profile = load("deep").unwrap();
    assert!(profile.targets.system_caches);
    assert!(profile.targets.trash);
    assert!(profile.targets.large_files);
    assert!(profile.targets.mail_attachments);
    assert!(profile.targets.dev.xcode_derived_data);
    assert!(profile.targets.dev.docker_dangling);
}

#[test]
fn test_profile_enabled_targets_returns_correct_subset() {
    let quick = load("quick").unwrap();
    let deep = load("deep").unwrap();
    let quick_targets = quick.enabled_targets();
    let deep_targets = deep.enabled_targets();
    assert!(
        deep_targets.len() >= quick_targets.len(),
        "Deep profile should enable at least as many targets as quick"
    );
    assert!(quick_targets.iter().all(|t| !matches!(t.category, Category::DevCache(_))));
    assert_eq!(quick_targets.len(), 7);
}

#[test]
fn test_all_targets_non_empty() {
    let all = targets::all_targets();
    assert!(!all.is_empty(), "Should have at least some scan targets");
    assert_eq!(all.len(), 7 + 13 + 2 + 2);
}

#[test]
fn test_system_junk_targets() {
    let targets = targets::system_junk_targets();
    assert!(targets.len() >= 5, "Should have at least 5 system junk targets");
    for t in &targets {
        assert!(!t.name.is_empty());
        assert!(!t.paths.is_empty());
        assert!(!t.reason.is_empty());
    }
}

#[test]
fn test_developer_targets() {
    let targets = targets::developer_targets();
    assert!(targets.len() >= 10, "Should have at least 10 developer targets");
    let names: Vec<&str> = targets.iter().map(|t| t.name.as_str()).collect();
    assert!(names.iter().any(|n| n.contains("Xcode")));
    assert!(names.iter().any(|n| n.contains("Homebrew")));
    assert!(names.iter().any(|n| n.contains("npm")));
    assert!(names.iter().any(|n| n.contains("pip")));
    assert!(names.iter().any(|n| n.contains("Cargo")));
}

fn result_item(name: &str, category: Category, path: &str, size: u64, count: usize, safety: SafetyLevel) -> ScanItem {
    ScanItem {
        name: name.to_string(),
        category,
        path: path.to_string(),
        size_bytes: size,
        file_count: count,
        safety,
        reason: "test".to_string(),
        files: Vec::new(),
    }
}

#[test]
fn test_scan_results_recalculate() {
    let mut results = ScanResults::new(0);
    results.items.push(result_item("Test 1", Category::UserCache, "/tmp/test1", 1000, 5, SafetyLevel::Safe));
    results.items.push(result_item("Test 2", Category::Logs, "/tmp/test2", 2000, 3, SafetyLevel::Caution));
    results.recalculate();
    assert_eq!(results.total_reclaimable, 3000);
    assert_eq!(results.total_files, 8);
}

#[test]
fn test_scan_results_filter_by_safety() {
    let mut results = ScanResults::new(0);
    results.items.push(result_item("Safe item", Category::UserCache, "/tmp/safe", 1000, 1, SafetyLevel::Safe));
    results.items.push(result_item("Caution item", Category::Logs, "/tmp/caution", 2000, 1, SafetyLevel::Caution));
    let safe = results.filter_by_safety(SafetyLevel::Safe);
    assert_eq!(safe.len(), 1);
    assert_eq!(safe[0].name, "Safe item");
    let caution = results.filter_by_safety(SafetyLevel::Caution);
    assert_eq!(caution.len(), 1);
    assert_eq!(caution[0].name, "Caution item");
}

#[test]
fn scan_finish_drops_empty_and_sorts() {
    let mut results = ScanResults::new(0);
    results.items.push(result_item("small", Category::Logs, "/a", 10, 1, SafetyLevel::Safe));
    results.items.push(result_item("empty", Category::Logs, "/b", 0, 0, SafetyLevel::Safe));
    results.items.push(result_item("big", Category::Logs, "/c", 30, 2, SafetyLevel::Safe));
    results.items.push(result_item("mid", Category::Logs, "/d", 20, 4, SafetyLevel::Safe));
    results.finish();
    let names: Vec<&str> = results.items.iter().map(|i| i.name.as_str()).collect();
    assert_eq!(names, vec!["big", "mid", "small"]);
    assert_eq!(results.total_reclaimable, 60);
    assert_eq!(results.total_files, 7);
}

#[test]
fn scan_item_total_is_sum_of_files() {
    let files = vec![
        FileEntry { path: "/t/a".to_string(), size_bytes: 4096, modified: Some(1) },
        FileEntry { path: "/t/b".to_string(), size_bytes: 512, modified: None },
    ];
    let it = ScanItem::from_files(
        "x".to_string(),
        Category::TempFiles,
        "/t".to_string(),
        SafetyLevel::Safe,
        "r".to_string(),
        files,
    );
    assert_eq!(it.size_bytes, 4608);
    assert_eq!(it.file_count, 2);
}

#[test]
fn cache_hit_after_store() {
    let mut cache = ScanCache::new("quick", 0);
    let it = result_item("Logs", Category::Logs, "/var/log", 1234, 9, SafetyLevel::Caution);
    assert!(cache.check("/var/log", Some(50)).is_none());
    assert_eq!(cache.stats.misses, 1);
    cache.store(&it, Some(50));
    let hit = cache.check("/var/log", Some(50)).unwrap();
    assert_eq!(hit.size_bytes, 1234);
    assert_eq!(hit.file_count, 9);
    assert_eq!(hit.category, "Logs");
    assert_eq!(hit.safety, "Caution");
    assert_eq!(cache.stats.hits, 1);
    assert!(cache.check("/var/log", Some(51)).is_none());
    assert_eq!(cache.stats.invalidated, 1);
    assert!(cache.check("/var/log", None).is_none());
    cache.store(&it, Some(60));
    assert_eq!(cache.entry_count(), 1);
    cache.invalidate("/var/log");
    assert_eq!(cache.entry_count(), 0);
}

#[test]
fn cache_of_other_profile_is_discarded() {
    let mut c = ScanCache::new("deep", 5);
    c.store(&result_item("L", Category::Logs, "/l", 1, 1, SafetyLevel::Safe), Some(1));
    let same = ScanCache::for_profile(Some(c.clone()), "deep", 9);
    assert_eq!(same.entry_count(), 1);
    let other = ScanCache::for_profile(Some(c), "quick", 9);
    assert_eq!(other.entry_count(), 0);
    assert_eq!(other.profile, "quick");
}

#[test]
fn rescan_is_served_from_cache() {
    let target = targets::trash_targets().remove(0);
    let mut cache = ScanCache::new("quick", 0);
    let expanded = vec!["/Users/a/.Trash".to_string()];
    let mtimes = vec![Some(77)];
    assert!(serve_from_cache(&target, &expanded, &mtimes, &mut cache).is_none());
    assert_eq!(cache.stats.misses, 1);
    cache.store(&result_item("User Trash", Category::Trash, "/Users/a/.Trash", 500, 2, SafetyLevel::Safe), Some(77));
    let served = serve_from_cache(&target, &expanded, &mtimes, &mut cache).unwrap();
    assert_eq!(served.len(), 1);
    assert_eq!(served[0].size_bytes, 500);
    assert_eq!(served[0].file_count, 2);
    assert!(cache.stats.hits >= 1);
    assert_eq!(cache.stats.misses, 1);
}

#[test]
fn test_format_count() {
    assert_eq!(format_count(0), "0 files");
    assert_eq!(format_count(1), "1 file");
    assert_eq!(format_count(42), "42 files");
}

#[test]
fn test_format_path_with_home() {
    if let Some(home) = dirs::home_dir() {
        let h = home.to_string_lossy().to_string();
        let formatted = format_path(&format!("{}/Documents/test.txt", h), &Some(h.clone()));
        assert!(formatted.starts_with("~/"), "Path should start with ~/, got: {}", formatted);
        assert!(formatted.contains("Documents/test.txt"));
    }
}

#[test]
fn test_format_path_without_home() {
    let home = dirs::home_dir().map(|h| h.to_string_lossy().to_string());
    assert_eq!(format_path("/tmp/test.txt", &home), "/tmp/test.txt");
    assert_eq!(format_path("/Users/ab/x", &Some("/Users/a".to_string())), "/Users/ab/x");
}

#[test]
fn labels_and_ages() {
    assert_eq!(tidymac::targets::category_label(Category::DevCache(tidymac::targets::DevTool::Npm)), "Dev: npm");
    assert_eq!(tidymac::targets::safety_label(SafetyLevel::Caution), "Caution");
    assert_eq!(tidymac::engine::clean_mode_label(tidymac::engine::CleanMode::SoftDelete), "soft_delete");
    assert_eq!(tidymac::duplicates::match_type_label(tidymac::duplicates::MatchType::PerceptuallySimilar), "Similar");
    let c = ScanCache::new("quick", 1000);
    assert_eq!(c.age_string(1030), "30s ago");
    assert_eq!(c.age_string(1000 + 120), "2m ago");
    assert_eq!(c.age_string(1000 + 7200), "2h ago");
    assert_eq!(c.age_string(1000 + 3 * 86400), "3d ago");
    assert_eq!(c.age_string(995), "-5s ago");
}
