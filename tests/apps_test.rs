use tidymac::apps::{find_app_by_name, uninstall_app, AppSource, AssociatedFile, AssociatedKind, InstalledApp, UninstallMode};
use tidymac::dev::{is_stale, is_venv_name, project_roots, scan_node_modules};
use tidymac::privacy::{chromium_paths, is_known_tracker, scan_chromium_profile, scan_safari, tracker_database_size, BrowserType, Probe};
use tidymac::startup::{find_item_by_name, StartupItem, StartupKind};

fn app(name: &str) -> InstalledApp {
    InstalledApp {
        name: name.to_string(),
        bundle_id: None,
        version: None,
        path: format!("/Applications/{}.app", name),
        app_size: 100,
        associated_files: vec![
            AssociatedFile { path: "/u/Caches/x".to_string(), size: 5, kind: AssociatedKind::Cache, exists: true },
            AssociatedFile { path: "/u/Prefs/x".to_string(), size: 7, kind: AssociatedKind::Preferences, exists: false },
        ],
        total_size: 105,
        last_opened: None,
        source: AppSource::Applications,
    }
}

#[test]
fn apps_are_found_ignoring_case() {
    let apps = vec![app("Slack"), app("Visual Studio Code"), app("Xcode")];
    let found = find_app_by_name(&apps, "code");
    let names: Vec<&str> = found.iter().map(|a| a.name.as_str()).collect();
    assert_eq!(names, vec!["Visual Studio Code", "Xcode"]);
    assert!(find_app_by_name(&apps, "ThisAppDoesNotExist12345").is_empty());
}

#[test]
fn uninstall_dry_run_and_running_app() {
    let a = app("Slack");
    let rep = uninstall_app(&a, true, true, &Vec::new()).unwrap();
    assert_eq!(rep.mode, UninstallMode::DryRun);
    assert_eq!(rep.removed_paths, vec!["/u/Caches/x".to_string(), "/Applications/Slack.app".to_string()]);
    assert_eq!(rep.bytes_freed, 105);
    assert!(uninstall_app(&a, false, true, &vec![Ok(()), Ok(())]).is_err());
    let rep = uninstall_app(&a, false, false, &vec![Err("busy".to_string()), Ok(())]).unwrap();
    assert_eq!(rep.files_removed, 1);
    assert_eq!(rep.errors.len(), 1);
}

#[test]
fn trackers() {
    assert!(is_known_tracker("stats.DoubleClick.net"));
    assert!(!is_known_tracker("example.org"));
    assert_eq!(tracker_database_size(), 50);
}

#[test]
fn startup_items_found_by_name_or_label() {
    let items = vec![
        StartupItem { name: "Dropbox".to_string(), label: "com.dropbox.agent".to_string(), path: "/p".to_string(), kind: StartupKind::UserLaunchAgent, enabled: true, program: None, run_at_load: true },
        StartupItem { name: "Helper".to_string(), label: "com.zoom.helper".to_string(), path: "/q".to_string(), kind: StartupKind::SystemLaunchDaemon, enabled: false, program: None, run_at_load: false },
    ];
    assert_eq!(find_item_by_name(&items, "ZOOM").len(), 1);
    assert_eq!(find_item_by_name(&items, "dropbox")[0].name, "Dropbox");
}

#[test]
fn browser_profiles_from_probes() {
    let paths = chromium_paths("/p/Default");
    assert_eq!(paths[2], "/p/Default/Local Storage");
    let probes = vec![
        Probe { exists: true, size: 10 },
        Probe { exists: false, size: 0 },
        Probe { exists: true, size: 5 },
        Probe { exists: false, size: 0 },
        Probe { exists: true, size: 1 },
    ];
    let p = scan_chromium_profile("/p/Default", BrowserType::Chrome, &probes).unwrap();
    assert_eq!(p.total_size, 16);
    assert_eq!(p.cookies_path.as_deref(), Some("/p/Default/Cookies"));
    assert!(p.history_path.is_none());
    assert_eq!(p.extensions_size, 1);
    let empty = vec![Probe { exists: false, size: 0 }; 4];
    assert!(scan_safari("/h", &empty).is_none());
}

#[test]
fn stale_projects() {
    let day = 86_400u64;
    assert!(is_stale(Some(0), 31 * day, 30));
    assert!(!is_stale(Some(day), 31 * day, 30));
    assert!(is_stale(None, 0, 30));
    assert!(is_venv_name(".venv"));
    assert!(!is_venv_name("venv2"));
    let roots = project_roots("/h", true);
    assert_eq!(roots.len(), 11);
    assert_eq!(roots[0], "/h/Projects");
    assert_eq!(roots[10], "/h/Desktop");
    assert_eq!(project_roots("/h", false).len(), 10);
    let item = scan_node_modules(
        "/h",
        30,
        vec![tidymac::targets::FileEntry { path: "/h/p/node_modules".to_string(), size_bytes: 700, modified: None }],
    );
    assert_eq!(item.name, "Stale node_modules (>30 days)");
    assert_eq!(item.size_bytes, 700);
    assert_eq!(item.path, "/h/**/node_modules");
}
