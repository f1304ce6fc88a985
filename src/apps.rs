use vstd::prelude::*;
use crate::errors::TidyError;
use crate::text::{has_substring, lower_of, lowercase, contains_text};

verus! {

/// Where an application was installed from.
#[derive(Debug, Clone, Copy, PartialEq, Eq, Structural)]
pub enum AppSource {
    Applications,
    UserApplications,
    Homebrew,
    System,
}

/// An installed application and the files it left around the system.
#[derive(Debug, Clone)]
pub struct InstalledApp {
    pub name: String,
    pub bundle_id: Option<String>,
    pub version: Option<String>,
    pub path: String,
    pub app_size: u64,
    pub associated_files: Vec<AssociatedFile>,
    pub total_size: u64,
    /// Last time the application was opened, in seconds since the epoch.
    pub last_opened: Option<u64>,
    pub source: AppSource,
}

/// A file or directory that belongs to an application.
#[derive(Debug, Clone)]
pub struct AssociatedFile {
    pub path: String,
    pub size: u64,
    pub kind: AssociatedKind,
    pub exists: bool,
}

#[derive(Debug, Clone, Copy, PartialEq, Eq, Structural)]
pub enum AssociatedKind {
    AppSupport,
    Cache,
    Preferences,
    SavedState,
    Container,
    GroupContainer,
    Cookies,
    HttpStorage,
    WebKit,
    Logs,
    LaunchAgent,
    LoginItem,
    CrashReports,
}

/// What an uninstall did.
#[derive(Debug, Clone)]
pub struct UninstallReport {
    pub app_name: String,
    pub mode: UninstallMode,
    pub files_removed: usize,
    pub bytes_freed: u64,
    pub removed_paths: Vec<String>,
    pub errors: Vec<String>,
}

#[derive(Debug, Clone, Copy, PartialEq, Eq, Structural)]
pub enum UninstallMode {
    DryRun,
    Remove,
}

/// The apps whose name contains `name`, ignoring case, in their order.
pub open spec fn apps_named(apps: Seq<InstalledApp>, q: Seq<char>) -> Seq<InstalledApp>
    decreases apps.len(),
{
    if apps.len() == 0 {
        Seq::empty()
    } else if has_substring(lower_of(apps.last().name@), lower_of(q)) {
        apps_named(apps.drop_last(), q).push(apps.last())
    } else {
        apps_named(apps.drop_last(), q)
    }
}

/// The apps whose name contains `name`, ignoring case.
pub fn find_app_by_name<'a>(apps: &'a Vec<InstalledApp>, name: &str) -> (r: Vec<&'a InstalledApp>)
    ensures
        r@.map_values(|a: &InstalledApp| *a) == apps_named(apps@, name@),
{
    let lower = lowercase(name);
    let mut out: Vec<&'a InstalledApp> = Vec::new();
    let mut i: usize = 0;
    while i < apps.len()
        invariant
            i <= apps@.len(),
            lower@ == lower_of(name@),
            out@.map_values(|a: &InstalledApp| *a) == apps_named(apps@.subrange(0, i as int), name@),
        decreases apps@.len() - i,
    {
        assert(apps@.subrange(0, i + 1).drop_last() =~= apps@.subrange(0, i as int));
        let n = lowercase(apps[i].name.as_str());
        if contains_text(n.as_str(), lower.as_str()) {
            out.push(&apps[i]);
            assert(out@.map_values(|a: &InstalledApp| *a) =~= apps_named(apps@.subrange(0, i as int), name@).push(apps@[i as int]));
        }
        i = i + 1;
    }
    assert(apps@.subrange(0, apps@.len() as int) =~= apps@);
    out
}

/// What an uninstall removes, in order: the associated files that exist, then the
/// application itself.
pub open spec fn uninstall_paths(app: InstalledApp) -> Seq<(Seq<char>, u64)> {
    existing_files(app.associated_files@).push((app.path@, app.app_size))
}

pub open spec fn existing_files(fs: Seq<AssociatedFile>) -> Seq<(Seq<char>, u64)>
    decreases fs.len(),
{
    if fs.len() == 0 {
        Seq::empty()
    } else if fs.last().exists {
        existing_files(fs.drop_last()).push((fs.last().path@, fs.last().size))
    } else {
        existing_files(fs.drop_last())
    }
}

/// The paths an uninstall removes, with their sizes.
pub fn uninstall_targets(app: &InstalledApp) -> (r: Vec<(String, u64)>)
    ensures
        r@.map_values(|p: (String, u64)| (p.0@, p.1)) == uninstall_paths(*app),
{
    let mut out: Vec<(String, u64)> = Vec::new();
    let mut i: usize = 0;
    while i < app.associated_files.len()
        invariant
            i <= app.associated_files@.len(),
            out@.map_values(|p: (String, u64)| (p.0@, p.1)) == existing_files(app.associated_files@.subrange(0, i as int)),
        decreases app.associated_files@.len() - i,
    {
        assert(app.associated_files@.subrange(0, i + 1).drop_last() =~= app.associated_files@.subrange(0, i as int));
        let f = &app.associated_files[i];
        if f.exists {
            out.push((f.path.clone(), f.size));
            assert(out@.map_values(|p: (String, u64)| (p.0@, p.1)) =~= existing_files(app.associated_files@.subrange(0, i as int)).push((f.path@, f.size)));
        }
        i = i + 1;
    }
    assert(app.associated_files@.subrange(0, app.associated_files@.len() as int) =~= app.associated_files@);
    let ghost before = out@;
    out.push((app.path.clone(), app.app_size));
    assert(out@.map_values(|p: (String, u64)| (p.0@, p.1)) =~= uninstall_paths(*app));
    out
}

/// The targets among the first `n` that were removed: all in a dry run, else
/// those whose removal succeeded.
pub open spec fn removed_upto(
    targets: Seq<(Seq<char>, u64)>,
    outcomes: Seq<Result<(), String>>,
    dry_run: bool,
    n: int,
) -> Seq<(Seq<char>, u64)>
    decreases n,
{
    if n <= 0 {
        Seq::empty()
    } else if dry_run || outcomes[n - 1] is Ok {
        removed_upto(targets, outcomes, dry_run, n - 1).push(targets[n - 1])
    } else {
        removed_upto(targets, outcomes, dry_run, n - 1)
    }
}

/// Sum of the sizes of removed targets.
pub open spec fn removed_bytes(r: Seq<(Seq<char>, u64)>) -> nat
    decreases r.len(),
{
    if r.len() == 0 { 0 } else { removed_bytes(r.drop_last()) + r.last().1 as nat }
}

/// Build the report of an uninstall. A dry run counts every target. Otherwise
/// `outcomes[k]` is the result of removing the `k`-th target, and a running
/// application is refused before anything is removed.
pub fn uninstall_app(
    app: &InstalledApp,
    dry_run: bool,
    running: bool,
    outcomes: &Vec<Result<(), String>>,
) -> (r: Result<UninstallReport, TidyError>)
    requires
        dry_run || outcomes@.len() == uninstall_paths(*app).len(),
    ensures
        (!dry_run && running) <==> r is Err,
        r matches Err(e) ==> e matches TidyError::AppError { name, .. } && name@ == app.name@,
        r matches Ok(rep) ==> {
            &&& rep.app_name@ == app.name@
            &&& rep.mode == (if dry_run { UninstallMode::DryRun } else { UninstallMode::Remove })
            &&& rep.removed_paths@.len() + rep.errors@.len() == uninstall_paths(*app).len()
            &&& dry_run ==> rep.errors@.len() == 0
            &&& crate::safety::views(rep.removed_paths@) == removed_upto(uninstall_paths(*app), outcomes@, dry_run,
                uninstall_paths(*app).len() as int).map_values(|t: (Seq<char>, u64)| t.0)
            &&& rep.files_removed == rep.removed_paths@.len()
            &&& rep.bytes_freed as nat == (if removed_bytes(removed_upto(uninstall_paths(*app), outcomes@, dry_run,
                uninstall_paths(*app).len() as int)) <= u64::MAX as nat {
                removed_bytes(removed_upto(uninstall_paths(*app), outcomes@, dry_run, uninstall_paths(*app).len() as int))
            } else {
                u64::MAX as nat
            })
        },
{
    if !dry_run && running {
        return Err(
            TidyError::AppError {
                name: app.name.clone(),
                message: String::from_str("appears to be running. Please quit it first."),
            },
        );
    }
    let targets = uninstall_targets(app);
    let mut report = UninstallReport {
        app_name: app.name.clone(),
        mode: if dry_run { UninstallMode::DryRun } else { UninstallMode::Remove },
        files_removed: 0,
        bytes_freed: 0,
        removed_paths: Vec::new(),
        errors: Vec::new(),
    };
    let mut k: usize = 0;
    while k < targets.len()
        invariant
            k <= targets@.len(),
            targets@.len() == uninstall_paths(*app).len(),
            dry_run || outcomes@.len() == targets@.len(),
            report.app_name@ == app.name@,
            report.mode == (if dry_run { UninstallMode::DryRun } else { UninstallMode::Remove }),
            report.removed_paths@.len() + report.errors@.len() == k,
            dry_run ==> report.errors@.len() == 0,
            targets@.map_values(|p: (String, u64)| (p.0@, p.1)) == uninstall_paths(*app),
            crate::safety::views(report.removed_paths@) == removed_upto(uninstall_paths(*app), outcomes@, dry_run, k as int).map_values(|t: (Seq<char>, u64)| t.0),
            report.files_removed == report.removed_paths@.len(),
            report.bytes_freed as nat == (if removed_bytes(removed_upto(uninstall_paths(*app), outcomes@, dry_run, k as int)) <= u64::MAX as nat {
                removed_bytes(removed_upto(uninstall_paths(*app), outcomes@, dry_run, k as int))
            } else {
                u64::MAX as nat
            }),
        decreases targets@.len() - k,
    {
        let ok = dry_run || outcomes[k].is_ok();
        let ghost tv = uninstall_paths(*app);
        let ghost prev = removed_upto(tv, outcomes@, dry_run, k as int);
        assert(tv[k as int] == (targets@[k as int].0@, targets@[k as int].1));
        if ok {
            let ghost old_removed = report.removed_paths@;
            report.removed_paths.push(targets[k].0.clone());
            report.bytes_freed = report.bytes_freed.saturating_add(targets[k].1);
            report.files_removed = report.files_removed + 1;
            assert(removed_upto(tv, outcomes@, dry_run, k + 1) == prev.push(tv[k as int]));
            assert(prev.push(tv[k as int]).drop_last() =~= prev);
            assert(crate::safety::views(report.removed_paths@) =~= crate::safety::views(old_removed).push(targets@[k as int].0@));
            assert(crate::safety::views(report.removed_paths@) =~= removed_upto(tv, outcomes@, dry_run, k + 1).map_values(|t: (Seq<char>, u64)| t.0));
        } else {
            let msg = String::from_str("Failed to remove '").concat(targets[k].0.as_str()).concat("'");
            report.errors.push(msg);
        }
        k = k + 1;
    }
    Ok(report)
}

/// The display name of a value of `AppSource`.
pub open spec fn app_source_text(k: AppSource) -> Seq<char> {
    match k {
        AppSource::Applications => "Applications"@,
        AppSource::UserApplications => "User Apps"@,
        AppSource::Homebrew => "Homebrew"@,
        AppSource::System => "System"@,
    }
}

/// The display name of a value of `AppSource`.
pub fn app_source_label(k: AppSource) -> (r: String)
    ensures
        r@ == app_source_text(k),
{
    match k {
        AppSource::Applications => String::from_str("Applications"),
        AppSource::UserApplications => String::from_str("User Apps"),
        AppSource::Homebrew => String::from_str("Homebrew"),
        AppSource::System => String::from_str("System"),
    }
}

/// The display name of a value of `AssociatedKind`.
pub open spec fn associated_kind_text(k: AssociatedKind) -> Seq<char> {
    match k {
        AssociatedKind::AppSupport => "App Support"@,
        AssociatedKind::Cache => "Cache"@,
        AssociatedKind::Preferences => "Preferences"@,
        AssociatedKind::SavedState => "Saved State"@,
        AssociatedKind::Container => "Container"@,
        AssociatedKind::GroupContainer => "Group Container"@,
        AssociatedKind::Cookies => "Cookies"@,
        AssociatedKind::HttpStorage => "HTTP Storage"@,
        AssociatedKind::WebKit => "WebKit Data"@,
        AssociatedKind::Logs => "Logs"@,
        AssociatedKind::LaunchAgent => "Launch Agent"@,
        AssociatedKind::LoginItem => "Login Item"@,
        AssociatedKind::CrashReports => "Crash Reports"@,
    }
}

/// The display name of a value of `AssociatedKind`.
pub fn associated_kind_label(k: AssociatedKind) -> (r: String)
    ensures
        r@ == associated_kind_text(k),
{
    match k {
        AssociatedKind::AppSupport => String::from_str("App Support"),
        AssociatedKind::Cache => String::from_str("Cache"),
        AssociatedKind::Preferences => String::from_str("Preferences"),
        AssociatedKind::SavedState => String::from_str("Saved State"),
        AssociatedKind::Container => String::from_str("Container"),
        AssociatedKind::GroupContainer => String::from_str("Group Container"),
        AssociatedKind::Cookies => String::from_str("Cookies"),
        AssociatedKind::HttpStorage => String::from_str("HTTP Storage"),
        AssociatedKind::WebKit => String::from_str("WebKit Data"),
        AssociatedKind::Logs => String::from_str("Logs"),
        AssociatedKind::LaunchAgent => String::from_str("Launch Agent"),
        AssociatedKind::LoginItem => String::from_str("Login Item"),
        AssociatedKind::CrashReports => String::from_str("Crash Reports"),
    }
}

} // verus!
