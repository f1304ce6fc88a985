use vstd::prelude::*;
use crate::engine::copy_strings;
use crate::targets::{
    Category, DevTool, ScanTarget, TargetView, all_targets, target_view, target_views,
    system_junk_target_table, developer_target_table, trash_target_table, mail_target_table,
};

verus! {

/// A named cleanup profile: which targets it enables and its thresholds.
#[derive(Debug, Clone)]
pub struct Profile {
    pub profile: ProfileMeta,
    pub targets: ProfileTargets,
    pub thresholds: ProfileThresholds,
}

#[derive(Debug, Clone)]
pub struct ProfileMeta {
    pub name: String,
    pub description: String,
    pub aggression: Aggression,
}

#[derive(Debug, Clone, Copy, PartialEq, Eq, Structural)]
pub enum Aggression {
    Low,
    Medium,
    High,
}

/// Which general targets a profile enables.
#[derive(Debug, Clone, Copy, PartialEq, Eq, Structural)]
pub struct ProfileTargets {
    pub system_caches: bool,
    pub user_caches: bool,
    pub logs: bool,
    pub temp_files: bool,
    pub trash: bool,
    pub crash_reports: bool,
    pub mail_attachments: bool,
    pub downloaded_dmgs: bool,
    pub large_files: bool,
    pub dev: DevTargets,
}

/// Which developer tool caches a profile enables.
#[derive(Debug, Clone, Copy, PartialEq, Eq, Structural)]
pub struct DevTargets {
    pub xcode_derived_data: bool,
    pub xcode_archives: bool,
    pub ios_simulators: bool,
    pub docker_dangling: bool,
    pub node_modules_stale: bool,
    pub venv: bool,
    pub homebrew_cache: bool,
    pub pip_cache: bool,
    pub npm_cache: bool,
    pub yarn_cache: bool,
    pub cocoapods_cache: bool,
    pub cargo_cache: bool,
    pub gradle_cache: bool,
    pub conda_cache: bool,
}

/// A profile's thresholds.
#[derive(Debug, Clone, Copy, PartialEq, Eq, Structural)]
pub struct ProfileThresholds {
    pub stale_days: u32,
    pub large_file_mb: u64,
}

pub fn default_true() -> (r: bool)
    ensures
        r,
{
    true
}

pub fn default_stale() -> (r: u32)
    ensures
        r == 30,
{
    30
}

pub fn default_large() -> (r: u64)
    ensures
        r == 500,
{
    500
}

/// No developer cache enabled.
pub open spec fn no_dev() -> DevTargets {
    DevTargets {
        xcode_derived_data: false,
        xcode_archives: false,
        ios_simulators: false,
        docker_dangling: false,
        node_modules_stale: false,
        venv: false,
        homebrew_cache: false,
        pip_cache: false,
        npm_cache: false,
        yarn_cache: false,
        cocoapods_cache: false,
        cargo_cache: false,
        gradle_cache: false,
        conda_cache: false,
    }
}

/// Every developer cache enabled, but Xcode archives when `archives` is false.
pub open spec fn all_dev(archives: bool) -> DevTargets {
    DevTargets {
        xcode_derived_data: true,
        xcode_archives: archives,
        ios_simulators: true,
        docker_dangling: true,
        node_modules_stale: true,
        venv: true,
        homebrew_cache: true,
        pip_cache: true,
        npm_cache: true,
        yarn_cache: true,
        cocoapods_cache: true,
        cargo_cache: true,
        gradle_cache: true,
        conda_cache: true,
    }
}

/// General targets: the five everyday ones always, and the four optional ones as given.
pub open spec fn general(crash: bool, mail: bool, dmgs: bool, large: bool, dev: DevTargets) -> ProfileTargets {
    ProfileTargets {
        system_caches: true,
        user_caches: true,
        logs: true,
        temp_files: true,
        trash: true,
        crash_reports: crash,
        mail_attachments: mail,
        downloaded_dmgs: dmgs,
        large_files: large,
        dev,
    }
}

/// Whether a developer tool's cache is enabled.
pub open spec fn dev_tool_enabled(d: DevTargets, tool: DevTool) -> bool {
    match tool {
        DevTool::Xcode => d.xcode_derived_data,
        DevTool::XcodeArchives => d.xcode_archives,
        DevTool::XcodeSimulators => d.ios_simulators,
        DevTool::Docker => d.docker_dangling,
        DevTool::NodeModules => d.node_modules_stale,
        DevTool::Venv => d.venv,
        DevTool::Conda => d.conda_cache,
        DevTool::Homebrew => d.homebrew_cache,
        DevTool::Pip => d.pip_cache,
        DevTool::Npm => d.npm_cache,
        DevTool::Yarn => d.yarn_cache,
        DevTool::CocoaPods => d.cocoapods_cache,
        DevTool::Cargo => d.cargo_cache,
        DevTool::Gradle => d.gradle_cache,
        _ => false,
    }
}

/// Whether targets of a category are enabled.
pub open spec fn category_enabled(t: ProfileTargets, c: Category) -> bool {
    match c {
        Category::SystemCache => t.system_caches,
        Category::UserCache => t.user_caches,
        Category::Logs => t.logs,
        Category::TempFiles => t.temp_files,
        Category::Trash => t.trash,
        Category::CrashReports => t.crash_reports,
        Category::MailAttachment => t.mail_attachments,
        Category::DownloadedDmg => t.downloaded_dmgs,
        Category::LargeFile => t.large_files,
        Category::DevCache(tool) => dev_tool_enabled(t.dev, tool),
        _ => false,
    }
}

/// The targets of a table whose category is enabled, in table order.
pub open spec fn enabled_in(t: ProfileTargets, table: Seq<TargetView>) -> Seq<TargetView>
    decreases table.len(),
{
    if table.len() == 0 {
        Seq::empty()
    } else if category_enabled(t, table.last().1) {
        enabled_in(t, table.drop_last()).push(table.last())
    } else {
        enabled_in(t, table.drop_last())
    }
}

/// Every built-in target, in order.
pub open spec fn builtin_table() -> Seq<TargetView> {
    system_junk_target_table() + developer_target_table() + trash_target_table() + mail_target_table()
}

fn meta(name: &str, description: &str, aggression: Aggression) -> (r: ProfileMeta)
    ensures
        r.name@ == name@,
        r.description@ == description@,
        r.aggression == aggression,
{
    ProfileMeta {
        name: String::from_str(name),
        description: String::from_str(description),
        aggression,
    }
}

/// Which built-in profile a name selects: 0 quick, 1 developer, 2 creative, 3 deep.
pub open spec fn builtin_index(name: Seq<char>) -> Option<int> {
    if name == "quick"@ || name == "quick_sweep"@ {
        Some(0)
    } else if name == "developer"@ || name == "dev"@ {
        Some(1)
    } else if name == "creative"@ {
        Some(2)
    } else if name == "deep"@ || name == "deep_clean"@ {
        Some(3)
    } else {
        None
    }
}

/// The built-in profiles' targets, thresholds, names and aggression, by index.
pub open spec fn builtin_targets(k: int) -> ProfileTargets {
    if k == 0 {
        general(false, false, false, false, no_dev())
    } else if k == 1 {
        general(true, false, true, false, all_dev(false))
    } else if k == 2 {
        general(true, true, true, false, no_dev())
    } else {
        general(true, true, true, true, all_dev(true))
    }
}

pub open spec fn builtin_thresholds(k: int) -> ProfileThresholds {
    if k == 0 || k == 1 {
        ProfileThresholds { stale_days: 30, large_file_mb: 500 }
    } else if k == 2 {
        ProfileThresholds { stale_days: 14, large_file_mb: 200 }
    } else {
        ProfileThresholds { stale_days: 14, large_file_mb: 100 }
    }
}

pub open spec fn builtin_name(k: int) -> Seq<char> {
    if k == 0 {
        "quick_sweep"@
    } else if k == 1 {
        "developer"@
    } else if k == 2 {
        "creative"@
    } else {
        "deep_clean"@
    }
}

pub open spec fn builtin_aggression(k: int) -> Aggression {
    if k == 0 {
        Aggression::Low
    } else if k == 3 {
        Aggression::High
    } else {
        Aggression::Medium
    }
}

fn name_is(name: &String, lit: &str) -> (r: bool)
    ensures
        r == (name@ == lit@),
{
    *name == String::from_str(lit)
}

/// The built-in profile a name selects, if any.
pub fn builtin_profile(name: &str) -> (r: Option<Profile>)
    ensures
        r is Some <==> builtin_index(name@) is Some,
        r matches Some(p) ==> {
            let k = builtin_index(name@)->0;
            &&& p.targets == builtin_targets(k)
            &&& p.thresholds == builtin_thresholds(k)
            &&& p.profile.name@ == builtin_name(k)
            &&& p.profile.aggression == builtin_aggression(k)
        },
{
    let n = String::from_str(name);
    if name_is(&n, "quick") || name_is(&n, "quick_sweep") {
        Some(Profile {
            profile: meta("quick_sweep", "Fast daily cleanup — caches, temp files, trash", Aggression::Low),
            targets: ProfileTargets {
                system_caches: true,
                user_caches: true,
                logs: true,
                temp_files: true,
                trash: true,
                crash_reports: false,
                mail_attachments: false,
                downloaded_dmgs: false,
                large_files: false,
                dev: no_dev_exec(),
            },
            thresholds: ProfileThresholds { stale_days: 30, large_file_mb: 500 },
        })
    } else if name_is(&n, "developer") || name_is(&n, "dev") {
        Some(Profile {
            profile: meta(
                "developer",
                "Full developer cache cleanup — Xcode, Docker, npm, pip, and more",
                Aggression::Medium,
            ),
            targets: ProfileTargets {
                system_caches: true,
                user_caches: true,
                logs: true,
                temp_files: true,
                trash: true,
                crash_reports: true,
                mail_attachments: false,
                downloaded_dmgs: true,
                large_files: false,
                dev: all_dev_exec(false),
            },
            thresholds: ProfileThresholds { stale_days: 30, large_file_mb: 500 },
        })
    } else if name_is(&n, "creative") {
        Some(Profile {
            profile: meta(
                "creative",
                "Clean up after creative work — render caches, previews, scratch files",
                Aggression::Medium,
            ),
            targets: ProfileTargets {
                system_caches: true,
                user_caches: true,
                logs: true,
                temp_files: true,
                trash: true,
                crash_reports: true,
                mail_attachments: true,
                downloaded_dmgs: true,
                large_files: false,
                dev: no_dev_exec(),
            },
            thresholds: ProfileThresholds { stale_days: 14, large_file_mb: 200 },
        })
    } else if name_is(&n, "deep") || name_is(&n, "deep_clean") {
        Some(Profile {
            profile: meta(
                "deep_clean",
                "Thorough cleanup — everything including large files and app leftovers",
                Aggression::High,
            ),
            targets: ProfileTargets {
                system_caches: true,
                user_caches: true,
                logs: true,
                temp_files: true,
                trash: true,
                crash_reports: true,
                mail_attachments: true,
                downloaded_dmgs: true,
                large_files: true,
                dev: all_dev_exec(true),
            },
            thresholds: ProfileThresholds { stale_days: 14, large_file_mb: 100 },
        })
    } else {
        None
    }
}

fn no_dev_exec() -> (r: DevTargets)
    ensures
        r == no_dev(),
{
    DevTargets {
        xcode_derived_data: false,
        xcode_archives: false,
        ios_simulators: false,
        docker_dangling: false,
        node_modules_stale: false,
        venv: false,
        homebrew_cache: false,
        pip_cache: false,
        npm_cache: false,
        yarn_cache: false,
        cocoapods_cache: false,
        cargo_cache: false,
        gradle_cache: false,
        conda_cache: false,
    }
}

fn all_dev_exec(archives: bool) -> (r: DevTargets)
    ensures
        r == all_dev(archives),
{
    DevTargets {
        xcode_derived_data: true,
        xcode_archives: archives,
        ios_simulators: true,
        docker_dangling: true,
        node_modules_stale: true,
        venv: true,
        homebrew_cache: true,
        pip_cache: true,
        npm_cache: true,
        yarn_cache: true,
        cocoapods_cache: true,
        cargo_cache: true,
        gradle_cache: true,
        conda_cache: true,
    }
}

fn copy_target(t: &ScanTarget) -> (r: ScanTarget)
    ensures
        target_view(r) == target_view(*t),
{
    ScanTarget {
        name: t.name.clone(),
        category: t.category,
        paths: copy_strings(&t.paths),
        safety: t.safety,
        reason: t.reason.clone(),
        recursive: t.recursive,
        min_age_days: t.min_age_days,
    }
}

impl Profile {
    /// Whether the profile scans projects for stale dependency directories.
    pub fn includes_dev_projects(&self) -> (r: bool)
        ensures
            r == (self.targets.dev.node_modules_stale || self.targets.dev.venv),
    {
        self.targets.dev.node_modules_stale || self.targets.dev.venv
    }

    /// Whether a developer tool's cache is enabled.
    pub fn is_dev_tool_enabled(&self, tool: DevTool) -> (r: bool)
        ensures
            r == dev_tool_enabled(self.targets.dev, tool),
    {
        let d = self.targets.dev;
        match tool {
            DevTool::Xcode => d.xcode_derived_data,
            DevTool::XcodeArchives => d.xcode_archives,
            DevTool::XcodeSimulators => d.ios_simulators,
            DevTool::Docker => d.docker_dangling,
            DevTool::NodeModules => d.node_modules_stale,
            DevTool::Venv => d.venv,
            DevTool::Conda => d.conda_cache,
            DevTool::Homebrew => d.homebrew_cache,
            DevTool::Pip => d.pip_cache,
            DevTool::Npm => d.npm_cache,
            DevTool::Yarn => d.yarn_cache,
            DevTool::CocoaPods => d.cocoapods_cache,
            DevTool::Cargo => d.cargo_cache,
            DevTool::Gradle => d.gradle_cache,
            _ => false,
        }
    }

    /// Whether the profile enables a target, by the target's category.
    pub fn is_target_enabled(&self, target: &ScanTarget) -> (r: bool)
        ensures
            r == category_enabled(self.targets, target.category),
    {
        let t = self.targets;
        match target.category {
            Category::SystemCache => t.system_caches,
            Category::UserCache => t.user_caches,
            Category::Logs => t.logs,
            Category::TempFiles => t.temp_files,
            Category::Trash => t.trash,
            Category::CrashReports => t.crash_reports,
            Category::MailAttachment => t.mail_attachments,
            Category::DownloadedDmg => t.downloaded_dmgs,
            Category::LargeFile => t.large_files,
            Category::DevCache(tool) => self.is_dev_tool_enabled(tool),
            _ => false,
        }
    }

    /// The built-in targets that this profile enables, in their usual order.
    pub fn enabled_targets(&self) -> (r: Vec<ScanTarget>)
        ensures
            target_views(r@) == enabled_in(self.targets, builtin_table()),
    {
        let all = all_targets();
        let mut out: Vec<ScanTarget> = Vec::new();
        let mut i: usize = 0;
        while i < all.len()
            invariant
                i <= all@.len(),
                target_views(all@) == builtin_table(),
                target_views(out@) == enabled_in(self.targets, target_views(all@).subrange(0, i as int)),
            decreases all@.len() - i,
        {
            let ghost tv = target_views(all@);
            assert(tv.subrange(0, i + 1).drop_last() =~= tv.subrange(0, i as int));
            assert(tv[i as int] == target_view(all@[i as int]));
            if self.is_target_enabled(&all[i]) {
                out.push(copy_target(&all[i]));
                assert(target_views(out@) =~= enabled_in(self.targets, tv.subrange(0, i as int)).push(tv[i as int]));
            }
            i = i + 1;
        }
        assert(target_views(all@).subrange(0, all@.len() as int) =~= target_views(all@));
        out
    }
}

} // verus!
