use vstd::prelude::*;
use crate::format::{decimal, decimal_text};
use crate::safety::{join, join_path, views};
use crate::targets::{Category, DevTool, FileEntry, SafetyLevel, ScanItem, sum_entry_sizes};
use crate::walker::{DAY_SECS, age_at};

verus! {

/// A developer tool found on the machine.
#[derive(Debug, Clone)]
pub struct DevToolInfo {
    pub tool: DevTool,
    pub installed: bool,
    pub cache_path: String,
}

/// Directories under home where projects are looked for.
pub open spec fn project_dir_names(include_desktop: bool) -> Seq<Seq<char>> {
    let base = seq![
        "Projects"@, "projects"@, "Code"@, "code"@, "Development"@, "dev"@, "workspace"@,
        "repos"@, "src"@, "Documents"@,
    ];
    if include_desktop { base.push("Desktop"@) } else { base }
}

fn project_dir(i: usize) -> (r: &'static str)
    requires
        i < 11,
    ensures
        r@ == project_dir_names(true)[i as int],
{
    if i == 0 { "Projects" } else if i == 1 { "projects" } else if i == 2 { "Code" }
    else if i == 3 { "code" } else if i == 4 { "Development" } else if i == 5 { "dev" }
    else if i == 6 { "workspace" } else if i == 7 { "repos" } else if i == 8 { "src" }
    else if i == 9 { "Documents" } else { "Desktop" }
}

/// The project directories under `home` (the Desktop too when `include_desktop`).
pub fn project_roots(home: &str, include_desktop: bool) -> (r: Vec<String>)
    ensures
        views(r@) == project_dir_names(include_desktop).map_values(|n: Seq<char>| join_path(home@, n)),
{
    let count: usize = if include_desktop { 11 } else { 10 };
    let mut out: Vec<String> = Vec::new();
    let ghost want = project_dir_names(include_desktop).map_values(|n: Seq<char>| join_path(home@, n));
    let mut i: usize = 0;
    while i < count
        invariant
            i <= count,
            count == project_dir_names(include_desktop).len(),
            count <= 11,
            forall|k: int| 0 <= k < count ==> project_dir_names(include_desktop)[k] == #[trigger] project_dir_names(true)[k],
            want == project_dir_names(include_desktop).map_values(|n: Seq<char>| join_path(home@, n)),
            views(out@) == want.subrange(0, i as int),
        decreases count - i,
    {
        let dir = project_dir(i);
        let full = join(home, dir);
        assert(project_dir_names(include_desktop)[i as int] == project_dir_names(true)[i as int]);
        assert(want[i as int] == join_path(home@, project_dir_names(include_desktop)[i as int]));
        assert(full@ == want[i as int]);
        let ghost before = out@;
        out.push(full);
        assert(views(out@) =~= views(before).push(full@));
        assert(views(out@) =~= want.subrange(0, i + 1));
        i = i + 1;
    }
    assert(want.subrange(0, count as int) =~= want);
    out
}

/// Directory names that may hold a Python virtual environment.
pub open spec fn venv_name_spec(n: Seq<char>) -> bool {
    n == ".venv"@ || n == "venv"@ || n == ".env"@ || n == "env"@
}

/// Whether a directory name may hold a Python virtual environment.
pub fn is_venv_name(name: &str) -> (r: bool)
    ensures
        r == venv_name_spec(name@),
{
    let n = String::from_str(name);
    n == String::from_str(".venv") || n == String::from_str("venv") || n == String::from_str(".env")
        || n == String::from_str("env")
}

/// A project is stale when its sentinel was last modified more than `stale_days`
/// days ago, or when that time cannot be read.
pub open spec fn stale_spec(modified: Option<u64>, now_secs: u64, stale_days: u32) -> bool {
    match modified {
        Some(m) => age_at(m, now_secs) > stale_days as nat * DAY_SECS as nat,
        None => true,
    }
}

/// Whether a project counts as stale.
pub fn is_stale(modified: Option<u64>, now_secs: u64, stale_days: u32) -> (r: bool)
    ensures
        r == stale_spec(modified, now_secs, stale_days),
{
    match modified {
        Some(m) => {
            let age: u64 = if now_secs >= m { now_secs - m } else { 0 };
            assert((stale_days as u128) * 86400 <= 0x1_0000_0000u128 * 86400) by (nonlinear_arith)
                requires stale_days <= 0xFFFF_FFFFu32;
            (age as u128) > (stale_days as u128) * (DAY_SECS as u128)
        },
        None => true,
    }
}

/// The item that gathers stale dependency directories of one kind.
pub fn stale_item(
    name_prefix: &str,
    tool: DevTool,
    home: &str,
    pattern: &str,
    stale_days: u32,
    reason: String,
    files: Vec<FileEntry>,
) -> (r: ScanItem)
    requires
        sum_entry_sizes(files@) <= u64::MAX,
    ensures
        r.wf(),
        r.name@ == name_prefix@ + decimal_text(stale_days as nat) + " days)"@,
        r.category == Category::DevCache(tool),
        r.path@ == join_path(home@, pattern@),
        r.size_bytes as nat == sum_entry_sizes(files@),
        r.file_count == files@.len(),
        r.safety == SafetyLevel::Safe,
        r.files == files,
{
    let name = String::from_str(name_prefix).concat(decimal(stale_days as u64).as_str()).concat(" days)");
    ScanItem::from_files(name, Category::DevCache(tool), join(home, pattern), SafetyLevel::Safe, reason, files)
}

/// The item of stale `node_modules` directories.
pub fn scan_node_modules(home: &str, stale_days: u32, files: Vec<FileEntry>) -> (r: ScanItem)
    requires
        sum_entry_sizes(files@) <= u64::MAX,
    ensures
        r.wf(),
        r.category == Category::DevCache(DevTool::NodeModules),
        r.size_bytes as nat == sum_entry_sizes(files@),
        r.file_count == files@.len(),
{
    let reason = String::from_str("node_modules in projects not modified for ").concat(
        decimal(stale_days as u64).as_str(),
    ).concat("+ days — reinstall with 'npm install'");
    stale_item("Stale node_modules (>", DevTool::NodeModules, home, "**/node_modules", stale_days, reason, files)
}

/// The item of stale Python virtual environments.
pub fn scan_venvs(home: &str, stale_days: u32, files: Vec<FileEntry>) -> (r: ScanItem)
    requires
        sum_entry_sizes(files@) <= u64::MAX,
    ensures
        r.wf(),
        r.category == Category::DevCache(DevTool::Venv),
        r.size_bytes as nat == sum_entry_sizes(files@),
        r.file_count == files@.len(),
{
    let reason = String::from_str(
        "Python virtualenvs in stale projects — recreate with 'python -m venv .venv'",
    );
    stale_item("Stale Python venvs (>", DevTool::Venv, home, "**/.venv", stale_days, reason, files)
}

/// The item of large files found under home (the threshold is shown in bytes).
pub fn large_files_item(home: &str, threshold: u64, files: Vec<FileEntry>) -> (r: ScanItem)
    requires
        sum_entry_sizes(files@) <= u64::MAX,
    ensures
        r.wf(),
        r.name@ == "Large files (>"@ + decimal_text(threshold as nat) + " bytes)"@,
        r.category == Category::LargeFile,
        r.path@ == home@,
        r.safety == SafetyLevel::Caution,
        r.size_bytes as nat == sum_entry_sizes(files@),
        r.file_count == files@.len(),
        r.files == files,
{
    let name = String::from_str("Large files (>").concat(decimal(threshold).as_str()).concat(" bytes)");
    ScanItem::from_files(
        name,
        Category::LargeFile,
        String::from_str(home),
        SafetyLevel::Caution,
        String::from_str("Large files that may no longer be needed"),
        files,
    )
}

} // verus!
