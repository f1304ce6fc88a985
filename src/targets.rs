use vstd::prelude::*;
use crate::safety::views;

verus! {

/// How costly a removal is to undo.
#[derive(Debug, Clone, Copy, PartialEq, Eq, Structural)]
pub enum SafetyLevel {
    /// Caches and temporary files: always safe to remove.
    Safe,
    /// Old logs and downloads: review recommended.
    Caution,
    /// Application support files: removal may break applications.
    Dangerous,
}

/// A developer tool whose caches can be scanned.
#[derive(Debug, Clone, Copy, PartialEq, Eq, Hash, Structural)]
pub enum DevTool {
    Xcode,
    XcodeArchives,
    XcodeSimulators,
    Docker,
    NodeModules,
    Venv,
    Conda,
    Homebrew,
    Pip,
    CocoaPods,
    Gradle,
    Maven,
    Cargo,
    Npm,
    Yarn,
    Pnpm,
}

/// What kind of reclaimable data an item is.
#[derive(Debug, Clone, Copy, PartialEq, Eq, Structural)]
pub enum Category {
    SystemCache,
    UserCache,
    Logs,
    TempFiles,
    CrashReports,
    DevCache(DevTool),
    LargeFile,
    Duplicate,
    MailAttachment,
    Trash,
    BrowserData,
    AppLeftover,
    StartupItem,
    DownloadedDmg,
    OldDownload,
}

/// The display name of a developer tool.
pub open spec fn dev_tool_text(t: DevTool) -> Seq<char> {
    match t {
        DevTool::Xcode => "Xcode DerivedData"@,
        DevTool::XcodeArchives => "Xcode Archives"@,
        DevTool::XcodeSimulators => "iOS Simulators"@,
        DevTool::Docker => "Docker"@,
        DevTool::NodeModules => "node_modules"@,
        DevTool::Venv => "Python virtualenv"@,
        DevTool::Conda => "Conda"@,
        DevTool::Homebrew => "Homebrew"@,
        DevTool::Pip => "pip"@,
        DevTool::CocoaPods => "CocoaPods"@,
        DevTool::Gradle => "Gradle"@,
        DevTool::Maven => "Maven"@,
        DevTool::Cargo => "Cargo"@,
        DevTool::Npm => "npm"@,
        DevTool::Yarn => "Yarn"@,
        DevTool::Pnpm => "pnpm"@,
    }
}

/// The display name of a category.
pub open spec fn category_text(c: Category) -> Seq<char> {
    match c {
        Category::SystemCache => "System Cache"@,
        Category::UserCache => "User Cache"@,
        Category::Logs => "Logs"@,
        Category::TempFiles => "Temporary Files"@,
        Category::CrashReports => "Crash Reports"@,
        Category::DevCache(tool) => "Dev: "@ + dev_tool_text(tool),
        Category::LargeFile => "Large File"@,
        Category::Duplicate => "Duplicate"@,
        Category::MailAttachment => "Mail Attachment"@,
        Category::Trash => "Trash"@,
        Category::BrowserData => "Browser Data"@,
        Category::AppLeftover => "App Leftover"@,
        Category::StartupItem => "Startup Item"@,
        Category::DownloadedDmg => "Downloaded DMG"@,
        Category::OldDownload => "Old Download"@,
    }
}

/// The display name of a developer tool.
pub fn dev_tool_label(t: DevTool) -> (r: String)
    ensures
        r@ == dev_tool_text(t),
{
    match t {
        DevTool::Xcode => String::from_str("Xcode DerivedData"),
        DevTool::XcodeArchives => String::from_str("Xcode Archives"),
        DevTool::XcodeSimulators => String::from_str("iOS Simulators"),
        DevTool::Docker => String::from_str("Docker"),
        DevTool::NodeModules => String::from_str("node_modules"),
        DevTool::Venv => String::from_str("Python virtualenv"),
        DevTool::Conda => String::from_str("Conda"),
        DevTool::Homebrew => String::from_str("Homebrew"),
        DevTool::Pip => String::from_str("pip"),
        DevTool::CocoaPods => String::from_str("CocoaPods"),
        DevTool::Gradle => String::from_str("Gradle"),
        DevTool::Maven => String::from_str("Maven"),
        DevTool::Cargo => String::from_str("Cargo"),
        DevTool::Npm => String::from_str("npm"),
        DevTool::Yarn => String::from_str("Yarn"),
        DevTool::Pnpm => String::from_str("pnpm"),
    }
}

/// The display name of a category.
pub fn category_label(c: Category) -> (r: String)
    ensures
        r@ == category_text(c),
{
    match c {
        Category::SystemCache => String::from_str("System Cache"),
        Category::UserCache => String::from_str("User Cache"),
        Category::Logs => String::from_str("Logs"),
        Category::TempFiles => String::from_str("Temporary Files"),
        Category::CrashReports => String::from_str("Crash Reports"),
        Category::DevCache(tool) => String::from_str("Dev: ").concat(dev_tool_label(tool).as_str()),
        Category::LargeFile => String::from_str("Large File"),
        Category::Duplicate => String::from_str("Duplicate"),
        Category::MailAttachment => String::from_str("Mail Attachment"),
        Category::Trash => String::from_str("Trash"),
        Category::BrowserData => String::from_str("Browser Data"),
        Category::AppLeftover => String::from_str("App Leftover"),
        Category::StartupItem => String::from_str("Startup Item"),
        Category::DownloadedDmg => String::from_str("Downloaded DMG"),
        Category::OldDownload => String::from_str("Old Download"),
    }
}

/// The name of a safety level as it is recorded in logs and caches.
pub open spec fn safety_text(s: SafetyLevel) -> Seq<char> {
    match s {
        SafetyLevel::Safe => "Safe"@,
        SafetyLevel::Caution => "Caution"@,
        SafetyLevel::Dangerous => "Dangerous"@,
    }
}

/// The name of a safety level as it is recorded in logs and caches.
pub fn safety_label(s: SafetyLevel) -> (r: String)
    ensures
        r@ == safety_text(s),
{
    match s {
        SafetyLevel::Safe => String::from_str("Safe"),
        SafetyLevel::Caution => String::from_str("Caution"),
        SafetyLevel::Dangerous => String::from_str("Dangerous"),
    }
}

/// One file found by a scan: its path, its physical size, its modification time
/// in seconds since the epoch when known.
#[derive(Debug, Clone)]
pub struct FileEntry {
    pub path: String,
    pub size_bytes: u64,
    pub modified: Option<u64>,
}

/// The aggregated result of one scan target.
#[derive(Debug, Clone)]
pub struct ScanItem {
    pub name: String,
    pub category: Category,
    pub path: String,
    pub size_bytes: u64,
    pub file_count: usize,
    pub safety: SafetyLevel,
    pub reason: String,
    pub files: Vec<FileEntry>,
}

/// Sum of the sizes of a list of file entries.
pub open spec fn sum_entry_sizes(files: Seq<FileEntry>) -> nat
    decreases files.len(),
{
    if files.len() == 0 {
        0
    } else {
        sum_entry_sizes(files.drop_last()) + files.last().size_bytes as nat
    }
}

impl ScanItem {
    /// The item's total agrees with its listed files whenever it lists any.
    pub open spec fn wf(&self) -> bool {
        self.files@.len() > 0 ==> self.size_bytes as nat == sum_entry_sizes(self.files@)
            && self.file_count as nat == self.files@.len()
    }

    /// An item whose total and count are computed from its files.
    pub fn from_files(
        name: String,
        category: Category,
        path: String,
        safety: SafetyLevel,
        reason: String,
        files: Vec<FileEntry>,
    ) -> (r: ScanItem)
        requires
            sum_entry_sizes(files@) <= u64::MAX,
        ensures
            r.wf(),
            r.size_bytes as nat == sum_entry_sizes(files@),
            r.file_count == files@.len(),
            r.name == name,
            r.category == category,
            r.path == path,
            r.safety == safety,
            r.reason == reason,
            r.files == files,
    {
        let total = total_entry_bytes(&files);
        let n = files.len();
        ScanItem { name, category, path, size_bytes: total, file_count: n, safety, reason, files }
    }
}

proof fn lemma_sum_entry_prefix(files: Seq<FileEntry>, i: int)
    requires
        0 <= i < files.len(),
    ensures
        sum_entry_sizes(files.subrange(0, i + 1)) == sum_entry_sizes(files.subrange(0, i))
            + files[i].size_bytes,
{
    assert(files.subrange(0, i + 1).drop_last() =~= files.subrange(0, i));
}

proof fn lemma_sum_entry_mono(files: Seq<FileEntry>, i: int, j: int)
    requires
        0 <= i <= j <= files.len(),
    ensures
        sum_entry_sizes(files.subrange(0, i)) <= sum_entry_sizes(files.subrange(0, j)),
    decreases j - i,
{
    if i < j {
        lemma_sum_entry_mono(files, i, j - 1);
        lemma_sum_entry_prefix(files, j - 1);
    }
}

/// Total bytes of a list of file entries.
pub fn total_entry_bytes(files: &Vec<FileEntry>) -> (r: u64)
    requires
        sum_entry_sizes(files@) <= u64::MAX,
    ensures
        r as nat == sum_entry_sizes(files@),
{
    let mut total: u64 = 0;
    let mut i: usize = 0;
    while i < files.len()
        invariant
            i <= files@.len(),
            sum_entry_sizes(files@) <= u64::MAX,
            total as nat == sum_entry_sizes(files@.subrange(0, i as int)),
        decreases files@.len() - i,
    {
        proof {
            lemma_sum_entry_prefix(files@, i as int);
            lemma_sum_entry_mono(files@, i + 1, files@.len() as int);
            assert(files@.subrange(0, files@.len() as int) =~= files@);
        }
        total = total + files[i].size_bytes;
        i = i + 1;
    }
    assert(files@.subrange(0, files@.len() as int) =~= files@);
    total
}

/// A declarative description of where to look and how to label what is found.
#[derive(Debug, Clone)]
pub struct ScanTarget {
    pub name: String,
    pub category: Category,
    /// Path patterns, which may use `~` and glob wildcards.
    pub paths: Vec<String>,
    pub safety: SafetyLevel,
    pub reason: String,
    pub recursive: bool,
    /// Only files at least this many days old are reported.
    pub min_age_days: Option<u32>,
}

/// A target's fields as plain values.
pub type TargetView = (Seq<char>, Category, Seq<Seq<char>>, SafetyLevel, Seq<char>, bool, Option<u32>);

pub open spec fn target_view(t: ScanTarget) -> TargetView {
    (t.name@, t.category, views(t.paths@), t.safety, t.reason@, t.recursive, t.min_age_days)
}

pub open spec fn target_views(ts: Seq<ScanTarget>) -> Seq<TargetView> {
    ts.map_values(|t: ScanTarget| target_view(t))
}

fn target(
    name: &str,
    category: Category,
    paths: Vec<String>,
    safety: SafetyLevel,
    reason: &str,
    recursive: bool,
    min_age_days: Option<u32>,
) -> (r: ScanTarget)
    ensures
        target_view(r) == (name@, category, views(paths@), safety, reason@, recursive, min_age_days),
{
    ScanTarget {
        name: String::from_str(name),
        category,
        paths,
        safety,
        reason: String::from_str(reason),
        recursive,
        min_age_days,
    }
}

fn strs1(a: &str) -> (r: Vec<String>)
    ensures
        views(r@) == seq![a@],
{
    let r = vec![String::from_str(a)];
    assert(views(r@) =~= seq![a@]);
    r
}

fn strs2(a: &str, b: &str) -> (r: Vec<String>)
    ensures
        views(r@) == seq![a@, b@],
{
    let r = vec![String::from_str(a), String::from_str(b)];
    assert(views(r@) =~= seq![a@, b@]);
    r
}

/// Field by field, the system junk targets: caches, logs, temporary files, crash reports, installers.
pub open spec fn system_junk_target_table() -> Seq<TargetView> {
    seq![
        ("User Cache Files"@, Category::UserCache, seq!["~/Library/Caches"@], SafetyLevel::Safe, "Application caches that will be regenerated automatically"@, true, None),
        ("System Log Files"@, Category::Logs, seq!["/var/log"@], SafetyLevel::Caution, "System logs — old entries are safe to remove"@, true, Some(7u32)),
        ("User Log Files"@, Category::Logs, seq!["~/Library/Logs"@], SafetyLevel::Safe, "Application logs that can be safely removed"@, true, None),
        ("Temporary Files"@, Category::TempFiles, seq!["/tmp"@, "/var/folders"@], SafetyLevel::Safe, "Temporary files created by the system and apps"@, true, Some(1u32)),
        ("Crash Reports"@, Category::CrashReports, seq!["~/Library/Logs/DiagnosticReports"@], SafetyLevel::Safe, "Application crash reports — safe to remove unless debugging"@, true, None),
        ("QuickLook Thumbnails"@, Category::SystemCache, seq!["~/Library/Caches/com.apple.QuickLook.thumbnailcache"@], SafetyLevel::Safe, "Thumbnail preview caches — regenerated on demand"@, true, None),
        ("Downloaded DMG Files"@, Category::DownloadedDmg, seq!["~/Downloads"@], SafetyLevel::Caution, "Installer disk images — usually safe to remove after installation"@, false, Some(7u32)),
    ]
}

/// The system junk targets: caches, logs, temporary files, crash reports, installers.
pub fn system_junk_targets() -> (r: Vec<ScanTarget>)
    ensures
        target_views(r@) == system_junk_target_table(),
{
    let r = vec![
        target(
            "User Cache Files",
            Category::UserCache,
            strs1("~/Library/Caches"),
            SafetyLevel::Safe,
            "Application caches that will be regenerated automatically",
            true,
            None,
        ),
        target(
            "System Log Files",
            Category::Logs,
            strs1("/var/log"),
            SafetyLevel::Caution,
            "System logs — old entries are safe to remove",
            true,
            Some(7u32),
        ),
        target(
            "User Log Files",
            Category::Logs,
            strs1("~/Library/Logs"),
            SafetyLevel::Safe,
            "Application logs that can be safely removed",
            true,
            None,
        ),
        target(
            "Temporary Files",
            Category::TempFiles,
            strs2("/tmp", "/var/folders"),
            SafetyLevel::Safe,
            "Temporary files created by the system and apps",
            true,
            Some(1u32),
        ),
        target(
            "Crash Reports",
            Category::CrashReports,
            strs1("~/Library/Logs/DiagnosticReports"),
            SafetyLevel::Safe,
            "Application crash reports — safe to remove unless debugging",
            true,
            None,
        ),
        target(
            "QuickLook Thumbnails",
            Category::SystemCache,
            strs1("~/Library/Caches/com.apple.QuickLook.thumbnailcache"),
            SafetyLevel::Safe,
            "Thumbnail preview caches — regenerated on demand",
            true,
            None,
        ),
        target(
            "Downloaded DMG Files",
            Category::DownloadedDmg,
            strs1("~/Downloads"),
            SafetyLevel::Caution,
            "Installer disk images — usually safe to remove after installation",
            false,
            Some(7u32),
        ),
    ];
    assert(target_views(r@) =~= system_junk_target_table());
    r
}

/// Field by field, the developer tool caches and build artifacts.
pub open spec fn developer_target_table() -> Seq<TargetView> {
    seq![
        ("Xcode DerivedData"@, Category::DevCache(DevTool::Xcode), seq!["~/Library/Developer/Xcode/DerivedData"@], SafetyLevel::Safe, "Build artifacts that Xcode regenerates on next build"@, true, None),
        ("Xcode Archives"@, Category::DevCache(DevTool::XcodeArchives), seq!["~/Library/Developer/Xcode/Archives"@], SafetyLevel::Caution, "App Store submission archives — keep if you need to debug shipped versions"@, true, Some(90u32)),
        ("iOS Simulators"@, Category::DevCache(DevTool::XcodeSimulators), seq!["~/Library/Developer/CoreSimulator/Devices"@], SafetyLevel::Caution, "iOS simulator data — can be re-downloaded"@, true, None),
        ("Docker Data"@, Category::DevCache(DevTool::Docker), seq!["~/Library/Containers/com.docker.docker/Data"@, "~/.docker"@], SafetyLevel::Caution, "Docker images and volumes — use 'docker system prune' for granular control"@, true, None),
        ("Homebrew Cache"@, Category::DevCache(DevTool::Homebrew), seq!["~/Library/Caches/Homebrew"@], SafetyLevel::Safe, "Downloaded package archives — re-downloaded on demand"@, true, None),
        ("pip Cache"@, Category::DevCache(DevTool::Pip), seq!["~/Library/Caches/pip"@], SafetyLevel::Safe, "Python package download cache — re-downloaded on demand"@, true, None),
        ("npm Cache"@, Category::DevCache(DevTool::Npm), seq!["~/.npm/_cacache"@], SafetyLevel::Safe, "npm package cache — re-downloaded on demand"@, true, None),
        ("Yarn Cache"@, Category::DevCache(DevTool::Yarn), seq!["~/Library/Caches/Yarn"@], SafetyLevel::Safe, "Yarn package cache — re-downloaded on demand"@, true, None),
        ("CocoaPods Cache"@, Category::DevCache(DevTool::CocoaPods), seq!["~/Library/Caches/CocoaPods"@], SafetyLevel::Safe, "CocoaPods spec and download cache"@, true, None),
        ("Cargo Registry Cache"@, Category::DevCache(DevTool::Cargo), seq!["~/.cargo/registry/cache"@, "~/.cargo/registry/src"@], SafetyLevel::Safe, "Rust crate download cache — re-downloaded on demand"@, true, None),
        ("Gradle Cache"@, Category::DevCache(DevTool::Gradle), seq!["~/.gradle/caches"@], SafetyLevel::Safe, "Gradle build cache and dependency downloads"@, true, None),
        ("Maven Local Repository"@, Category::DevCache(DevTool::Maven), seq!["~/.m2/repository"@], SafetyLevel::Caution, "Maven dependency cache — may include locally installed artifacts"@, true, None),
        ("Conda Package Cache"@, Category::DevCache(DevTool::Conda), seq!["~/.conda/pkgs"@], SafetyLevel::Safe, "Conda downloaded packages — re-downloaded on demand"@, true, None),
    ]
}

/// The developer tool caches and build artifacts.
pub fn developer_targets() -> (r: Vec<ScanTarget>)
    ensures
        target_views(r@) == developer_target_table(),
{
    let r = vec![
        target(
            "Xcode DerivedData",
            Category::DevCache(DevTool::Xcode),
            strs1("~/Library/Developer/Xcode/DerivedData"),
            SafetyLevel::Safe,
            "Build artifacts that Xcode regenerates on next build",
            true,
            None,
        ),
        target(
            "Xcode Archives",
            Category::DevCache(DevTool::XcodeArchives),
            strs1("~/Library/Developer/Xcode/Archives"),
            SafetyLevel::Caution,
            "App Store submission archives — keep if you need to debug shipped versions",
            true,
            Some(90u32),
        ),
        target(
            "iOS Simulators",
            Category::DevCache(DevTool::XcodeSimulators),
            strs1("~/Library/Developer/CoreSimulator/Devices"),
            SafetyLevel::Caution,
            "iOS simulator data — can be re-downloaded",
            true,
            None,
        ),
        target(
            "Docker Data",
            Category::DevCache(DevTool::Docker),
            strs2("~/Library/Containers/com.docker.docker/Data", "~/.docker"),
            SafetyLevel::Caution,
            "Docker images and volumes — use 'docker system prune' for granular control",
            true,
            None,
        ),
        target(
            "Homebrew Cache",
            Category::DevCache(DevTool::Homebrew),
            strs1("~/Library/Caches/Homebrew"),
            SafetyLevel::Safe,
            "Downloaded package archives — re-downloaded on demand",
            true,
            None,
        ),
        target(
            "pip Cache",
            Category::DevCache(DevTool::Pip),
            strs1("~/Library/Caches/pip"),
            SafetyLevel::Safe,
            "Python package download cache — re-downloaded on demand",
            true,
            None,
        ),
        target(
            "npm Cache",
            Category::DevCache(DevTool::Npm),
            strs1("~/.npm/_cacache"),
            SafetyLevel::Safe,
            "npm package cache — re-downloaded on demand",
            true,
            None,
        ),
        target(
            "Yarn Cache",
            Category::DevCache(DevTool::Yarn),
            strs1("~/Library/Caches/Yarn"),
            SafetyLevel::Safe,
            "Yarn package cache — re-downloaded on demand",
            true,
            None,
        ),
        target(
            "CocoaPods Cache",
            Category::DevCache(DevTool::CocoaPods),
            strs1("~/Library/Caches/CocoaPods"),
            SafetyLevel::Safe,
            "CocoaPods spec and download cache",
            true,
            None,
        ),
        target(
            "Cargo Registry Cache",
            Category::DevCache(DevTool::Cargo),
            strs2("~/.cargo/registry/cache", "~/.cargo/registry/src"),
            SafetyLevel::Safe,
            "Rust crate download cache — re-downloaded on demand",
            true,
            None,
        ),
        target(
            "Gradle Cache",
            Category::DevCache(DevTool::Gradle),
            strs1("~/.gradle/caches"),
            SafetyLevel::Safe,
            "Gradle build cache and dependency downloads",
            true,
            None,
        ),
        target(
            "Maven Local Repository",
            Category::DevCache(DevTool::Maven),
            strs1("~/.m2/repository"),
            SafetyLevel::Caution,
            "Maven dependency cache — may include locally installed artifacts",
            true,
            None,
        ),
        target(
            "Conda Package Cache",
            Category::DevCache(DevTool::Conda),
            strs1("~/.conda/pkgs"),
            SafetyLevel::Safe,
            "Conda downloaded packages — re-downloaded on demand",
            true,
            None,
        ),
    ];
    assert(target_views(r@) =~= developer_target_table());
    r
}

/// Field by field, the trash locations.
pub open spec fn trash_target_table() -> Seq<TargetView> {
    seq![
        ("User Trash"@, Category::Trash, seq!["~/.Trash"@], SafetyLevel::Safe, "Files in your trash bin"@, true, None),
        ("External Drive Trash"@, Category::Trash, seq!["/Volumes/*/.Trashes"@], SafetyLevel::Safe, "Trash from external drives"@, true, None),
    ]
}

/// The trash locations.
pub fn trash_targets() -> (r: Vec<ScanTarget>)
    ensures
        target_views(r@) == trash_target_table(),
{
    let r = vec![
        target(
            "User Trash",
            Category::Trash,
            strs1("~/.Trash"),
            SafetyLevel::Safe,
            "Files in your trash bin",
            true,
            None,
        ),
        target(
            "External Drive Trash",
            Category::Trash,
            strs1("/Volumes/*/.Trashes"),
            SafetyLevel::Safe,
            "Trash from external drives",
            true,
            None,
        ),
    ];
    assert(target_views(r@) =~= trash_target_table());
    r
}

/// Field by field, the mail attachment caches.
pub open spec fn mail_target_table() -> Seq<TargetView> {
    seq![
        ("Mail Downloads"@, Category::MailAttachment, seq!["~/Library/Mail Downloads"@], SafetyLevel::Safe, "Cached mail attachments — re-downloaded from mail server"@, true, None),
        ("Mail Container Data"@, Category::MailAttachment, seq!["~/Library/Containers/com.apple.mail/Data/Library/Mail Downloads"@], SafetyLevel::Safe, "Sandboxed mail attachment cache"@, true, None),
    ]
}

/// The mail attachment caches.
pub fn mail_targets() -> (r: Vec<ScanTarget>)
    ensures
        target_views(r@) == mail_target_table(),
{
    let r = vec![
        target(
            "Mail Downloads",
            Category::MailAttachment,
            strs1("~/Library/Mail Downloads"),
            SafetyLevel::Safe,
            "Cached mail attachments — re-downloaded from mail server",
            true,
            None,
        ),
        target(
            "Mail Container Data",
            Category::MailAttachment,
            strs1("~/Library/Containers/com.apple.mail/Data/Library/Mail Downloads"),
            SafetyLevel::Safe,
            "Sandboxed mail attachment cache",
            true,
            None,
        ),
    ];
    assert(target_views(r@) =~= mail_target_table());
    r
}

/// Every built-in target: system junk, developer caches, trash, then mail.
pub fn all_targets() -> (r: Vec<ScanTarget>)
    ensures
        target_views(r@) == system_junk_target_table() + developer_target_table()
            + trash_target_table() + mail_target_table(),
{
    let mut r = system_junk_targets();
    let mut d = developer_targets();
    let mut t = trash_targets();
    let mut m = mail_targets();
    r.append(&mut d);
    r.append(&mut t);
    r.append(&mut m);
    assert(target_views(r@) =~= system_junk_target_table() + developer_target_table()
        + trash_target_table() + mail_target_table());
    r
}

} // verus!
