use vstd::prelude::*;
use crate::text::{has_substring, contains_text};

verus! {

/// The clean mode used when none is asked for.
#[derive(Debug, Clone, Copy, PartialEq, Eq, Structural)]
pub enum CleanMode {
    DryRun,
    SoftDelete,
    HardDelete,
}

/// How results are shown.
#[derive(Debug, Clone, Copy, PartialEq, Eq, Structural)]
pub enum OutputFormat {
    Human,
    Json,
    Quiet,
}

/// User configuration.
#[derive(Debug, Clone)]
pub struct Config {
    pub default_mode: CleanMode,
    pub default_profile: String,
    /// Days that soft-deleted files stay in staging.
    pub staging_retention_days: u32,
    /// Size from which a file counts as large, in MiB.
    pub large_file_threshold_mb: u64,
    /// Days after which a dependency directory counts as stale.
    pub stale_days: u32,
    /// Paths containing any of these fragments are not scanned.
    pub exclude_paths: Vec<String>,
    pub output_format: OutputFormat,
}

pub fn default_clean_mode() -> (r: CleanMode)
    ensures
        r == CleanMode::DryRun,
{
    CleanMode::DryRun
}

pub fn default_profile() -> (r: String)
    ensures
        r@ == "quick_sweep"@,
{
    String::from_str("quick_sweep")
}

pub fn default_retention_days() -> (r: u32)
    ensures
        r == 7,
{
    7
}

pub fn default_large_file_mb() -> (r: u64)
    ensures
        r == 500,
{
    500
}

pub fn default_stale_days() -> (r: u32)
    ensures
        r == 30,
{
    30
}

impl Default for Config {
    fn default() -> (r: Config)
        ensures
            r.default_mode == CleanMode::DryRun,
            r.default_profile@ == "quick_sweep"@,
            r.staging_retention_days == 7,
            r.large_file_threshold_mb == 500,
            r.stale_days == 30,
            r.exclude_paths@.len() == 0,
            r.output_format == OutputFormat::Human,
    {
        Config {
            default_mode: default_clean_mode(),
            default_profile: default_profile(),
            staging_retention_days: default_retention_days(),
            large_file_threshold_mb: default_large_file_mb(),
            stale_days: default_stale_days(),
            exclude_paths: Vec::new(),
            output_format: OutputFormat::Human,
        }
    }
}

/// The application's data directory under `home`.
pub open spec fn data_dir_text(home: Seq<char>) -> Seq<char> {
    home + "/.tidymac"@
}

impl Config {
    /// The application's data directory, `<home>/.tidymac`.
    pub fn data_dir(home: &str) -> (r: String)
        ensures
            r@ == data_dir_text(home@),
    {
        String::from_str(home).concat("/.tidymac")
    }

    /// The configuration file, `<data dir>/config.toml`.
    pub fn config_path(home: &str) -> (r: String)
        ensures
            r@ == data_dir_text(home@) + "/config.toml"@,
    {
        Config::data_dir(home).concat("/config.toml")
    }

    /// The staging area, `<data dir>/staging`.
    pub fn staging_dir(home: &str) -> (r: String)
        ensures
            r@ == data_dir_text(home@) + "/staging"@,
    {
        Config::data_dir(home).concat("/staging")
    }

    /// The log directory, `<data dir>/logs`.
    pub fn logs_dir(home: &str) -> (r: String)
        ensures
            r@ == data_dir_text(home@) + "/logs"@,
    {
        Config::data_dir(home).concat("/logs")
    }

    /// The directory of user profiles, `<data dir>/profiles`.
    pub fn profiles_dir(home: &str) -> (r: String)
        ensures
            r@ == data_dir_text(home@) + "/profiles"@,
    {
        Config::data_dir(home).concat("/profiles")
    }

    /// The large-file threshold in bytes.
    pub fn large_file_threshold_bytes(&self) -> (r: u64)
        requires
            self.large_file_threshold_mb * 1048576 <= u64::MAX,
        ensures
            r == self.large_file_threshold_mb * 1048576,
    {
        self.large_file_threshold_mb * 1024 * 1024
    }

    /// Whether `path` contains one of the excluded fragments.
    pub fn is_excluded(&self, path: &str) -> (r: bool)
        ensures
            r == exists|k: int|
                0 <= k < self.exclude_paths@.len() && has_substring(path@, #[trigger] self.exclude_paths@[k]@),
    {
        let mut i: usize = 0;
        while i < self.exclude_paths.len()
            invariant
                i <= self.exclude_paths@.len(),
                forall|k: int| 0 <= k < i ==> !has_substring(path@, #[trigger] self.exclude_paths@[k]@),
            decreases self.exclude_paths@.len() - i,
        {
            if contains_text(path, self.exclude_paths[i].as_str()) {
                return true;
            }
            i = i + 1;
        }
        false
    }
}

} // verus!
