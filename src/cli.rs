use vstd::prelude::*;

verus! {

/// What to do with installed applications.
#[derive(Debug, Clone, PartialEq, Eq)]
pub enum AppsAction {
    List { sort: AppSort, detailed: bool, unused_days: Option<u32> },
    Remove { name: String, dry_run: bool, yes: bool },
    Info { name: String },
}

/// What to do with startup items.
#[derive(Debug, Clone, PartialEq, Eq)]
pub enum StartupAction {
    List,
    Disable { name: String },
    Enable { name: String },
    Info { name: String },
}

/// What to do about privacy data.
#[derive(Debug, Clone, Copy, PartialEq, Eq, Structural)]
pub enum PrivacyAction {
    Scan { browsers: bool, cookies: bool, all: bool },
    Clean { yes: bool, dry_run: bool },
}

/// What to do with the configuration.
#[derive(Debug, Clone, PartialEq, Eq)]
pub enum ConfigAction {
    Show,
    Reset,
    SetKey { key: String, value: String },
    Init,
    ClearCache,
}

/// How command output is shown.
#[derive(Debug, Clone, Copy, PartialEq, Eq, Structural)]
pub enum OutputFormat {
    Human,
    Json,
    Quiet,
}

/// Which safety level to keep when listing.
#[derive(Debug, Clone, Copy, PartialEq, Eq, Structural)]
pub enum SafetyFilter {
    Safe,
    Caution,
    Dangerous,
}

/// How to order the application list.
#[derive(Debug, Clone, Copy, PartialEq, Eq, Structural)]
pub enum AppSort {
    Name,
    Size,
    LastOpened,
}

/// Shells for which completions can be generated.
#[derive(Debug, Clone, Copy, PartialEq, Eq, Structural)]
pub enum CompletionShell {
    Bash,
    Zsh,
    Fish,
}

} // verus!
