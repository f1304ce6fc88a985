use vstd::prelude::*;
use crate::config::Config;

verus! {

/// Latest timestamp handled: the last second of the year 9999, UTC.
pub const MAX_TIMESTAMP: i64 = 253_402_300_799;

/// Seconds in a day.
pub const SECS_PER_DAY: i64 = 86_400;

/// The text `YYYY-MM-DDThh-mm-ss` (UTC) of a timestamp in seconds since the epoch.
pub uninterp spec fn session_stamp(secs: int) -> Seq<char>;

/// Relies on `chrono::DateTime::from_timestamp`, which gives `None` only outside
/// its range of about 262 000 years around the epoch, and on `format` with
/// `%Y-%m-%dT%H-%M-%S`, whose text depends on the instant alone.
#[verifier::external_body]
fn session_id_for(secs: i64) -> (r: Option<String>)
    ensures
        r matches Some(s) ==> s@ == session_stamp(secs as int),
        0 <= secs <= MAX_TIMESTAMP ==> r is Some,
{
    chrono::DateTime::from_timestamp(secs, 0).map(|d| d.format("%Y-%m-%dT%H-%M-%S").to_string())
}

/// One file or directory handled by a clean.
#[derive(Debug, Clone)]
pub struct ManifestItem {
    pub original_path: String,
    /// Where the item was moved to; present only when a soft delete succeeded.
    pub staged_path: Option<String>,
    pub size_bytes: u64,
    pub category: String,
    pub safety: String,
    pub is_dir: bool,
    pub success: bool,
    pub error: Option<String>,
}

impl ManifestItem {
    /// A success in soft mode has a staged path; a failure never has one.
    pub open spec fn wf(&self, soft: bool) -> bool {
        &&& (self.success && soft ==> self.staged_path is Some)
        &&& (!self.success ==> self.staged_path is None)
    }
}

/// The record of one clean session.
#[derive(Debug, Clone)]
pub struct CleanManifest {
    pub session_id: String,
    /// When the clean started, in seconds since the epoch.
    pub timestamp_secs: i64,
    pub profile: String,
    /// `soft_delete` or `hard_delete`.
    pub mode: String,
    pub total_bytes: u64,
    pub total_files: usize,
    /// When the staged files expire (soft delete only), in seconds since the epoch.
    pub expires_at_secs: Option<i64>,
    pub restored: bool,
    pub items: Vec<ManifestItem>,
    pub errors: Vec<String>,
}

/// The mode name of a reversible clean.
pub open spec fn soft_mode() -> Seq<char> {
    "soft_delete"@
}

/// `a + b`, or the largest `u64` when that does not fit.
pub open spec fn sat_add(a: u64, b: u64) -> u64 {
    if a as nat + b as nat <= u64::MAX as nat { (a + b) as u64 } else { u64::MAX }
}

/// `a + 1`, or the largest `usize` when that does not fit.
pub open spec fn sat_inc(a: usize) -> usize {
    if a < usize::MAX { (a + 1) as usize } else { a }
}

/// The expiry of a new session: `retention_days` after its start for a soft
/// delete, none otherwise.
pub open spec fn fresh_expiry(mode: Seq<char>, now_secs: i64, retention_days: u32) -> Option<i64> {
    if mode == soft_mode() {
        Some((now_secs + retention_days * SECS_PER_DAY) as i64)
    } else {
        None
    }
}

impl CleanManifest {
    /// A new, empty manifest for a session started at `now_secs`. A soft delete
    /// expires `retention_days` days later; any other mode never expires.
    pub fn new(profile: &str, mode: &str, retention_days: u32, now_secs: i64) -> (r: CleanManifest)
        requires
            0 <= now_secs <= MAX_TIMESTAMP,
        ensures
            r.session_id@ == session_stamp(now_secs as int),
            r.timestamp_secs == now_secs,
            r.profile@ == profile@,
            r.mode@ == mode@,
            r.total_bytes == 0,
            r.total_files == 0,
            r.expires_at_secs == fresh_expiry(mode@, now_secs, retention_days),
            !r.restored,
            r.items@.len() == 0,
            r.errors@.len() == 0,
    {
        let session_id = match session_id_for(now_secs) {
            Some(s) => s,
            None => String::new(),
        };
        let m = String::from_str(mode);
        let soft = String::from_str("soft_delete");
        let expires_at_secs = if m == soft {
            Some(now_secs + (retention_days as i64) * SECS_PER_DAY)
        } else {
            None
        };
        CleanManifest {
            session_id,
            timestamp_secs: now_secs,
            profile: String::from_str(profile),
            mode: m,
            total_bytes: 0,
            total_files: 0,
            expires_at_secs,
            restored: false,
            items: Vec::new(),
            errors: Vec::new(),
        }
    }

    /// Record an item; a successful one counts toward the totals (capped at
    /// their largest values).
    pub fn add_item(&mut self, item: ManifestItem)
        ensures
            final(self).items@ == old(self).items@.push(item),
            final(self).total_bytes == (if item.success {
                sat_add(old(self).total_bytes, item.size_bytes)
            } else {
                old(self).total_bytes
            }),
            final(self).total_files == (if item.success {
                sat_inc(old(self).total_files)
            } else {
                old(self).total_files
            }),
            final(self).session_id == old(self).session_id,
            final(self).timestamp_secs == old(self).timestamp_secs,
            final(self).profile == old(self).profile,
            final(self).mode == old(self).mode,
            final(self).expires_at_secs == old(self).expires_at_secs,
            final(self).restored == old(self).restored,
            final(self).errors == old(self).errors,
    {
        if item.success {
            self.total_bytes = self.total_bytes.saturating_add(item.size_bytes);
            self.total_files = self.total_files.saturating_add(1);
        }
        self.items.push(item);
    }

    /// Record a non-fatal error.
    pub fn add_error(&mut self, error: String)
        ensures
            final(self).errors@ == old(self).errors@.push(error),
            final(self).items == old(self).items,
            final(self).total_bytes == old(self).total_bytes,
            final(self).total_files == old(self).total_files,
            final(self).session_id == old(self).session_id,
            final(self).timestamp_secs == old(self).timestamp_secs,
            final(self).profile == old(self).profile,
            final(self).mode == old(self).mode,
            final(self).expires_at_secs == old(self).expires_at_secs,
            final(self).restored == old(self).restored,
    {
        self.errors.push(error);
    }

    /// Whether the session's staged files are past their expiry at `now_secs`.
    pub open spec fn expired_at(&self, now_secs: i64) -> bool {
        match self.expires_at_secs {
            Some(e) => now_secs > e,
            None => false,
        }
    }

    /// Whether the session's staged files are past their expiry at `now_secs`.
    pub fn is_expired(&self, now_secs: i64) -> (r: bool)
        ensures
            r == self.expired_at(now_secs),
    {
        match self.expires_at_secs {
            Some(e) => now_secs > e,
            None => false,
        }
    }

    /// The session's directory in the staging area.
    pub fn staging_session_dir(&self, home: &str) -> (r: String)
        ensures
            r@ == crate::config::data_dir_text(home@) + "/staging"@ + "/"@ + self.session_id@,
    {
        Config::staging_dir(home).concat("/").concat(self.session_id.as_str())
    }

    /// The directory that holds the session's staged files.
    pub fn staging_files_dir(&self, home: &str) -> (r: String)
        ensures
            r@ == crate::config::data_dir_text(home@) + "/staging"@ + "/"@ + self.session_id@
                + "/files"@,
    {
        self.staging_session_dir(home).concat("/files")
    }

    /// Mark the session as restored.
    pub fn mark_restored(&mut self)
        ensures
            final(self).restored,
            final(self).items == old(self).items,
            final(self).errors == old(self).errors,
            final(self).total_bytes == old(self).total_bytes,
            final(self).total_files == old(self).total_files,
            final(self).session_id == old(self).session_id,
            final(self).timestamp_secs == old(self).timestamp_secs,
            final(self).profile == old(self).profile,
            final(self).mode == old(self).mode,
            final(self).expires_at_secs == old(self).expires_at_secs,
    {
        self.restored = true;
    }
}

/// A manifest made for any mode other than a soft delete has no expiry and is
/// never expired, whatever the time.
pub proof fn lemma_hard_delete_never_expires(m: CleanManifest, retention_days: u32, now_secs: i64)
    requires
        m.mode@ != soft_mode(),
        m.expires_at_secs == fresh_expiry(m.mode@, m.timestamp_secs, retention_days),
    ensures
        m.expires_at_secs is None,
        !m.expired_at(now_secs),
{
}

/// What a session listing shows of one manifest.
#[derive(Debug, Clone)]
pub struct SessionSummary {
    pub session_id: String,
    pub timestamp_secs: i64,
    pub profile: String,
    pub mode: String,
    pub total_bytes: u64,
    pub total_files: usize,
    /// Bytes the session's directory occupies now.
    pub staged_size: u64,
    pub expires_at_secs: Option<i64>,
    pub restored: bool,
    pub is_expired: bool,
}

/// The listing entry of a manifest whose directory occupies `staged_size` bytes.
pub fn summarize_session(m: &CleanManifest, staged_size: u64, now_secs: i64) -> (r: SessionSummary)
    ensures
        r.session_id == m.session_id,
        r.timestamp_secs == m.timestamp_secs,
        r.profile == m.profile,
        r.mode == m.mode,
        r.total_bytes == m.total_bytes,
        r.total_files == m.total_files,
        r.staged_size == staged_size,
        r.expires_at_secs == m.expires_at_secs,
        r.restored == m.restored,
        r.is_expired == m.expired_at(now_secs),
{
    SessionSummary {
        session_id: m.session_id.clone(),
        timestamp_secs: m.timestamp_secs,
        profile: m.profile.clone(),
        mode: m.mode.clone(),
        total_bytes: m.total_bytes,
        total_files: m.total_files,
        staged_size,
        expires_at_secs: m.expires_at_secs,
        restored: m.restored,
        is_expired: m.is_expired(now_secs),
    }
}

} // verus!
