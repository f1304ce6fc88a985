use vstd::prelude::*;
use crate::errors::TidyError;
use crate::format::{padded_text, zero_padded, decimal};
use crate::manifest::{CleanManifest, ManifestItem, SessionSummary, sat_add, sat_inc};
use crate::safety::{is_protected, protected_spec, home_view, join, join_path};
use crate::targets::{
    Category, FileEntry, SafetyLevel, ScanItem, category_label, category_text, safety_label,
    safety_text,
};

verus! {

/// How a clean removes what it is given.
#[derive(Debug, Clone, Copy, PartialEq, Eq, Structural)]
pub enum CleanMode {
    /// Report what would be removed; touch nothing.
    DryRun,
    /// Move into the staging area, from where it can be restored.
    SoftDelete,
    /// Remove for good.
    HardDelete,
}

/// What a clean did.
#[derive(Debug, Clone)]
pub struct CleanReport {
    pub mode: CleanMode,
    pub files_removed: usize,
    pub bytes_freed: u64,
    pub session_id: Option<String>,
    pub errors: Vec<String>,
}

/// One path a clean acts on, with what is recorded of it.
#[derive(Debug, Clone)]
pub struct RemovalStep {
    pub original: String,
    pub size_bytes: u64,
    pub category: Category,
    pub safety: SafetyLevel,
    /// Where a soft delete moves it: a sequentially numbered name in the
    /// session's files directory. `None` in the other modes.
    pub staged: Option<String>,
}

/// A path a clean acts on, as plain values: path, size, category, safety.
pub type Source = (Seq<char>, u64, Category, SafetyLevel);

/// What one item contributes: its files, or the item's own path when it lists none.
pub open spec fn item_sources(item: ScanItem) -> Seq<Source> {
    if item.files@.len() == 0 {
        seq![(item.path@, item.size_bytes, item.category, item.safety)]
    } else {
        item.files@.map_values(|f: FileEntry| (f.path@, f.size_bytes, item.category, item.safety))
    }
}

/// Everything a clean acts on, in submission order.
pub open spec fn removal_sources(items: Seq<ScanItem>) -> Seq<Source>
    decreases items.len(),
{
    if items.len() == 0 {
        Seq::empty()
    } else {
        removal_sources(items.drop_last()) + item_sources(items.last())
    }
}

/// Every path the safety gate looks at: each item's path and each of its files.
pub open spec fn gate_candidate(items: Seq<ScanItem>, p: Seq<char>) -> bool {
    exists|i: int| 0 <= i < items.len() && #[trigger] item_candidate(items[i], p)
}

/// `p` is the item's path or the path of one of its files.
pub open spec fn item_candidate(item: ScanItem, p: Seq<char>) -> bool {
    item.path@ == p || exists|j: int| 0 <= j < item.files@.len() && #[trigger] item.files@[j].path@ == p
}

/// Some candidate path is protected.
pub open spec fn gate_trips(items: Seq<ScanItem>, home: Option<Seq<char>>) -> bool {
    exists|p: Seq<char>| gate_candidate(items, p) && #[trigger] protected_spec(p, home)
}

/// The name a soft delete gives the `k`-th staged path (counting from 1).
pub open spec fn staged_name(files_dir: Seq<char>, k: nat) -> Seq<char> {
    join_path(files_dir, padded_text(k, 6))
}

/// `steps` acts on `sources` in order; for a soft delete the `k`-th is staged
/// under `files_dir` with the number `k + 1`.
pub open spec fn steps_match(
    steps: Seq<RemovalStep>,
    sources: Seq<Source>,
    mode: CleanMode,
    files_dir: Seq<char>,
) -> bool {
    &&& steps.len() == sources.len()
    &&& forall|k: int| 0 <= k < steps.len() ==> {
        &&& (#[trigger] steps[k]).original@ == sources[k].0
        &&& steps[k].size_bytes == sources[k].1
        &&& steps[k].category == sources[k].2
        &&& steps[k].safety == sources[k].3
        &&& steps[k].staged == (if mode == CleanMode::SoftDelete {
            Some(steps[k].staged->0)
        } else {
            None::<String>
        })
        &&& (mode == CleanMode::SoftDelete ==> steps[k].staged->0@ == staged_name(
            files_dir,
            (k + 1) as nat,
        ))
    }
}

proof fn lemma_sources_step(items: Seq<ScanItem>, i: int)
    requires
        0 <= i < items.len(),
    ensures
        removal_sources(items.subrange(0, i + 1)) == removal_sources(items.subrange(0, i))
            + item_sources(items[i]),
{
    assert(items.subrange(0, i + 1).drop_last() =~= items.subrange(0, i));
}

/// The safety gate over a whole candidate list: the first protected path found
/// (item paths and file paths alike) aborts everything.
pub fn gate_items(items: &Vec<ScanItem>, home: &Option<String>) -> (r: Result<(), TidyError>)
    ensures
        r is Ok <==> !gate_trips(items@, home_view(*home)),
        r matches Err(e) ==> e matches TidyError::ProtectedPath { path } && gate_candidate(
            items@,
            path@,
        ) && protected_spec(path@, home_view(*home)),
{
    let mut i: usize = 0;
    while i < items.len()
        invariant
            i <= items@.len(),
            forall|a: int| 0 <= a < i ==> !protected_spec(#[trigger] items@[a].path@, home_view(*home)),
            forall|a: int, b: int|
                0 <= a < i && 0 <= b < items@[a].files@.len() ==> !protected_spec(
                    #[trigger] items@[a].files@[b].path@,
                    home_view(*home),
                ),
        decreases items@.len() - i,
    {
        let item = &items[i];
        if is_protected(item.path.as_str(), home) {
            assert(item_candidate(items@[i as int], item.path@));
            return Err(TidyError::ProtectedPath { path: item.path.clone() });
        }
        let mut j: usize = 0;
        while j < item.files.len()
            invariant
                j <= item.files@.len(),
                i < items@.len(),
                item == items@[i as int],
                forall|b: int| 0 <= b < j ==> !protected_spec(#[trigger] item.files@[b].path@, home_view(*home)),
            decreases item.files@.len() - j,
        {
            if is_protected(item.files[j].path.as_str(), home) {
                assert(items@[i as int].files@[j as int].path@ == item.files@[j as int].path@);
                assert(item_candidate(items@[i as int], item.files@[j as int].path@));
                return Err(TidyError::ProtectedPath { path: item.files[j].path.clone() });
            }
            j = j + 1;
        }
        i = i + 1;
    }
    assert forall|p: Seq<char>| gate_candidate(items@, p) implies !#[trigger] protected_spec(p, home_view(*home)) by {
        let a = choose|a: int| 0 <= a < items@.len() && #[trigger] item_candidate(items@[a], p);
        if items@[a].path@ != p {
            let b = choose|j: int| 0 <= j < items@[a].files@.len() && #[trigger] items@[a].files@[j].path@ == p;
        }
    }
    Ok(())
}

/// Check every candidate against the safety gate, then list, in submission
/// order, what the clean acts on. Nothing is touched here: a protected path
/// comes back as `ProtectedPath` before any step exists.
pub fn clean(items: &Vec<ScanItem>, mode: CleanMode, home: &Option<String>, files_dir: &str) -> (r: Result<
    Vec<RemovalStep>,
    TidyError,
>)
    requires
        removal_sources(items@).len() < u64::MAX,
    ensures
        r is Ok <==> !gate_trips(items@, home_view(*home)),
        r matches Err(e) ==> e matches TidyError::ProtectedPath { path } && gate_candidate(
            items@,
            path@,
        ) && protected_spec(path@, home_view(*home)),
        r matches Ok(steps) ==> steps_match(steps@, removal_sources(items@), mode, files_dir@),
{
    match gate_items(items, home) {
        Err(e) => Err(e),
        Ok(()) => Ok(plan_steps(items, mode, files_dir)),
    }
}

fn make_step(path: &String, size: u64, category: Category, safety: SafetyLevel, mode: CleanMode, files_dir: &str, k: u64) -> (r: RemovalStep)
    requires
        k < u64::MAX,
    ensures
        r.original@ == path@,
        r.size_bytes == size,
        r.category == category,
        r.safety == safety,
        r.staged == (if mode == CleanMode::SoftDelete { Some(r.staged->0) } else { None::<String> }),
        mode == CleanMode::SoftDelete ==> r.staged->0@ == staged_name(files_dir@, (k + 1) as nat),
{
    let staged = if mode == CleanMode::SoftDelete {
        Some(join(files_dir, zero_padded(k + 1, 6).as_str()))
    } else {
        None
    };
    RemovalStep { original: path.clone(), size_bytes: size, category, safety, staged }
}

fn plan_steps(items: &Vec<ScanItem>, mode: CleanMode, files_dir: &str) -> (r: Vec<RemovalStep>)
    requires
        removal_sources(items@).len() < u64::MAX,
    ensures
        steps_match(r@, removal_sources(items@), mode, files_dir@),
{
    let mut out: Vec<RemovalStep> = Vec::new();
    let mut i: usize = 0;
    while i < items.len()
        invariant
            i <= items@.len(),
            removal_sources(items@).len() < u64::MAX,
            steps_match(out@, removal_sources(items@.subrange(0, i as int)), mode, files_dir@),
        decreases items@.len() - i,
    {
        proof {
            lemma_sources_step(items@, i as int);
            lemma_sources_prefix_len(items@, i + 1);
        }
        let item = &items[i];
        let ghost prev = removal_sources(items@.subrange(0, i as int));
        if item.files.len() == 0 {
            let k = out.len() as u64;
            let step = make_step(&item.path, item.size_bytes, item.category, item.safety, mode, files_dir, k);
            out.push(step);
            assert(steps_match(out@, prev + item_sources(items@[i as int]), mode, files_dir@)) by {
                assert forall|k2: int| 0 <= k2 < out@.len() implies #[trigger] out@[k2] == out@[k2] by {}
                assert((prev + item_sources(items@[i as int]))[prev.len() as int] == item_sources(items@[i as int])[0]);
            }
        } else {
            let mut j: usize = 0;
            while j < item.files.len()
                invariant
                    j <= item.files@.len(),
                    i < items@.len(),
                    item == items@[i as int],
                    item.files@.len() > 0,
                    prev == removal_sources(items@.subrange(0, i as int)),
                    removal_sources(items@.subrange(0, i + 1)) == prev + item_sources(items@[i as int]),
                    removal_sources(items@.subrange(0, i + 1)).len() < u64::MAX,
                    steps_match(out@, prev + item_sources(items@[i as int]).subrange(0, j as int), mode, files_dir@),
                decreases item.files@.len() - j,
            {
                let ghost srcs = prev + item_sources(items@[i as int]).subrange(0, j as int);
                let ghost srcs2 = prev + item_sources(items@[i as int]).subrange(0, j + 1);
                assert(srcs2 =~= srcs.push(item_sources(items@[i as int])[j as int]));
                let k = out.len() as u64;
                let step = make_step(&item.files[j].path, item.files[j].size_bytes, item.category, item.safety, mode, files_dir, k);
                out.push(step);
                assert(steps_match(out@, srcs2, mode, files_dir@)) by {
                    assert forall|k2: int| 0 <= k2 < out@.len() implies #[trigger] out@[k2] == out@[k2] by {}
                }
                j = j + 1;
            }
            assert(item_sources(items@[i as int]).subrange(0, j as int) =~= item_sources(items@[i as int]));
        }
        i = i + 1;
    }
    assert(items@.subrange(0, items@.len() as int) =~= items@);
    out
}

proof fn lemma_sources_prefix_len(items: Seq<ScanItem>, i: int)
    requires
        0 <= i <= items.len(),
    ensures
        removal_sources(items.subrange(0, i)).len() <= removal_sources(items).len(),
    decreases items.len() - i,
{
    if i < items.len() {
        lemma_sources_prefix_len(items, i + 1);
        lemma_sources_step(items, i);
    } else {
        assert(items.subrange(0, i) =~= items);
    }
}

/// Total bytes of a list of sources.
pub open spec fn source_bytes(s: Seq<Source>) -> nat
    decreases s.len(),
{
    if s.len() == 0 {
        0
    } else {
        source_bytes(s.drop_last()) + s.last().1 as nat
    }
}

/// A byte count capped at the largest `u64`.
pub open spec fn cap_bytes(n: nat) -> u64 {
    if n <= u64::MAX as nat { n as u64 } else { u64::MAX }
}

/// Tally what a clean would remove, touching nothing: one file per listed file,
/// or the item itself when it lists none.
pub fn clean_dry_run(items: &Vec<ScanItem>) -> (r: CleanReport)
    requires
        removal_sources(items@).len() < u64::MAX,
    ensures
        r.mode == CleanMode::DryRun,
        r.files_removed == removal_sources(items@).len(),
        r.bytes_freed == cap_bytes(source_bytes(removal_sources(items@))),
        r.session_id is None,
        r.errors@.len() == 0,
{
    let steps = plan_steps(items, CleanMode::DryRun, "");
    let ghost src = removal_sources(items@);
    let mut total: u64 = 0;
    let mut k: usize = 0;
    while k < steps.len()
        invariant
            k <= steps@.len(),
            steps_match(steps@, src, CleanMode::DryRun, ""@),
            total == cap_bytes(source_bytes(src.subrange(0, k as int))),
        decreases steps@.len() - k,
    {
        assert(src.subrange(0, k + 1).drop_last() =~= src.subrange(0, k as int));
        assert(steps@[k as int].size_bytes == src[k as int].1);
        total = total.saturating_add(steps[k].size_bytes);
        k = k + 1;
    }
    assert(src.subrange(0, steps@.len() as int) =~= src);
    CleanReport {
        mode: CleanMode::DryRun,
        files_removed: steps.len(),
        bytes_freed: total,
        session_id: None,
        errors: Vec::new(),
    }
}

/// The message recorded when staging `path` failed with `err`.
pub open spec fn stage_failure_text(path: Seq<char>, err: Seq<char>) -> Seq<char> {
    "Failed to stage '"@ + path + "': "@ + err
}

/// The manifest item that records the outcome of one step.
pub open spec fn outcome_matches(
    it: ManifestItem,
    step: RemovalStep,
    soft: bool,
    is_dir: bool,
    outcome: Result<(), String>,
) -> bool {
    &&& it.original_path@ == step.original@
    &&& it.size_bytes == step.size_bytes
    &&& it.category@ == category_text(step.category)
    &&& it.safety@ == safety_text(step.safety)
    &&& it.is_dir == is_dir
    &&& it.success == outcome is Ok
    &&& it.staged_path == (if outcome is Ok && soft { step.staged } else { None })
    &&& match outcome {
        Ok(_) => it.error is None,
        Err(e) => it.error matches Some(m) && m@ == (if soft {
            stage_failure_text(step.original@, e@)
        } else {
            e@
        }),
    }
}

/// Record the outcome of one step in the manifest. A failed soft delete is also
/// listed among the manifest's errors.
pub fn record_outcome(
    m: &mut CleanManifest,
    step: &RemovalStep,
    soft: bool,
    is_dir: bool,
    outcome: Result<(), String>,
)
    ensures
        final(m).items@.len() == old(m).items@.len() + 1,
        final(m).items@.drop_last() == old(m).items@,
        outcome_matches(final(m).items@.last(), *step, soft, is_dir, outcome),
        soft && step.staged is Some ==> final(m).items@.last().wf(soft),
        !soft ==> final(m).items@.last().wf(soft),
        final(m).total_bytes == (if outcome is Ok {
            sat_add(old(m).total_bytes, step.size_bytes)
        } else {
            old(m).total_bytes
        }),
        final(m).total_files == (if outcome is Ok {
            sat_inc(old(m).total_files)
        } else {
            old(m).total_files
        }),
        final(m).errors@ == (match outcome {
            Err(e) if soft => old(m).errors@.push(final(m).items@.last().error->0),
            _ => old(m).errors@,
        }),
        final(m).session_id == old(m).session_id,
        final(m).mode == old(m).mode,
        final(m).expires_at_secs == old(m).expires_at_secs,
        final(m).restored == old(m).restored,
{
    let ok = outcome.is_ok();
    let (error, staged) = match outcome {
        Ok(()) => (None, if soft { step.staged.clone() } else { None }),
        Err(e) => {
            if soft {
                let msg = String::from_str("Failed to stage '").concat(step.original.as_str()).concat(
                    "': ",
                ).concat(e.as_str());
                (Some(msg), None)
            } else {
                (Some(e), None)
            }
        },
    };
    let item = ManifestItem {
        original_path: step.original.clone(),
        staged_path: staged,
        size_bytes: step.size_bytes,
        category: category_label(step.category),
        safety: safety_label(step.safety),
        is_dir,
        success: ok,
        error: error.clone(),
    };
    let ghost before = m.items@;
    m.add_item(item);
    assert(m.items@.drop_last() =~= before);
    if !ok && soft {
        match error {
            Some(msg) => m.add_error(msg),
            None => {},
        }
    }
}

/// A copy of a list of strings.
pub fn copy_strings(v: &Vec<String>) -> (r: Vec<String>)
    ensures
        r@ == v@,
{
    let mut out: Vec<String> = Vec::new();
    let mut i: usize = 0;
    while i < v.len()
        invariant
            i <= v@.len(),
            out@ == v@.subrange(0, i as int),
        decreases v@.len() - i,
    {
        out.push(v[i].clone());
        assert(out@ =~= v@.subrange(0, i + 1));
        i = i + 1;
    }
    assert(v@.subrange(0, v@.len() as int) =~= v@);
    out
}

/// The report of a finished soft or hard delete, from its manifest.
pub fn report_from_manifest(m: &CleanManifest, mode: CleanMode) -> (r: CleanReport)
    ensures
        r.mode == mode,
        r.files_removed == m.total_files,
        r.bytes_freed == m.total_bytes,
        r.session_id == (if mode == CleanMode::SoftDelete { Some(m.session_id) } else { None }),
        r.errors@ == m.errors@,
{
    CleanReport {
        mode,
        files_removed: m.total_files,
        bytes_freed: m.total_bytes,
        session_id: if mode == CleanMode::SoftDelete { Some(m.session_id.clone()) } else { None },
        errors: copy_strings(&m.errors),
    }
}

/// Size of the staging area from which a warning is given (5 GiB).
pub const STAGING_WARN_BYTES: u64 = 5_368_709_120;

/// Number of expired sessions from which a warning is given.
pub const STAGING_WARN_EXPIRED: usize = 10;

/// The state of the staging area.
#[derive(Debug, Clone)]
pub struct StagingHealth {
    pub total_size: u64,
    pub session_count: usize,
    pub expired_count: usize,
    pub expired_size: u64,
    pub warning: Option<String>,
}

/// Sum of the staged sizes of sessions, counting only expired ones when `expired_only`.
pub open spec fn staged_total(s: Seq<SessionSummary>, expired_only: bool) -> nat
    decreases s.len(),
{
    if s.len() == 0 {
        0
    } else {
        staged_total(s.drop_last(), expired_only) + (if !expired_only || s.last().is_expired {
            s.last().staged_size as nat
        } else {
            0
        })
    }
}

/// Number of expired sessions.
pub open spec fn expired_total(s: Seq<SessionSummary>) -> nat
    decreases s.len(),
{
    if s.len() == 0 {
        0
    } else {
        expired_total(s.drop_last()) + (if s.last().is_expired { 1nat } else { 0 })
    }
}

proof fn lemma_expired_total_le(s: Seq<SessionSummary>)
    ensures
        expired_total(s) <= s.len(),
    decreases s.len(),
{
    if s.len() > 0 {
        lemma_expired_total_le(s.drop_last());
    }
}

/// The warning text for a staging area of `total` bytes.
pub open spec fn size_warning_text(total: nat) -> Seq<char> {
    "Staging area is using "@ + crate::format::decimal_text(total)
        + " bytes. Run 'tidymac purge' to free space."@
}

/// The warning text for `n` expired sessions.
pub open spec fn expired_warning_text(n: nat) -> Seq<char> {
    crate::format::decimal_text(n) + " expired sessions found. Run 'tidymac purge --expired' to clean up."@
}

/// Summarise the staging area from its session listing (empty when the staging
/// area does not exist): sizes, counts, and a warning when it holds more than
/// 5 GiB or more than ten expired sessions.
pub fn check_staging_health(sessions: &Vec<SessionSummary>) -> (r: StagingHealth)
    ensures
        r.total_size == cap_bytes(staged_total(sessions@, false)),
        r.expired_size == cap_bytes(staged_total(sessions@, true)),
        r.session_count == sessions@.len(),
        r.expired_count == expired_total(sessions@),
        r.warning == (if r.total_size > STAGING_WARN_BYTES {
            Some(r.warning->0)
        } else if r.expired_count > STAGING_WARN_EXPIRED {
            Some(r.warning->0)
        } else {
            None::<String>
        }),
        r.total_size > STAGING_WARN_BYTES ==> r.warning->0@ == size_warning_text(r.total_size as nat),
        r.total_size <= STAGING_WARN_BYTES && r.expired_count > STAGING_WARN_EXPIRED
            ==> r.warning->0@ == expired_warning_text(r.expired_count as nat),
{
    let mut total: u64 = 0;
    let mut expired_size: u64 = 0;
    let mut expired: usize = 0;
    let mut i: usize = 0;
    while i < sessions.len()
        invariant
            i <= sessions@.len(),
            total == cap_bytes(staged_total(sessions@.subrange(0, i as int), false)),
            expired_size == cap_bytes(staged_total(sessions@.subrange(0, i as int), true)),
            expired == expired_total(sessions@.subrange(0, i as int)),
        decreases sessions@.len() - i,
    {
        assert(sessions@.subrange(0, i + 1).drop_last() =~= sessions@.subrange(0, i as int));
        proof {
            lemma_expired_total_le(sessions@.subrange(0, i as int));
        }
        total = total.saturating_add(sessions[i].staged_size);
        if sessions[i].is_expired {
            expired_size = expired_size.saturating_add(sessions[i].staged_size);
            expired = expired + 1;
        }
        i = i + 1;
    }
    assert(sessions@.subrange(0, sessions@.len() as int) =~= sessions@);
    let warning = if total > STAGING_WARN_BYTES {
        Some(String::from_str("Staging area is using ").concat(decimal(total).as_str()).concat(
            " bytes. Run 'tidymac purge' to free space.",
        ))
    } else if expired > STAGING_WARN_EXPIRED {
        Some(decimal(expired as u64).concat(
            " expired sessions found. Run 'tidymac purge --expired' to clean up.",
        ))
    } else {
        None
    };
    StagingHealth {
        total_size: total,
        session_count: sessions.len(),
        expired_count: expired,
        expired_size,
        warning,
    }
}

/// The display name of a value of `CleanMode`.
pub open spec fn clean_mode_text(k: CleanMode) -> Seq<char> {
    match k {
        CleanMode::DryRun => "dry_run"@,
        CleanMode::SoftDelete => "soft_delete"@,
        CleanMode::HardDelete => "hard_delete"@,
    }
}

/// The display name of a value of `CleanMode`.
pub fn clean_mode_label(k: CleanMode) -> (r: String)
    ensures
        r@ == clean_mode_text(k),
{
    match k {
        CleanMode::DryRun => String::from_str("dry_run"),
        CleanMode::SoftDelete => String::from_str("soft_delete"),
        CleanMode::HardDelete => String::from_str("hard_delete"),
    }
}

} // verus!
