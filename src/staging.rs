use vstd::prelude::*;
use crate::errors::TidyError;
use crate::manifest::{CleanManifest, ManifestItem, sat_add, sat_inc};
use crate::engine::RemovalStep;

verus! {

/// One move back from the staging area.
#[derive(Debug, Clone)]
pub struct RestoreStep {
    pub staged: String,
    pub original: String,
    pub size_bytes: u64,
}

/// What a restore did.
#[derive(Debug, Clone)]
pub struct RestoreReport {
    pub session_id: String,
    pub restored_count: usize,
    pub restored_bytes: u64,
    pub errors: Vec<String>,
}

/// The items of a manifest that can be moved back: staged successfully.
pub open spec fn restorable(items: Seq<ManifestItem>) -> Seq<ManifestItem>
    decreases items.len(),
{
    if items.len() == 0 {
        Seq::empty()
    } else {
        let rest = restorable(items.drop_last());
        if items.last().success && items.last().staged_path is Some {
            rest.push(items.last())
        } else {
            rest
        }
    }
}

/// `steps` moves each of `items` back, in order.
pub open spec fn restore_steps_match(steps: Seq<RestoreStep>, items: Seq<ManifestItem>) -> bool {
    &&& steps.len() == items.len()
    &&& forall|k: int| 0 <= k < steps.len() ==> {
        &&& (#[trigger] steps[k]).staged@ == items[k].staged_path->0@
        &&& steps[k].original@ == items[k].original_path@
        &&& steps[k].size_bytes == items[k].size_bytes
    }
}

pub open spec fn already_restored_text(id: Seq<char>) -> Seq<char> {
    "Session '"@ + id + "' has already been restored"@
}

pub open spec fn nothing_to_restore_text(id: Seq<char>) -> Seq<char> {
    "No restorable items in session '"@ + id + "'"@
}

/// The moves that undo a soft delete, in the order the items were staged. A
/// session can be restored once; one with nothing staged cannot be restored.
pub fn restore_plan(m: &CleanManifest) -> (r: Result<Vec<RestoreStep>, TidyError>)
    ensures
        m.restored ==> (r matches Err(TidyError::StagingError { message }) && message@
            == already_restored_text(m.session_id@)),
        !m.restored && restorable(m.items@).len() == 0 ==> (r matches Err(
            TidyError::StagingError { message },
        ) && message@ == nothing_to_restore_text(m.session_id@)),
        !m.restored && restorable(m.items@).len() > 0 ==> (r matches Ok(steps)
            && restore_steps_match(steps@, restorable(m.items@))),
{
    if m.restored {
        return Err(
            TidyError::StagingError {
                message: String::from_str("Session '").concat(m.session_id.as_str()).concat(
                    "' has already been restored",
                ),
            },
        );
    }
    let mut steps: Vec<RestoreStep> = Vec::new();
    let mut i: usize = 0;
    while i < m.items.len()
        invariant
            i <= m.items@.len(),
            restore_steps_match(steps@, restorable(m.items@.subrange(0, i as int))),
        decreases m.items@.len() - i,
    {
        assert(m.items@.subrange(0, i + 1).drop_last() =~= m.items@.subrange(0, i as int));
        let it = &m.items[i];
        if it.success {
            match &it.staged_path {
                Some(sp) => {
                    steps.push(
                        RestoreStep {
                            staged: sp.clone(),
                            original: it.original_path.clone(),
                            size_bytes: it.size_bytes,
                        },
                    );
                    assert(restore_steps_match(steps@, restorable(m.items@.subrange(0, i + 1)))) by {
                        assert forall|k: int| 0 <= k < steps@.len() implies #[trigger] steps@[k] == steps@[k] by {}
                    }
                },
                None => {},
            }
        }
        i = i + 1;
    }
    assert(m.items@.subrange(0, m.items@.len() as int) =~= m.items@);
    if steps.len() == 0 {
        return Err(
            TidyError::StagingError {
                message: String::from_str("No restorable items in session '").concat(
                    m.session_id.as_str(),
                ).concat("'"),
            },
        );
    }
    Ok(steps)
}

/// An empty report for session `id`.
pub fn start_restore_report(id: &str) -> (r: RestoreReport)
    ensures
        r.session_id@ == id@,
        r.restored_count == 0,
        r.restored_bytes == 0,
        r.errors@.len() == 0,
{
    RestoreReport {
        session_id: String::from_str(id),
        restored_count: 0,
        restored_bytes: 0,
        errors: Vec::new(),
    }
}

pub open spec fn restore_failure_text(path: Seq<char>, err: Seq<char>) -> Seq<char> {
    "Failed to restore '"@ + path + "': "@ + err
}

/// Count one restore step: its bytes on success, an error message on failure.
pub fn record_restore(report: &mut RestoreReport, step: &RestoreStep, outcome: Result<(), String>)
    ensures
        final(report).session_id == old(report).session_id,
        outcome is Ok ==> final(report).restored_count == sat_inc(old(report).restored_count)
            && final(report).restored_bytes == sat_add(old(report).restored_bytes, step.size_bytes)
            && final(report).errors == old(report).errors,
        outcome matches Err(e) ==> final(report).restored_count == old(report).restored_count
            && final(report).restored_bytes == old(report).restored_bytes
            && final(report).errors@.len() == old(report).errors@.len() + 1
            && final(report).errors@.drop_last() == old(report).errors@
            && final(report).errors@.last()@ == restore_failure_text(step.original@, e@),
{
    match outcome {
        Ok(()) => {
            report.restored_count = report.restored_count.saturating_add(1);
            report.restored_bytes = report.restored_bytes.saturating_add(step.size_bytes);
        },
        Err(e) => {
            let msg = String::from_str("Failed to restore '").concat(step.original.as_str()).concat(
                "': ",
            ).concat(e.as_str());
            let ghost before = report.errors@;
            report.errors.push(msg);
            assert(report.errors@.drop_last() =~= before);
        },
    }
}

proof fn lemma_all_restorable(items: Seq<ManifestItem>)
    requires
        forall|k: int| 0 <= k < items.len() ==> (#[trigger] items[k]).success && items[k].staged_path is Some,
    ensures
        restorable(items) == items,
    decreases items.len(),
{
    if items.len() > 0 {
        lemma_all_restorable(items.drop_last());
        assert(items.drop_last().push(items.last()) =~= items);
    }
}

/// Staging then restoring puts everything back where it was: when every step of
/// a soft delete succeeded, the restore moves each staged path back to the
/// original path of the same step, in the same order.
pub proof fn lemma_stage_restore_round_trip(
    steps: Seq<RemovalStep>,
    items: Seq<ManifestItem>,
    moves: Seq<RestoreStep>,
)
    requires
        items.len() == steps.len(),
        forall|k: int| 0 <= k < steps.len() ==> {
            &&& (#[trigger] items[k]).success
            &&& items[k].original_path@ == steps[k].original@
            &&& items[k].staged_path == steps[k].staged
            &&& steps[k].staged is Some
        },
        restore_steps_match(moves, restorable(items)),
    ensures
        moves.len() == steps.len(),
        forall|k: int| 0 <= k < moves.len() ==> {
            &&& (#[trigger] moves[k]).original@ == steps[k].original@
            &&& moves[k].staged@ == steps[k].staged->0@
        },
{
    lemma_all_restorable(items);
    assert forall|k: int| 0 <= k < moves.len() implies {
        &&& (#[trigger] moves[k]).original@ == steps[k].original@
        &&& moves[k].staged@ == steps[k].staged->0@
    } by {
        assert(items[k].success);
    }
}

} // verus!
