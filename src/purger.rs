use vstd::prelude::*;
use crate::manifest::{SessionSummary, sat_add};

verus! {

/// What a purge did.
#[derive(Debug, Clone)]
pub struct PurgeReport {
    pub purged_sessions: Vec<PurgedSession>,
    pub total_bytes_freed: u64,
    pub errors: Vec<String>,
}

/// One session that a purge removed.
#[derive(Debug, Clone)]
pub struct PurgedSession {
    pub session_id: String,
    pub bytes_freed: u64,
    pub file_count: usize,
}

/// A session directory that an expiry purge removes.
#[derive(Debug, Clone)]
pub struct PurgeTarget {
    pub session_id: String,
    /// A restored session holds only empty directories; its removal is not reported.
    pub restored: bool,
    pub file_count: usize,
}

/// The sessions past their expiry, in listing order.
pub open spec fn expired_sessions(s: Seq<SessionSummary>) -> Seq<SessionSummary>
    decreases s.len(),
{
    if s.len() == 0 {
        Seq::empty()
    } else if s.last().is_expired {
        expired_sessions(s.drop_last()).push(s.last())
    } else {
        expired_sessions(s.drop_last())
    }
}

/// The sessions that a successful expiry purge leaves in place.
pub open spec fn live_sessions(s: Seq<SessionSummary>) -> Seq<SessionSummary>
    decreases s.len(),
{
    if s.len() == 0 {
        Seq::empty()
    } else if s.last().is_expired {
        live_sessions(s.drop_last())
    } else {
        live_sessions(s.drop_last()).push(s.last())
    }
}

/// `targets` names each of `sessions`, in order.
pub open spec fn targets_match(targets: Seq<PurgeTarget>, sessions: Seq<SessionSummary>) -> bool {
    &&& targets.len() == sessions.len()
    &&& forall|k: int| 0 <= k < targets.len() ==> {
        &&& (#[trigger] targets[k]).session_id@ == sessions[k].session_id@
        &&& targets[k].restored == sessions[k].restored
        &&& targets[k].file_count == sessions[k].total_files
    }
}

/// The session directories an expiry purge removes: every expired session.
pub fn purge_plan(sessions: &Vec<SessionSummary>) -> (r: Vec<PurgeTarget>)
    ensures
        targets_match(r@, expired_sessions(sessions@)),
{
    let mut out: Vec<PurgeTarget> = Vec::new();
    let mut i: usize = 0;
    while i < sessions.len()
        invariant
            i <= sessions@.len(),
            targets_match(out@, expired_sessions(sessions@.subrange(0, i as int))),
        decreases sessions@.len() - i,
    {
        assert(sessions@.subrange(0, i + 1).drop_last() =~= sessions@.subrange(0, i as int));
        let s = &sessions[i];
        if s.is_expired {
            out.push(
                PurgeTarget {
                    session_id: s.session_id.clone(),
                    restored: s.restored,
                    file_count: s.total_files,
                },
            );
            assert(targets_match(out@, expired_sessions(sessions@.subrange(0, i + 1)))) by {
                assert forall|k: int| 0 <= k < out@.len() implies #[trigger] out@[k] == out@[k] by {}
            }
        }
        i = i + 1;
    }
    assert(sessions@.subrange(0, sessions@.len() as int) =~= sessions@);
    out
}

/// Purging is idempotent: once every expired session is gone, a second expiry
/// purge finds nothing to remove.
pub proof fn lemma_purge_idempotent(s: Seq<SessionSummary>)
    ensures
        expired_sessions(live_sessions(s)).len() == 0,
    decreases s.len(),
{
    if s.len() > 0 {
        lemma_purge_idempotent(s.drop_last());
        let l = live_sessions(s.drop_last());
        if !s.last().is_expired {
            assert(l.push(s.last()).drop_last() =~= l);
        }
    }
}

/// An empty purge report.
pub fn empty_purge_report() -> (r: PurgeReport)
    ensures
        r.purged_sessions@.len() == 0,
        r.total_bytes_freed == 0,
        r.errors@.len() == 0,
{
    PurgeReport { purged_sessions: Vec::new(), total_bytes_freed: 0, errors: Vec::new() }
}

pub open spec fn purge_failure_text(id: Seq<char>, err: Seq<char>) -> Seq<char> {
    "Failed to purge session '"@ + id + "': "@ + err
}

/// Count the removal of one session directory of `size` bytes, or its failure.
pub fn record_purge(report: &mut PurgeReport, id: &str, size: u64, file_count: usize, outcome: Result<(), String>)
    ensures
        outcome is Ok ==> final(report).purged_sessions@.len() == old(report).purged_sessions@.len() + 1
            && final(report).purged_sessions@.last().session_id@ == id@
            && final(report).purged_sessions@.last().bytes_freed == size
            && final(report).purged_sessions@.last().file_count == file_count
            && final(report).total_bytes_freed == sat_add(old(report).total_bytes_freed, size)
            && final(report).errors == old(report).errors,
        outcome matches Err(e) ==> final(report).purged_sessions == old(report).purged_sessions
            && final(report).total_bytes_freed == old(report).total_bytes_freed
            && final(report).errors@.len() == old(report).errors@.len() + 1
            && final(report).errors@.last()@ == purge_failure_text(id@, e@),
{
    match outcome {
        Ok(()) => {
            report.purged_sessions.push(
                PurgedSession { session_id: String::from_str(id), bytes_freed: size, file_count },
            );
            report.total_bytes_freed = report.total_bytes_freed.saturating_add(size);
        },
        Err(e) => {
            let msg = String::from_str("Failed to purge session '").concat(id).concat("': ").concat(
                e.as_str(),
            );
            report.errors.push(msg);
        },
    }
}

} // verus!
