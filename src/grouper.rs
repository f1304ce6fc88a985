use vstd::prelude::*;
use crate::duplicates::{MatchType, SimilarFile, SimilarGroup, build_group, capped};

verus! {

/// Settings of a duplicate search. `max_distance` is the largest number of
/// differing fingerprint bits for images to count as similar.
#[derive(Debug, Clone)]
pub struct DupConfig {
    pub root: String,
    pub min_size: u64,
    pub perceptual: bool,
    pub max_distance: u32,
    pub show_progress: bool,
}

/// The outcome of a duplicate search.
#[derive(Debug, Clone)]
pub struct DupResults {
    pub exact_groups: Vec<SimilarGroup>,
    pub similar_groups: Vec<SimilarGroup>,
    pub files_scanned: usize,
    pub total_groups: usize,
    pub total_wasted: u64,
    pub total_duplicates: usize,
    /// How long the search took, in milliseconds.
    pub duration_ms: u64,
    pub errors: Vec<String>,
}

/// A regular file found under the search root, with its size.
#[derive(Debug, Clone)]
pub struct CandidateFile {
    pub path: String,
    pub size: u64,
}

/// The candidates of at least `min_size` bytes, in order.
pub open spec fn at_least(files: Seq<CandidateFile>, min_size: u64) -> Seq<CandidateFile>
    decreases files.len(),
{
    if files.len() == 0 {
        Seq::empty()
    } else if files.last().size >= min_size {
        at_least(files.drop_last(), min_size).push(files.last())
    } else {
        at_least(files.drop_last(), min_size)
    }
}

/// Keep the files of at least `min_size` bytes; a file of exactly `min_size`
/// bytes is kept.
pub fn keep_min_size(files: Vec<CandidateFile>, min_size: u64) -> (r: Vec<CandidateFile>)
    ensures
        r@ == at_least(files@, min_size),
{
    let mut files = files;
    let ghost orig = files@;
    let n = files.len();
    let mut rev: Vec<CandidateFile> = Vec::new();
    let mut i: usize = 0;
    while i < n
        invariant
            i <= n,
            n == orig.len(),
            files@ == orig.subrange(0, n - i),
            rev@.len() == i,
            forall|k: int| 0 <= k < i ==> rev@[k] == orig[n - 1 - k],
        decreases n - i,
    {
        let it = files.pop().unwrap();
        rev.push(it);
        i = i + 1;
        assert(files@ =~= orig.subrange(0, n - i));
    }
    let mut kept: Vec<CandidateFile> = Vec::new();
    let mut j: usize = 0;
    while j < n
        invariant
            j <= n,
            n == orig.len(),
            rev@.len() == n - j,
            forall|k: int| 0 <= k < n - j ==> rev@[k] == orig[n - 1 - k],
            kept@ == at_least(orig.subrange(0, j as int), min_size),
        decreases n - j,
    {
        let it = rev.pop().unwrap();
        assert(it == orig[j as int]);
        assert(orig.subrange(0, j + 1).drop_last() =~= orig.subrange(0, j as int));
        if it.size >= min_size {
            kept.push(it);
        }
        j = j + 1;
    }
    assert(orig.subrange(0, n as int) =~= orig);
    kept
}

/// The members of an exact group: each file at distance 0.
pub open spec fn exact_members(files: Seq<CandidateFile>) -> Seq<SimilarFile> {
    files.map_values(|f: CandidateFile| SimilarFile { path: f.path, size_bytes: f.size, distance: 0 })
}

/// An exact-duplicate group of byte-identical files: sorted by size, largest
/// (the keeper) first, with the bytes the others waste.
pub fn exact_group(files: &Vec<CandidateFile>) -> (r: SimilarGroup)
    ensures
        r.wf(),
        r.match_type == MatchType::Exact,
        r.members@.to_multiset() == exact_members(files@).to_multiset(),
{
    let mut members: Vec<SimilarFile> = Vec::new();
    let mut i: usize = 0;
    while i < files.len()
        invariant
            i <= files@.len(),
            members@ == exact_members(files@).subrange(0, i as int),
        decreases files@.len() - i,
    {
        members.push(SimilarFile { path: files[i].path.clone(), size_bytes: files[i].size, distance: 0 });
        assert(members@ =~= exact_members(files@).subrange(0, i + 1));
        i = i + 1;
    }
    assert(exact_members(files@).subrange(0, files@.len() as int) =~= exact_members(files@));
    build_group(members, MatchType::Exact)
}

/// Some exact group has a member at path `p`.
pub open spec fn covered(exact: Seq<SimilarGroup>, p: Seq<char>) -> bool {
    exists|k: int, t: int|
        0 <= k < exact.len() && 0 <= t < exact[k].members@.len() && #[trigger] exact[k].members@[t].path@ == p
}

/// A similar group is kept when at least one of its members is in no exact group.
pub open spec fn worth_reporting(g: SimilarGroup, exact: Seq<SimilarGroup>) -> bool {
    exists|t: int| 0 <= t < g.members@.len() && !covered(exact, #[trigger] g.members@[t].path@)
}

pub open spec fn reported(similar: Seq<SimilarGroup>, exact: Seq<SimilarGroup>) -> Seq<SimilarGroup>
    decreases similar.len(),
{
    if similar.len() == 0 {
        Seq::empty()
    } else if worth_reporting(similar.last(), exact) {
        reported(similar.drop_last(), exact).push(similar.last())
    } else {
        reported(similar.drop_last(), exact)
    }
}

fn is_covered(exact: &Vec<SimilarGroup>, p: &String) -> (r: bool)
    ensures
        r == covered(exact@, p@),
{
    let mut k: usize = 0;
    while k < exact.len()
        invariant
            k <= exact@.len(),
            forall|a: int, t: int| 0 <= a < k && 0 <= t < exact@[a].members@.len() ==> #[trigger] exact@[a].members@[t].path@ != p@,
        decreases exact@.len() - k,
    {
        let g = &exact[k];
        let mut t: usize = 0;
        while t < g.members.len()
            invariant
                t <= g.members@.len(),
                k < exact@.len(),
                g == exact@[k as int],
                forall|b: int| 0 <= b < t ==> #[trigger] g.members@[b].path@ != p@,
            decreases g.members@.len() - t,
        {
            if g.members[t].path == *p {
                assert(exact@[k as int].members@[t as int].path@ == p@);
                return true;
            }
            t = t + 1;
        }
        k = k + 1;
    }
    false
}

fn keep_group(g: &SimilarGroup, exact: &Vec<SimilarGroup>) -> (r: bool)
    ensures
        r == worth_reporting(*g, exact@),
{
    let mut t: usize = 0;
    while t < g.members.len()
        invariant
            t <= g.members@.len(),
            forall|b: int| 0 <= b < t ==> covered(exact@, #[trigger] g.members@[b].path@),
        decreases g.members@.len() - t,
    {
        if !is_covered(exact, &g.members[t].path) {
            return true;
        }
        t = t + 1;
    }
    false
}

/// Drop the similar groups that add nothing to the exact ones: a group is kept
/// when at least one member is in no exact group.
pub fn dedup_similar(similar: Vec<SimilarGroup>, exact: &Vec<SimilarGroup>) -> (r: Vec<SimilarGroup>)
    ensures
        r@ == reported(similar@, exact@),
{
    let mut similar = similar;
    let ghost orig = similar@;
    let n = similar.len();
    let mut rev: Vec<SimilarGroup> = Vec::new();
    let mut i: usize = 0;
    while i < n
        invariant
            i <= n,
            n == orig.len(),
            similar@ == orig.subrange(0, n - i),
            rev@.len() == i,
            forall|k: int| 0 <= k < i ==> rev@[k] == orig[n - 1 - k],
        decreases n - i,
    {
        let it = similar.pop().unwrap();
        rev.push(it);
        i = i + 1;
        assert(similar@ =~= orig.subrange(0, n - i));
    }
    let mut kept: Vec<SimilarGroup> = Vec::new();
    let mut j: usize = 0;
    while j < n
        invariant
            j <= n,
            n == orig.len(),
            rev@.len() == n - j,
            forall|k: int| 0 <= k < n - j ==> rev@[k] == orig[n - 1 - k],
            kept@ == reported(orig.subrange(0, j as int), exact@),
        decreases n - j,
    {
        let it = rev.pop().unwrap();
        assert(it == orig[j as int]);
        assert(orig.subrange(0, j + 1).drop_last() =~= orig.subrange(0, j as int));
        if keep_group(&it, exact) {
            kept.push(it);
        }
        j = j + 1;
    }
    assert(orig.subrange(0, n as int) =~= orig);
    kept
}

/// Sum of the groups' wasted bytes.
pub open spec fn groups_wasted(gs: Seq<SimilarGroup>) -> nat
    decreases gs.len(),
{
    if gs.len() == 0 {
        0
    } else {
        groups_wasted(gs.drop_last()) + gs.last().wasted_bytes as nat
    }
}

/// Number of files beyond the keeper, over all groups.
pub open spec fn groups_extra(gs: Seq<SimilarGroup>) -> nat
    decreases gs.len(),
{
    if gs.len() == 0 {
        0
    } else {
        groups_extra(gs.drop_last()) + (if gs.last().members@.len() > 0 {
            (gs.last().members@.len() - 1) as nat
        } else {
            0
        })
    }
}

/// A count capped at the largest `usize`.
pub open spec fn cap_usize(n: nat) -> usize {
    if n <= usize::MAX as nat { n as usize } else { usize::MAX }
}

fn sum_groups(gs: &Vec<SimilarGroup>) -> (r: (u64, usize))
    ensures
        r.0 == capped(groups_wasted(gs@)),
        r.1 == cap_usize(groups_extra(gs@)),
{
    let mut w: u64 = 0;
    let mut e: usize = 0;
    let mut i: usize = 0;
    while i < gs.len()
        invariant
            i <= gs@.len(),
            w == capped(groups_wasted(gs@.subrange(0, i as int))),
            e == cap_usize(groups_extra(gs@.subrange(0, i as int))),
        decreases gs@.len() - i,
    {
        assert(gs@.subrange(0, i + 1).drop_last() =~= gs@.subrange(0, i as int));
        w = w.saturating_add(gs[i].wasted_bytes);
        let extra = if gs[i].members.len() > 0 { gs[i].members.len() - 1 } else { 0 };
        e = e.saturating_add(extra);
        i = i + 1;
    }
    assert(gs@.subrange(0, gs@.len() as int) =~= gs@);
    (w, e)
}

/// The results of a search from its groups, with totals over both kinds
/// (capped at their largest values).
pub fn summarize_duplicates(
    exact_groups: Vec<SimilarGroup>,
    similar_groups: Vec<SimilarGroup>,
    files_scanned: usize,
    duration_ms: u64,
    errors: Vec<String>,
) -> (r: DupResults)
    ensures
        r.exact_groups == exact_groups,
        r.similar_groups == similar_groups,
        r.files_scanned == files_scanned,
        r.total_groups == cap_usize(exact_groups@.len() + similar_groups@.len()),
        r.total_wasted == capped(capped(groups_wasted(exact_groups@)) as nat + capped(groups_wasted(similar_groups@)) as nat),
        r.total_duplicates == cap_usize(cap_usize(groups_extra(exact_groups@)) as nat + cap_usize(groups_extra(similar_groups@)) as nat),
        r.duration_ms == duration_ms,
        r.errors == errors,
{
    let (we, ee) = sum_groups(&exact_groups);
    let (ws, es) = sum_groups(&similar_groups);
    let total_groups = exact_groups.len().saturating_add(similar_groups.len());
    DupResults {
        exact_groups,
        similar_groups,
        files_scanned,
        total_groups,
        total_wasted: we.saturating_add(ws),
        total_duplicates: ee.saturating_add(es),
        duration_ms,
        errors,
    }
}

} // verus!
