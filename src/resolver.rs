use vstd::prelude::*;
use crate::duplicates::{SimilarFile, SimilarGroup, capped};
use crate::safety::views;
use crate::text::{has_prefix, starts_with_text};

verus! {

/// Which file of a duplicate group to keep.
#[derive(Debug, Clone, PartialEq, Eq)]
pub enum ResolveStrategy {
    /// The largest file.
    KeepLargest,
    /// The most recently modified file.
    KeepNewest,
    /// The least recently modified file.
    KeepOldest,
    /// The first file inside this directory.
    KeepInDir(String),
    /// Left to the user; the first file until they choose.
    Interactive,
}

/// What resolving a group decided.
#[derive(Debug, Clone)]
pub struct ResolvedGroup {
    pub keep: String,
    pub remove: Vec<String>,
    pub bytes_freed: u64,
    pub reason: String,
}

/// Index of the last largest value among the first `n` (`n >= 1`).
pub open spec fn last_max(s: Seq<u64>, n: int) -> int
    decreases n,
{
    if n <= 1 {
        0
    } else {
        let p = last_max(s, n - 1);
        if s[n - 1] >= s[p] { n - 1 } else { p }
    }
}

/// Index of the first smallest value among the first `n` (`n >= 1`).
pub open spec fn first_min(s: Seq<u64>, n: int) -> int
    decreases n,
{
    if n <= 1 {
        0
    } else {
        let p = first_min(s, n - 1);
        if s[n - 1] < s[p] { n - 1 } else { p }
    }
}

/// `p` lies in directory `dir`, comparing whole path components.
pub open spec fn within(p: Seq<char>, dir: Seq<char>) -> bool {
    p == dir || has_prefix(p, dir + "/"@)
}

/// Index of the first path within `dir` among the first `n`, if any.
pub open spec fn first_within(paths: Seq<Seq<char>>, dir: Seq<char>, n: int) -> Option<int>
    decreases n,
{
    if n <= 0 {
        None
    } else {
        match first_within(paths, dir, n - 1) {
            Some(i) => Some(i),
            None => if within(paths[n - 1], dir) { Some(n - 1) } else { None },
        }
    }
}

pub open spec fn member_sizes(m: Seq<SimilarFile>) -> Seq<u64> {
    m.map_values(|f: SimilarFile| f.size_bytes)
}

pub open spec fn member_paths(m: Seq<SimilarFile>) -> Seq<Seq<char>> {
    m.map_values(|f: SimilarFile| f.path@)
}

/// Modification times, with an unknown one counted as the epoch.
pub open spec fn times_or_epoch(t: Seq<Option<u64>>) -> Seq<u64> {
    t.map_values(|x: Option<u64>| match x {
        Some(v) => v,
        None => 0u64,
    })
}

/// Which member a strategy keeps (`mtimes[i]` is member `i`'s modification time).
pub open spec fn keep_index(m: Seq<SimilarFile>, strategy: ResolveStrategy, mtimes: Seq<Option<u64>>) -> int {
    match strategy {
        ResolveStrategy::KeepLargest => last_max(member_sizes(m), m.len() as int),
        ResolveStrategy::KeepNewest => last_max(times_or_epoch(mtimes), m.len() as int),
        ResolveStrategy::KeepOldest => first_min(times_or_epoch(mtimes), m.len() as int),
        ResolveStrategy::KeepInDir(d) => match first_within(member_paths(m), d@, m.len() as int) {
            Some(i) => i,
            None => 0,
        },
        ResolveStrategy::Interactive => 0,
    }
}

/// All members but the one at `keep`, in order.
pub open spec fn others(m: Seq<SimilarFile>, keep: int) -> Seq<SimilarFile> {
    m.subrange(0, keep) + m.subrange(keep + 1, m.len() as int)
}

pub open spec fn sum_sizes(m: Seq<SimilarFile>) -> nat
    decreases m.len(),
{
    if m.len() == 0 {
        0
    } else {
        sum_sizes(m.drop_last()) + m.last().size_bytes as nat
    }
}

proof fn lemma_last_max_range(s: Seq<u64>, n: int)
    requires
        n >= 1,
    ensures
        0 <= last_max(s, n) < n,
    decreases n,
{
    if n > 1 {
        lemma_last_max_range(s, n - 1);
    }
}

proof fn lemma_first_min_range(s: Seq<u64>, n: int)
    requires
        n >= 1,
    ensures
        0 <= first_min(s, n) < n,
    decreases n,
{
    if n > 1 {
        lemma_first_min_range(s, n - 1);
    }
}

proof fn lemma_first_within_range(paths: Seq<Seq<char>>, dir: Seq<char>, n: int)
    ensures
        first_within(paths, dir, n) matches Some(i) ==> 0 <= i < n,
    decreases n,
{
    if n > 0 {
        lemma_first_within_range(paths, dir, n - 1);
    }
}

fn pick_last_max(s: &Vec<u64>) -> (r: usize)
    requires
        s@.len() >= 1,
    ensures
        r == last_max(s@, s@.len() as int),
{
    let mut best: usize = 0;
    let mut i: usize = 1;
    while i < s.len()
        invariant
            1 <= i <= s@.len(),
            best == last_max(s@, i as int),
        decreases s@.len() - i,
    {
        proof {
            lemma_last_max_range(s@, i as int);
        }
        if s[i] >= s[best] {
            best = i;
        }
        i = i + 1;
    }
    best
}

fn pick_first_min(s: &Vec<u64>) -> (r: usize)
    requires
        s@.len() >= 1,
    ensures
        r == first_min(s@, s@.len() as int),
{
    let mut best: usize = 0;
    let mut i: usize = 1;
    while i < s.len()
        invariant
            1 <= i <= s@.len(),
            best == first_min(s@, i as int),
        decreases s@.len() - i,
    {
        proof {
            lemma_first_min_range(s@, i as int);
        }
        if s[i] < s[best] {
            best = i;
        }
        i = i + 1;
    }
    best
}

fn member_size_list(m: &Vec<SimilarFile>) -> (r: Vec<u64>)
    ensures
        r@ == member_sizes(m@),
{
    let mut out: Vec<u64> = Vec::new();
    let mut i: usize = 0;
    while i < m.len()
        invariant
            i <= m@.len(),
            out@ == member_sizes(m@).subrange(0, i as int),
        decreases m@.len() - i,
    {
        out.push(m[i].size_bytes);
        assert(out@ =~= member_sizes(m@).subrange(0, i + 1));
        i = i + 1;
    }
    assert(member_sizes(m@).subrange(0, m@.len() as int) =~= member_sizes(m@));
    out
}

fn time_list(t: &Vec<Option<u64>>) -> (r: Vec<u64>)
    ensures
        r@ == times_or_epoch(t@),
{
    let mut out: Vec<u64> = Vec::new();
    let mut i: usize = 0;
    while i < t.len()
        invariant
            i <= t@.len(),
            out@ == times_or_epoch(t@).subrange(0, i as int),
        decreases t@.len() - i,
    {
        let v = match t[i] {
            Some(v) => v,
            None => 0,
        };
        out.push(v);
        assert(out@ =~= times_or_epoch(t@).subrange(0, i + 1));
        i = i + 1;
    }
    assert(times_or_epoch(t@).subrange(0, t@.len() as int) =~= times_or_epoch(t@));
    out
}

fn is_within(p: &String, dir: &String) -> (r: bool)
    ensures
        r == within(p@, dir@),
{
    if *p == *dir {
        return true;
    }
    let d = dir.clone().concat("/");
    starts_with_text(p.as_str(), d.as_str())
}

fn pick_in_dir(m: &Vec<SimilarFile>, dir: &String) -> (r: usize)
    ensures
        r == (match first_within(member_paths(m@), dir@, m@.len() as int) {
            Some(i) => i,
            None => 0,
        }),
{
    let mut i: usize = 0;
    while i < m.len()
        invariant
            i <= m@.len(),
            first_within(member_paths(m@), dir@, i as int) is None,
        decreases m@.len() - i,
    {
        if is_within(&m[i].path, dir) {
            proof {
                first_within_stays(member_paths(m@), dir@, i + 1, m@.len() as int);
            }
            return i;
        }
        i = i + 1;
    }
    0
}

proof fn first_within_stays(paths: Seq<Seq<char>>, dir: Seq<char>, a: int, b: int)
    requires
        0 <= a <= b,
        first_within(paths, dir, a) is Some,
    ensures
        first_within(paths, dir, b) == first_within(paths, dir, a),
    decreases b - a,
{
    if a < b {
        first_within_stays(paths, dir, a, b - 1);
    }
}

/// Decide which file of a group to keep and which to remove. `mtimes[i]` is the
/// modification time of member `i` when it could be read. An empty group keeps
/// nothing.
pub fn resolve_group(group: &SimilarGroup, strategy: &ResolveStrategy, mtimes: &Vec<Option<u64>>) -> (r: ResolvedGroup)
    requires
        mtimes@.len() == group.members@.len(),
    ensures
        group.members@.len() == 0 ==> r.keep@.len() == 0 && r.remove@.len() == 0 && r.bytes_freed == 0,
        group.members@.len() > 0 ==> {
            let k = keep_index(group.members@, *strategy, mtimes@);
            &&& 0 <= k < group.members@.len()
            &&& r.keep == group.members@[k].path
            &&& views(r.remove@) == member_paths(others(group.members@, k))
            &&& r.bytes_freed == capped(sum_sizes(others(group.members@, k)))
        },
{
    let members = &group.members;
    if members.len() == 0 {
        return ResolvedGroup {
            keep: String::new(),
            remove: Vec::new(),
            bytes_freed: 0,
            reason: String::from_str("Empty group"),
        };
    }
    let (idx, reason) = match strategy {
        ResolveStrategy::KeepLargest => {
            let sizes = member_size_list(members);
            (pick_last_max(&sizes), String::from_str("Largest file"))
        },
        ResolveStrategy::KeepNewest => {
            let times = time_list(mtimes);
            (pick_last_max(&times), String::from_str("Most recently modified"))
        },
        ResolveStrategy::KeepOldest => {
            let times = time_list(mtimes);
            (pick_first_min(&times), String::from_str("Oldest file (original)"))
        },
        ResolveStrategy::KeepInDir(dir) => {
            (pick_in_dir(members, dir), String::from_str("In preferred directory: ").concat(dir.as_str()))
        },
        ResolveStrategy::Interactive => (0, String::from_str("User selection (defaulting to first)")),
    };
    proof {
        lemma_last_max_range(member_sizes(members@), members@.len() as int);
        lemma_last_max_range(times_or_epoch(mtimes@), members@.len() as int);
        lemma_first_min_range(times_or_epoch(mtimes@), members@.len() as int);
        lemma_first_within_range(member_paths(members@), match strategy { ResolveStrategy::KeepInDir(d) => d@, _ => Seq::empty() }, members@.len() as int);
    }
    let ghost rest = others(members@, idx as int);
    let mut remove: Vec<String> = Vec::new();
    let mut freed: u64 = 0;
    let ghost mut seen: Seq<SimilarFile> = Seq::empty();
    let mut i: usize = 0;
    while i < members.len()
        invariant
            i <= members@.len(),
            idx < members@.len(),
            seen == (if i <= idx { members@.subrange(0, i as int) } else { others(members@, idx as int).subrange(0, i - 1) }),
            views(remove@) == member_paths(seen),
            freed == capped(sum_sizes(seen)),
        decreases members@.len() - i,
    {
        if i != idx {
            let ghost old_remove = remove@;
            let ghost old_seen = seen;
            remove.push(members[i].path.clone());
            assert(remove@ == old_remove.push(remove@.last()));
            assert(remove@.last()@ == members@[i as int].path@);
            freed = freed.saturating_add(members[i].size_bytes);
            proof {
                let s2 = seen.push(members@[i as int]);
                assert(s2.drop_last() =~= seen);
                seen = s2;
            }
            assert(seen == old_seen.push(members@[i as int]));
            assert(member_paths(seen) =~= member_paths(old_seen).push(members@[i as int].path@));
            assert(views(remove@) =~= views(old_remove).push(members@[i as int].path@));
        }
        i = i + 1;
        assert(seen =~= (if i <= idx { members@.subrange(0, i as int) } else { others(members@, idx as int).subrange(0, i - 1) }));
    }
    assert(seen =~= others(members@, idx as int));
    ResolvedGroup { keep: members[idx].path.clone(), remove, bytes_freed: freed, reason }
}

} // verus!
