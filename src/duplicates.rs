use vstd::prelude::*;

verus! {

/// How the members of a group resemble each other.
#[derive(Debug, Clone, Copy, PartialEq, Eq, Structural)]
pub enum MatchType {
    /// Byte-identical files.
    Exact,
    /// Visually similar images.
    PerceptuallySimilar,
}

/// One file of a duplicate group. `distance` is the number of fingerprint bits in
/// which it differs from the group's seed (0 for exact duplicates); the similarity
/// shown to users is `1 - distance / 256`.
#[derive(Debug, Clone, PartialEq, Eq)]
pub struct SimilarFile {
    pub path: String,
    pub size_bytes: u64,
    pub distance: u32,
}

/// A group of duplicate or similar files. The first member is the keeper.
#[derive(Debug, Clone)]
pub struct SimilarGroup {
    pub members: Vec<SimilarFile>,
    pub wasted_bytes: u64,
    pub match_type: MatchType,
}

/// Sum of the member sizes.
pub open spec fn sum_member_sizes(s: Seq<SimilarFile>) -> nat
    decreases s.len(),
{
    if s.len() == 0 {
        0
    } else {
        sum_member_sizes(s.drop_last()) + s.last().size_bytes as nat
    }
}

/// A byte count capped at the largest `u64`.
pub open spec fn capped(n: nat) -> u64 {
    if n <= u64::MAX as nat { n as u64 } else { u64::MAX }
}

/// The bytes freed by keeping only the first member: the sum of all the others.
pub open spec fn wasted_of(members: Seq<SimilarFile>) -> u64 {
    if members.len() == 0 {
        0
    } else {
        capped(sum_member_sizes(members.subrange(1, members.len() as int)))
    }
}

impl SimilarGroup {
    /// Members ordered by size, largest (the keeper) first, with the wasted
    /// bytes those after the keeper occupy.
    pub open spec fn wf(&self) -> bool {
        &&& member_sorted(self.members@)
        &&& self.wasted_bytes == wasted_of(self.members@)
    }
}

proof fn lemma_sum_members_prefix(s: Seq<SimilarFile>, i: int)
    requires
        0 <= i < s.len(),
    ensures
        sum_member_sizes(s.subrange(0, i + 1)) == sum_member_sizes(s.subrange(0, i)) + s[i].size_bytes,
{
    assert(s.subrange(0, i + 1).drop_last() =~= s.subrange(0, i));
}

/// Sum of the sizes, capped at the largest `u64`.
pub fn total_member_bytes(s: &[SimilarFile], from: usize) -> (r: u64)
    requires
        from <= s@.len(),
    ensures
        r == capped(sum_member_sizes(s@.subrange(from as int, s@.len() as int))),
{
    let ghost t = s@.subrange(from as int, s@.len() as int);
    let mut total: u64 = 0;
    let mut i: usize = from;
    while i < s.len()
        invariant
            from <= i <= s@.len(),
            t == s@.subrange(from as int, s@.len() as int),
            total == capped(sum_member_sizes(t.subrange(0, i - from))),
        decreases s@.len() - i,
    {
        proof {
            lemma_sum_members_prefix(t, i - from);
            assert(t[i - from] == s@[i as int]);
        }
        total = total.saturating_add(s[i].size_bytes);
        i = i + 1;
    }
    assert(t.subrange(0, s@.len() - from) =~= t);
    total
}

/// `s` is ordered by size, largest first.
pub open spec fn member_sorted(s: Seq<SimilarFile>) -> bool {
    forall|a: int, b: int| 0 <= a < b < s.len() ==> #[trigger] s[a].size_bytes >= #[trigger] s[b].size_bytes
}

proof fn lemma_insert_member_ms(s: Seq<SimilarFile>, i: int, x: SimilarFile)
    requires
        0 <= i <= s.len(),
    ensures
        s.insert(i, x).to_multiset() == s.to_multiset().insert(x),
{
    broadcast use vstd::seq_lib::group_to_multiset_ensures;
    let t = s.insert(i, x);
    s.insert_ensures(i, x);
    assert(t.remove(i) =~= s);
    assert(t.to_multiset().count(x) > 0) by {
        assert(t.contains(x));
    }
    assert(t.to_multiset() =~= t.to_multiset().remove(x).insert(x));
}

/// Order `items` by size, largest first; items with equal keys keep their order.
pub fn sort_members_by_size(items: Vec<SimilarFile>) -> (r: Vec<SimilarFile>)
    ensures
        member_sorted(r@),
        r@.to_multiset() == items@.to_multiset(),
        r@.len() == items@.len(),
{
    broadcast use vstd::seq_lib::group_to_multiset_ensures;
    let mut items = items;
    let ghost orig = items@;
    let mut out: Vec<SimilarFile> = Vec::new();
    // Take the items from the back so that the remaining ones stay a prefix.
    let n = items.len();
    let mut taken: usize = 0;
    while taken < n
        invariant
            taken <= n,
            n == orig.len(),
            items@ == orig.subrange(0, n - taken),
            member_sorted(out@),
            out@.to_multiset() == orig.subrange(n - taken, n as int).to_multiset(),
            out@.len() == taken,
        decreases n - taken,
    {
        let x = items.pop().unwrap();
        assert(x == orig[n - taken - 1]);
        // Insert before the first element whose key is not larger, so that the
        // earlier item (x) comes before equal keys already placed.
        let mut p: usize = 0;
        while p < out.len() && out[p].size_bytes > x.size_bytes
            invariant
                p <= out@.len(),
                forall|a: int| 0 <= a < p ==> #[trigger] out@[a].size_bytes > x.size_bytes,
            decreases out@.len() - p,
        {
            p = p + 1;
        }
        assert(p == out@.len() || out@[p as int].size_bytes <= x.size_bytes);
        let ghost before = out@;
        out.insert(p, x);
        proof {
            lemma_insert_member_ms(before, p as int, x);
            before.insert_ensures(p as int, x);
            assert(orig.subrange(n - taken - 1, n as int) =~= orig.subrange(n - taken, n as int).insert(0, x));
            lemma_insert_member_ms(orig.subrange(n - taken, n as int), 0, x);
            assert forall|a: int, b: int| 0 <= a < b < out@.len() implies #[trigger] out@[a].size_bytes >= #[trigger] out@[b].size_bytes by {
                if b < p {
                } else if b == p {
                } else if a < p {
                    assert(out@[b] == before[b - 1]);
                } else if a == p {
                    assert(out@[b] == before[b - 1]);
                    if p < before.len() {
                        assert(before[p as int].size_bytes <= x.size_bytes);
                    }
                } else {
                    assert(out@[a] == before[a - 1]);
                    assert(out@[b] == before[b - 1]);
                }
            }
        }
        taken = taken + 1;
        assert(items@ =~= orig.subrange(0, n - taken));
    }
    assert(orig.subrange(0, n as int) =~= orig);
    out
}

/// `s` is ordered by wasted bytes, largest first.
pub open spec fn group_sorted(s: Seq<SimilarGroup>) -> bool {
    forall|a: int, b: int| 0 <= a < b < s.len() ==> #[trigger] s[a].wasted_bytes >= #[trigger] s[b].wasted_bytes
}

proof fn lemma_insert_group_ms(s: Seq<SimilarGroup>, i: int, x: SimilarGroup)
    requires
        0 <= i <= s.len(),
    ensures
        s.insert(i, x).to_multiset() == s.to_multiset().insert(x),
{
    broadcast use vstd::seq_lib::group_to_multiset_ensures;
    let t = s.insert(i, x);
    s.insert_ensures(i, x);
    assert(t.remove(i) =~= s);
    assert(t.to_multiset().count(x) > 0) by {
        assert(t.contains(x));
    }
    assert(t.to_multiset() =~= t.to_multiset().remove(x).insert(x));
}

/// Order `items` by wasted bytes, largest first; items with equal keys keep their order.
pub fn sort_groups_by_wasted(items: Vec<SimilarGroup>) -> (r: Vec<SimilarGroup>)
    ensures
        group_sorted(r@),
        r@.to_multiset() == items@.to_multiset(),
        r@.len() == items@.len(),
{
    broadcast use vstd::seq_lib::group_to_multiset_ensures;
    let mut items = items;
    let ghost orig = items@;
    let mut out: Vec<SimilarGroup> = Vec::new();
    // Take the items from the back so that the remaining ones stay a prefix.
    let n = items.len();
    let mut taken: usize = 0;
    while taken < n
        invariant
            taken <= n,
            n == orig.len(),
            items@ == orig.subrange(0, n - taken),
            group_sorted(out@),
            out@.to_multiset() == orig.subrange(n - taken, n as int).to_multiset(),
            out@.len() == taken,
        decreases n - taken,
    {
        let x = items.pop().unwrap();
        assert(x == orig[n - taken - 1]);
        // Insert before the first element whose key is not larger, so that the
        // earlier item (x) comes before equal keys already placed.
        let mut p: usize = 0;
        while p < out.len() && out[p].wasted_bytes > x.wasted_bytes
            invariant
                p <= out@.len(),
                forall|a: int| 0 <= a < p ==> #[trigger] out@[a].wasted_bytes > x.wasted_bytes,
            decreases out@.len() - p,
        {
            p = p + 1;
        }
        assert(p == out@.len() || out@[p as int].wasted_bytes <= x.wasted_bytes);
        let ghost before = out@;
        out.insert(p, x);
        proof {
            lemma_insert_group_ms(before, p as int, x);
            before.insert_ensures(p as int, x);
            assert(orig.subrange(n - taken - 1, n as int) =~= orig.subrange(n - taken, n as int).insert(0, x));
            lemma_insert_group_ms(orig.subrange(n - taken, n as int), 0, x);
            assert forall|a: int, b: int| 0 <= a < b < out@.len() implies #[trigger] out@[a].wasted_bytes >= #[trigger] out@[b].wasted_bytes by {
                if b < p {
                } else if b == p {
                } else if a < p {
                    assert(out@[b] == before[b - 1]);
                } else if a == p {
                    assert(out@[b] == before[b - 1]);
                    if p < before.len() {
                        assert(before[p as int].wasted_bytes <= x.wasted_bytes);
                    }
                } else {
                    assert(out@[a] == before[a - 1]);
                    assert(out@[b] == before[b - 1]);
                }
            }
        }
        taken = taken + 1;
        assert(items@ =~= orig.subrange(0, n - taken));
    }
    assert(orig.subrange(0, n as int) =~= orig);
    out
}

/// A group from its members: sorted by size, largest first, with its wasted bytes.
pub fn build_group(members: Vec<SimilarFile>, match_type: MatchType) -> (r: SimilarGroup)
    ensures
        r.wf(),
        r.members@.to_multiset() == members@.to_multiset(),
        r.members@.len() == members@.len(),
        r.match_type == match_type,
{
    let sorted = sort_members_by_size(members);
    let wasted = if sorted.len() == 0 {
        0
    } else {
        total_member_bytes(sorted.as_slice(), 1)
    };
    SimilarGroup { members: sorted, wasted_bytes: wasted, match_type }
}

/// The keeper of a well-formed group is its largest member, and its wasted bytes
/// are the sum of the sizes of all other members (capped at the largest `u64`).
pub proof fn lemma_keeper_largest(g: SimilarGroup)
    requires
        g.wf(),
        g.members@.len() > 0,
    ensures
        forall|i: int| 0 <= i < g.members@.len() ==> g.members@[0].size_bytes >= #[trigger] g.members@[i].size_bytes,
        g.wasted_bytes == capped(sum_member_sizes(g.members@.subrange(1, g.members@.len() as int))),
{
    assert forall|i: int| 0 <= i < g.members@.len() implies g.members@[0].size_bytes >= #[trigger] g.members@[i].size_bytes by {
        if i > 0 {
            assert(g.members@[0].size_bytes >= g.members@[i].size_bytes);
        }
    }
}

/// The display name of a value of `MatchType`.
pub open spec fn match_type_text(k: MatchType) -> Seq<char> {
    match k {
        MatchType::Exact => "Exact"@,
        MatchType::PerceptuallySimilar => "Similar"@,
    }
}

/// The display name of a value of `MatchType`.
pub fn match_type_label(k: MatchType) -> (r: String)
    ensures
        r@ == match_type_text(k),
{
    match k {
        MatchType::Exact => String::from_str("Exact"),
        MatchType::PerceptuallySimilar => String::from_str("Similar"),
    }
}

} // verus!
