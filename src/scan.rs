use vstd::prelude::*;
use crate::cache::{CacheEntry, ScanCache, lookup_spec, entry_matches};
use crate::targets::{SafetyLevel, ScanItem, ScanTarget};

verus! {

/// The outcome of a scan: items sorted by size, largest first, with totals.
#[derive(Debug, Clone)]
pub struct ScanResults {
    /// When the scan ran, in seconds since the epoch.
    pub timestamp_secs: i64,
    /// How long the scan took, in milliseconds.
    pub duration_ms: u64,
    pub items: Vec<ScanItem>,
    pub total_reclaimable: u64,
    pub total_files: usize,
    pub errors: Vec<String>,
}

/// Sum of the item sizes.
pub open spec fn items_bytes(s: Seq<ScanItem>) -> nat
    decreases s.len(),
{
    if s.len() == 0 {
        0
    } else {
        items_bytes(s.drop_last()) + s.last().size_bytes as nat
    }
}

/// Sum of the item file counts.
pub open spec fn items_files(s: Seq<ScanItem>) -> nat
    decreases s.len(),
{
    if s.len() == 0 {
        0
    } else {
        items_files(s.drop_last()) + s.last().file_count as nat
    }
}

/// A count capped at the largest `usize`.
pub open spec fn cap_count(n: nat) -> usize {
    if n <= usize::MAX as nat { n as usize } else { usize::MAX }
}

/// A byte count capped at the largest `u64`.
pub open spec fn cap_u64(n: nat) -> u64 {
    if n <= u64::MAX as nat { n as u64 } else { u64::MAX }
}

/// The items of a given safety level, in order.
pub open spec fn items_with_safety(s: Seq<ScanItem>, level: SafetyLevel) -> Seq<ScanItem>
    decreases s.len(),
{
    if s.len() == 0 {
        Seq::empty()
    } else if s.last().safety == level {
        items_with_safety(s.drop_last(), level).push(s.last())
    } else {
        items_with_safety(s.drop_last(), level)
    }
}

/// The items that hold at least one byte, in order.
pub open spec fn nonempty_items(s: Seq<ScanItem>) -> Seq<ScanItem>
    decreases s.len(),
{
    if s.len() == 0 {
        Seq::empty()
    } else if s.last().size_bytes > 0 {
        nonempty_items(s.drop_last()).push(s.last())
    } else {
        nonempty_items(s.drop_last())
    }
}

impl ScanResults {
    /// Empty results stamped with `now_secs`.
    pub fn new(now_secs: i64) -> (r: ScanResults)
        ensures
            r.timestamp_secs == now_secs,
            r.duration_ms == 0,
            r.items@.len() == 0,
            r.total_reclaimable == 0,
            r.total_files == 0,
            r.errors@.len() == 0,
    {
        ScanResults {
            timestamp_secs: now_secs,
            duration_ms: 0,
            items: Vec::new(),
            total_reclaimable: 0,
            total_files: 0,
            errors: Vec::new(),
        }
    }

    /// Recompute the totals from the items (capped at their largest values).
    pub fn recalculate(&mut self)
        ensures
            final(self).items == old(self).items,
            final(self).errors == old(self).errors,
            final(self).timestamp_secs == old(self).timestamp_secs,
            final(self).duration_ms == old(self).duration_ms,
            final(self).total_reclaimable == cap_u64(items_bytes(old(self).items@)),
            final(self).total_files == cap_count(items_files(old(self).items@)),
    {
        let mut bytes: u64 = 0;
        let mut files: usize = 0;
        let mut i: usize = 0;
        while i < self.items.len()
            invariant
                i <= self.items@.len(),
                bytes == cap_u64(items_bytes(self.items@.subrange(0, i as int))),
                files == cap_count(items_files(self.items@.subrange(0, i as int))),
            decreases self.items@.len() - i,
        {
            assert(self.items@.subrange(0, i + 1).drop_last() =~= self.items@.subrange(0, i as int));
            bytes = bytes.saturating_add(self.items[i].size_bytes);
            files = files.saturating_add(self.items[i].file_count);
            i = i + 1;
        }
        assert(self.items@.subrange(0, self.items@.len() as int) =~= self.items@);
        self.total_reclaimable = bytes;
        self.total_files = files;
    }

    /// The items of one safety level, in order.
    pub fn filter_by_safety(&self, level: SafetyLevel) -> (r: Vec<&ScanItem>)
        ensures
            r@.map_values(|a: &ScanItem| *a) == items_with_safety(self.items@, level),
    {
        let mut out: Vec<&ScanItem> = Vec::new();
        let mut i: usize = 0;
        while i < self.items.len()
            invariant
                i <= self.items@.len(),
                out@.map_values(|a: &ScanItem| *a) == items_with_safety(self.items@.subrange(0, i as int), level),
            decreases self.items@.len() - i,
        {
            assert(self.items@.subrange(0, i + 1).drop_last() =~= self.items@.subrange(0, i as int));
            if self.items[i].safety == level {
                out.push(&self.items[i]);
                assert(out@.map_values(|a: &ScanItem| *a) =~= items_with_safety(self.items@.subrange(0, i as int), level).push(self.items@[i as int]));
            }
            i = i + 1;
        }
        assert(self.items@.subrange(0, self.items@.len() as int) =~= self.items@);
        out
    }

    /// Drop the empty items, sort the rest by size (largest first, ties in
    /// their order) and recompute the totals.
    pub fn finish(&mut self)
        ensures
            final(self).items@.to_multiset() == nonempty_items(old(self).items@).to_multiset(),
            item_sorted(final(self).items@),
            final(self).total_reclaimable == cap_u64(items_bytes(final(self).items@)),
            final(self).total_files == cap_count(items_files(final(self).items@)),
            final(self).errors == old(self).errors,
            final(self).timestamp_secs == old(self).timestamp_secs,
    {
        let mut rest: Vec<ScanItem> = Vec::new();
        core::mem::swap(&mut rest, &mut self.items);
        let ghost orig = rest@;
        let n = rest.len();
        let mut rev: Vec<ScanItem> = Vec::new();
        let mut i: usize = 0;
        while i < n
            invariant
                i <= n,
                n == orig.len(),
                rest@ == orig.subrange(0, n - i),
                rev@.len() == i,
                forall|k: int| 0 <= k < i ==> rev@[k] == orig[n - 1 - k],
            decreases n - i,
        {
            let it = rest.pop().unwrap();
            rev.push(it);
            i = i + 1;
            assert(rest@ =~= orig.subrange(0, n - i));
        }
        let mut kept: Vec<ScanItem> = Vec::new();
        let mut j: usize = 0;
        while j < n
            invariant
                j <= n,
                n == orig.len(),
                rev@.len() == n - j,
                forall|k: int| 0 <= k < n - j ==> rev@[k] == orig[n - 1 - k],
                kept@ == nonempty_items(orig.subrange(0, j as int)),
            decreases n - j,
        {
            let it = rev.pop().unwrap();
            assert(it == orig[j as int]);
            assert(orig.subrange(0, j + 1).drop_last() =~= orig.subrange(0, j as int));
            if it.size_bytes > 0 {
                kept.push(it);
            }
            j = j + 1;
        }
        assert(orig.subrange(0, n as int) =~= orig);
        self.items = sort_items_by_size(kept);
        self.recalculate();
    }
}

/// Every expanded path of a target hits the cache.
pub open spec fn all_hit(
    m: Map<Seq<char>, CacheEntry>,
    paths: Seq<String>,
    mtimes: Seq<Option<u64>>,
) -> bool {
    forall|k: int| 0 <= k < paths.len() ==> (#[trigger] lookup_spec(m, paths[k]@, mtimes[k])) is Some
}

/// The item a cache hit stands for: the entry's figures under the target's
/// category and safety level.
pub open spec fn item_from_entry(it: ScanItem, e: CacheEntry, target: ScanTarget) -> bool {
    &&& it.name@ == e.name@
    &&& it.category == target.category
    &&& it.path@ == e.path@
    &&& it.size_bytes == e.size_bytes
    &&& it.file_count == e.file_count
    &&& it.safety == target.safety
    &&& it.reason@ == e.reason@
    &&& it.files@.len() == 0
}

/// The non-empty hits among the first `n` paths, in order.
pub open spec fn cached_hits(
    m: Map<Seq<char>, CacheEntry>,
    paths: Seq<String>,
    mtimes: Seq<Option<u64>>,
    n: int,
) -> Seq<CacheEntry>
    decreases n,
{
    if n <= 0 {
        Seq::empty()
    } else {
        let rest = cached_hits(m, paths, mtimes, n - 1);
        match lookup_spec(m, paths[n - 1]@, mtimes[n - 1]) {
            Some(e) => if e.size_bytes > 0 { rest.push(e) } else { rest },
            None => rest,
        }
    }
}

/// Try to serve a target from the cache. `expanded` are the target's paths and
/// `mtimes[k]` the current modification time of `expanded[k]`. Every path is
/// looked up (so the counters record each); the target is served only when all
/// of them hit, as the items of the non-empty hits.
pub fn serve_from_cache(
    target: &ScanTarget,
    expanded: &Vec<String>,
    mtimes: &Vec<Option<u64>>,
    cache: &mut ScanCache,
) -> (r: Option<Vec<ScanItem>>)
    requires
        expanded@.len() == mtimes@.len(),
    ensures
        final(cache).view() == old(cache).view(),
        final(cache).profile == old(cache).profile,
        r is Some <==> all_hit(old(cache).view(), expanded@, mtimes@),
        r matches Some(items) ==> {
            let hits = cached_hits(old(cache).view(), expanded@, mtimes@, expanded@.len() as int);
            &&& items@.len() == hits.len()
            &&& forall|k: int| 0 <= k < items@.len() ==> item_from_entry(#[trigger] items@[k], hits[k], *target)
        },
{
    let ghost m = cache.view();
    let mut items: Vec<ScanItem> = Vec::new();
    let mut all_cached = true;
    let mut k: usize = 0;
    while k < expanded.len()
        invariant
            k <= expanded@.len(),
            expanded@.len() == mtimes@.len(),
            cache.view() == m,
            cache.profile == old(cache).profile,
            m == old(cache).view(),
            all_cached <==> (forall|j: int| 0 <= j < k ==> (#[trigger] lookup_spec(m, expanded@[j]@, mtimes@[j])) is Some),
            items@.len() == cached_hits(m, expanded@, mtimes@, k as int).len(),
            forall|j: int| 0 <= j < items@.len() ==> item_from_entry(#[trigger] items@[j], cached_hits(m, expanded@, mtimes@, k as int)[j], *target),
        decreases expanded@.len() - k,
    {
        let ghost prev = cached_hits(m, expanded@, mtimes@, k as int);
        match cache.check(expanded[k].as_str(), mtimes[k]) {
            Some(e) => {
                if e.size_bytes > 0 {
                    items.push(ScanItem {
                        name: e.name,
                        category: target.category,
                        path: e.path,
                        size_bytes: e.size_bytes,
                        file_count: e.file_count,
                        safety: target.safety,
                        reason: e.reason,
                        files: Vec::new(),
                    });
                }
            },
            None => {
                all_cached = false;
            },
        }
        k = k + 1;
    }
    if all_cached {
        Some(items)
    } else {
        None
    }
}

/// Record a freshly scanned item: it goes into the cache with the directory's
/// modification time, and into the results when it holds at least one byte.
pub fn absorb_scanned(results: &mut ScanResults, cache: &mut ScanCache, item: ScanItem, mtime: Option<u64>)
    ensures
        final(cache).view() == old(cache).view().insert(item.path@, final(cache).entries@.last()),
        entry_matches(final(cache).entries@.last(), item, match mtime {
            Some(t) => t,
            None => 0,
        }),
        final(results).items@ == (if item.size_bytes > 0 {
            old(results).items@.push(item)
        } else {
            old(results).items@
        }),
        final(results).errors == old(results).errors,
{
    cache.store(&item, mtime);
    if item.size_bytes > 0 {
        results.items.push(item);
    }
}

/// A rescan with nothing changed is served from the cache: when every expanded
/// path was stored with its current modification time, every lookup hits and
/// gives back what was stored.
pub proof fn lemma_rescan_hits(
    m: Map<Seq<char>, CacheEntry>,
    paths: Seq<String>,
    mtimes: Seq<Option<u64>>,
)
    requires
        paths.len() == mtimes.len(),
        forall|k: int| 0 <= k < paths.len() ==> mtimes[k] is Some && m.contains_key(#[trigger] paths[k]@)
            && m[paths[k]@].mtime_secs == mtimes[k]->0,
    ensures
        all_hit(m, paths, mtimes),
        forall|k: int| 0 <= k < paths.len() ==> lookup_spec(m, #[trigger] paths[k]@, mtimes[k]) == Some(m[paths[k]@]),
{
}

/// `s` is ordered by size, largest first.
pub open spec fn item_sorted(s: Seq<ScanItem>) -> bool {
    forall|a: int, b: int| 0 <= a < b < s.len() ==> #[trigger] s[a].size_bytes >= #[trigger] s[b].size_bytes
}

proof fn lemma_insert_item_ms(s: Seq<ScanItem>, i: int, x: ScanItem)
    requires
        0 <= i <= s.len(),
    ensures
        s.insert(i, x).to_multiset() == s.to_multiset().insert(x),
{
    broadcast use vstd::seq_lib::group_to_multiset_ensures;
    let t = s.insert(i, x);
    s.insert_ensures(i, x);
    assert(t.remove(i) =~= s);
    assert(t.to_multiset().count(x) > 0) by {
        assert(t.contains(x));
    }
    assert(t.to_multiset() =~= t.to_multiset().remove(x).insert(x));
}

/// Order `items` by size, largest first; items with equal keys keep their order.
pub fn sort_items_by_size(items: Vec<ScanItem>) -> (r: Vec<ScanItem>)
    ensures
        item_sorted(r@),
        r@.to_multiset() == items@.to_multiset(),
        r@.len() == items@.len(),
{
    broadcast use vstd::seq_lib::group_to_multiset_ensures;
    let mut items = items;
    let ghost orig = items@;
    let mut out: Vec<ScanItem> = Vec::new();
    // Take the items from the back so that the remaining ones stay a prefix.
    let n = items.len();
    let mut taken: usize = 0;
    while taken < n
        invariant
            taken <= n,
            n == orig.len(),
            items@ == orig.subrange(0, n - taken),
            item_sorted(out@),
            out@.to_multiset() == orig.subrange(n - taken, n as int).to_multiset(),
            out@.len() == taken,
        decreases n - taken,
    {
        let x = items.pop().unwrap();
        assert(x == orig[n - taken - 1]);
        // Insert before the first element whose key is not larger, so that the
        // earlier item (x) comes before equal keys already placed.
        let mut p: usize = 0;
        while p < out.len() && out[p].size_bytes > x.size_bytes
            invariant
                p <= out@.len(),
                forall|a: int| 0 <= a < p ==> #[trigger] out@[a].size_bytes > x.size_bytes,
            decreases out@.len() - p,
        {
            p = p + 1;
        }
        assert(p == out@.len() || out@[p as int].size_bytes <= x.size_bytes);
        let ghost before = out@;
        out.insert(p, x);
        proof {
            lemma_insert_item_ms(before, p as int, x);
            before.insert_ensures(p as int, x);
            assert(orig.subrange(n - taken - 1, n as int) =~= orig.subrange(n - taken, n as int).insert(0, x));
            lemma_insert_item_ms(orig.subrange(n - taken, n as int), 0, x);
            assert forall|a: int, b: int| 0 <= a < b < out@.len() implies #[trigger] out@[a].size_bytes >= #[trigger] out@[b].size_bytes by {
                if b < p {
                } else if b == p {
                } else if a < p {
                    assert(out@[b] == before[b - 1]);
                } else if a == p {
                    assert(out@[b] == before[b - 1]);
                    if p < before.len() {
                        assert(before[p as int].size_bytes <= x.size_bytes);
                    }
                } else {
                    assert(out@[a] == before[a - 1]);
                    assert(out@[b] == before[b - 1]);
                }
            }
        }
        taken = taken + 1;
        assert(items@ =~= orig.subrange(0, n - taken));
    }
    assert(orig.subrange(0, n as int) =~= orig);
    out
}

} // verus!
