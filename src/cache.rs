use vstd::prelude::*;
use crate::targets::{ScanItem, category_label, category_text, safety_label, safety_text};

verus! {

/// What the cache remembers of one scanned path.
#[derive(Debug, Clone)]
pub struct CacheEntry {
    pub path: String,
    /// The directory's modification time, in seconds since the epoch, when it was scanned.
    pub mtime_secs: u64,
    pub size_bytes: u64,
    pub file_count: usize,
    pub category: String,
    pub name: String,
    pub safety: String,
    pub reason: String,
}

/// Counters of cache lookups.
#[derive(Debug, Clone, Copy, Default, PartialEq, Eq, Structural)]
pub struct CacheStats {
    pub hits: usize,
    pub misses: usize,
    pub invalidated: usize,
}

/// The scan cache of one profile. Its entries form a log in which a later entry
/// for a path replaces any earlier one; `view` gives the map that results.
#[derive(Debug, Clone)]
pub struct ScanCache {
    pub profile: String,
    /// When the cache was last written, in seconds since the epoch.
    pub timestamp_secs: i64,
    pub entries: Vec<CacheEntry>,
    pub stats: CacheStats,
}

/// The map from path to entry that a log of entries describes.
pub open spec fn entry_map(s: Seq<CacheEntry>) -> Map<Seq<char>, CacheEntry>
    decreases s.len(),
{
    if s.len() == 0 {
        Map::empty()
    } else {
        entry_map(s.drop_last()).insert(s.last().path@, s.last())
    }
}

/// The log without the entries for `key`.
pub open spec fn without_key(s: Seq<CacheEntry>, key: Seq<char>) -> Seq<CacheEntry>
    decreases s.len(),
{
    if s.len() == 0 {
        s
    } else if s.last().path@ == key {
        without_key(s.drop_last(), key)
    } else {
        without_key(s.drop_last(), key).push(s.last())
    }
}

proof fn lemma_without_key(s: Seq<CacheEntry>, key: Seq<char>)
    ensures
        entry_map(without_key(s, key)) == entry_map(s).remove(key),
    decreases s.len(),
{
    if s.len() > 0 {
        lemma_without_key(s.drop_last(), key);
        let w = without_key(s.drop_last(), key);
        if s.last().path@ != key {
            assert(w.push(s.last()).drop_last() =~= w);
        }
        assert(entry_map(without_key(s, key)) =~= entry_map(s).remove(key));
    } else {
        assert(entry_map(s).remove(key) =~= Map::empty());
    }
}

proof fn lemma_last_match(s: Seq<CacheEntry>, key: Seq<char>, i: int)
    requires
        0 <= i < s.len(),
        s[i].path@ == key,
        forall|j: int| i < j < s.len() ==> s[j].path@ != key,
    ensures
        entry_map(s).contains_key(key),
        entry_map(s)[key] == s[i],
    decreases s.len(),
{
    if i < s.len() - 1 {
        lemma_last_match(s.drop_last(), key, i);
    }
}

proof fn lemma_no_match(s: Seq<CacheEntry>, key: Seq<char>)
    requires
        forall|j: int| 0 <= j < s.len() ==> s[j].path@ != key,
    ensures
        !entry_map(s).contains_key(key),
    decreases s.len(),
{
    if s.len() > 0 {
        lemma_no_match(s.drop_last(), key);
    }
}

/// One more, unless the counter is already at its largest value.
pub open spec fn bump(x: usize) -> usize {
    if x < usize::MAX { (x + 1) as usize } else { x }
}

/// The entry served for `key` when the directory's current modification time is
/// `current_mtime` (unknown when it cannot be read).
pub open spec fn lookup_spec(
    m: Map<Seq<char>, CacheEntry>,
    key: Seq<char>,
    current_mtime: Option<u64>,
) -> Option<CacheEntry> {
    match current_mtime {
        Some(t) => if m.contains_key(key) && m[key].mtime_secs == t {
            Some(m[key])
        } else {
            None
        },
        None => None,
    }
}

/// The counters after one lookup: a hit, an invalidation (stored time differs),
/// or a miss (no entry); nothing moves when the time cannot be read.
pub open spec fn stats_after(
    st: CacheStats,
    m: Map<Seq<char>, CacheEntry>,
    key: Seq<char>,
    current_mtime: Option<u64>,
) -> CacheStats {
    match current_mtime {
        Some(t) => if m.contains_key(key) {
            if m[key].mtime_secs == t {
                CacheStats { hits: bump(st.hits), ..st }
            } else {
                CacheStats { invalidated: bump(st.invalidated), ..st }
            }
        } else {
            CacheStats { misses: bump(st.misses), ..st }
        },
        None => st,
    }
}

/// `e` records `item`, scanned when its directory had modification time `t`.
pub open spec fn entry_matches(e: CacheEntry, item: ScanItem, t: u64) -> bool {
    &&& e.path@ == item.path@
    &&& e.mtime_secs == t
    &&& e.size_bytes == item.size_bytes
    &&& e.file_count == item.file_count
    &&& e.category@ == category_text(item.category)
    &&& e.name@ == item.name@
    &&& e.safety@ == safety_text(item.safety)
    &&& e.reason@ == item.reason@
}

fn copy_entry(e: &CacheEntry) -> (r: CacheEntry)
    ensures
        r == *e,
{
    CacheEntry {
        path: e.path.clone(),
        mtime_secs: e.mtime_secs,
        size_bytes: e.size_bytes,
        file_count: e.file_count,
        category: e.category.clone(),
        name: e.name.clone(),
        safety: e.safety.clone(),
        reason: e.reason.clone(),
    }
}

fn bump_exec(x: usize) -> (r: usize)
    ensures
        r == bump(x),
{
    x.saturating_add(1)
}

impl ScanCache {
    /// The map from path to entry that the cache holds.
    pub open spec fn view(&self) -> Map<Seq<char>, CacheEntry> {
        entry_map(self.entries@)
    }

    /// An empty cache for `profile`, stamped with `now_secs`.
    pub fn new(profile: &str, now_secs: i64) -> (r: ScanCache)
        ensures
            r.profile@ == profile@,
            r.timestamp_secs == now_secs,
            r.view() == Map::<Seq<char>, CacheEntry>::empty(),
            r.stats == (CacheStats { hits: 0, misses: 0, invalidated: 0 }),
    {
        let r = ScanCache {
            profile: String::from_str(profile),
            timestamp_secs: now_secs,
            entries: Vec::new(),
            stats: CacheStats { hits: 0, misses: 0, invalidated: 0 },
        };
        assert(r.view() =~= Map::<Seq<char>, CacheEntry>::empty());
        r
    }

    /// The cache to use for `profile`: the loaded one when it was built for the same
    /// profile, else a fresh empty one. A cache of another profile is discarded whole.
    pub fn for_profile(loaded: Option<ScanCache>, profile: &str, now_secs: i64) -> (r: ScanCache)
        ensures
            r.profile@ == profile@,
            match loaded {
                Some(c) if c.profile@ == profile@ => r == c,
                _ => r.view() == Map::<Seq<char>, CacheEntry>::empty() && r.timestamp_secs
                    == now_secs,
            },
    {
        match loaded {
            Some(c) => {
                let p = String::from_str(profile);
                if c.profile == p {
                    c
                } else {
                    ScanCache::new(profile, now_secs)
                }
            },
            None => ScanCache::new(profile, now_secs),
        }
    }

    /// Index of the latest entry for `key`, if any.
    fn find(&self, key: &String) -> (r: Option<usize>)
        ensures
            match r {
                Some(i) => i < self.entries@.len() && self.entries@[i as int].path@ == key@
                    && self.view().contains_key(key@) && self.view()[key@]
                    == self.entries@[i as int],
                None => !self.view().contains_key(key@),
            },
    {
        let mut i: usize = self.entries.len();
        while i > 0
            invariant
                i <= self.entries@.len(),
                forall|j: int| i <= j < self.entries@.len() ==> self.entries@[j].path@ != key@,
            decreases i,
        {
            i = i - 1;
            if self.entries[i].path == *key {
                proof {
                    lemma_last_match(self.entries@, key@, i as int);
                }
                return Some(i);
            }
        }
        proof {
            lemma_no_match(self.entries@, key@);
        }
        None
    }

    /// Look `path` up, given the directory's current modification time. A hit needs
    /// a stored entry with the same time; the counters record a hit, an invalidation
    /// or a miss. When the time cannot be read nothing is served and nothing counted.
    pub fn check(&mut self, path: &str, current_mtime: Option<u64>) -> (r: Option<CacheEntry>)
        ensures
            r == lookup_spec(old(self).view(), path@, current_mtime),
            final(self).stats == stats_after(old(self).stats, old(self).view(), path@, current_mtime),
            final(self).entries == old(self).entries,
            final(self).profile == old(self).profile,
            final(self).timestamp_secs == old(self).timestamp_secs,
    {
        let t = match current_mtime {
            Some(t) => t,
            None => {
                return None;
            },
        };
        let key = String::from_str(path);
        match self.find(&key) {
            Some(i) => {
                if self.entries[i].mtime_secs == t {
                    self.stats.hits = bump_exec(self.stats.hits);
                    Some(copy_entry(&self.entries[i]))
                } else {
                    self.stats.invalidated = bump_exec(self.stats.invalidated);
                    None
                }
            },
            None => {
                self.stats.misses = bump_exec(self.stats.misses);
                None
            },
        }
    }

    /// Keep only the entries whose path is not `key`.
    fn drop_key(&mut self, key: &String)
        ensures
            final(self).entries@ == without_key(old(self).entries@, key@),
            final(self).view() == old(self).view().remove(key@),
            final(self).profile == old(self).profile,
            final(self).timestamp_secs == old(self).timestamp_secs,
            final(self).stats == old(self).stats,
    {
        let mut kept: Vec<CacheEntry> = Vec::new();
        let mut i: usize = 0;
        while i < self.entries.len()
            invariant
                i <= self.entries@.len(),
                kept@ == without_key(self.entries@.subrange(0, i as int), key@),
            decreases self.entries@.len() - i,
        {
            assert(self.entries@.subrange(0, i + 1).drop_last() =~= self.entries@.subrange(0, i as int));
            if self.entries[i].path != *key {
                kept.push(copy_entry(&self.entries[i]));
            }
            i = i + 1;
        }
        assert(self.entries@.subrange(0, self.entries@.len() as int) =~= self.entries@);
        proof {
            lemma_without_key(self.entries@, key@);
        }
        self.entries = kept;
    }

    /// Record `item` as scanned when its directory had modification time
    /// `mtime` (0 when it could not be read), replacing any entry for its path.
    pub fn store(&mut self, item: &ScanItem, mtime: Option<u64>)
        ensures
            final(self).entries@.len() > 0,
            final(self).view() == old(self).view().insert(item.path@, final(self).entries@.last()),
            entry_matches(final(self).entries@.last(), *item, match mtime {
                Some(t) => t,
                None => 0,
            }),
            final(self).profile == old(self).profile,
            final(self).stats == old(self).stats,
            final(self).timestamp_secs == old(self).timestamp_secs,
    {
        let t = match mtime {
            Some(t) => t,
            None => 0,
        };
        let key = item.path.clone();
        self.drop_key(&key);
        let e = CacheEntry {
            path: key,
            mtime_secs: t,
            size_bytes: item.size_bytes,
            file_count: item.file_count,
            category: category_label(item.category),
            name: item.name.clone(),
            safety: safety_label(item.safety),
            reason: item.reason.clone(),
        };
        let ghost before = self.entries@;
        self.entries.push(e);
        assert(self.entries@.drop_last() =~= before);
        assert(self.view() =~= old(self).view().remove(item.path@).insert(item.path@, self.entries@.last()));
        assert(self.view() =~= old(self).view().insert(item.path@, self.entries@.last()));
    }

    /// Forget the entry for `path`, after the directory was cleaned.
    pub fn invalidate(&mut self, path: &str)
        ensures
            final(self).view() == old(self).view().remove(path@),
            final(self).profile == old(self).profile,
            final(self).stats == old(self).stats,
            final(self).timestamp_secs == old(self).timestamp_secs,
    {
        let key = String::from_str(path);
        self.drop_key(&key);
    }

    /// Number of paths the cache holds entries for.
    pub fn entry_count(&self) -> (r: usize)
        ensures
            r == self.entries@.len(),
    {
        self.entries.len()
    }
}

/// A lookup right after a store, with the directory unchanged, is a hit that
/// gives back the stored byte and file counts.
pub proof fn lemma_check_after_store(
    m: Map<Seq<char>, CacheEntry>,
    item: ScanItem,
    t: u64,
    e: CacheEntry,
)
    requires
        entry_matches(e, item, t),
    ensures
        lookup_spec(m.insert(item.path@, e), item.path@, Some(t)) == Some(e),
        e.size_bytes == item.size_bytes,
        e.file_count == item.file_count,
        stats_after(CacheStats { hits: 0, misses: 0, invalidated: 0 }, m.insert(item.path@, e),
            item.path@, Some(t)).hits == 1,
{
}

/// How long ago, as shown to users: seconds, minutes, hours or days, rounded down.
pub open spec fn age_text(secs: int) -> Seq<char> {
    if secs < 60 {
        (if secs < 0 { "-"@ + crate::format::decimal_text((-secs) as nat) } else { crate::format::decimal_text(secs as nat) }) + "s ago"@
    } else if secs < 3600 {
        crate::format::decimal_text((secs / 60) as nat) + "m ago"@
    } else if secs < 86400 {
        crate::format::decimal_text((secs / 3600) as nat) + "h ago"@
    } else {
        crate::format::decimal_text((secs / 86400) as nat) + "d ago"@
    }
}

impl ScanCache {
    /// The cache's age at `now_secs`, as shown to users.
    pub fn age_string(&self, now_secs: i64) -> (r: String)
        requires
            i64::MIN / 2 <= now_secs <= i64::MAX / 2,
            i64::MIN / 2 <= self.timestamp_secs <= i64::MAX / 2,
        ensures
            r@ == age_text(now_secs - self.timestamp_secs),
    {
        let secs: i64 = now_secs - self.timestamp_secs;
        if secs < 60 {
            let digits = if secs < 0 {
                String::from_str("-").concat(crate::format::decimal((0 - secs) as u64).as_str())
            } else {
                crate::format::decimal(secs as u64)
            };
            digits.concat("s ago")
        } else if secs < 3600 {
            crate::format::decimal((secs / 60) as u64).concat("m ago")
        } else if secs < 86400 {
            crate::format::decimal((secs / 3600) as u64).concat("h ago")
        } else {
            crate::format::decimal((secs / 86400) as u64).concat("d ago")
        }
    }
}

} // verus!
