use vstd::prelude::*;
use crate::targets::{Category, FileEntry, ScanTarget};

verus! {

/// Seconds in a day.
pub const DAY_SECS: u64 = 86_400;

/// Bytes in one allocated block as the file system reports them.
pub const BLOCK_BYTES: u64 = 512;

/// `s` with every `~` replaced by `home`.
pub open spec fn replace_tilde(s: Seq<char>, home: Seq<char>) -> Seq<char>
    decreases s.len(),
{
    if s.len() == 0 {
        Seq::empty()
    } else {
        replace_tilde(s.drop_last(), home) + (if s.last() == '~' { home } else { seq![s.last()] })
    }
}

/// Expand the home shorthand: every `~` becomes the home directory.
pub fn expand_home(pattern: &str, home: &str) -> (r: String)
    ensures
        r@ == replace_tilde(pattern@, home@),
{
    let chars = crate::text::chars_of(pattern);
    let mut out = String::new();
    let mut i: usize = 0;
    proof {
        reveal_strlit("~");
    }
    while i < chars.len()
        invariant
            i <= chars@.len(),
            chars@ == pattern@,
            out@ == replace_tilde(pattern@.subrange(0, i as int), home@),
        decreases chars@.len() - i,
    {
        assert(pattern@.subrange(0, i + 1).drop_last() =~= pattern@.subrange(0, i as int));
        if chars[i] == '~' {
            out = out.concat(home);
        } else {
            let one = pattern.substring_char(i, i + 1);
            assert(one@ =~= seq![pattern@[i as int]]);
            out = out.concat(one);
        }
        i = i + 1;
    }
    assert(pattern@.subrange(0, chars@.len() as int) =~= pattern@);
    out
}

/// Whether a pattern holds a wildcard and must be expanded against the file system.
pub fn is_glob(pattern: &str) -> (r: bool)
    ensures
        r == pattern@.contains('*'),
{
    let chars = crate::text::chars_of(pattern);
    let mut i: usize = 0;
    while i < chars.len()
        invariant
            i <= chars@.len(),
            chars@ == pattern@,
            forall|k: int| 0 <= k < i ==> pattern@[k] != '*',
        decreases chars@.len() - i,
    {
        if chars[i] == '*' {
            assert(pattern@[i as int] == '*');
            return true;
        }
        i = i + 1;
    }
    false
}

/// Index just after the last `c` in `s`, or 0 when there is none.
pub open spec fn after_last(s: Seq<char>, c: char) -> int
    decreases s.len(),
{
    if s.len() == 0 {
        0
    } else if s.last() == c {
        s.len() as int
    } else {
        after_last(s.drop_last(), c)
    }
}

proof fn lemma_after_last_bounds(s: Seq<char>, c: char)
    ensures
        0 <= after_last(s, c) <= s.len(),
        after_last(s, c) > 0 ==> s[after_last(s, c) - 1] == c,
        forall|k: int| after_last(s, c) <= k < s.len() ==> s[k] != c,
    decreases s.len(),
{
    if s.len() > 0 {
        lemma_after_last_bounds(s.drop_last(), c);
        if s.last() != c {
            assert forall|k: int| after_last(s, c) <= k < s.len() implies s[k] != c by {
                if k < s.len() - 1 {
                    assert(s.drop_last()[k] == s[k]);
                }
            }
        }
    }
}

/// The final component of a path.
pub open spec fn file_name(p: Seq<char>) -> Seq<char> {
    p.subrange(after_last(p, '/'), p.len() as int)
}

/// A path's extension: what follows the last dot of its final component, when
/// that dot is not the component's first character.
pub open spec fn extension_of(p: Seq<char>) -> Option<Seq<char>> {
    let name = file_name(p);
    let d = after_last(name, '.');
    if d <= 1 {
        None
    } else {
        Some(name.subrange(d, name.len() as int))
    }
}

fn after_last_exec(s: &Vec<char>, c: char) -> (r: usize)
    ensures
        r == after_last(s@, c),
{
    let mut i: usize = s.len();
    assert(s@.subrange(0, i as int) =~= s@);
    while i > 0
        invariant
            i <= s@.len(),
            after_last(s@, c) == after_last(s@.subrange(0, i as int), c),
        decreases i,
    {
        assert(s@.subrange(0, i as int).drop_last() =~= s@.subrange(0, i - 1));
        if s[i - 1] == c {
            return i;
        }
        i = i - 1;
    }
    0
}

/// The extension of a path, if it has one.
pub fn extension(path: &str) -> (r: Option<String>)
    ensures
        r matches Some(e) ==> extension_of(path@) == Some(e@),
        r is None ==> extension_of(path@) is None,
{
    let chars = crate::text::chars_of(path);
    let slash = after_last_exec(&chars, '/');
    proof {
        assert(chars@.subrange(0, chars@.len() as int) =~= chars@);
        lemma_after_last_bounds(path@, '/');
    }
    let mut name: Vec<char> = Vec::new();
    let mut i: usize = slash;
    while i < chars.len()
        invariant
            slash <= i <= chars@.len(),
            chars@ == path@,
            slash == after_last(path@, '/'),
            name@ == path@.subrange(slash as int, i as int),
        decreases chars@.len() - i,
    {
        name.push(chars[i]);
        assert(name@ =~= path@.subrange(slash as int, i + 1));
        i = i + 1;
    }
    let dot = after_last_exec(&name, '.');
    proof {
        lemma_after_last_bounds(name@, '.');
    }
    if dot <= 1 {
        None
    } else {
        let n = path.unicode_len();
        let e = path.substring_char(slash + dot, n);
        assert(e@ =~= file_name(path@).subrange(dot as int, file_name(path@).len() as int));
        Some(String::from_str(e))
    }
}

/// Physical size of a file from its allocated block count (capped).
pub fn physical_size(blocks: u64) -> (r: u64)
    ensures
        r as nat == if blocks as nat * 512 <= u64::MAX as nat { blocks as nat * 512 } else { u64::MAX as nat },
{
    match blocks.checked_mul(BLOCK_BYTES) {
        Some(v) => v,
        None => u64::MAX,
    }
}

/// Age of a file in whole seconds at `now_secs` (0 for a time in the future).
pub open spec fn age_at(modified_secs: u64, now_secs: u64) -> nat {
    if now_secs >= modified_secs { (now_secs - modified_secs) as nat } else { 0 }
}

/// The walker's filters for one regular file of `target`: installer extensions
/// for the downloaded-installer target, and the minimum age when the target
/// has one. A file exactly as old as the threshold is kept; one whose time is
/// unknown is kept too.
pub open spec fn file_accepted(
    target: ScanTarget,
    path: Seq<char>,
    modified_secs: Option<u64>,
    now_secs: u64,
) -> bool {
    &&& (target.category == Category::DownloadedDmg ==> extension_of(path) == Some("dmg"@)
        || extension_of(path) == Some("pkg"@))
    &&& match (target.min_age_days, modified_secs) {
        (Some(days), Some(m)) => age_at(m, now_secs) >= days as nat * DAY_SECS as nat,
        _ => true,
    }
}

/// Whether the walker keeps a regular file of `target`.
pub fn accept_file(target: &ScanTarget, path: &str, modified_secs: Option<u64>, now_secs: u64) -> (r: bool)
    ensures
        r == file_accepted(*target, path@, modified_secs, now_secs),
{
    if target.category == Category::DownloadedDmg {
        let ok = match extension(path) {
            Some(e) => e == String::from_str("dmg") || e == String::from_str("pkg"),
            None => false,
        };
        if !ok {
            return false;
        }
    }
    match (target.min_age_days, modified_secs) {
        (Some(days), Some(m)) => {
            let age: u64 = if now_secs >= m { now_secs - m } else { 0 };
            (age as u128) >= (days as u128) * (DAY_SECS as u128)
        },
        _ => true,
    }
}

/// Whether a directory walk enters a directory of this name: hidden
/// directories, `node_modules` and `Library` are skipped.
pub fn should_descend(name: &str) -> (r: bool)
    ensures
        r == !(name@.len() > 0 && name@[0] == '.' || name@ == "node_modules"@ || name@ == "Library"@),
{
    let n = String::from_str(name);
    if n == String::from_str("node_modules") || n == String::from_str("Library") {
        return false;
    }
    if name.unicode_len() > 0 && name.get_char(0) == '.' {
        return false;
    }
    true
}

/// A file entry from the walk, as plain values.
pub open spec fn entries_at_least(s: Seq<FileEntry>, threshold: u64) -> Seq<FileEntry>
    decreases s.len(),
{
    if s.len() == 0 {
        Seq::empty()
    } else if s.last().size_bytes >= threshold {
        entries_at_least(s.drop_last(), threshold).push(s.last())
    } else {
        entries_at_least(s.drop_last(), threshold)
    }
}

/// The files of at least `threshold` bytes, largest first.
pub fn large_files(files: Vec<FileEntry>, threshold: u64) -> (r: Vec<FileEntry>)
    ensures
        entry_sorted(r@),
        r@.to_multiset() == entries_at_least(files@, threshold).to_multiset(),
{
    let mut files = files;
    let ghost orig = files@;
    let n = files.len();
    let mut rev: Vec<FileEntry> = Vec::new();
    let mut i: usize = 0;
    while i < n
        invariant
            i <= n,
            n == orig.len(),
            files@ == orig.subrange(0, n - i),
            rev@.len() == i,
            forall|k: int| 0 <= k < i ==> rev@[k] == orig[n - 1 - k],
        decreases n - i,
    {
        let it = files.pop().unwrap();
        rev.push(it);
        i = i + 1;
        assert(files@ =~= orig.subrange(0, n - i));
    }
    let mut kept: Vec<FileEntry> = Vec::new();
    let mut j: usize = 0;
    while j < n
        invariant
            j <= n,
            n == orig.len(),
            rev@.len() == n - j,
            forall|k: int| 0 <= k < n - j ==> rev@[k] == orig[n - 1 - k],
            kept@ == entries_at_least(orig.subrange(0, j as int), threshold),
        decreases n - j,
    {
        let it = rev.pop().unwrap();
        assert(it == orig[j as int]);
        assert(orig.subrange(0, j + 1).drop_last() =~= orig.subrange(0, j as int));
        if it.size_bytes >= threshold {
            kept.push(it);
        }
        j = j + 1;
    }
    assert(orig.subrange(0, n as int) =~= orig);
    sort_entries_by_size(kept)
}

/// `s` is ordered by size, largest first.
pub open spec fn entry_sorted(s: Seq<FileEntry>) -> bool {
    forall|a: int, b: int| 0 <= a < b < s.len() ==> #[trigger] s[a].size_bytes >= #[trigger] s[b].size_bytes
}

proof fn lemma_insert_entry_ms(s: Seq<FileEntry>, i: int, x: FileEntry)
    requires
        0 <= i <= s.len(),
    ensures
        s.insert(i, x).to_multiset() == s.to_multiset().insert(x),
{
    broadcast use vstd::seq_lib::group_to_multiset_ensures;
    let t = s.insert(i, x);
    s.insert_ensures(i, x);
    assert(t.remove(i) =~= s);
    assert(t.to_multiset().count(x) > 0) by {
        assert(t.contains(x));
    }
    assert(t.to_multiset() =~= t.to_multiset().remove(x).insert(x));
}

/// Order `items` by size, largest first; items with equal keys keep their order.
#[verifier::rlimit(40)]
pub fn sort_entries_by_size(items: Vec<FileEntry>) -> (r: Vec<FileEntry>)
    ensures
        entry_sorted(r@),
        r@.to_multiset() == items@.to_multiset(),
        r@.len() == items@.len(),
{
    broadcast use vstd::seq_lib::group_to_multiset_ensures;
    let mut items = items;
    let ghost orig = items@;
    let mut out: Vec<FileEntry> = Vec::new();
    // Take the items from the back so that the remaining ones stay a prefix.
    let n = items.len();
    let mut taken: usize = 0;
    while taken < n
        invariant
            taken <= n,
            n == orig.len(),
            items@ == orig.subrange(0, n - taken),
            entry_sorted(out@),
            out@.to_multiset() == orig.subrange(n - taken, n as int).to_multiset(),
            out@.len() == taken,
        decreases n - taken,
    {
        let x = items.pop().unwrap();
        assert(x == orig[n - taken - 1]);
        // Insert before the first element whose key is not larger, so that the
        // earlier item (x) comes before equal keys already placed.
        let mut p: usize = 0;
        while p < out.len() && out[p].size_bytes > x.size_bytes
            invariant
                p <= out@.len(),
                forall|a: int| 0 <= a < p ==> #[trigger] out@[a].size_bytes > x.size_bytes,
            decreases out@.len() - p,
        {
            p = p + 1;
        }
        assert(p == out@.len() || out@[p as int].size_bytes <= x.size_bytes);
        let ghost before = out@;
        out.insert(p, x);
        proof {
            lemma_insert_entry_ms(before, p as int, x);
            before.insert_ensures(p as int, x);
            assert(orig.subrange(n - taken - 1, n as int) =~= orig.subrange(n - taken, n as int).insert(0, x));
            lemma_insert_entry_ms(orig.subrange(n - taken, n as int), 0, x);
            assert forall|a: int, b: int| 0 <= a < b < out@.len() implies #[trigger] out@[a].size_bytes >= #[trigger] out@[b].size_bytes by {
                if b < p {
                } else if b == p {
                } else if a < p {
                    assert(out@[b] == before[b - 1]);
                } else if a == p {
                    assert(out@[b] == before[b - 1]);
                    if p < before.len() {
                        assert(before[p as int].size_bytes <= x.size_bytes);
                    }
                } else {
                    assert(out@[a] == before[a - 1]);
                    assert(out@[b] == before[b - 1]);
                }
            }
        }
        taken = taken + 1;
        assert(items@ =~= orig.subrange(0, n - taken));
    }
    assert(orig.subrange(0, n as int) =~= orig);
    out
}

} // verus!
