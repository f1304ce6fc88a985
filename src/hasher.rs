use vstd::prelude::*;
use crate::safety::views;

verus! {

/// Bytes read for the cheap prefix hash.
pub const QUICK_HASH_SIZE: usize = 4096;

/// The lower-case hex text of the SHA-256 digest of `data`.
pub uninterp spec fn sha256_hex(data: Seq<u8>) -> Seq<char>;

/// Relies on `sha2::Sha256::digest` and the lower-hex formatting of its 32-byte
/// output: the SHA-256 digest of `data` as 64 hex digits.
#[verifier::external_body]
fn sha256_hex_of(data: &[u8]) -> (r: String)
    ensures
        r@ == sha256_hex(data@),
        r@.len() == 64,
{
    format!("{:x}", <sha2::Sha256 as sha2::Digest>::digest(data))
}

/// The bytes that the prefix hash covers: the first 4096, or all when shorter.
pub open spec fn quick_prefix(content: Seq<u8>) -> Seq<u8> {
    if content.len() <= QUICK_HASH_SIZE as int {
        content
    } else {
        content.subrange(0, QUICK_HASH_SIZE as int)
    }
}

/// SHA-256 (hex) of the first 4096 bytes of a file's content.
pub fn quick_hash_of(content: &[u8]) -> (r: String)
    ensures
        r@ == sha256_hex(quick_prefix(content@)),
{
    if content.len() <= QUICK_HASH_SIZE {
        sha256_hex_of(content)
    } else {
        let (head, _) = content.split_at(QUICK_HASH_SIZE);
        sha256_hex_of(head)
    }
}

/// SHA-256 (hex) of a file's whole content.
pub fn full_hash_of(content: &[u8]) -> (r: String)
    ensures
        r@ == sha256_hex(content@),
{
    sha256_hex_of(content)
}

/// Paths that share a size.
#[derive(Debug, Clone)]
pub struct SizeGroup {
    pub size: u64,
    pub paths: Vec<String>,
}

/// Paths that share a digest.
#[derive(Debug, Clone)]
pub struct HashGroup {
    pub hash: String,
    pub paths: Vec<String>,
}

pub open spec fn size_key(g: SizeGroup) -> u64 {
    g.size
}

pub open spec fn hash_key(g: HashGroup) -> Seq<char> {
    g.hash@
}

pub open spec fn view_of(s: &String) -> Seq<char> {
    s@
}

/// The character sequences of optional strings.
pub open spec fn key_views(keys: Seq<Option<String>>) -> Seq<Option<Seq<char>>> {
    keys.map_values(|k: Option<String>| match k {
        Some(s) => Some(s@),
        None => None,
    })
}

fn make_size_group(k: &u64, paths: Vec<String>) -> (r: SizeGroup)
    ensures
        r.size == *k,
        r.paths == paths,
{
    SizeGroup { size: *k, paths }
}

fn make_hash_group(k: &String, paths: Vec<String>) -> (r: HashGroup)
    ensures
        r.hash@ == k@,
        r.paths == paths,
{
    HashGroup { hash: k.clone(), paths }
}

/// The paths among the first `n` whose size is `k`, in input order.
pub open spec fn members_with_size(paths: Seq<Seq<char>>, keys: Seq<Option<u64>>, k: u64, n: int) -> Seq<Seq<char>>
    decreases n,
{
    if n <= 0 {
        Seq::empty()
    } else if keys[n - 1] == Some(k) {
        members_with_size(paths, keys, k, n - 1).push(paths[n - 1])
    } else {
        members_with_size(paths, keys, k, n - 1)
    }
}

/// `groups` holds, once each, every size shared by two or more paths, with
/// exactly the paths that have it, in input order.
pub open spec fn size_grouped(paths: Seq<Seq<char>>, keys: Seq<Option<u64>>, groups: Seq<SizeGroup>) -> bool {
    let n = paths.len() as int;
    &&& forall|a: int| 0 <= a < groups.len() ==> {
        &&& views(#[trigger] groups[a].paths@) == members_with_size(paths, keys, size_key(groups[a]), n)
        &&& groups[a].paths@.len() >= 2
    }
    &&& forall|i: int|
        0 <= i < n && #[trigger] keys[i] is Some && members_with_size(paths, keys, keys[i]->0, n).len() >= 2
            ==> exists|a: int| 0 <= a < groups.len() && size_key(#[trigger] groups[a]) == keys[i]->0
    &&& forall|a: int, b: int| 0 <= a < b < groups.len() ==> size_key(#[trigger] groups[a]) != size_key(#[trigger] groups[b])
}

fn collect_with_size(paths: &Vec<String>, keys: &Vec<Option<u64>>, k: &u64) -> (r: Vec<String>)
    requires
        paths@.len() == keys@.len(),
    ensures
        views(r@) == members_with_size(views(paths@), (keys@), *(k), paths@.len() as int),
{
    let mut out: Vec<String> = Vec::new();
    let mut j: usize = 0;
    while j < paths.len()
        invariant
            j <= paths@.len(),
            paths@.len() == keys@.len(),
            views(out@) == members_with_size(views(paths@), (keys@), *(k), j as int),
        decreases paths@.len() - j,
    {
        let hit = match &keys[j] {
            Some(x) => *x == *k,
            None => false,
        };
        assert((keys@)[j as int] == Some(*(k)) <==> hit);
        if hit {
            out.push(paths[j].clone());
            assert(views(out@) =~= members_with_size(views(paths@), (keys@), *(k), j as int).push(views(paths@)[j as int]));
        }
        j = j + 1;
    }
    out
}

fn size_seen_before(keys: &Vec<Option<u64>>, i: usize, k: &u64) -> (r: bool)
    requires
        i <= keys@.len(),
    ensures
        r == exists|j: int| 0 <= j < i && (keys@)[j] == Some(*(k)),
{
    let mut j: usize = 0;
    while j < i
        invariant
            j <= i <= keys@.len(),
            forall|m: int| 0 <= m < j ==> (keys@)[m] != Some(*(k)),
        decreases i - j,
    {
        let hit = match &keys[j] {
            Some(x) => *x == *k,
            None => false,
        };
        assert((keys@)[j as int] == Some(*(k)) <==> hit);
        if hit {
            return true;
        }
        j = j + 1;
    }
    false
}

/// Group paths by size (`None`: the path is left out), dropping every group of one.
pub fn group_by_size(paths: &Vec<String>, keys: &Vec<Option<u64>>) -> (r: Vec<SizeGroup>)
    requires
        paths@.len() == keys@.len(),
    ensures
        size_grouped(views(paths@), (keys@), r@),
{
    let ghost ps = views(paths@);
    let ghost ks = (keys@);
    let ghost n = paths@.len() as int;
    let mut groups: Vec<SizeGroup> = Vec::new();
    let mut i: usize = 0;
    while i < paths.len()
        invariant
            i <= paths@.len(),
            paths@.len() == keys@.len(),
            ps == views(paths@),
            ks == (keys@),
            n == paths@.len(),
            forall|a: int| 0 <= a < groups@.len() ==> {
                &&& views(#[trigger] groups@[a].paths@) == members_with_size(ps, ks, size_key(groups@[a]), n)
                &&& groups@[a].paths@.len() >= 2
                &&& exists|j: int| 0 <= j < i && ks[j] == Some(size_key(groups@[a]))
            },
            forall|j: int|
                0 <= j < i && #[trigger] ks[j] is Some && members_with_size(ps, ks, ks[j]->0, n).len() >= 2
                    ==> exists|a: int| 0 <= a < groups@.len() && size_key(#[trigger] groups@[a]) == ks[j]->0,
            forall|a: int, b: int| 0 <= a < b < groups@.len() ==> size_key(#[trigger] groups@[a]) != size_key(#[trigger] groups@[b]),
        decreases paths@.len() - i,
    {
        match &keys[i] {
            None => {},
            Some(k) => {
                assert(ks[i as int] == Some(*(k)));
                if !size_seen_before(keys, i, k) {
                    let members = collect_with_size(paths, keys, k);
                    if members.len() >= 2 {
                        let ghost old_groups = groups@;
                        let g = make_size_group(k, members);
                        groups.push(g);
                        assert(groups@[old_groups.len() as int] == g);
                        assert forall|a: int| 0 <= a < groups@.len() implies {
                            &&& views(#[trigger] groups@[a].paths@) == members_with_size(ps, ks, size_key(groups@[a]), n)
                            &&& groups@[a].paths@.len() >= 2
                            &&& exists|j: int| 0 <= j < i + 1 && ks[j] == Some(size_key(groups@[a]))
                        } by {
                            if a < old_groups.len() {
                                assert(groups@[a] == old_groups[a]);
                            }
                        }
                        assert forall|a: int, b: int| 0 <= a < b < groups@.len() implies size_key(#[trigger] groups@[a]) != size_key(#[trigger] groups@[b]) by {
                            if b == old_groups.len() {
                                assert(groups@[a] == old_groups[a]);
                                assert(old_groups[a].paths@.len() >= 2);
                                let j = choose|j: int| 0 <= j < i && ks[j] == Some(size_key(old_groups[a]));
                                assert(ks[j] != Some(*(k)));
                            } else {
                                assert(groups@[a] == old_groups[a]);
                                assert(groups@[b] == old_groups[b]);
                            }
                        }
                        assert forall|j: int|
                            0 <= j < i + 1 && #[trigger] ks[j] is Some && members_with_size(ps, ks, ks[j]->0, n).len() >= 2
                            implies exists|a: int| 0 <= a < groups@.len() && size_key(#[trigger] groups@[a]) == ks[j]->0 by {
                            if j < i {
                                let a = choose|a: int| 0 <= a < old_groups.len() && size_key(#[trigger] old_groups[a]) == ks[j]->0;
                                assert(groups@[a] == old_groups[a]);
                            } else {
                                assert(size_key(groups@[old_groups.len() as int]) == ks[j]->0);
                            }
                        }
                    }
                } else {
                    assert forall|j: int|
                        0 <= j < i + 1 && #[trigger] ks[j] is Some && members_with_size(ps, ks, ks[j]->0, n).len() >= 2
                        implies exists|a: int| 0 <= a < groups@.len() && size_key(#[trigger] groups@[a]) == ks[j]->0 by {
                        if j == i {
                            let j0 = choose|j0: int| 0 <= j0 < i && ks[j0] == Some(*(k));
                            assert(ks[j0] is Some);
                            assert(ks[j0]->0 == ks[j]->0);
                        }
                    }
                }
            },
        }
        i = i + 1;
    }
    groups
}

/// The paths among the first `n` whose digest is `k`, in input order.
pub open spec fn members_with_hash(paths: Seq<Seq<char>>, keys: Seq<Option<Seq<char>>>, k: Seq<char>, n: int) -> Seq<Seq<char>>
    decreases n,
{
    if n <= 0 {
        Seq::empty()
    } else if keys[n - 1] == Some(k) {
        members_with_hash(paths, keys, k, n - 1).push(paths[n - 1])
    } else {
        members_with_hash(paths, keys, k, n - 1)
    }
}

/// `groups` holds, once each, every digest shared by two or more paths, with
/// exactly the paths that have it, in input order.
pub open spec fn hash_grouped(paths: Seq<Seq<char>>, keys: Seq<Option<Seq<char>>>, groups: Seq<HashGroup>) -> bool {
    let n = paths.len() as int;
    &&& forall|a: int| 0 <= a < groups.len() ==> {
        &&& views(#[trigger] groups[a].paths@) == members_with_hash(paths, keys, hash_key(groups[a]), n)
        &&& groups[a].paths@.len() >= 2
    }
    &&& forall|i: int|
        0 <= i < n && #[trigger] keys[i] is Some && members_with_hash(paths, keys, keys[i]->0, n).len() >= 2
            ==> exists|a: int| 0 <= a < groups.len() && hash_key(#[trigger] groups[a]) == keys[i]->0
    &&& forall|a: int, b: int| 0 <= a < b < groups.len() ==> hash_key(#[trigger] groups[a]) != hash_key(#[trigger] groups[b])
}

fn collect_with_hash(paths: &Vec<String>, keys: &Vec<Option<String>>, k: &String) -> (r: Vec<String>)
    requires
        paths@.len() == keys@.len(),
    ensures
        views(r@) == members_with_hash(views(paths@), key_views(keys@), view_of(k), paths@.len() as int),
{
    let mut out: Vec<String> = Vec::new();
    let mut j: usize = 0;
    while j < paths.len()
        invariant
            j <= paths@.len(),
            paths@.len() == keys@.len(),
            views(out@) == members_with_hash(views(paths@), key_views(keys@), view_of(k), j as int),
        decreases paths@.len() - j,
    {
        let hit = match &keys[j] {
            Some(x) => *x == *k,
            None => false,
        };
        assert(key_views(keys@)[j as int] == Some(view_of(k)) <==> hit);
        if hit {
            out.push(paths[j].clone());
            assert(views(out@) =~= members_with_hash(views(paths@), key_views(keys@), view_of(k), j as int).push(views(paths@)[j as int]));
        }
        j = j + 1;
    }
    out
}

fn hash_seen_before(keys: &Vec<Option<String>>, i: usize, k: &String) -> (r: bool)
    requires
        i <= keys@.len(),
    ensures
        r == exists|j: int| 0 <= j < i && key_views(keys@)[j] == Some(view_of(k)),
{
    let mut j: usize = 0;
    while j < i
        invariant
            j <= i <= keys@.len(),
            forall|m: int| 0 <= m < j ==> key_views(keys@)[m] != Some(view_of(k)),
        decreases i - j,
    {
        let hit = match &keys[j] {
            Some(x) => *x == *k,
            None => false,
        };
        assert(key_views(keys@)[j as int] == Some(view_of(k)) <==> hit);
        if hit {
            return true;
        }
        j = j + 1;
    }
    false
}

/// Group paths by digest (`None`: the path is left out), dropping every group of one.
pub fn group_by_hash(paths: &Vec<String>, keys: &Vec<Option<String>>) -> (r: Vec<HashGroup>)
    requires
        paths@.len() == keys@.len(),
    ensures
        hash_grouped(views(paths@), key_views(keys@), r@),
{
    let ghost ps = views(paths@);
    let ghost ks = key_views(keys@);
    let ghost n = paths@.len() as int;
    let mut groups: Vec<HashGroup> = Vec::new();
    let mut i: usize = 0;
    while i < paths.len()
        invariant
            i <= paths@.len(),
            paths@.len() == keys@.len(),
            ps == views(paths@),
            ks == key_views(keys@),
            n == paths@.len(),
            forall|a: int| 0 <= a < groups@.len() ==> {
                &&& views(#[trigger] groups@[a].paths@) == members_with_hash(ps, ks, hash_key(groups@[a]), n)
                &&& groups@[a].paths@.len() >= 2
                &&& exists|j: int| 0 <= j < i && ks[j] == Some(hash_key(groups@[a]))
            },
            forall|j: int|
                0 <= j < i && #[trigger] ks[j] is Some && members_with_hash(ps, ks, ks[j]->0, n).len() >= 2
                    ==> exists|a: int| 0 <= a < groups@.len() && hash_key(#[trigger] groups@[a]) == ks[j]->0,
            forall|a: int, b: int| 0 <= a < b < groups@.len() ==> hash_key(#[trigger] groups@[a]) != hash_key(#[trigger] groups@[b]),
        decreases paths@.len() - i,
    {
        match &keys[i] {
            None => {},
            Some(k) => {
                assert(ks[i as int] == Some(view_of(k)));
                if !hash_seen_before(keys, i, k) {
                    let members = collect_with_hash(paths, keys, k);
                    if members.len() >= 2 {
                        let ghost old_groups = groups@;
                        let g = make_hash_group(k, members);
                        groups.push(g);
                        assert(groups@[old_groups.len() as int] == g);
                        assert forall|a: int| 0 <= a < groups@.len() implies {
                            &&& views(#[trigger] groups@[a].paths@) == members_with_hash(ps, ks, hash_key(groups@[a]), n)
                            &&& groups@[a].paths@.len() >= 2
                            &&& exists|j: int| 0 <= j < i + 1 && ks[j] == Some(hash_key(groups@[a]))
                        } by {
                            if a < old_groups.len() {
                                assert(groups@[a] == old_groups[a]);
                            }
                        }
                        assert forall|a: int, b: int| 0 <= a < b < groups@.len() implies hash_key(#[trigger] groups@[a]) != hash_key(#[trigger] groups@[b]) by {
                            if b == old_groups.len() {
                                assert(groups@[a] == old_groups[a]);
                                assert(old_groups[a].paths@.len() >= 2);
                                let j = choose|j: int| 0 <= j < i && ks[j] == Some(hash_key(old_groups[a]));
                                assert(ks[j] != Some(view_of(k)));
                            } else {
                                assert(groups@[a] == old_groups[a]);
                                assert(groups@[b] == old_groups[b]);
                            }
                        }
                        assert forall|j: int|
                            0 <= j < i + 1 && #[trigger] ks[j] is Some && members_with_hash(ps, ks, ks[j]->0, n).len() >= 2
                            implies exists|a: int| 0 <= a < groups@.len() && hash_key(#[trigger] groups@[a]) == ks[j]->0 by {
                            if j < i {
                                let a = choose|a: int| 0 <= a < old_groups.len() && hash_key(#[trigger] old_groups[a]) == ks[j]->0;
                                assert(groups@[a] == old_groups[a]);
                            } else {
                                assert(hash_key(groups@[old_groups.len() as int]) == ks[j]->0);
                            }
                        }
                    }
                } else {
                    assert forall|j: int|
                        0 <= j < i + 1 && #[trigger] ks[j] is Some && members_with_hash(ps, ks, ks[j]->0, n).len() >= 2
                        implies exists|a: int| 0 <= a < groups@.len() && hash_key(#[trigger] groups@[a]) == ks[j]->0 by {
                        if j == i {
                            let j0 = choose|j0: int| 0 <= j0 < i && ks[j0] == Some(view_of(k));
                            assert(ks[j0] is Some);
                            assert(ks[j0]->0 == ks[j]->0);
                        }
                    }
                }
            },
        }
        i = i + 1;
    }
    groups
}

/// The digest keys of readable files (`None`: unreadable, left out).
pub open spec fn quick_keys(contents: Seq<Option<Vec<u8>>>) -> Seq<Option<Seq<char>>> {
    contents.map_values(|c: Option<Vec<u8>>| match c {
        Some(b) => Some(sha256_hex(quick_prefix(b@))),
        None => None,
    })
}

pub open spec fn full_keys(contents: Seq<Option<Vec<u8>>>) -> Seq<Option<Seq<char>>> {
    contents.map_values(|c: Option<Vec<u8>>| match c {
        Some(b) => Some(sha256_hex(b@)),
        None => None,
    })
}

fn digest_all(contents: &Vec<Option<Vec<u8>>>, full: bool) -> (r: Vec<Option<String>>)
    ensures
        r@.len() == contents@.len(),
        key_views(r@) == (if full { full_keys(contents@) } else { quick_keys(contents@) }),
{
    let ghost target = if full { full_keys(contents@) } else { quick_keys(contents@) };
    let mut out: Vec<Option<String>> = Vec::new();
    let mut i: usize = 0;
    while i < contents.len()
        invariant
            i <= contents@.len(),
            target == (if full { full_keys(contents@) } else { quick_keys(contents@) }),
            target.len() == contents@.len(),
            out@.len() == i,
            key_views(out@) == target.subrange(0, i as int),
        decreases contents@.len() - i,
    {
        let k = match &contents[i] {
            Some(b) => if full {
                Some(full_hash_of(b.as_slice()))
            } else {
                Some(quick_hash_of(b.as_slice()))
            },
            None => None,
        };
        out.push(k);
        assert(key_views(out@)[i as int] == target[i as int]);
        assert(key_views(out@) =~= target.subrange(0, i + 1));
        i = i + 1;
    }
    assert(target.subrange(0, contents@.len() as int) =~= target);
    out
}

/// Pass 2 of the duplicate funnel: group files by the hash of their first 4096
/// bytes. `contents[i]` is what could be read of `paths[i]` (`None`: unreadable,
/// dropped). Groups of one are dropped.
pub fn group_by_quick_hash(paths: &Vec<String>, contents: &Vec<Option<Vec<u8>>>) -> (r: Vec<HashGroup>)
    requires
        paths@.len() == contents@.len(),
    ensures
        hash_grouped(views(paths@), quick_keys(contents@), r@),
{
    let keys = digest_all(contents, false);
    group_by_hash(paths, &keys)
}

/// Pass 3 of the duplicate funnel: group files by the hash of their whole content.
pub fn group_by_full_hash(paths: &Vec<String>, contents: &Vec<Option<Vec<u8>>>) -> (r: Vec<HashGroup>)
    requires
        paths@.len() == contents@.len(),
    ensures
        hash_grouped(views(paths@), full_keys(contents@), r@),
{
    let keys = digest_all(contents, true);
    group_by_hash(paths, &keys)
}

proof fn lemma_size_members_le(paths: Seq<Seq<char>>, keys: Seq<Option<u64>>, k: u64, n: int)
    requires
        n >= 0,
    ensures
        members_with_size(paths, keys, k, n).len() <= n,
    decreases n,
{
    if n > 0 {
        lemma_size_members_le(paths, keys, k, n - 1);
    }
}

proof fn lemma_size_members_unique(paths: Seq<Seq<char>>, keys: Seq<Option<u64>>, k: u64, n: int)
    requires
        0 <= n <= keys.len(),
        forall|i: int, j: int| 0 <= i < j < keys.len() && keys[i] is Some ==> keys[i] != keys[j],
    ensures
        members_with_size(paths, keys, k, n).len() <= 1,
        members_with_size(paths, keys, k, n).len() == 1 ==> exists|i: int| 0 <= i < n && keys[i] == Some(k),
    decreases n,
{
    if n > 0 {
        lemma_size_members_unique(paths, keys, k, n - 1);
        if keys[n - 1] == Some(k) && members_with_size(paths, keys, k, n - 1).len() == 1 {
            let i = choose|i: int| 0 <= i < n - 1 && keys[i] == Some(k);
            assert(keys[i] != keys[n - 1]);
        }
    }
}

/// A single file never forms a size group.
pub proof fn lemma_single_file_no_group(paths: Seq<Seq<char>>, keys: Seq<Option<u64>>, groups: Seq<SizeGroup>)
    requires
        paths.len() <= 1,
        size_grouped(paths, keys, groups),
    ensures
        groups.len() == 0,
{
    if groups.len() > 0 {
        assert(groups[0].paths@.len() >= 2);
        lemma_size_members_le(paths, keys, size_key(groups[0]), paths.len() as int);
        assert(views(groups[0].paths@).len() == groups[0].paths@.len());
    }
}

/// Files whose sizes are all different form no size group.
pub proof fn lemma_unique_sizes_no_group(paths: Seq<Seq<char>>, keys: Seq<Option<u64>>, groups: Seq<SizeGroup>)
    requires
        paths.len() == keys.len(),
        forall|i: int, j: int| 0 <= i < j < keys.len() && keys[i] is Some ==> keys[i] != keys[j],
        size_grouped(paths, keys, groups),
    ensures
        groups.len() == 0,
{
    if groups.len() > 0 {
        assert(groups[0].paths@.len() >= 2);
        lemma_size_members_unique(paths, keys, size_key(groups[0]), paths.len() as int);
        assert(views(groups[0].paths@).len() == groups[0].paths@.len());
    }
}

/// Files with equal content get equal digests, so they always meet in one group
/// of the full-hash pass; files whose digests differ never do.
pub proof fn lemma_equal_content_same_digest(a: Seq<u8>, b: Seq<u8>)
    requires
        a == b,
    ensures
        sha256_hex(a) == sha256_hex(b),
        sha256_hex(quick_prefix(a)) == sha256_hex(quick_prefix(b)),
{
}

} // verus!
