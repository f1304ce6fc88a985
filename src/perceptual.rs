use vstd::prelude::*;
use crate::duplicates::{MatchType, SimilarFile, SimilarGroup, build_group, group_sorted, sort_groups_by_wasted};
use crate::safety::views;
use crate::text::{lower_of, lowercase};
use crate::walker::{extension, extension_of};

verus! {

/// Longest fingerprint, in bytes, whose bit distances fit a `u32`.
pub const MAX_HASH_BYTES: usize = 0x1FFF_FFFF;

/// Bits in the fingerprints that the library computes (16 by 16).
pub const HASH_BITS: u32 = 256;

/// Extensions of the image formats that get a perceptual fingerprint.
pub open spec fn image_extensions() -> Seq<Seq<char>> {
    seq!["jpg"@, "jpeg"@, "png"@, "gif"@, "bmp"@, "tiff"@, "tif"@, "webp"@, "heic"@, "heif"@]
}

/// The path names an image: its extension, lower-cased, is an image extension.
pub open spec fn image_spec(p: Seq<char>) -> bool {
    match extension_of(p) {
        Some(e) => image_extensions().contains(lower_of(e)),
        None => false,
    }
}

fn image_extension_list() -> (r: Vec<String>)
    ensures
        views(r@) == image_extensions(),
{
    let r = vec![
        String::from_str("jpg"), String::from_str("jpeg"), String::from_str("png"),
        String::from_str("gif"), String::from_str("bmp"), String::from_str("tiff"),
        String::from_str("tif"), String::from_str("webp"), String::from_str("heic"),
        String::from_str("heif"),
    ];
    assert(views(r@) =~= image_extensions());
    r
}

/// Whether the path names an image, by its extension (case ignored).
pub fn is_image(path: &str) -> (r: bool)
    ensures
        r == image_spec(path@),
{
    let ext = match extension(path) {
        Some(e) => e,
        None => {
            return false;
        },
    };
    let lower = lowercase(ext.as_str());
    let list = image_extension_list();
    let mut i: usize = 0;
    while i < list.len()
        invariant
            views(list@) == image_extensions(),
            lower@ == lower_of(ext@),
            extension_of(path@) == Some(ext@),
            forall|k: int| 0 <= k < i ==> image_extensions()[k] != lower@,
        decreases list@.len() - i,
    {
        assert(views(list@)[i as int] == list@[i as int]@);
        if list[i] == lower {
            assert(image_extensions()[i as int] == lower@);
            return true;
        }
        i = i + 1;
    }
    false
}

/// The images among `paths`, in order.
pub open spec fn images_among(paths: Seq<Seq<char>>) -> Seq<Seq<char>>
    decreases paths.len(),
{
    if paths.len() == 0 {
        Seq::empty()
    } else if image_spec(paths.last()) {
        images_among(paths.drop_last()).push(paths.last())
    } else {
        images_among(paths.drop_last())
    }
}

/// The paths that name images, in order.
pub fn filter_images(paths: &Vec<String>) -> (r: Vec<String>)
    ensures
        views(r@) == images_among(views(paths@)),
{
    let mut out: Vec<String> = Vec::new();
    let mut i: usize = 0;
    while i < paths.len()
        invariant
            i <= paths@.len(),
            views(out@) == images_among(views(paths@).subrange(0, i as int)),
        decreases paths@.len() - i,
    {
        assert(views(paths@).subrange(0, i + 1).drop_last() =~= views(paths@).subrange(0, i as int));
        if is_image(paths[i].as_str()) {
            out.push(paths[i].clone());
            assert(views(out@) =~= images_among(views(paths@).subrange(0, i as int)).push(paths@[i as int]@));
        }
        i = i + 1;
    }
    assert(views(paths@).subrange(0, paths@.len() as int) =~= views(paths@));
    out
}

/// The perceptual fingerprint of one image, as bytes.
#[derive(Debug, Clone)]
pub struct PerceptualHash {
    pub path: String,
    pub hash: Vec<u8>,
    pub size_bytes: u64,
}

/// Number of set bits among the low `k` bits of `x`.
pub open spec fn ones_below(x: u8, k: nat) -> nat
    decreases k,
{
    if k == 0 {
        0
    } else {
        ones_below(x, (k - 1) as nat) + ((x >> ((k - 1) as u8)) & 1u8) as nat
    }
}

/// Number of differing bits between two fingerprints, over their common length.
pub open spec fn hamming_upto(a: Seq<u8>, b: Seq<u8>, n: int) -> nat
    decreases n,
{
    if n <= 0 {
        0
    } else {
        hamming_upto(a, b, n - 1) + ones_below(a[n - 1] ^ b[n - 1], 8)
    }
}

pub open spec fn common_len(a: Seq<u8>, b: Seq<u8>) -> int {
    if a.len() <= b.len() { a.len() as int } else { b.len() as int }
}

/// The bit distance between two fingerprints.
pub open spec fn hamming(a: Seq<u8>, b: Seq<u8>) -> nat {
    hamming_upto(a, b, common_len(a, b))
}

proof fn lemma_ones_le(x: u8, k: nat)
    ensures
        ones_below(x, k) <= k,
    decreases k,
{
    if k > 0 {
        lemma_ones_le(x, (k - 1) as nat);
        let sh: u8 = (k - 1) as u8;
        assert((x >> sh) & 1u8 <= 1u8) by (bit_vector);
    }
}

proof fn lemma_hamming_le(a: Seq<u8>, b: Seq<u8>, n: int)
    requires
        n >= 0,
    ensures
        hamming_upto(a, b, n) <= 8 * n,
    decreases n,
{
    if n > 0 {
        lemma_hamming_le(a, b, n - 1);
        lemma_ones_le(a[n - 1] ^ b[n - 1], 8);
    }
}

fn ones8(x: u8) -> (r: u32)
    ensures
        r == ones_below(x, 8),
{
    let mut acc: u32 = 0;
    let mut k: u8 = 0;
    while k < 8
        invariant
            k <= 8,
            acc == ones_below(x, k as nat),
        decreases 8 - k,
    {
        proof {
            lemma_ones_le(x, k as nat);
        }
        let bit = (x >> k) & 1u8;
        acc = acc + bit as u32;
        k = k + 1;
    }
    acc
}

/// The bit distance between two fingerprints (the number of differing bits
/// over their common length).
pub fn distance(a: &Vec<u8>, b: &Vec<u8>) -> (r: u32)
    requires
        a@.len() <= MAX_HASH_BYTES || b@.len() <= MAX_HASH_BYTES,
    ensures
        r == hamming(a@, b@),
{
    let n = if a.len() <= b.len() { a.len() } else { b.len() };
    let mut acc: u32 = 0;
    let mut i: usize = 0;
    while i < n
        invariant
            i <= n,
            n == common_len(a@, b@),
            n <= MAX_HASH_BYTES,
            acc == hamming_upto(a@, b@, i as int),
        decreases n - i,
    {
        proof {
            lemma_hamming_le(a@, b@, i + 1);
        }
        let o = ones8(a[i] ^ b[i]);
        acc = acc + o;
        i = i + 1;
    }
    acc
}

/// The fingerprints of a list of hashed images.
pub open spec fn fingerprints(hs: Seq<PerceptualHash>) -> Seq<Seq<u8>> {
    hs.map_values(|h: PerceptualHash| h.hash@)
}

/// The images that seed `i` attaches, among the first `n`: the later ones not
/// yet in a group whose distance to the seed is at most `d`, in order.
pub open spec fn attach(fp: Seq<Seq<u8>>, d: nat, i: int, assigned: Seq<bool>, n: int) -> Seq<int>
    decreases n,
{
    if n <= i + 1 || n <= 0 {
        Seq::empty()
    } else {
        let rest = attach(fp, d, i, assigned, n - 1);
        if !assigned[n - 1] && hamming(fp[i], fp[n - 1]) <= d {
            rest.push(n - 1)
        } else {
            rest
        }
    }
}

/// `assigned` with the images `js` marked.
pub open spec fn mark(assigned: Seq<bool>, js: Seq<int>) -> Seq<bool> {
    Seq::new(assigned.len(), |k: int| assigned[k] || js.contains(k))
}

/// Greedy single-link grouping from image `i` on: each image not yet in a group
/// seeds one with every later unassigned image within `d` of it; groups of one
/// are dropped. Each group lists the seed first, then its members in order.
pub open spec fn clusters_from(fp: Seq<Seq<u8>>, d: nat, i: int, assigned: Seq<bool>) -> Seq<Seq<int>>
    decreases fp.len() - i,
{
    if i < 0 || i >= fp.len() {
        Seq::empty()
    } else if assigned[i] {
        clusters_from(fp, d, i + 1, assigned)
    } else {
        let js = attach(fp, d, i, assigned, fp.len() as int);
        let rest = clusters_from(fp, d, i + 1, mark(assigned, js));
        if js.len() > 0 {
            seq![seq![i] + js] + rest
        } else {
            rest
        }
    }
}

/// The groups of indices that the sweep forms over all images.
pub open spec fn clusters(fp: Seq<Seq<u8>>, d: nat) -> Seq<Seq<int>> {
    clusters_from(fp, d, 0, Seq::new(fp.len(), |k: int| false))
}

/// The groups of indices that the sweep forms over a list of hashed images.
pub open spec fn image_clusters(hs: Seq<PerceptualHash>, d: nat) -> Seq<Seq<int>> {
    clusters(fingerprints(hs), d)
}

/// The group member that stands for image `j` of a group seeded by `seed`.
pub open spec fn member_of(hs: Seq<PerceptualHash>, seed: int, j: int) -> SimilarFile {
    SimilarFile {
        path: hs[j].path,
        size_bytes: hs[j].size_bytes,
        distance: if j == seed { 0 } else { hamming(hs[seed].hash@, hs[j].hash@) as u32 },
    }
}

/// The members of a group of indices (seed first).
pub open spec fn cluster_files(hs: Seq<PerceptualHash>, c: Seq<int>) -> Seq<SimilarFile> {
    Seq::new(c.len(), |t: int| member_of(hs, c[0], c[t]))
}

pub open spec fn ints(v: Seq<usize>) -> Seq<int> {
    v.map_values(|j: usize| j as int)
}

/// The group's members are those of one of the clusters `cs`.
pub open spec fn group_of_cluster(g: SimilarGroup, hs: Seq<PerceptualHash>, cs: Seq<Seq<int>>) -> bool {
    exists|c: int| 0 <= c < cs.len() && g.members@.to_multiset() == #[trigger] cluster_files(hs, cs[c]).to_multiset()
}

/// Some group of `r` has exactly the members of cluster `c`.
pub open spec fn cluster_has_group(r: Seq<SimilarGroup>, hs: Seq<PerceptualHash>, c: Seq<int>) -> bool {
    exists|k: int| 0 <= k < r.len() && (#[trigger] r[k]).members@.to_multiset() == cluster_files(hs, c).to_multiset()
}

fn make_member(h: &PerceptualHash, seed: &PerceptualHash, is_seed: bool) -> (r: SimilarFile)
    requires
        h.hash@.len() <= MAX_HASH_BYTES,
    ensures
        r.path == h.path,
        r.size_bytes == h.size_bytes,
        r.distance == (if is_seed { 0 } else { hamming(seed.hash@, h.hash@) as u32 }),
{
    let d = if is_seed { 0 } else { distance(&seed.hash, &h.hash) };
    SimilarFile { path: h.path.clone(), size_bytes: h.size_bytes, distance: d }
}

/// Group images whose fingerprints differ in at most `max_distance` bits, by
/// the greedy sweep of `clusters`. Each group has its members sorted by size,
/// largest (the keeper) first, and the groups come by wasted bytes, largest first.
/// A caller with a similarity threshold `t` in [0, 1] passes `round((1 - t) * 256)`.
pub fn find_similar_groups(hashes: &Vec<PerceptualHash>, max_distance: u32) -> (r: Vec<SimilarGroup>)
    requires
        forall|i: int| 0 <= i < hashes@.len() ==> (#[trigger] hashes@[i]).hash@.len() <= MAX_HASH_BYTES,
    ensures
        group_sorted(r@),
        r@.len() == image_clusters(hashes@, max_distance as nat).len(),
        forall|k: int| 0 <= k < r@.len() ==> (#[trigger] r@[k]).wf() && r@[k].match_type == MatchType::PerceptuallySimilar,
        forall|k: int| 0 <= k < r@.len() ==> group_of_cluster(#[trigger] r@[k], hashes@, image_clusters(hashes@, max_distance as nat)),
        forall|c: int| 0 <= c < image_clusters(hashes@, max_distance as nat).len() ==> cluster_has_group(r@, hashes@, #[trigger] image_clusters(hashes@, max_distance as nat)[c]),
{
    broadcast use vstd::seq_lib::group_to_multiset_ensures;
    let ghost fp = fingerprints(hashes@);
    let ghost d = max_distance as nat;
    let n = hashes.len();
    let mut assigned: Vec<bool> = Vec::new();
    let mut z: usize = 0;
    while z < n
        invariant
            z <= n,
            assigned@ == Seq::new(z as nat, |k: int| false),
        decreases n - z,
    {
        assigned.push(false);
        assert(assigned@ =~= Seq::new((z + 1) as nat, |k: int| false));
        z = z + 1;
    }
    let ghost mut done: Seq<Seq<int>> = Seq::empty();
    let mut built: Vec<SimilarGroup> = Vec::new();
    let mut i: usize = 0;
    while i < n
        invariant
            i <= n,
            n == hashes@.len(),
            fp == fingerprints(hashes@),
            fp.len() == n,
            d == max_distance as nat,
            assigned@.len() == n,
            forall|q: int| 0 <= q < n ==> (#[trigger] hashes@[q]).hash@.len() <= MAX_HASH_BYTES,
            done + clusters_from(fp, d, i as int, assigned@) == clusters(fp, d),
            built@.len() == done.len(),
            forall|k: int| 0 <= k < built@.len() ==> (#[trigger] built@[k]).wf()
                && built@[k].match_type == MatchType::PerceptuallySimilar
                && built@[k].members@.to_multiset() == cluster_files(hashes@, done[k]).to_multiset(),
        decreases n - i,
    {
        if assigned[i] {
            i = i + 1;
            continue;
        }
        let ghost a0 = assigned@;
        let mut js: Vec<usize> = Vec::new();
        let mut members: Vec<SimilarFile> = Vec::new();
        members.push(make_member(&hashes[i], &hashes[i], true));
        let mut j: usize = i + 1;
        while j < n
            invariant
                i < j <= n,
                n == hashes@.len(),
                fp == fingerprints(hashes@),
                fp.len() == n,
                d == max_distance as nat,
                a0.len() == n,
                !a0[i as int],
                assigned@ == mark(a0, ints(js@)),
                forall|q: int| 0 <= q < n ==> (#[trigger] hashes@[q]).hash@.len() <= MAX_HASH_BYTES,
                ints(js@) == attach(fp, d, i as int, a0, j as int),
                members@ == cluster_files(hashes@, seq![i as int] + ints(js@)),
                forall|t: int| 0 <= t < js@.len() ==> i < #[trigger] js@[t] < j,
            decreases n - j,
        {
            if !assigned[j] {
                let dist = distance(&hashes[i].hash, &hashes[j].hash);
                assert(!a0[j as int]) by {
                    if a0[j as int] {
                        assert(mark(a0, ints(js@))[j as int]);
                    }
                }
                if dist <= max_distance {
                    let ghost old_js = ints(js@);
                    js.push(j);
                    assert(ints(js@) =~= old_js.push(j as int));
                    members.push(make_member(&hashes[j], &hashes[i], false));
                    assert(members@ =~= cluster_files(hashes@, seq![i as int] + ints(js@)));
                    let ghost old_assigned = assigned@;
                    assigned.set(j, true);
                    assert forall|k: int| 0 <= k < n implies #[trigger] assigned@[k] == mark(a0, ints(js@))[k] by {
                        if k == j {
                            assert(ints(js@)[ints(js@).len() - 1] == j as int);
                        } else {
                            assert(assigned@[k] == old_assigned[k]);
                            if old_js.contains(k) {
                                let t = choose|t: int| 0 <= t < old_js.len() && old_js[t] == k;
                                assert(ints(js@)[t] == k);
                            }
                            if ints(js@).contains(k) {
                                let t = choose|t: int| 0 <= t < ints(js@).len() && ints(js@)[t] == k;
                                assert(t < old_js.len());
                                assert(old_js[t] == k);
                            }
                        }
                    }
                    assert(assigned@ =~= mark(a0, ints(js@)));
                }
            } else {
                assert(a0[j as int] || ints(js@).contains(j as int));
                assert(!ints(js@).contains(j as int)) by {
                    if ints(js@).contains(j as int) {
                        let t = choose|t: int| 0 <= t < ints(js@).len() && ints(js@)[t] == j as int;
                        assert(js@[t] < j);
                    }
                }
            }
            j = j + 1;
        }
        proof {
            assert(clusters_from(fp, d, i as int, a0) == {
                let jj = attach(fp, d, i as int, a0, fp.len() as int);
                let rest = clusters_from(fp, d, i + 1, mark(a0, jj));
                if jj.len() > 0 { seq![seq![i as int] + jj] + rest } else { rest }
            });
        }
        if js.len() > 0 {
            let g = build_group(members, MatchType::PerceptuallySimilar);
            let ghost c = seq![i as int] + ints(js@);
            proof {
                assert((done.push(c)) + clusters_from(fp, d, i + 1, assigned@) =~= done + (seq![c] + clusters_from(fp, d, i + 1, assigned@)));
                done = done.push(c);
            }
            let ghost old_built = built@;
            built.push(g);
            assert forall|k: int| 0 <= k < built@.len() implies (#[trigger] built@[k]).wf()
                && built@[k].match_type == MatchType::PerceptuallySimilar
                && built@[k].members@.to_multiset() == cluster_files(hashes@, done[k]).to_multiset() by {
                if k < old_built.len() {
                    assert(built@[k] == old_built[k]);
                }
            }
        }
        i = i + 1;
    }
    assert(clusters_from(fp, d, n as int, assigned@) =~= Seq::<Seq<int>>::empty());
    assert(done =~= clusters(fp, d));
    let ghost b = built@;
    assert(image_clusters(hashes@, max_distance as nat) == done);
    let r = sort_groups_by_wasted(built);
    assert forall|k: int| 0 <= k < r@.len() implies group_of_cluster(#[trigger] r@[k], hashes@, image_clusters(hashes@, max_distance as nat))
        && r@[k].wf() && r@[k].match_type == MatchType::PerceptuallySimilar by {
        assert(r@.to_multiset().count(r@[k]) > 0) by {
            assert(r@.contains(r@[k]));
        }
        assert(b.contains(r@[k]));
        let c = choose|c: int| 0 <= c < b.len() && b[c] == r@[k];
        assert(r@[k].members@.to_multiset() == cluster_files(hashes@, image_clusters(hashes@, max_distance as nat)[c]).to_multiset());
    }
    assert forall|c: int| 0 <= c < image_clusters(hashes@, max_distance as nat).len() implies cluster_has_group(r@, hashes@, #[trigger] image_clusters(hashes@, max_distance as nat)[c]) by {
        assert(b.contains(b[c]));
        assert(b.to_multiset().count(b[c]) > 0);
        assert(r@.contains(b[c]));
        let k = choose|k: int| 0 <= k < r@.len() && r@[k] == b[c];
        assert(r@[k].members@.to_multiset() == cluster_files(hashes@, image_clusters(hashes@, max_distance as nat)[c]).to_multiset());
    }
    r
}

} // verus!
