use tidymac::duplicates::{MatchType, SimilarFile, SimilarGroup, build_group};
use tidymac::grouper::{dedup_similar, exact_group, keep_min_size, summarize_duplicates, CandidateFile};
use tidymac::perceptual::{distance, filter_images, find_similar_groups, is_image, PerceptualHash};
use tidymac::resolver::{resolve_group, ResolveStrategy};

fn cand(p: &str, s: u64) -> CandidateFile {
    CandidateFile { path: p.to_string(), size: s }
}

#[test]
fn min_size_filter_is_inclusive() {
    let kept = keep_min_size(vec![cand("a", 1023), cand("b", 1024), cand("c", 5000)], 1024);
    let names: Vec<&str> = kept.iter().map(|c| c.path.as_str()).collect();
    assert_eq!(names, vec!["b", "c"]);
}

#[test]
fn exact_group_keeps_largest() {
    let g = exact_group(&vec![cand("x", 5), cand("y", 9)]);
    assert_eq!(g.match_type, MatchType::Exact);
    assert_eq!(g.members[0].path, "y");
    assert_eq!(g.wasted_bytes, 5);
}

#[test]
fn image_detection() {
    assert!(is_image("/p/photo.JPG"));
    assert!(is_image("/p/a.b/pic.heic"));
    assert!(!is_image("/p/notes.txt"));
    assert!(!is_image("/p/.png"));
    assert!(!is_image("/p/png"));
    let imgs = filter_images(&vec!["a.png".to_string(), "b.doc".to_string(), "c.webp".to_string()]);
    assert_eq!(imgs, vec!["a.png".to_string(), "c.webp".to_string()]);
}

#[test]
fn fingerprint_distance() {
    assert_eq!(distance(&vec![0u8; 32], &vec![0u8; 32]), 0);
    assert_eq!(distance(&vec![0xFFu8; 32], &vec![0u8; 32]), 256);
    assert_eq!(distance(&vec![0b1010_0001], &vec![0b0010_0000]), 2);
}

fn ph(p: &str, fill: u8, flip: usize, size: u64) -> PerceptualHash {
    let mut h = vec![fill; 32];
    for i in 0..flip {
        h[i] ^= 1;
    }
    PerceptualHash { path: p.to_string(), hash: h, size_bytes: size }
}

#[test]
fn similar_images_group_greedily() {
    let hashes = vec![ph("a", 0, 0, 10), ph("b", 0, 3, 30), ph("c", 0xFF, 0, 20), ph("d", 0, 20, 5)];
    let groups = find_similar_groups(&hashes, 5);
    assert_eq!(groups.len(), 1);
    let g = &groups[0];
    assert_eq!(g.match_type, MatchType::PerceptuallySimilar);
    assert_eq!(g.members.len(), 2);
    assert_eq!(g.members[0].path, "b");
    assert_eq!(g.members[0].distance, 3);
    assert_eq!(g.members[1].path, "a");
    assert_eq!(g.wasted_bytes, 10);
    assert!(find_similar_groups(&vec![ph("a", 0, 0, 1)], 256).is_empty());
    let all = find_similar_groups(&hashes, 256);
    assert_eq!(all.len(), 1);
    assert_eq!(all[0].members.len(), 4);
}

fn sf(p: &str, s: u64) -> SimilarFile {
    SimilarFile { path: p.to_string(), size_bytes: s, distance: 0 }
}

#[test]
fn similar_groups_covered_by_exact_are_dropped() {
    let exact = vec![build_group(vec![sf("a", 1), sf("b", 1)], MatchType::Exact)];
    let similar = vec![
        build_group(vec![sf("a", 1), sf("b", 1)], MatchType::PerceptuallySimilar),
        build_group(vec![sf("a", 1), sf("c", 1)], MatchType::PerceptuallySimilar),
    ];
    let kept = dedup_similar(similar, &exact);
    assert_eq!(kept.len(), 1);
    assert!(kept[0].members.iter().any(|m| m.path == "c"));
    let res = summarize_duplicates(exact, kept, 7, 0, Vec::new());
    assert_eq!(res.total_groups, 2);
    assert_eq!(res.total_wasted, 2);
    assert_eq!(res.total_duplicates, 2);
    assert_eq!(res.files_scanned, 7);
}

fn group(members: Vec<SimilarFile>) -> SimilarGroup {
    build_group(members, MatchType::Exact)
}

#[test]
fn resolve_strategies() {
    let g = group(vec![sf("/a/x", 10), sf("/b/y", 10), sf("/a/z", 4)]);
    let times = vec![Some(5), Some(1), None];
    let largest = resolve_group(&g, &ResolveStrategy::KeepLargest, &times);
    assert_eq!(largest.keep, "/b/y");
    assert_eq!(largest.remove, vec!["/a/x".to_string(), "/a/z".to_string()]);
    assert_eq!(largest.bytes_freed, 14);
    let newest = resolve_group(&g, &ResolveStrategy::KeepNewest, &times);
    assert_eq!(newest.keep, "/a/x");
    let oldest = resolve_group(&g, &ResolveStrategy::KeepOldest, &times);
    assert_eq!(oldest.keep, "/a/z");
    let in_dir = resolve_group(&g, &ResolveStrategy::KeepInDir("/b".to_string()), &times);
    assert_eq!(in_dir.keep, "/b/y");
    let none = resolve_group(&g, &ResolveStrategy::KeepInDir("/c".to_string()), &times);
    assert_eq!(none.keep, "/a/x");
    let empty = resolve_group(&group(vec![]), &ResolveStrategy::Interactive, &vec![]);
    assert_eq!(empty.keep, "");
    assert_eq!(empty.reason, "Empty group");
}
