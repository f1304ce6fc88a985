use tidymac::duplicates::{build_group, MatchType, SimilarFile};
use tidymac::hasher::{full_hash_of, group_by_full_hash, group_by_quick_hash, group_by_size, quick_hash_of};

fn paths(names: &[&str]) -> Vec<String> {
    names.iter().map(|n| n.to_string()).collect()
}

#[test]
fn test_quick_hash_identical_files() {
    let content = b"Hello, TidyMac! This is test content for hashing.";
    let hash1 = quick_hash_of(content);
    let hash2 = quick_hash_of(&content.to_vec());
    assert_eq!(hash1, hash2, "Identical files should produce identical quick hashes");
}

#[test]
fn test_quick_hash_different_files() {
    let hash1 = quick_hash_of(b"Content A");
    let hash2 = quick_hash_of(b"Content B");
    assert_ne!(hash1, hash2, "Different files should produce different hashes");
}

#[test]
fn test_full_hash_identical_files() {
    let content: Vec<u8> = (0..8192).map(|i| (i % 256) as u8).collect();
    let copy = content.clone();
    assert_eq!(full_hash_of(&content), full_hash_of(&copy));
}

#[test]
fn test_full_hash_differs_from_quick_when_content_differs_after_4kb() {
    let mut content1 = vec![0u8; 8192];
    let mut content2 = vec![0u8; 8192];
    content1[5000] = 0xFF;
    content2[5000] = 0x00;
    assert_eq!(quick_hash_of(&content1), quick_hash_of(&content2), "Quick hashes should match (same first 4KB)");
    assert_ne!(full_hash_of(&content1), full_hash_of(&content2), "Full hashes should differ (content differs after 4KB)");
}

#[test]
fn known_digests() {
    assert_eq!(full_hash_of(b"hello"), "2cf24dba5fb0a30e26e83b2ac5b9e29e1b161e5c1fa7425e73043362938b9824");
    assert_eq!(full_hash_of(b""), "e3b0c44298fc1c149afbf4c8996fb92427ae41e4649b934ca495991b7852b855");
    let long = vec![7u8; 5000];
    assert_eq!(quick_hash_of(&long), full_hash_of(&long[..4096]));
    assert_ne!(quick_hash_of(&long), full_hash_of(&long));
}

#[test]
fn test_group_by_size() {
    let files = paths(&["a.txt", "b.txt", "c.txt"]);
    let sizes = vec![Some(5), Some(5), Some(2)];
    let groups = group_by_size(&files, &sizes);
    assert_eq!(groups.len(), 1, "Should have 1 size group");
    assert_eq!(groups[0].paths.len(), 2, "Size group should have 2 files");
    assert_eq!(groups[0].size, 5);
}

#[test]
fn test_group_by_size_no_duplicates() {
    let files = paths(&["a.txt", "b.txt", "c.txt"]);
    let sizes = vec![Some(1), Some(2), Some(3)];
    let groups = group_by_size(&files, &sizes);
    assert_eq!(groups.len(), 0, "No size groups when all sizes are unique");
}

#[test]
fn group_by_size_skips_unreadable() {
    let files = paths(&["a", "b", "c", "d"]);
    let sizes = vec![Some(9), None, Some(9), Some(4)];
    let groups = group_by_size(&files, &sizes);
    assert_eq!(groups.len(), 1);
    assert_eq!(groups[0].paths, paths(&["a", "c"]));
}

#[test]
fn test_group_by_full_hash() {
    let files = paths(&["a.txt", "b.txt", "c.txt"]);
    let contents = vec![
        Some(b"duplicate content".to_vec()),
        Some(b"duplicate content".to_vec()),
        Some(b"unique content".to_vec()),
    ];
    let groups = group_by_full_hash(&files, &contents);
    assert_eq!(groups.len(), 1, "Should have 1 hash group for the duplicates");
    assert_eq!(groups[0].paths, paths(&["a.txt", "b.txt"]));
}

#[test]
fn test_empty_file_hashing() {
    let hash = quick_hash_of(b"");
    assert!(!hash.is_empty(), "Hash of empty file should still produce a value");
    assert_eq!(hash, full_hash_of(b""), "Quick and full hash of empty file should be identical");
}

#[test]
fn duplicate_funnel_scenario() {
    let files = paths(&["a.txt", "b.txt", "c.txt"]);
    let data: Vec<&[u8]> = vec![b"hello", b"hello", b"hi"];
    let sizes: Vec<Option<u64>> = data.iter().map(|d| Some(d.len() as u64)).collect();
    let by_size = group_by_size(&files, &sizes);
    assert_eq!(by_size.len(), 1);
    assert_eq!(by_size[0].size, 5);
    let members = by_size[0].paths.clone();
    let contents: Vec<Option<Vec<u8>>> = vec![Some(b"hello".to_vec()), Some(b"hello".to_vec())];
    let quick = group_by_quick_hash(&members, &contents);
    assert_eq!(quick.len(), 1);
    let full = group_by_full_hash(&quick[0].paths, &contents);
    assert_eq!(full.len(), 1);
    let group = build_group(
        full[0].paths.iter().map(|p| SimilarFile { path: p.clone(), size_bytes: 5, distance: 0 }).collect(),
        MatchType::Exact,
    );
    assert_eq!(group.members.len(), 2);
    assert_eq!(group.wasted_bytes, 5);
}

#[test]
fn prefix_equal_files_split_on_full_hash() {
    let files = paths(&["x", "y"]);
    let mut c1 = vec![0u8; 8192];
    let c2 = vec![0u8; 8192];
    c1[5000] = 1;
    let contents = vec![Some(c1), Some(c2)];
    assert_eq!(group_by_quick_hash(&files, &contents).len(), 1);
    assert!(group_by_full_hash(&files, &contents).is_empty());
}

#[test]
fn keeper_is_largest() {
    let g = build_group(
        vec![
            SimilarFile { path: "s".to_string(), size_bytes: 10, distance: 0 },
            SimilarFile { path: "l".to_string(), size_bytes: 30, distance: 0 },
            SimilarFile { path: "m".to_string(), size_bytes: 20, distance: 0 },
        ],
        MatchType::Exact,
    );
    assert_eq!(g.members[0].path, "l");
    assert_eq!(g.members[1].path, "m");
    assert_eq!(g.wasted_bytes, 30);
}
