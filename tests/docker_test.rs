use tidymac::docker::{get_docker_usage, parse_size_string, DockerCategory, DockerUsage};

#[test]
fn test_docker_unavailable() {
    let usage = DockerUsage::unavailable();
    assert!(!usage.installed);
    assert!(!usage.running);
    assert_eq!(usage.total_size, 0);
}

#[test]
fn docker_usage_sums_categories() {
    let mut images = DockerCategory::empty("Images");
    images.size = 100;
    images.reclaimable = 10;
    let mut volumes = DockerCategory::empty("Volumes");
    volumes.size = 50;
    volumes.reclaimable = 5;
    let usage = get_docker_usage(
        true,
        true,
        images,
        DockerCategory::empty("Containers"),
        volumes,
        DockerCategory::empty("Build Cache"),
    );
    assert_eq!(usage.total_size, 150);
    assert_eq!(usage.reclaimable, 15);
    let stopped = get_docker_usage(
        true,
        false,
        DockerCategory::empty("Images"),
        DockerCategory::empty("Containers"),
        DockerCategory::empty("Volumes"),
        DockerCategory::empty("Build Cache"),
    );
    assert!(stopped.installed);
    assert!(!stopped.running);
    assert_eq!(stopped.images.label, "Images");
}

#[test]
fn test_parse_size_string() {
    assert_eq!(parse_size_string("0B"), 0);
    assert_eq!(parse_size_string("100B"), 100);
    assert_eq!(parse_size_string("1KB"), 1024);
    assert_eq!(parse_size_string("1MB"), 1048576);
    assert_eq!(parse_size_string("1.5GB"), (1.5 * 1024.0 * 1024.0 * 1024.0) as u64);
    assert_eq!(parse_size_string("2.5MB"), (2.5 * 1024.0 * 1024.0) as u64);
    assert_eq!(parse_size_string(""), 0);
}

#[test]
fn parse_size_string_edge_cases() {
    assert_eq!(parse_size_string("  1.2kB "), 1228);
    assert_eq!(parse_size_string("3 TB"), 3 * 1024u64.pow(4));
    assert_eq!(parse_size_string("7"), 7);
    assert_eq!(parse_size_string("1.2.3MB"), 0);
    assert_eq!(parse_size_string(".5KB"), 512);
    assert_eq!(parse_size_string("GB"), 0);
    assert_eq!(parse_size_string("99999999999999999999TB"), u64::MAX);
    assert_eq!(parse_size_string("12XB"), 12);
}

#[test]
fn prune_counts_removed_objects() {
    use_prune();
}

fn use_prune() {
    let long_id = "a".repeat(64);
    let outputs = vec![
        Ok(format!("{}\n0123456789ab\nTotal reclaimed space: 1GB\n", long_id)),
        Ok("untagged: foo:latest\ndeleted: sha256:abc\nTotal reclaimed space: 0B\n".to_string()),
        Err("daemon error".to_string()),
        Ok(String::new()),
    ];
    let rep = tidymac::docker::prune_dangling(true, false, 0, &outputs).unwrap();
    assert_eq!(rep.containers_removed, 2);
    assert_eq!(rep.images_removed, 2);
    assert_eq!(rep.volumes_removed, 0);
    assert!(rep.build_cache_cleared);
    assert_eq!(rep.errors, vec!["Volume prune: daemon error".to_string()]);
    let dry = tidymac::docker::prune_dangling(true, true, 2048, &Vec::new()).unwrap();
    assert_eq!(dry.space_freed, "2048 B");
    assert!(tidymac::docker::prune_dangling(false, true, 0, &Vec::new()).is_err());
}

#[test]
fn lines_split_like_str_lines() {
    let text = "a\r\n\nb\nlast";
    let ours = tidymac::docker::split_lines(text);
    let std_lines: Vec<String> = text.lines().map(|l| l.to_string()).collect();
    assert_eq!(ours, std_lines);
    assert!(tidymac::docker::split_lines("").is_empty());
    assert_eq!(tidymac::docker::split_lines("x\n"), vec!["x".to_string()]);
}
