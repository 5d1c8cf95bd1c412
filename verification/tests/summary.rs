use payload_bridge::summary::{
    build_summary, is_partition_differential, list_partitions, listed_size, total_size, Manifest,
    PartitionInfo, PartitionMetadata, PartitionUpdate, PayloadMetadata,
};

fn update(name: &str, operation_is_diff: &[bool]) -> PartitionUpdate {
    PartitionUpdate { partition_name: name.to_string(), operation_is_diff: operation_is_diff.to_vec() }
}

fn described(name: &str, size: u64, operations: usize) -> PartitionMetadata {
    PartitionMetadata {
        partition_name: name.to_string(),
        size_in_bytes: size,
        size_readable: format!("{} B", size),
        operations_count: operations,
        compression_type: "xz".to_string(),
        hash: Some(format!("hash-of-{}", name)),
    }
}

fn payload() -> (Manifest, PayloadMetadata) {
    let manifest = Manifest {
        partitions: vec![
            update("boot", &[false, false]),
            update("system", &[false, true, false]),
            update("vendor", &[false]),
        ],
        block_size: Some(4096),
    };
    let metadata = PayloadMetadata {
        partitions: vec![
            described("boot", 100, 2),
            described("system", 2000, 3),
            described("vendor", 30, 1),
        ],
        total_operations_count: 6,
        security_patch_level: Some("2025-12-05".to_string()),
    };
    (manifest, metadata)
}

#[test]
fn partition_with_a_diff_operation_is_differential() {
    assert!(is_partition_differential(&update("system", &[false, true, false])));
    assert!(is_partition_differential(&update("system", &[true])));
    assert!(is_partition_differential(&update("system", &[false, false, true])));
    assert!(!is_partition_differential(&update("system", &[false, false])));
    assert!(!is_partition_differential(&update("system", &[])));
}

#[test]
fn summary_adds_up_the_listing() {
    let (manifest, metadata) = payload();
    assert_eq!(listed_size(&manifest, &metadata), Some(2130));
    let summary = build_summary(&manifest, &metadata, "2.08 KB".to_string());
    assert_eq!(summary.total_partitions, 3);
    assert_eq!(summary.total_operations, 6);
    assert_eq!(summary.total_size_bytes, 2130);
    assert_eq!(summary.total_size_readable, "2.08 KB");
    assert_eq!(summary.security_patch_level, Some("2025-12-05".to_string()));
    assert_eq!(
        summary.partitions[1],
        PartitionInfo {
            name: "system".to_string(),
            size_bytes: 2000,
            size_readable: "2000 B".to_string(),
            operations_count: 3,
            compression_type: "xz".to_string(),
            hash: Some("hash-of-system".to_string()),
            is_differential: true,
        }
    );
    let names: Vec<&str> = summary.partitions.iter().map(|p| p.name.as_str()).collect();
    assert_eq!(names, vec!["boot", "system", "vendor"]);
}

#[test]
fn one_differential_partition_marks_the_payload() {
    let (manifest, metadata) = payload();
    let summary = build_summary(&manifest, &metadata, String::new());
    assert!(summary.is_incremental);
    let marks: Vec<bool> = summary.partitions.iter().map(|p| p.is_differential).collect();
    assert_eq!(marks, vec![false, true, false]);
}

#[test]
fn full_payload_is_not_incremental() {
    let (mut manifest, metadata) = payload();
    manifest.partitions[1].operation_is_diff = vec![false, false, false];
    let summary = build_summary(&manifest, &metadata, String::new());
    assert!(!summary.is_incremental);
    assert!(summary.partitions.iter().all(|p| !p.is_differential));
}

#[test]
fn empty_payload_has_an_empty_summary() {
    let manifest = Manifest { partitions: vec![], block_size: None };
    let metadata = PayloadMetadata {
        partitions: vec![],
        total_operations_count: 0,
        security_patch_level: None,
    };
    let summary = build_summary(&manifest, &metadata, "0 B".to_string());
    assert!(summary.partitions.is_empty());
    assert_eq!(summary.total_partitions, 0);
    assert_eq!(summary.total_size_bytes, 0);
    assert_eq!(summary.security_patch_level, None);
    assert!(!summary.is_incremental);
}

#[test]
fn listing_pairs_as_many_partitions_as_both_descriptions_hold() {
    let (manifest, mut metadata) = payload();
    metadata.partitions.pop();
    let partitions = list_partitions(&manifest, &metadata);
    assert_eq!(partitions.len(), 2);
    assert_eq!(total_size(&partitions), Some(2100));
    let (mut manifest, metadata) = payload();
    manifest.partitions.truncate(1);
    let summary = build_summary(&manifest, &metadata, String::new());
    assert_eq!(summary.total_partitions, 1);
    assert_eq!(summary.total_size_bytes, 100);
    assert_eq!(summary.total_operations, 6);
    assert!(!summary.is_incremental);
}

#[test]
fn sizes_that_leave_64_bits_have_no_total() {
    let manifest = Manifest {
        partitions: vec![update("a", &[]), update("b", &[]), update("c", &[])],
        block_size: None,
    };
    let metadata = PayloadMetadata {
        partitions: vec![described("a", u64::MAX - 1, 0), described("b", 1, 0), described("c", 1, 0)],
        total_operations_count: 0,
        security_patch_level: None,
    };
    assert_eq!(listed_size(&manifest, &metadata), None);
    let mut fitting = metadata.clone();
    fitting.partitions.pop();
    assert_eq!(listed_size(&manifest, &fitting), Some(u64::MAX));
}
