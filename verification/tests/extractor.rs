use payload_bridge::error::ExtractError;
use payload_bridge::extractor::{
    block_size, find_partition, select_backend, Action, Backend, Event, Location, Operation,
    Orchestrator, Output, Source, DEFAULT_BLOCK_SIZE,
};
use payload_bridge::format::FileKind;
use payload_bridge::summary::{
    build_summary, Manifest, PartitionMetadata, PartitionUpdate, PayloadMetadata,
};

fn update(name: &str, operation_is_diff: &[bool]) -> PartitionUpdate {
    PartitionUpdate { partition_name: name.to_string(), operation_is_diff: operation_is_diff.to_vec() }
}

fn manifest() -> Manifest {
    Manifest {
        partitions: vec![update("boot", &[false]), update("system", &[true]), update("boot", &[])],
        block_size: Some(8192),
    }
}

fn metadata() -> PayloadMetadata {
    let described = |name: &str, size: u64| PartitionMetadata {
        partition_name: name.to_string(),
        size_in_bytes: size,
        size_readable: format!("{} B", size),
        operations_count: 1,
        compression_type: "none".to_string(),
        hash: None,
    };
    PayloadMetadata {
        partitions: vec![described("boot", 10), described("system", 20), described("boot", 5)],
        total_operations_count: 2,
        security_patch_level: None,
    }
}

fn extract(name: &str) -> Operation {
    Operation::Extract { partition_name: name.to_string() }
}

#[test]
fn backend_follows_place_and_container() {
    assert_eq!(select_backend(Location::Local, FileKind::Bin), Backend::LocalBin);
    assert_eq!(select_backend(Location::Local, FileKind::Zip), Backend::LocalZip);
    assert_eq!(select_backend(Location::Remote, FileKind::Bin), Backend::RemoteBin);
    assert_eq!(select_backend(Location::Remote, FileKind::Zip), Backend::RemoteZip);
}

#[test]
fn source_knows_its_location() {
    assert_eq!(Source::Local { path: "payload.bin".to_string() }.location(), Location::Local);
    let remote = Source::Remote {
        url: "https://example.com/ota.zip".to_string(),
        user_agent: None,
        cookies: Some("k1=v1; k2=v2".to_string()),
    };
    assert_eq!(remote.location(), Location::Remote);
}

#[test]
fn block_size_defaults_to_4096() {
    assert_eq!(DEFAULT_BLOCK_SIZE, 4096);
    assert_eq!(block_size(&manifest()), 8192);
    assert_eq!(block_size(&Manifest { partitions: vec![], block_size: None }), 4096);
    assert_eq!(block_size(&Manifest { partitions: vec![], block_size: Some(u32::MAX) }), 4294967295);
}

#[test]
fn partition_is_found_at_its_first_position() {
    assert_eq!(find_partition(&manifest(), "boot"), Ok(0));
    assert_eq!(find_partition(&manifest(), "system"), Ok(1));
}

#[test]
fn missing_partition_is_named_in_the_error() {
    let error = find_partition(&manifest(), "vendor").unwrap_err();
    assert_eq!(error, ExtractError::PartitionNotFound { name: "vendor".to_string() });
    assert_eq!(error.message(), "Partition 'vendor' not found");
    assert!(find_partition(&manifest(), "Boot").is_err());
    assert!(find_partition(&manifest(), "").is_err());
    assert!(find_partition(&Manifest { partitions: vec![], block_size: None }, "boot").is_err());
}

#[test]
fn call_from_the_pool_faults_before_any_request() {
    let (orchestrator, action) = Orchestrator::start(Location::Local, Operation::List, true);
    assert_eq!(
        action,
        Action::Fault { message: "Cannot be called from async context".to_string() }
    );
    let (_, action) = orchestrator.step(Event::Magic(Ok(*b"CrAU")));
    assert!(matches!(action, Action::Fault { .. }));
}

#[test]
fn start_here_reads_magic_outside_a_runtime() {
    let (_, action) = Orchestrator::start_here(Location::Remote, extract("boot"));
    assert_eq!(action, Action::ReadMagic);
}

#[test]
fn start_here_faults_inside_a_runtime() {
    let runtime = payload_bridge::runtime::create_runtime().unwrap();
    let action = runtime.block_on(async {
        let (_, action) = Orchestrator::start_here(Location::Local, Operation::List);
        action
    });
    assert_eq!(
        action,
        Action::Fault { message: "Cannot be called from async context".to_string() }
    );
}

#[test]
fn local_extraction_runs_through_its_requests() {
    let (orchestrator, action) = Orchestrator::start(Location::Local, extract("system"), false);
    assert_eq!(action, Action::ReadMagic);
    let (orchestrator, action) = orchestrator.step(Event::Magic(Ok(*b"CrAU")));
    assert_eq!(action, Action::Parse { backend: Backend::LocalBin });
    let (orchestrator, action) = orchestrator.step(Event::Manifest(Ok(manifest())));
    assert_eq!(action, Action::CreateOutputDirectory);
    let (orchestrator, action) = orchestrator.step(Event::DirectoryReady(Ok(())));
    assert_eq!(
        action,
        Action::Dump { backend: Backend::LocalBin, partition_index: 1, block_size: 8192 }
    );
    let (orchestrator, action) = orchestrator.step(Event::Dumped(Ok(())));
    assert_eq!(action, Action::Return(Ok(Output::Extracted)));
    let (_, action) = orchestrator.step(Event::Dumped(Ok(())));
    assert_eq!(action, Action::Fault { message: "Unexpected event".to_string() });
}

#[test]
fn remote_zip_extraction_uses_the_remote_zip_backend() {
    let (orchestrator, _) = Orchestrator::start(Location::Remote, extract("boot"), false);
    let (orchestrator, action) = orchestrator.step(Event::Magic(Ok([0x50, 0x4B, 3, 4])));
    assert_eq!(action, Action::Parse { backend: Backend::RemoteZip });
    let unset = Manifest { partitions: vec![update("boot", &[])], block_size: None };
    let (orchestrator, action) = orchestrator.step(Event::Manifest(Ok(unset)));
    assert_eq!(action, Action::CreateOutputDirectory);
    let (_, action) = orchestrator.step(Event::DirectoryReady(Ok(())));
    assert_eq!(
        action,
        Action::Dump { backend: Backend::RemoteZip, partition_index: 0, block_size: 4096 }
    );
}

#[test]
fn extraction_of_a_missing_partition_makes_no_output() {
    let (orchestrator, _) = Orchestrator::start(Location::Local, extract("vendor"), false);
    let (orchestrator, _) = orchestrator.step(Event::Magic(Ok(*b"CrAU")));
    let (orchestrator, action) = orchestrator.step(Event::Manifest(Ok(manifest())));
    assert_eq!(
        action,
        Action::Return(Err(ExtractError::PartitionNotFound { name: "vendor".to_string() }))
    );
    let (orchestrator, action) = orchestrator.step(Event::DirectoryReady(Ok(())));
    assert!(matches!(action, Action::Fault { .. }));
    let (_, action) = orchestrator.step(Event::Dumped(Ok(())));
    assert!(matches!(action, Action::Fault { .. }));
}

#[test]
fn unsupported_container_ends_the_operation() {
    let (orchestrator, _) = Orchestrator::start(Location::Local, Operation::List, false);
    let (_, action) = orchestrator.step(Event::Magic(Ok([1, 2, 3, 4])));
    assert_eq!(action, Action::Return(Err(ExtractError::UnsupportedFormat)));
}

#[test]
fn failures_of_requests_end_the_operation() {
    let failed = |detail: &str| {
        Action::Return(Err(ExtractError::Engine { detail: detail.to_string() }))
    };
    let (orchestrator, _) = Orchestrator::start(Location::Local, extract("boot"), false);
    let (_, action) = orchestrator.step(Event::Magic(Err("no such file".to_string())));
    assert_eq!(action, failed("no such file"));

    let (orchestrator, _) = Orchestrator::start(Location::Local, extract("boot"), false);
    let (orchestrator, _) = orchestrator.step(Event::Magic(Ok(*b"CrAU")));
    let (_, action) = orchestrator.step(Event::Manifest(Err("bad manifest".to_string())));
    assert_eq!(action, failed("bad manifest"));

    let (orchestrator, _) = Orchestrator::start(Location::Local, extract("boot"), false);
    let (orchestrator, _) = orchestrator.step(Event::Magic(Ok(*b"CrAU")));
    let (orchestrator, _) = orchestrator.step(Event::Manifest(Ok(manifest())));
    let (_, action) = orchestrator.step(Event::DirectoryReady(Err("read-only".to_string())));
    assert_eq!(action, failed("read-only"));

    let (orchestrator, _) = Orchestrator::start(Location::Local, extract("boot"), false);
    let (orchestrator, _) = orchestrator.step(Event::Magic(Ok(*b"CrAU")));
    let (orchestrator, _) = orchestrator.step(Event::Manifest(Ok(manifest())));
    let (orchestrator, _) = orchestrator.step(Event::DirectoryReady(Ok(())));
    let (_, action) = orchestrator.step(Event::Dumped(Err("disk full".to_string())));
    assert_eq!(action, failed("disk full"));

    let (orchestrator, _) = Orchestrator::start(Location::Remote, Operation::List, false);
    let (orchestrator, _) = orchestrator.step(Event::Magic(Ok(*b"CrAU")));
    let (orchestrator, _) = orchestrator.step(Event::Manifest(Ok(manifest())));
    let (_, action) = orchestrator.step(Event::Metadata(Err("truncated".to_string())));
    assert_eq!(action, failed("truncated"));
}

#[test]
fn listing_runs_through_its_requests() {
    let (orchestrator, action) = Orchestrator::start(Location::Remote, Operation::List, false);
    assert_eq!(action, Action::ReadMagic);
    let (orchestrator, action) = orchestrator.step(Event::Magic(Ok(*b"CrAU")));
    assert_eq!(action, Action::Parse { backend: Backend::RemoteBin });
    let (orchestrator, action) = orchestrator.step(Event::Manifest(Ok(manifest())));
    assert_eq!(action, Action::ReadMetadata);
    let (orchestrator, action) = orchestrator.step(Event::Metadata(Ok(metadata())));
    assert_eq!(action, Action::FormatSize { total_size_bytes: 35 });
    let (orchestrator, action) = orchestrator.step(Event::SizeText("35 B".to_string()));
    let expected = build_summary(&manifest(), &metadata(), "35 B".to_string());
    assert!(expected.is_incremental);
    assert_eq!(action, Action::Serialize { summary: expected });
    let (_, action) = orchestrator.step(Event::Serialized(Ok("{}".to_string())));
    assert_eq!(action, Action::Return(Ok(Output::Listing("{}".to_string()))));
}

#[test]
fn listing_that_cannot_be_rendered_fails() {
    let (orchestrator, _) = Orchestrator::start(Location::Local, Operation::List, false);
    let (orchestrator, _) = orchestrator.step(Event::Magic(Ok([0x50, 0x4B, 0, 0])));
    let (orchestrator, _) = orchestrator.step(Event::Manifest(Ok(manifest())));
    let (orchestrator, _) = orchestrator.step(Event::Metadata(Ok(metadata())));
    let (orchestrator, _) = orchestrator.step(Event::SizeText("35 B".to_string()));
    let (_, action) = orchestrator.step(Event::Serialized(Err("recursion limit".to_string())));
    let error = ExtractError::Serialization { detail: "recursion limit".to_string() };
    assert_eq!(error.message(), "Serialization failed: recursion limit");
    assert_eq!(action, Action::Return(Err(error)));
}

#[test]
fn listing_whose_sizes_overflow_faults() {
    let mut metadata = metadata();
    metadata.partitions[0].size_in_bytes = u64::MAX;
    let (orchestrator, _) = Orchestrator::start(Location::Local, Operation::List, false);
    let (orchestrator, _) = orchestrator.step(Event::Magic(Ok(*b"CrAU")));
    let (orchestrator, _) = orchestrator.step(Event::Manifest(Ok(manifest())));
    let (_, action) = orchestrator.step(Event::Metadata(Ok(metadata)));
    assert_eq!(action, Action::Fault { message: "attempt to add with overflow".to_string() });
}

#[test]
fn answer_that_fits_no_request_faults() {
    let (orchestrator, _) = Orchestrator::start(Location::Local, Operation::List, false);
    let (orchestrator, action) = orchestrator.step(Event::Dumped(Ok(())));
    assert_eq!(action, Action::Fault { message: "Unexpected event".to_string() });
    let (_, action) = orchestrator.step(Event::Magic(Ok(*b"CrAU")));
    assert_eq!(action, Action::Fault { message: "Unexpected event".to_string() });

    let (orchestrator, _) = Orchestrator::start(Location::Local, Operation::List, false);
    let (orchestrator, _) = orchestrator.step(Event::Magic(Ok(*b"CrAU")));
    let (_, action) = orchestrator.step(Event::Magic(Ok(*b"CrAU")));
    assert_eq!(action, Action::Fault { message: "Unexpected event".to_string() });
}
