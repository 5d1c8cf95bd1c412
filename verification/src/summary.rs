//! The listing of a payload: what each partition is, and what they add up to.
//!
//! The extraction engine describes a payload twice. Its manifest lists the
//! partitions with their operations; its metadata lists the same partitions
//! with their sizes. The summary pairs the two lists position by position.

use vstd::prelude::*;
use vstd::string::*;

verus! {

/// What the bridge reads of one partition of a manifest: its name and, for
/// each of its operations in order, whether the engine counts the operation
/// among those that need a prior image.
#[derive(Debug, Clone, PartialEq, Eq)]
pub struct PartitionUpdate {
    pub partition_name: String,
    pub operation_is_diff: Vec<bool>,
}

/// A [`PartitionUpdate`] as the contracts see it.
pub struct PartitionUpdateView {
    pub partition_name: Seq<char>,
    pub operation_is_diff: Seq<bool>,
}

impl View for PartitionUpdate {
    type V = PartitionUpdateView;

    open spec fn view(&self) -> PartitionUpdateView {
        PartitionUpdateView {
            partition_name: self.partition_name@,
            operation_is_diff: self.operation_is_diff@,
        }
    }
}

/// What the bridge reads of a manifest.
#[derive(Debug, Clone, PartialEq, Eq)]
pub struct Manifest {
    pub partitions: Vec<PartitionUpdate>,
    pub block_size: Option<u32>,
}

/// A [`Manifest`] as the contracts see it.
pub struct ManifestView {
    pub partitions: Seq<PartitionUpdateView>,
    pub block_size: Option<u32>,
}

impl View for Manifest {
    type V = ManifestView;

    open spec fn view(&self) -> ManifestView {
        ManifestView {
            partitions: self.partitions@.map_values(|p: PartitionUpdate| p@),
            block_size: self.block_size,
        }
    }
}

/// What the engine reports of one partition.
#[derive(Debug, Clone, PartialEq, Eq)]
pub struct PartitionMetadata {
    pub partition_name: String,
    pub size_in_bytes: u64,
    pub size_readable: String,
    pub operations_count: usize,
    pub compression_type: String,
    pub hash: Option<String>,
}

/// A [`PartitionMetadata`] with its texts as sequences of characters.
pub struct PartitionMetadataView {
    pub partition_name: Seq<char>,
    pub size_in_bytes: u64,
    pub size_readable: Seq<char>,
    pub operations_count: usize,
    pub compression_type: Seq<char>,
    pub hash: Option<Seq<char>>,
}

/// A text that may be absent, as a sequence of characters.
pub open spec fn text_of(text: Option<String>) -> Option<Seq<char>> {
    match text {
        Some(s) => Some(s@),
        None => None,
    }
}

impl View for PartitionMetadata {
    type V = PartitionMetadataView;

    open spec fn view(&self) -> PartitionMetadataView {
        PartitionMetadataView {
            partition_name: self.partition_name@,
            size_in_bytes: self.size_in_bytes,
            size_readable: self.size_readable@,
            operations_count: self.operations_count,
            compression_type: self.compression_type@,
            hash: text_of(self.hash),
        }
    }
}

/// What the engine reports of a payload.
#[derive(Debug, Clone, PartialEq, Eq)]
pub struct PayloadMetadata {
    pub partitions: Vec<PartitionMetadata>,
    pub total_operations_count: usize,
    pub security_patch_level: Option<String>,
}

/// A [`PayloadMetadata`] as the contracts see it.
pub struct PayloadMetadataView {
    pub partitions: Seq<PartitionMetadataView>,
    pub total_operations_count: usize,
    pub security_patch_level: Option<Seq<char>>,
}

impl View for PayloadMetadata {
    type V = PayloadMetadataView;

    open spec fn view(&self) -> PayloadMetadataView {
        PayloadMetadataView {
            partitions: self.partitions@.map_values(|p: PartitionMetadata| p@),
            total_operations_count: self.total_operations_count,
            security_patch_level: text_of(self.security_patch_level),
        }
    }
}

/// One partition of a listing.
#[derive(Debug, Clone, PartialEq, Eq)]
pub struct PartitionInfo {
    pub name: String,
    pub size_bytes: u64,
    pub size_readable: String,
    pub operations_count: usize,
    pub compression_type: String,
    pub hash: Option<String>,
    pub is_differential: bool,
}

/// A [`PartitionInfo`] with its texts as sequences of characters.
pub struct PartitionInfoView {
    pub name: Seq<char>,
    pub size_bytes: u64,
    pub size_readable: Seq<char>,
    pub operations_count: usize,
    pub compression_type: Seq<char>,
    pub hash: Option<Seq<char>>,
    pub is_differential: bool,
}

impl View for PartitionInfo {
    type V = PartitionInfoView;

    open spec fn view(&self) -> PartitionInfoView {
        PartitionInfoView {
            name: self.name@,
            size_bytes: self.size_bytes,
            size_readable: self.size_readable@,
            operations_count: self.operations_count,
            compression_type: self.compression_type@,
            hash: text_of(self.hash),
            is_differential: self.is_differential,
        }
    }
}

/// The listing of a payload.
#[derive(Debug, Clone, PartialEq, Eq)]
pub struct PayloadSummary {
    pub partitions: Vec<PartitionInfo>,
    pub total_partitions: usize,
    pub total_operations: usize,
    pub total_size_bytes: u64,
    pub total_size_readable: String,
    pub security_patch_level: Option<String>,
    pub is_incremental: bool,
}

/// A [`PayloadSummary`] as the contracts see it.
pub struct PayloadSummaryView {
    pub partitions: Seq<PartitionInfoView>,
    pub total_partitions: usize,
    pub total_operations: usize,
    pub total_size_bytes: u64,
    pub total_size_readable: Seq<char>,
    pub security_patch_level: Option<Seq<char>>,
    pub is_incremental: bool,
}

impl View for PayloadSummary {
    type V = PayloadSummaryView;

    open spec fn view(&self) -> PayloadSummaryView {
        PayloadSummaryView {
            partitions: self.partitions@.map_values(|p: PartitionInfo| p@),
            total_partitions: self.total_partitions,
            total_operations: self.total_operations,
            total_size_bytes: self.total_size_bytes,
            total_size_readable: self.total_size_readable@,
            security_patch_level: text_of(self.security_patch_level),
            is_incremental: self.is_incremental,
        }
    }
}

/// A partition is differential when at least one of its operations needs a
/// prior image.
pub open spec fn is_differential(partition: PartitionUpdateView) -> bool {
    partition.operation_is_diff.contains(true)
}

/// The entry of a listing for a partition, from its two descriptions.
pub open spec fn partition_info_of(
    update: PartitionUpdateView,
    metadata: PartitionMetadataView,
) -> PartitionInfoView {
    PartitionInfoView {
        name: metadata.partition_name,
        size_bytes: metadata.size_in_bytes,
        size_readable: metadata.size_readable,
        operations_count: metadata.operations_count,
        compression_type: metadata.compression_type,
        hash: metadata.hash,
        is_differential: is_differential(update),
    }
}

/// How many partitions a listing has: as many as both descriptions hold.
pub open spec fn listed_count(manifest: ManifestView, metadata: PayloadMetadataView) -> nat {
    if manifest.partitions.len() <= metadata.partitions.len() {
        manifest.partitions.len()
    } else {
        metadata.partitions.len()
    }
}

/// The entries of a listing, in the order of both descriptions.
pub open spec fn listed_partitions(manifest: ManifestView, metadata: PayloadMetadataView) -> Seq<
    PartitionInfoView,
> {
    Seq::new(
        listed_count(manifest, metadata),
        |i: int| partition_info_of(manifest.partitions[i], metadata.partitions[i]),
    )
}

/// The sizes of the entries, added up.
pub open spec fn total_size_of(partitions: Seq<PartitionInfoView>) -> nat
    decreases partitions.len(),
{
    if partitions.len() == 0 {
        0
    } else {
        total_size_of(partitions.drop_last()) + partitions.last().size_bytes as nat
    }
}

/// At least one of the entries is differential.
pub open spec fn any_differential(partitions: Seq<PartitionInfoView>) -> bool {
    exists|i: int| 0 <= i < partitions.len() && (#[trigger] partitions[i]).is_differential
}

/// The listing of a payload, given how its total size reads.
pub open spec fn summary_of(
    manifest: ManifestView,
    metadata: PayloadMetadataView,
    total_size_readable: Seq<char>,
) -> PayloadSummaryView {
    let partitions = listed_partitions(manifest, metadata);
    PayloadSummaryView {
        partitions,
        total_partitions: partitions.len() as usize,
        total_operations: metadata.total_operations_count,
        total_size_bytes: total_size_of(partitions) as u64,
        total_size_readable,
        security_patch_level: metadata.security_patch_level,
        is_incremental: any_differential(partitions),
    }
}

/// The total size of a prefix is at most that of the whole.
pub proof fn total_size_grows(partitions: Seq<PartitionInfoView>, n: int)
    requires
        0 <= n <= partitions.len(),
    ensures
        total_size_of(partitions.take(n)) <= total_size_of(partitions),
    decreases partitions.len() - n,
{
    if n < partitions.len() {
        total_size_grows(partitions, n + 1);
        assert(partitions.take(n + 1).drop_last() =~= partitions.take(n));
    } else {
        assert(partitions.take(n) =~= partitions);
    }
}

fn clone_text(text: &Option<String>) -> (copy: Option<String>)
    ensures
        text_of(copy) == text_of(*text),
{
    match text {
        Some(s) => Some(s.clone()),
        None => None,
    }
}

/// Tells whether at least one operation of the partition needs a prior
/// image.
pub fn is_partition_differential(partition: &PartitionUpdate) -> (differential: bool)
    ensures
        differential == is_differential(partition@),
{
    let mut i: usize = 0;
    while i < partition.operation_is_diff.len()
        invariant
            i <= partition.operation_is_diff.len(),
            forall|j: int| 0 <= j < i ==> !partition.operation_is_diff@[j],
        decreases partition.operation_is_diff.len() - i,
    {
        if partition.operation_is_diff[i] {
            return true;
        }
        i += 1;
    }
    false
}

/// Pairs the two descriptions of a payload, position by position.
pub fn list_partitions(manifest: &Manifest, metadata: &PayloadMetadata) -> (partitions: Vec<
    PartitionInfo,
>)
    ensures
        partitions@.map_values(|p: PartitionInfo| p@) == listed_partitions(manifest@, metadata@),
{
    let count = if manifest.partitions.len() <= metadata.partitions.len() {
        manifest.partitions.len()
    } else {
        metadata.partitions.len()
    };
    let mut partitions: Vec<PartitionInfo> = Vec::new();
    let mut i: usize = 0;
    while i < count
        invariant
            i <= count,
            count == listed_count(manifest@, metadata@),
            count <= manifest.partitions.len(),
            count <= metadata.partitions.len(),
            partitions.len() == i,
            forall|j: int|
                0 <= j < i ==> (#[trigger] partitions@[j])@ == partition_info_of(
                    manifest.partitions@[j]@,
                    metadata.partitions@[j]@,
                ),
        decreases count - i,
    {
        let described = &metadata.partitions[i];
        let entry = PartitionInfo {
            name: described.partition_name.clone(),
            size_bytes: described.size_in_bytes,
            size_readable: described.size_readable.clone(),
            operations_count: described.operations_count,
            compression_type: described.compression_type.clone(),
            hash: clone_text(&described.hash),
            is_differential: is_partition_differential(&manifest.partitions[i]),
        };
        partitions.push(entry);
        i += 1;
    }
    assert(partitions@.map_values(|p: PartitionInfo| p@) =~= listed_partitions(
        manifest@,
        metadata@,
    ));
    partitions
}

/// Adds up the sizes of the entries, unless the sum leaves 64 bits.
pub fn total_size(partitions: &Vec<PartitionInfo>) -> (total: Option<u64>)
    ensures
        match total {
            Some(sum) => sum == total_size_of(partitions@.map_values(|p: PartitionInfo| p@)),
            None => total_size_of(partitions@.map_values(|p: PartitionInfo| p@)) > u64::MAX,
        },
{
    let ghost views = partitions@.map_values(|p: PartitionInfo| p@);
    let mut sum: u64 = 0;
    let mut i: usize = 0;
    while i < partitions.len()
        invariant
            i <= partitions.len(),
            views == partitions@.map_values(|p: PartitionInfo| p@),
            sum == total_size_of(views.take(i as int)),
        decreases partitions.len() - i,
    {
        proof {
            assert(views.take(i + 1).drop_last() =~= views.take(i as int));
            assert(views.take(i + 1).last() == partitions@[i as int]@);
        }
        match sum.checked_add(partitions[i].size_bytes) {
            Some(next) => {
                sum = next;
            },
            None => {
                proof {
                    total_size_grows(views, i + 1);
                }
                return None;
            },
        }
        i += 1;
    }
    proof {
        assert(views.take(i as int) =~= views);
    }
    Some(sum)
}

fn any_entry_differential(partitions: &Vec<PartitionInfo>) -> (found: bool)
    ensures
        found == any_differential(partitions@.map_values(|p: PartitionInfo| p@)),
{
    let ghost views = partitions@.map_values(|p: PartitionInfo| p@);
    let mut i: usize = 0;
    while i < partitions.len()
        invariant
            i <= partitions.len(),
            views == partitions@.map_values(|p: PartitionInfo| p@),
            forall|j: int| 0 <= j < i ==> !(#[trigger] views[j]).is_differential,
        decreases partitions.len() - i,
    {
        if partitions[i].is_differential {
            assert(views[i as int].is_differential);
            return true;
        }
        i += 1;
    }
    false
}

/// Builds the listing of a payload. `total_size_readable` is how the engine
/// writes the total size for a reader; it is carried, never read.
pub fn build_summary(
    manifest: &Manifest,
    metadata: &PayloadMetadata,
    total_size_readable: String,
) -> (summary: PayloadSummary)
    requires
        total_size_of(listed_partitions(manifest@, metadata@)) <= u64::MAX,
    ensures
        summary@ == summary_of(manifest@, metadata@, total_size_readable@),
{
    let partitions = list_partitions(manifest, metadata);
    let total_size_bytes = match total_size(&partitions) {
        Some(sum) => sum,
        None => 0,
    };
    let is_incremental = any_entry_differential(&partitions);
    PayloadSummary {
        total_partitions: partitions.len(),
        total_operations: metadata.total_operations_count,
        total_size_bytes,
        total_size_readable,
        partitions,
        security_patch_level: clone_text(&metadata.security_patch_level),
        is_incremental,
    }
}

/// The total size of what a payload lists, unless it leaves 64 bits. It is
/// what [`build_summary`] needs to be known before it is called.
pub fn listed_size(manifest: &Manifest, metadata: &PayloadMetadata) -> (total: Option<u64>)
    ensures
        match total {
            Some(sum) => sum == total_size_of(listed_partitions(manifest@, metadata@)),
            None => total_size_of(listed_partitions(manifest@, metadata@)) > u64::MAX,
        },
{
    let partitions = list_partitions(manifest, metadata);
    total_size(&partitions)
}

/// A payload is incremental exactly when one of its listed partitions is
/// differential, and a listed partition is differential exactly when one of
/// its operations needs a prior image. So where one partition alone holds
/// such an operation, the listing marks that partition and no other, and
/// marks the payload.
pub proof fn one_differential_partition(
    manifest: ManifestView,
    metadata: PayloadMetadataView,
    total_size_readable: Seq<char>,
    p: int,
)
    requires
        0 <= p < listed_count(manifest, metadata),
        is_differential(manifest.partitions[p]),
        forall|i: int|
            0 <= i < listed_count(manifest, metadata) && i != p ==> !is_differential(
                #[trigger] manifest.partitions[i],
            ),
    ensures
        summary_of(manifest, metadata, total_size_readable).is_incremental,
        summary_of(manifest, metadata, total_size_readable).partitions.len() == listed_count(
            manifest,
            metadata,
        ),
        forall|i: int|
            0 <= i < listed_count(manifest, metadata) ==> (#[trigger] summary_of(
                manifest,
                metadata,
                total_size_readable,
            ).partitions[i]).is_differential == (i == p),
{
    let partitions = listed_partitions(manifest, metadata);
    assert(partitions[p].is_differential);
}

/// Without a differential partition the payload is not incremental.
pub proof fn no_differential_partition(
    manifest: ManifestView,
    metadata: PayloadMetadataView,
    total_size_readable: Seq<char>,
)
    requires
        forall|i: int|
            0 <= i < listed_count(manifest, metadata) ==> !is_differential(
                #[trigger] manifest.partitions[i],
            ),
    ensures
        !summary_of(manifest, metadata, total_size_readable).is_incremental,
{
}

} // verus!
