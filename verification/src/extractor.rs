//! Listing and extraction, as the sequence of requests that carries them out.
//!
//! Reading bytes, parsing a manifest and dumping a partition are the work of
//! the extraction engine and take time. What is decided in between is
//! decided here: an [`Orchestrator`] names the next request, is told what it
//! gave, and names the one after, until the operation returns.
//!
//! A local and a remote source, in either container, go through the same
//! rule. The container is classified once, from the first four bytes, and
//! that choice picks the parser and the reader for the rest of the operation.

use crate::error::{ErrorView, ExtractError};
use crate::format::{classify, detect, FileKind};
use crate::summary::{
    build_summary, listed_partitions, listed_size, summary_of, text_of, total_size_of, Manifest,
    ManifestView, PartitionUpdateView, PayloadMetadata, PayloadMetadataView,
    PayloadSummary, PayloadSummaryView,
};
use vstd::prelude::*;
use vstd::string::*;

verus! {

/// Where a payload is read from.
#[derive(Debug, Clone, Copy, PartialEq, Eq, Structural)]
pub enum Location {
    /// A file, by its path.
    Local,
    /// A server, by a locator and optional request headers.
    Remote,
}

/// A payload, by where it is read from. The cookies of a remote source are
/// one raw `Cookie` header value and are passed on as they are.
#[derive(Debug, Clone, PartialEq, Eq)]
pub enum Source {
    Local { path: String },
    Remote { url: String, user_agent: Option<String>, cookies: Option<String> },
}

/// A [`Source`] with its texts as sequences of characters.
pub enum SourceView {
    Local { path: Seq<char> },
    Remote { url: Seq<char>, user_agent: Option<Seq<char>>, cookies: Option<Seq<char>> },
}

impl View for Source {
    type V = SourceView;

    open spec fn view(&self) -> SourceView {
        match *self {
            Source::Local { path } => SourceView::Local { path: path@ },
            Source::Remote { url, user_agent, cookies } => SourceView::Remote {
                url: url@,
                user_agent: text_of(user_agent),
                cookies: text_of(cookies),
            },
        }
    }
}

impl Source {
    /// Where the payload is read from.
    pub fn location(&self) -> (location: Location)
        ensures
            location == match self@ {
                SourceView::Local { .. } => Location::Local,
                SourceView::Remote { .. } => Location::Remote,
            },
    {
        match self {
            Source::Local { .. } => Location::Local,
            Source::Remote { .. } => Location::Remote,
        }
    }
}

/// What a host asks for when it asks for a partition. The directory of
/// prior images is needed for differential partitions only.
#[derive(Debug, Clone, PartialEq, Eq)]
pub struct ExtractRequest {
    pub source: Source,
    pub partition_name: String,
    pub output_path: String,
    pub source_dir: Option<String>,
}

/// An [`ExtractRequest`] with its texts as sequences of characters.
pub struct ExtractRequestView {
    pub source: SourceView,
    pub partition_name: Seq<char>,
    pub output_path: Seq<char>,
    pub source_dir: Option<Seq<char>>,
}

impl View for ExtractRequest {
    type V = ExtractRequestView;

    open spec fn view(&self) -> ExtractRequestView {
        ExtractRequestView {
            source: self.source@,
            partition_name: self.partition_name@,
            output_path: self.output_path@,
            source_dir: text_of(self.source_dir),
        }
    }
}

/// The parser and reader of the engine that fit a source.
#[derive(Debug, Clone, Copy, PartialEq, Eq, Structural)]
pub enum Backend {
    LocalBin,
    LocalZip,
    RemoteBin,
    RemoteZip,
}

/// The backend for a place and a container.
pub open spec fn backend_for(location: Location, kind: FileKind) -> Backend {
    match (location, kind) {
        (Location::Local, FileKind::Bin) => Backend::LocalBin,
        (Location::Local, FileKind::Zip) => Backend::LocalZip,
        (Location::Remote, FileKind::Bin) => Backend::RemoteBin,
        (Location::Remote, FileKind::Zip) => Backend::RemoteZip,
    }
}

/// Picks the backend for a place and a container.
pub fn select_backend(location: Location, kind: FileKind) -> (backend: Backend)
    ensures
        backend == backend_for(location, kind),
{
    match location {
        Location::Local => match kind {
            FileKind::Bin => Backend::LocalBin,
            FileKind::Zip => Backend::LocalZip,
        },
        Location::Remote => match kind {
            FileKind::Bin => Backend::RemoteBin,
            FileKind::Zip => Backend::RemoteZip,
        },
    }
}

/// The block size that is assumed where a manifest names none.
pub const DEFAULT_BLOCK_SIZE: u64 = 4096;

/// The block size of a payload.
pub open spec fn block_size_of(manifest: ManifestView) -> u64 {
    match manifest.block_size {
        Some(size) => size as u64,
        None => DEFAULT_BLOCK_SIZE,
    }
}

/// Reads the block size of a payload, or assumes the usual one.
pub fn block_size(manifest: &Manifest) -> (size: u64)
    ensures
        size == block_size_of(manifest@),
{
    match manifest.block_size {
        Some(size) => size as u64,
        None => DEFAULT_BLOCK_SIZE,
    }
}

/// `index` is the first partition of that name.
pub open spec fn is_first_named(
    partitions: Seq<PartitionUpdateView>,
    name: Seq<char>,
    index: int,
) -> bool {
    &&& 0 <= index < partitions.len()
    &&& partitions[index].partition_name == name
    &&& forall|j: int| 0 <= j < index ==> (#[trigger] partitions[j]).partition_name != name
}

/// Where the first partition of that name stands, if there is one.
pub open spec fn position_of(partitions: Seq<PartitionUpdateView>, name: Seq<char>) -> Option<
    int,
> {
    if exists|i: int| is_first_named(partitions, name, i) {
        Some(choose|i: int| is_first_named(partitions, name, i))
    } else {
        None
    }
}

/// A name stands first in one place at most.
pub proof fn first_named_is_unique(
    partitions: Seq<PartitionUpdateView>,
    name: Seq<char>,
    a: int,
    b: int,
)
    requires
        is_first_named(partitions, name, a),
        is_first_named(partitions, name, b),
    ensures
        a == b,
{
}

/// Looks a partition up by its name. Where several carry the name, the
/// first one counts.
pub fn find_partition(manifest: &Manifest, partition_name: &str) -> (found: Result<
    usize,
    ExtractError,
>)
    ensures
        match position_of(manifest@.partitions, partition_name@) {
            Some(index) => found == Ok::<usize, ExtractError>(index as usize),
            None => found is Err && found->Err_0@ == (ErrorView::PartitionNotFound {
                name: partition_name@,
            }),
        },
        found is Ok ==> found->Ok_0 < manifest.partitions.len() && is_first_named(
            manifest@.partitions,
            partition_name@,
            found->Ok_0 as int,
        ),
        found is Err ==> forall|i: int|
            0 <= i < manifest.partitions.len() ==> (#[trigger] manifest@.partitions[i]).partition_name
                != partition_name@,
{
    let wanted = String::from_str(partition_name);
    let ghost partitions = manifest@.partitions;
    let mut i: usize = 0;
    while i < manifest.partitions.len()
        invariant
            i <= manifest.partitions.len(),
            wanted@ == partition_name@,
            partitions == manifest@.partitions,
            partitions.len() == manifest.partitions.len(),
            forall|j: int| 0 <= j < i ==> (#[trigger] partitions[j]).partition_name != wanted@,
        decreases manifest.partitions.len() - i,
    {
        assert(partitions[i as int] == manifest.partitions@[i as int]@);
        if manifest.partitions[i].partition_name == wanted {
            proof {
                assert(is_first_named(partitions, partition_name@, i as int));
                let chosen = choose|k: int| is_first_named(partitions, partition_name@, k);
                first_named_is_unique(partitions, partition_name@, chosen, i as int);
            }
            return Ok(i);
        }
        i += 1;
    }
    proof {
        assert forall|k: int| !is_first_named(partitions, partition_name@, k) by {
            if 0 <= k < partitions.len() {
                assert(partitions[k].partition_name != wanted@);
            }
        }
    }
    Err(ExtractError::PartitionNotFound { name: wanted })
}

/// What is to be done with a payload.
#[derive(Debug, Clone, PartialEq, Eq)]
pub enum Operation {
    /// List its partitions.
    List,
    /// Extract the partition of this name.
    Extract { partition_name: String },
}

/// An [`Operation`] with its text as a sequence of characters.
pub enum OperationView {
    List,
    Extract { partition_name: Seq<char> },
}

impl View for Operation {
    type V = OperationView;

    open spec fn view(&self) -> OperationView {
        match *self {
            Operation::List => OperationView::List,
            Operation::Extract { partition_name } => OperationView::Extract {
                partition_name: partition_name@,
            },
        }
    }
}

/// What an operation returns when it succeeds.
#[derive(Debug, Clone, PartialEq, Eq)]
pub enum Output {
    /// The listing, as text.
    Listing(String),
    /// The partition was written.
    Extracted,
}

/// An [`Output`] with its text as a sequence of characters.
pub enum OutputView {
    Listing(Seq<char>),
    Extracted,
}

impl View for Output {
    type V = OutputView;

    open spec fn view(&self) -> OutputView {
        match *self {
            Output::Listing(text) => OutputView::Listing(text@),
            Output::Extracted => OutputView::Extracted,
        }
    }
}

/// What a request gave.
#[derive(Debug, PartialEq, Eq)]
pub enum Event {
    /// The first four bytes of the source.
    Magic(Result<[u8; 4], String>),
    /// The manifest that the parser read.
    Manifest(Result<Manifest, String>),
    /// The metadata of every partition.
    Metadata(Result<PayloadMetadata, String>),
    /// The total size, written for a reader.
    SizeText(String),
    /// The listing, rendered as text.
    Serialized(Result<String, String>),
    /// The directory of the output file exists.
    DirectoryReady(Result<(), String>),
    /// The partition was dumped.
    Dumped(Result<(), String>),
}

/// An [`Event`] as the contracts see it.
pub enum EventView {
    Magic(Result<Seq<u8>, Seq<char>>),
    Manifest(Result<ManifestView, Seq<char>>),
    Metadata(Result<PayloadMetadataView, Seq<char>>),
    SizeText(Seq<char>),
    Serialized(Result<Seq<char>, Seq<char>>),
    DirectoryReady(Result<(), Seq<char>>),
    Dumped(Result<(), Seq<char>>),
}

impl View for Event {
    type V = EventView;

    open spec fn view(&self) -> EventView {
        match *self {
            Event::Magic(Ok(magic)) => EventView::Magic(Ok(magic@)),
            Event::Magic(Err(e)) => EventView::Magic(Err(e@)),
            Event::Manifest(Ok(manifest)) => EventView::Manifest(Ok(manifest@)),
            Event::Manifest(Err(e)) => EventView::Manifest(Err(e@)),
            Event::Metadata(Ok(metadata)) => EventView::Metadata(Ok(metadata@)),
            Event::Metadata(Err(e)) => EventView::Metadata(Err(e@)),
            Event::SizeText(text) => EventView::SizeText(text@),
            Event::Serialized(Ok(text)) => EventView::Serialized(Ok(text@)),
            Event::Serialized(Err(e)) => EventView::Serialized(Err(e@)),
            Event::DirectoryReady(Ok(_)) => EventView::DirectoryReady(Ok(())),
            Event::DirectoryReady(Err(e)) => EventView::DirectoryReady(Err(e@)),
            Event::Dumped(Ok(_)) => EventView::Dumped(Ok(())),
            Event::Dumped(Err(e)) => EventView::Dumped(Err(e@)),
        }
    }
}

/// A request to the caller, or the end of the operation.
#[derive(Debug, PartialEq, Eq)]
pub enum Action {
    /// Raise an unrecoverable fault with this message. Nothing was done.
    Fault { message: String },
    /// Read the first four bytes of the source, in one read at offset zero.
    ReadMagic,
    /// Parse the manifest with the parser of this backend.
    Parse { backend: Backend },
    /// Ask the engine for the metadata of every partition.
    ReadMetadata,
    /// Have the engine write this size for a reader.
    FormatSize { total_size_bytes: u64 },
    /// Render this listing as text.
    Serialize { summary: PayloadSummary },
    /// Make sure that the directory of the output file exists.
    CreateOutputDirectory,
    /// Dump the partition at this position of the manifest, through the
    /// reader of this backend.
    Dump { backend: Backend, partition_index: usize, block_size: u64 },
    /// The operation is over.
    Return(Result<Output, ExtractError>),
}

/// An [`Action`] as the contracts see it.
pub enum ActionView {
    Fault { message: Seq<char> },
    ReadMagic,
    Parse { backend: Backend },
    ReadMetadata,
    FormatSize { total_size_bytes: u64 },
    Serialize { summary: PayloadSummaryView },
    CreateOutputDirectory,
    Dump { backend: Backend, partition_index: usize, block_size: u64 },
    Return(Result<OutputView, ErrorView>),
}

impl View for Action {
    type V = ActionView;

    open spec fn view(&self) -> ActionView {
        match *self {
            Action::Fault { message } => ActionView::Fault { message: message@ },
            Action::ReadMagic => ActionView::ReadMagic,
            Action::Parse { backend } => ActionView::Parse { backend },
            Action::ReadMetadata => ActionView::ReadMetadata,
            Action::FormatSize { total_size_bytes } => ActionView::FormatSize { total_size_bytes },
            Action::Serialize { summary } => ActionView::Serialize { summary: summary@ },
            Action::CreateOutputDirectory => ActionView::CreateOutputDirectory,
            Action::Dump { backend, partition_index, block_size } => ActionView::Dump {
                backend,
                partition_index,
                block_size,
            },
            Action::Return(Ok(output)) => ActionView::Return(Ok(output@)),
            Action::Return(Err(error)) => ActionView::Return(Err(error@)),
        }
    }
}

/// Where an operation stands: which request is out and not yet answered,
/// with what was learnt so far and is still needed.
#[derive(Debug, PartialEq, Eq)]
pub enum Stage {
    /// The first four bytes are being read.
    Sniffing,
    /// The manifest is being parsed.
    Parsing { kind: FileKind },
    /// The metadata is being read.
    Measuring { manifest: Manifest },
    /// The total size is being written for a reader. The listing is complete
    /// but for that text.
    Sizing { draft: PayloadSummary },
    /// The listing is being rendered.
    Rendering,
    /// The directory of the output file is being made.
    Preparing { kind: FileKind, partition_index: usize, block_size: u64 },
    /// The partition is being dumped.
    Dumping,
    /// Nothing is out; the operation has returned or faulted.
    Finished,
}

/// A [`Stage`] as the contracts see it.
pub enum StageView {
    Sniffing,
    Parsing { kind: FileKind },
    Measuring { manifest: ManifestView },
    Sizing { draft: PayloadSummaryView },
    Rendering,
    Preparing { kind: FileKind, partition_index: usize, block_size: u64 },
    Dumping,
    Finished,
}

impl View for Stage {
    type V = StageView;

    open spec fn view(&self) -> StageView {
        match *self {
            Stage::Sniffing => StageView::Sniffing,
            Stage::Parsing { kind } => StageView::Parsing { kind },
            Stage::Measuring { manifest } => StageView::Measuring { manifest: manifest@ },
            Stage::Sizing { draft } => StageView::Sizing { draft: draft@ },
            Stage::Rendering => StageView::Rendering,
            Stage::Preparing { kind, partition_index, block_size } => StageView::Preparing {
                kind,
                partition_index,
                block_size,
            },
            Stage::Dumping => StageView::Dumping,
            Stage::Finished => StageView::Finished,
        }
    }
}

/// One listing or extraction in progress.
#[derive(Debug, PartialEq, Eq)]
pub struct Orchestrator {
    location: Location,
    operation: Operation,
    stage: Stage,
}

/// An [`Orchestrator`] as the contracts see it.
pub struct OrchestratorView {
    pub location: Location,
    pub operation: OperationView,
    pub stage: StageView,
}

impl View for Orchestrator {
    type V = OrchestratorView;

    closed spec fn view(&self) -> OrchestratorView {
        OrchestratorView {
            location: self.location,
            operation: self.operation@,
            stage: self.stage@,
        }
    }
}

/// The text of the fault raised where the listing's sizes do not add up in
/// 64 bits.
pub open spec fn overflow_fault() -> Seq<char> {
    "attempt to add with overflow"@
}

/// The text of the fault raised where an answer does not fit the request
/// that is out.
pub open spec fn protocol_fault() -> Seq<char> {
    "Unexpected event"@
}

/// The operation ends here and returns this error.
pub open spec fn fail(state: OrchestratorView, error: ErrorView) -> (
    OrchestratorView,
    ActionView,
) {
    (OrchestratorView { stage: StageView::Finished, ..state }, ActionView::Return(Err(error)))
}

/// The operation ends here with a fault.
pub open spec fn fault(state: OrchestratorView, message: Seq<char>) -> (
    OrchestratorView,
    ActionView,
) {
    (OrchestratorView { stage: StageView::Finished, ..state }, ActionView::Fault { message })
}

/// The operation goes on to this stage with this request.
pub open spec fn go_on(state: OrchestratorView, stage: StageView, action: ActionView) -> (
    OrchestratorView,
    ActionView,
) {
    (OrchestratorView { stage, ..state }, action)
}

/// How an operation starts. From inside the pool it faults before anything
/// is asked for; anywhere else it asks for the first four bytes.
pub open spec fn start(
    location: Location,
    operation: OperationView,
    inside_pool: bool,
) -> (OrchestratorView, ActionView) {
    if inside_pool {
        (
            OrchestratorView { location, operation, stage: StageView::Finished },
            ActionView::Fault { message: crate::runtime::async_context_fault() },
        )
    } else {
        (OrchestratorView { location, operation, stage: StageView::Sniffing }, ActionView::ReadMagic)
    }
}

/// What follows a manifest that was parsed.
pub open spec fn after_manifest(state: OrchestratorView, kind: FileKind, manifest: ManifestView) -> (
    OrchestratorView,
    ActionView,
) {
    match state.operation {
        OperationView::List => go_on(
            state,
            StageView::Measuring { manifest },
            ActionView::ReadMetadata,
        ),
        OperationView::Extract { partition_name } => match position_of(
            manifest.partitions,
            partition_name,
        ) {
            Some(index) => go_on(
                state,
                StageView::Preparing {
                    kind,
                    partition_index: index as usize,
                    block_size: block_size_of(manifest),
                },
                ActionView::CreateOutputDirectory,
            ),
            None => fail(state, ErrorView::PartitionNotFound { name: partition_name }),
        },
    }
}

/// What follows the metadata that was read.
pub open spec fn after_metadata(
    state: OrchestratorView,
    manifest: ManifestView,
    metadata: PayloadMetadataView,
) -> (OrchestratorView, ActionView) {
    let total = total_size_of(listed_partitions(manifest, metadata));
    if total <= u64::MAX {
        go_on(
            state,
            StageView::Sizing { draft: summary_of(manifest, metadata, Seq::empty()) },
            ActionView::FormatSize { total_size_bytes: total as u64 },
        )
    } else {
        fault(state, overflow_fault())
    }
}

/// The rule of an operation: where it stands after the request that was out
/// has been answered with `event`, and what it asks for next. A failure of
/// any request ends the operation with that failure. An answer to another
/// request than the one that is out ends it with a fault.
pub open spec fn next(state: OrchestratorView, event: EventView) -> (OrchestratorView, ActionView) {
    match (state.stage, event) {
        (StageView::Sniffing, EventView::Magic(Ok(magic))) => match classify(magic) {
            Some(kind) => go_on(
                state,
                StageView::Parsing { kind },
                ActionView::Parse { backend: backend_for(state.location, kind) },
            ),
            None => fail(state, ErrorView::UnsupportedFormat),
        },
        (StageView::Sniffing, EventView::Magic(Err(detail))) => fail(
            state,
            ErrorView::Engine { detail },
        ),
        (StageView::Parsing { kind }, EventView::Manifest(Ok(manifest))) => after_manifest(
            state,
            kind,
            manifest,
        ),
        (StageView::Parsing { .. }, EventView::Manifest(Err(detail))) => fail(
            state,
            ErrorView::Engine { detail },
        ),
        (StageView::Measuring { manifest }, EventView::Metadata(Ok(metadata))) => after_metadata(
            state,
            manifest,
            metadata,
        ),
        (StageView::Measuring { .. }, EventView::Metadata(Err(detail))) => fail(
            state,
            ErrorView::Engine { detail },
        ),
        (StageView::Sizing { draft }, EventView::SizeText(text)) => go_on(
            state,
            StageView::Rendering,
            ActionView::Serialize {
                summary: PayloadSummaryView { total_size_readable: text, ..draft },
            },
        ),
        (StageView::Rendering, EventView::Serialized(Ok(text))) => (
            OrchestratorView { stage: StageView::Finished, ..state },
            ActionView::Return(Ok(OutputView::Listing(text))),
        ),
        (StageView::Rendering, EventView::Serialized(Err(detail))) => fail(
            state,
            ErrorView::Serialization { detail },
        ),
        (
            StageView::Preparing { kind, partition_index, block_size },
            EventView::DirectoryReady(Ok(_)),
        ) => go_on(
            state,
            StageView::Dumping,
            ActionView::Dump {
                backend: backend_for(state.location, kind),
                partition_index,
                block_size,
            },
        ),
        (StageView::Preparing { .. }, EventView::DirectoryReady(Err(detail))) => fail(
            state,
            ErrorView::Engine { detail },
        ),
        (StageView::Dumping, EventView::Dumped(Ok(_))) => (
            OrchestratorView { stage: StageView::Finished, ..state },
            ActionView::Return(Ok(OutputView::Extracted)),
        ),
        (StageView::Dumping, EventView::Dumped(Err(detail))) => fail(
            state,
            ErrorView::Engine { detail },
        ),
        _ => fault(state, protocol_fault()),
    }
}

/// An upper bound on the requests that are still to come.
pub open spec fn requests_left(stage: StageView) -> nat {
    match stage {
        StageView::Sniffing => 5,
        StageView::Parsing { .. } => 4,
        StageView::Measuring { .. } => 3,
        StageView::Sizing { .. } => 2,
        StageView::Rendering => 1,
        StageView::Preparing { .. } => 2,
        StageView::Dumping => 1,
        StageView::Finished => 0,
    }
}

/// The request asks the caller to read, write or run something.
pub open spec fn is_work(action: ActionView) -> bool {
    !(action is Fault) && !(action is Return)
}

/// An entry point that is called from inside the pool fails at once: it
/// faults before it has asked for anything, and asks for nothing afterwards,
/// whatever it is told.
pub proof fn call_from_the_pool_does_no_work(
    location: Location,
    operation: OperationView,
    event: EventView,
)
    ensures
        start(location, operation, true).1 == (ActionView::Fault {
            message: crate::runtime::async_context_fault(),
        }),
        start(location, operation, true).0.stage is Finished,
        !is_work(next(start(location, operation, true).0, event).1),
        start(location, operation, false).1 is ReadMagic,
{
}

/// Extracting a partition that the manifest does not hold fails with an
/// error that names it, and no output is made: the directory of the output
/// file is not asked for, nor the dump, then or later.
pub proof fn missing_partition_makes_no_output(
    state: OrchestratorView,
    partition_name: Seq<char>,
    manifest: ManifestView,
    later: EventView,
)
    requires
        state.operation == (OperationView::Extract { partition_name }),
        forall|i: int|
            0 <= i < manifest.partitions.len() ==> (#[trigger] manifest.partitions[i]).partition_name
                != partition_name,
    ensures
        ({
            let (ended, action) = next(state, EventView::Manifest(Ok(manifest)));
            &&& state.stage is Parsing ==> action == ActionView::Return(
                Err(ErrorView::PartitionNotFound { name: partition_name }),
            )
            &&& crate::error::error_text(ErrorView::PartitionNotFound { name: partition_name })
                == "Partition '"@ + partition_name + "' not found"@
            &&& !is_work(action)
            &&& ended.stage is Finished
            &&& !is_work(next(ended, later).1)
        }),
{
    assert forall|i: int| !is_first_named(manifest.partitions, partition_name, i) by {
        if 0 <= i < manifest.partitions.len() {
            assert(manifest.partitions[i].partition_name != partition_name);
        }
    }
}

/// Output is made for a partition that was found, and for no other reason.
/// The directory of the output file is asked for only in answer to a
/// manifest that holds the partition, and the dump only after the directory
/// is there, for the position at which the partition was found. (A manifest
/// in memory has no more partitions than a `usize` counts.)
pub proof fn output_needs_the_partition(state: OrchestratorView, event: EventView)
    ensures
        ({
            let (after, action) = next(state, event);
            &&& action is CreateOutputDirectory ==> {
                &&& state.stage is Parsing
                &&& state.operation is Extract
                &&& event is Manifest
                &&& event->Manifest_0 is Ok
                &&& after.stage is Preparing
                &&& event->Manifest_0->Ok_0.partitions.len() <= usize::MAX ==> is_first_named(
                    event->Manifest_0->Ok_0.partitions,
                    state.operation->partition_name,
                    after.stage->partition_index as int,
                )
            }
            &&& action is Dump ==> {
                &&& state.stage is Preparing
                &&& event is DirectoryReady
                &&& event->DirectoryReady_0 is Ok
                &&& action->partition_index == state.stage->partition_index
                &&& action->block_size == state.stage->Preparing_block_size
            }
        }),
{
    let (after, action) = next(state, event);
    if action is CreateOutputDirectory {
        let manifest = event->Manifest_0->Ok_0;
        let name = state.operation->partition_name;
        let index = choose|i: int| is_first_named(manifest.partitions, name, i);
        assert(is_first_named(manifest.partitions, name, index));
    }
}

/// The container is classified once. The first four bytes are asked for at
/// the start and never again, and the backend that parsed the manifest is
/// the one that dumps the partition.
pub proof fn container_is_classified_once(
    state: OrchestratorView,
    event: EventView,
    kind: FileKind,
    manifest: ManifestView,
)
    ensures
        !(next(state, event).1 is ReadMagic),
        state.stage is Sniffing && next(state, event).1 is Parse ==> event is Magic
            && event->Magic_0 is Ok && classify(event->Magic_0->Ok_0) is Some && next(
            state,
            event,
        ).1->Parse_backend == backend_for(
            state.location,
            classify(event->Magic_0->Ok_0)->Some_0,
        ),
        state.stage == (StageView::Parsing { kind }) ==> ({
            let (prepared, _) = next(state, EventView::Manifest(Ok(manifest)));
            let (_, dump) = next(prepared, EventView::DirectoryReady(Ok(())));
            dump is Dump ==> dump->Dump_backend == backend_for(state.location, kind)
        }),
{
}

/// A request that fails ends the operation with that failure; every answer
/// brings the operation nearer to its end; and an operation that has ended
/// asks for no more work.
pub proof fn operation_comes_to_an_end(state: OrchestratorView, event: EventView)
    ensures
        ({
            let (after, action) = next(state, event);
            &&& after.location == state.location
            &&& after.operation == state.operation
            &&& is_work(action) <==> !(after.stage is Finished)
            &&& !(state.stage is Finished) ==> requests_left(after.stage) < requests_left(
                state.stage,
            )
            &&& state.stage is Finished ==> after.stage is Finished && action is Fault
            &&& requests_left(state.stage) <= 5
        }),
{
}

/// What a listing renders is the summary of the manifest and the metadata
/// that were read, with the total size as the engine wrote it.
pub proof fn listing_is_the_summary(
    state: OrchestratorView,
    manifest: ManifestView,
    metadata: PayloadMetadataView,
    text: Seq<char>,
)
    requires
        state.stage == (StageView::Measuring { manifest }),
        total_size_of(listed_partitions(manifest, metadata)) <= u64::MAX,
    ensures
        ({
            let (sizing, asked) = next(state, EventView::Metadata(Ok(metadata)));
            let (_, rendered) = next(sizing, EventView::SizeText(text));
            &&& asked == ActionView::FormatSize {
                total_size_bytes: total_size_of(listed_partitions(manifest, metadata)) as u64,
            }
            &&& rendered == ActionView::Serialize { summary: summary_of(manifest, metadata, text) }
        }),
{
}

/// Where the engine describes every partition of the manifest and one
/// partition alone holds an operation that needs a prior image, the listing
/// that is rendered has an entry for every partition, in the order of the
/// manifest, marks that partition and no other, and marks the payload.
pub proof fn listing_marks_the_differential_partition(
    state: OrchestratorView,
    manifest: ManifestView,
    metadata: PayloadMetadataView,
    text: Seq<char>,
    p: int,
)
    requires
        state.stage == (StageView::Measuring { manifest }),
        metadata.partitions.len() == manifest.partitions.len(),
        total_size_of(listed_partitions(manifest, metadata)) <= u64::MAX,
        0 <= p < manifest.partitions.len(),
        crate::summary::is_differential(manifest.partitions[p]),
        forall|i: int|
            0 <= i < manifest.partitions.len() && i != p ==> !crate::summary::is_differential(
                #[trigger] manifest.partitions[i],
            ),
    ensures
        ({
            let (sizing, _) = next(state, EventView::Metadata(Ok(metadata)));
            let (_, rendered) = next(sizing, EventView::SizeText(text));
            &&& rendered is Serialize
            &&& rendered->summary.is_incremental
            &&& rendered->summary.partitions.len() == manifest.partitions.len()
            &&& forall|i: int|
                0 <= i < manifest.partitions.len() ==> {
                    &&& (#[trigger] rendered->summary.partitions[i]).is_differential == (i == p)
                    &&& rendered->summary.partitions[i].name == metadata.partitions[i].partition_name
                }
        }),
{
    listing_is_the_summary(state, manifest, metadata, text);
    crate::summary::one_differential_partition(manifest, metadata, text, p);
}

impl Orchestrator {
    /// Starts an operation, given whether the calling thread is inside the
    /// pool, and names the first request.
    pub fn start(location: Location, operation: Operation, inside_pool: bool) -> (started: (
        Orchestrator,
        Action,
    ))
        ensures
            (started.0@, started.1@) == start(location, operation@, inside_pool),
    {
        if inside_pool {
            (
                Orchestrator { location, operation, stage: Stage::Finished },
                Action::Fault { message: String::from_str("Cannot be called from async context") },
            )
        } else {
            (Orchestrator { location, operation, stage: Stage::Sniffing }, Action::ReadMagic)
        }
    }

    /// Starts an operation on the calling thread: finds out whether the
    /// thread is inside an asynchronous runtime and starts accordingly.
    pub fn start_here(location: Location, operation: Operation) -> (started: (Orchestrator, Action))
        ensures
            exists|inside_pool: bool|
                (started.0@, started.1@) == #[trigger] start(location, operation@, inside_pool),
    {
        let inside_pool = crate::runtime::runtime_entered();
        Orchestrator::start(location, operation, inside_pool)
    }

    fn fail(self, error: ExtractError) -> (ended: (Orchestrator, Action))
        ensures
            (ended.0@, ended.1@) == fail(self@, error@),
    {
        (
            Orchestrator { location: self.location, operation: self.operation, stage: Stage::Finished },
            Action::Return(Err(error)),
        )
    }

    fn fault(self, message: &str) -> (ended: (Orchestrator, Action))
        ensures
            (ended.0@, ended.1@) == fault(self@, message@),
    {
        (
            Orchestrator { location: self.location, operation: self.operation, stage: Stage::Finished },
            Action::Fault { message: String::from_str(message) },
        )
    }

    fn go_on(self, stage: Stage, action: Action) -> (moved: (Orchestrator, Action))
        ensures
            (moved.0@, moved.1@) == go_on(self@, stage@, action@),
    {
        (Orchestrator { location: self.location, operation: self.operation, stage }, action)
    }

    /// Takes the answer to the request that was out and names the next one.
    pub fn step(self, event: Event) -> (moved: (Orchestrator, Action))
        ensures
            (moved.0@, moved.1@) == next(self@, event@),
    {
        let Orchestrator { location, operation, stage } = self;
        let state = Orchestrator { location, operation, stage: Stage::Finished };
        match (stage, event) {
            (Stage::Sniffing, Event::Magic(Ok(magic))) => match detect(&magic) {
                Ok(kind) => {
                    let backend = select_backend(location, kind);
                    state.go_on(Stage::Parsing { kind }, Action::Parse { backend })
                },
                Err(error) => state.fail(ExtractError::UnsupportedFormat),
            },
            (Stage::Sniffing, Event::Magic(Err(detail))) => state.fail(
                ExtractError::Engine { detail },
            ),
            (Stage::Parsing { kind }, Event::Manifest(Ok(manifest))) => {
                let found = match &state.operation {
                    Operation::List => None,
                    Operation::Extract { partition_name } => Some(
                        find_partition(&manifest, partition_name.as_str()),
                    ),
                };
                match found {
                    None => state.go_on(Stage::Measuring { manifest }, Action::ReadMetadata),
                    Some(Ok(partition_index)) => {
                        let block_size = block_size(&manifest);
                        state.go_on(
                            Stage::Preparing { kind, partition_index, block_size },
                            Action::CreateOutputDirectory,
                        )
                    },
                    Some(Err(error)) => state.fail(error),
                }
            },
            (Stage::Parsing { .. }, Event::Manifest(Err(detail))) => state.fail(
                ExtractError::Engine { detail },
            ),
            (Stage::Measuring { manifest }, Event::Metadata(Ok(metadata))) => {
                match listed_size(&manifest, &metadata) {
                    Some(total_size_bytes) => {
                        let draft = build_summary(&manifest, &metadata, String::new());
                        state.go_on(Stage::Sizing { draft }, Action::FormatSize { total_size_bytes })
                    },
                    None => state.fault("attempt to add with overflow"),
                }
            },
            (Stage::Measuring { .. }, Event::Metadata(Err(detail))) => state.fail(
                ExtractError::Engine { detail },
            ),
            (Stage::Sizing { draft }, Event::SizeText(text)) => {
                let mut summary = draft;
                summary.total_size_readable = text;
                state.go_on(Stage::Rendering, Action::Serialize { summary })
            },
            (Stage::Rendering, Event::Serialized(Ok(text))) => (
                state,
                Action::Return(Ok(Output::Listing(text))),
            ),
            (Stage::Rendering, Event::Serialized(Err(detail))) => state.fail(
                ExtractError::Serialization { detail },
            ),
            (Stage::Preparing { kind, partition_index, block_size }, Event::DirectoryReady(Ok(_))) => {
                let backend = select_backend(location, kind);
                state.go_on(Stage::Dumping, Action::Dump { backend, partition_index, block_size })
            },
            (Stage::Preparing { .. }, Event::DirectoryReady(Err(detail))) => state.fail(
                ExtractError::Engine { detail },
            ),
            (Stage::Dumping, Event::Dumped(Ok(_))) => (state, Action::Return(Ok(Output::Extracted))),
            (Stage::Dumping, Event::Dumped(Err(detail))) => state.fail(
                ExtractError::Engine { detail },
            ),
            _ => state.fault("Unexpected event"),
        }
    }
}

} // verus!
