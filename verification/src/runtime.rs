//! The pool that runs the asynchronous work, and the rule that keeps its
//! own threads from waiting on it.

use vstd::prelude::*;

verus! {

/// The fewest worker threads a pool is given.
pub const MIN_WORKER_THREADS: usize = 2;

/// The text of the fault raised where an entry point is called from inside
/// the pool.
pub open spec fn async_context_fault() -> Seq<char> {
    "Cannot be called from async context"@
}

/// How many worker threads a pool gets on a machine with that many
/// processors available: one for each, and never fewer than two.
pub open spec fn pool_size(available: usize) -> usize {
    if available >= MIN_WORKER_THREADS {
        available
    } else {
        MIN_WORKER_THREADS
    }
}

/// Computes the number of worker threads for a count of processors.
pub fn worker_threads_for(available: usize) -> (workers: usize)
    ensures
        workers == pool_size(available),
        workers >= 2,
        workers >= available,
{
    if available >= MIN_WORKER_THREADS {
        available
    } else {
        MIN_WORKER_THREADS
    }
}

/// The asynchronous runtime that stands behind the pool.
#[verifier::external_type_specification]
#[verifier::external_body]
pub struct ExRuntime(tokio::runtime::Runtime);

/// Calls `num_cpus::get`. Its documentation promises a count of at least
/// one; which count it is depends on the machine and on the limits set for
/// the process.
#[verifier::external_body]
fn available_processors() -> (count: usize)
    ensures
        count >= 1,
{
    num_cpus::get()
}

/// Calls `tokio::runtime::Handle::try_current` and tells whether it found a
/// runtime, which it does on a thread that has entered one. The answer
/// depends on the calling thread alone, so nothing is stated of it.
#[verifier::external_body]
pub(crate) fn runtime_entered() -> (entered: bool) {
    tokio::runtime::Handle::try_current().is_ok()
}

/// Builds a multi-threaded runtime through `tokio::runtime::Builder`:
/// `new_multi_thread`, `worker_threads`, `enable_all`, `build`. Setting the
/// worker count panics on zero, so a count above zero is asked for. What the
/// builder reports as an error is handed back as text; running out of
/// threads while the workers start is no such error, tokio panics then. A
/// runtime that was built has the worker count it was configured with.
#[verifier::external_body]
fn build_runtime(workers: usize) -> (built: Result<tokio::runtime::Runtime, String>)
    requires
        workers > 0,
    ensures
        built is Ok ==> worker_count(built->Ok_0) == workers,
{
    match tokio::runtime::Builder::new_multi_thread().worker_threads(workers).enable_all().build() {
        Ok(runtime) => Ok(runtime),
        Err(reason) => Err(reason.to_string()),
    }
}

/// What [`worker_threads_for`] gives for the processors of this machine.
pub fn worker_threads() -> (workers: usize)
    ensures
        exists|available: usize| available >= 1 && workers == #[trigger] pool_size(available),
        workers >= 2,
{
    worker_threads_for(available_processors())
}

/// Creates the pool: a multi-threaded runtime with one worker for each
/// available processor and at least two. A failure carries the reason the
/// operating system gave.
pub fn create_runtime() -> (pool: Result<tokio::runtime::Runtime, String>)
    ensures
        pool is Ok ==> worker_count(pool->Ok_0) >= 2,
        pool is Ok ==> exists|available: usize|
            available >= 1 && worker_count(pool->Ok_0) == #[trigger] pool_size(available),
{
    build_runtime(worker_threads())
}

/// The number of worker threads of a runtime, as
/// `tokio::runtime::RuntimeMetrics::num_workers` reports it. It is set when
/// the runtime is built and stays as it is.
pub uninterp spec fn worker_count(runtime: tokio::runtime::Runtime) -> usize;

} // verus!
