//! Bridge between synchronous host callers and an asynchronous partition
//! extraction engine: format detection, orchestration, progress reporting
//! with cooperative cancellation, and the marshalling rules of the C and
//! managed-runtime boundaries.
//!
//! Everything here works on plain values. Reading files, talking to the
//! engine and crossing a foreign-function boundary is left to the caller,
//! who feeds the results back in.

pub mod capi;
pub mod error;
pub mod extractor;
pub mod format;
pub mod java;
pub mod java_call;
pub mod progress;
pub mod reporter;
pub mod runtime;
pub mod summary;
pub mod text;
