//! Concurrent multi-digest computation over memory-mapped files.
//!
//! Given the full contents of one file as a byte view, the library computes
//! three independent digests of it (MD5, SHA-1 and SHA-512), combines them
//! into one record, and manages the lifecycle of a per-file handle that
//! retrieves the record at most once and caches it thereafter.

pub mod errors;
pub mod fanout;
pub mod handle;
pub mod hashes;
pub mod mapper;
pub mod record;
