//! Discovery and download pipeline for published machine-readable files (MRFs).
//!
//! A publisher exposes a two-level directory: a top-level manifest lists index
//! files, and each index file lists the downloadable data files.  This crate
//! holds the verified core of that pipeline: compression and file-type
//! inference, date extraction from file names, deterministic cache keys and
//! paths, the retry/rate-limit decision rules, manifest and index parsing,
//! and the bookkeeping for concurrent batch downloads.

pub mod batch;
pub mod cache;
pub mod compression;
pub mod dates;
pub mod descriptor;
pub mod discovery;
pub mod errors;
pub mod file_type;
pub mod hashing;
pub mod index;
pub mod json;
pub mod manifest;
pub mod options;
pub mod records;
pub mod retry;
pub mod strutil;
