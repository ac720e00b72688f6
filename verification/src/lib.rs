//! Content digests for files, and the sidecar records that hold them.
//!
//! For each input file the MD5 digest of its content is written, in
//! uppercase hexadecimal and on one line, to a sidecar file named after the
//! base name of the input. This library holds everything about that but the
//! I/O itself: the hash accumulator, the digest text, the name and content of
//! a sidecar, the steps of processing one file, and the result of a batch.

pub mod batch;
pub mod cli;
pub mod failure;
pub mod hasher;
pub mod hex;
pub mod job;
pub mod sidecar;
