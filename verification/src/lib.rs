//! A streaming dual-digest pipeline for compressed files.
//!
//! The library computes two SHA-1 digests of a compressed byte stream in a
//! single pass: one over the raw bytes exactly as they are read from the
//! source, and one over the bytes the decompression filter expands them to.
//! Both digests are rendered as lowercase hexadecimal and joined into a
//! single result line for comparison against reference digests.

pub mod digest;
pub mod hex;
pub mod pipeline;
pub mod stream;

pub use digest::DigestAccumulator;
pub use pipeline::{reader_to_hashes, PipelineError};
pub use stream::{Sha1Reader, Sha1Writer};
