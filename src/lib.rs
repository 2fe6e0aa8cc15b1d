//! A zlib-style streaming interface over DEFLATE: checksums, the legacy
//! status vocabulary, and resumable compress / decompress streams driven over
//! caller-owned buffers.

pub mod checksum;
pub mod engine;
pub mod stream;
pub mod inflate;
pub mod deflate;
