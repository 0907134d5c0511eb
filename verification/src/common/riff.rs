//! A forward-only reader for RIFF containers.
//!
//! A container is a chunk: a four-byte tag, a length as a little-endian
//! `u32`, and that many bytes of payload. The payload of a container chunk
//! (one tagged `RIFF` or `LIST`) is a four-byte type tag followed by chunks.
//!
//! [`RiffReader`] owns the bytes and a cursor. Lists and chunks borrow the
//! cursor from whatever produced them, so a list cannot be advanced while one
//! of its children is still in use.

pub mod chunk;
pub mod format;
pub mod id;
pub mod laws;
pub mod reader;
pub mod source;

pub use chunk::{RiffChunk, RiffListChunk};
pub use id::ChunkId;
pub use reader::RiffReader;
pub use source::{Counter, Source};
