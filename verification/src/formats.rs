//! Metadata of the single image formats.
//!
//! Only the PNG header is decoded in this crate. Of GIF, JPEG and WebP
//! images it keeps what a caller who decoded them elsewhere hands in.

pub mod gif;
pub mod jpeg;
pub mod png;
pub mod webp;
