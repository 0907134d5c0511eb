//! Structural metadata of image files, read from their headers alone.
//!
//! The heart of the crate is [`common::riff`], a forward-only reader for
//! RIFF containers: nested, length-prefixed chunks behind four-byte tags.
//! Every function here works on bytes that are already in memory and states
//! what it returns as a function of those bytes.

pub mod bytes;
pub mod common;
pub mod formats;
pub mod generic;
pub mod text;
pub mod types;
