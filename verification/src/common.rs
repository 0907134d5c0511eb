//! Building blocks shared by several image formats.

pub mod riff;
