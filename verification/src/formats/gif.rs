//! Metadata of GIF images.

use crate::types::Dimensions;
use vstd::prelude::*;

verus! {

/// Metadata of a GIF image, as far as this crate keeps it.
#[derive(Copy, Clone, Debug, PartialEq, Eq, Structural)]
pub struct Metadata {
    /// Width and height of the logical screen.
    pub dimensions: Dimensions,
}

} // verus!
