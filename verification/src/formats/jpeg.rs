//! Metadata of JPEG images.

use crate::types::Dimensions;
use vstd::prelude::*;

verus! {

/// Metadata of a JPEG image, as far as this crate keeps it.
#[derive(Copy, Clone, Debug, PartialEq, Eq, Structural)]
pub struct Metadata {
    /// Width and height.
    pub dimensions: Dimensions,
}

} // verus!
