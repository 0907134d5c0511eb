//! Metadata of WebP images.

use crate::types::Dimensions;
use vstd::prelude::*;

verus! {

/// Metadata of a WebP image, as far as this crate keeps it.
#[derive(Copy, Clone, Debug, PartialEq, Eq, Structural)]
pub struct Metadata {
    dimensions: Dimensions,
}

impl Metadata {
    /// Width and height of the canvas.
    pub closed spec fn spec_dimensions(&self) -> Dimensions {
        self.dimensions
    }

    /// Metadata of an image with the given dimensions.
    pub fn new(dimensions: Dimensions) -> (md: Metadata)
        ensures
            md.spec_dimensions() == dimensions,
    {
        Metadata { dimensions }
    }

    /// Width and height of the canvas.
    pub fn dimensions(&self) -> (d: Dimensions)
        ensures
            d == self.spec_dimensions(),
    {
        self.dimensions
    }
}

} // verus!
