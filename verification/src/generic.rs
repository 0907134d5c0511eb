//! Metadata of an image whose format is found out at run time.

use crate::formats::{gif, jpeg, png, webp};
use crate::types::{Dimensions, Error, ErrorView};
use vstd::prelude::*;

verus! {

/// Metadata of an image of one of the formats that the crate knows.
#[derive(Copy, Clone, Debug, PartialEq, Eq, Structural)]
pub enum GenericMetadata {
    Png(png::Metadata),
    Gif(gif::Metadata),
    Jpeg(jpeg::Metadata),
    Webp(webp::Metadata),
}

/// A marker for one format, which picks that format's metadata out of a
/// [`GenericMetadata`].
pub trait MetadataMarker {
    /// The metadata type of the format.
    type Metadata;

    /// The metadata of this format in `gmd`, if `gmd` is of this format.
    spec fn pick(gmd: GenericMetadata) -> Option<Self::Metadata>;

    /// The metadata of this format in `gmd`, or `gmd` itself where it is of
    /// another format.
    fn from_generic(gmd: GenericMetadata) -> (r: Result<Self::Metadata, GenericMetadata>)
        ensures
            r == match Self::pick(gmd) {
                Some(md) => Ok::<Self::Metadata, GenericMetadata>(md),
                None => Err::<Self::Metadata, GenericMetadata>(gmd),
            },
    ;

    /// The metadata of this format in `gmd`, if `gmd` is of this format.
    fn from_generic_ref(gmd: &GenericMetadata) -> (r: Option<&Self::Metadata>)
        ensures
            match Self::pick(*gmd) {
                Some(md) => r matches Some(found) && *found == md,
                None => r is None,
            },
    ;
}

/// The marker of JPEG images.
pub struct Jpeg;

/// The marker of PNG images.
pub struct Png;

/// The marker of GIF images.
pub struct Gif;

/// The marker of WebP images.
pub struct Webp;

impl MetadataMarker for Jpeg {
    type Metadata = jpeg::Metadata;

    open spec fn pick(gmd: GenericMetadata) -> Option<jpeg::Metadata> {
        match gmd {
            GenericMetadata::Jpeg(md) => Some(md),
            _ => None,
        }
    }

    fn from_generic(gmd: GenericMetadata) -> (r: Result<jpeg::Metadata, GenericMetadata>) {
        match gmd {
            GenericMetadata::Jpeg(md) => Ok(md),
            gmd => Err(gmd),
        }
    }

    fn from_generic_ref(gmd: &GenericMetadata) -> (r: Option<&jpeg::Metadata>) {
        match gmd {
            GenericMetadata::Jpeg(md) => Some(md),
            _ => None,
        }
    }
}

impl MetadataMarker for Png {
    type Metadata = png::Metadata;

    open spec fn pick(gmd: GenericMetadata) -> Option<png::Metadata> {
        match gmd {
            GenericMetadata::Png(md) => Some(md),
            _ => None,
        }
    }

    fn from_generic(gmd: GenericMetadata) -> (r: Result<png::Metadata, GenericMetadata>) {
        match gmd {
            GenericMetadata::Png(md) => Ok(md),
            gmd => Err(gmd),
        }
    }

    fn from_generic_ref(gmd: &GenericMetadata) -> (r: Option<&png::Metadata>) {
        match gmd {
            GenericMetadata::Png(md) => Some(md),
            _ => None,
        }
    }
}

impl MetadataMarker for Gif {
    type Metadata = gif::Metadata;

    open spec fn pick(gmd: GenericMetadata) -> Option<gif::Metadata> {
        match gmd {
            GenericMetadata::Gif(md) => Some(md),
            _ => None,
        }
    }

    fn from_generic(gmd: GenericMetadata) -> (r: Result<gif::Metadata, GenericMetadata>) {
        match gmd {
            GenericMetadata::Gif(md) => Ok(md),
            gmd => Err(gmd),
        }
    }

    fn from_generic_ref(gmd: &GenericMetadata) -> (r: Option<&gif::Metadata>) {
        match gmd {
            GenericMetadata::Gif(md) => Some(md),
            _ => None,
        }
    }
}

impl MetadataMarker for Webp {
    type Metadata = webp::Metadata;

    open spec fn pick(gmd: GenericMetadata) -> Option<webp::Metadata> {
        match gmd {
            GenericMetadata::Webp(md) => Some(md),
            _ => None,
        }
    }

    fn from_generic(gmd: GenericMetadata) -> (r: Result<webp::Metadata, GenericMetadata>) {
        match gmd {
            GenericMetadata::Webp(md) => Ok(md),
            gmd => Err(gmd),
        }
    }

    fn from_generic_ref(gmd: &GenericMetadata) -> (r: Option<&webp::Metadata>) {
        match gmd {
            GenericMetadata::Webp(md) => Some(md),
            _ => None,
        }
    }
}

/// A format that an input may be tried as.
#[derive(Copy, Clone, Debug, PartialEq, Eq, Structural)]
pub enum Format {
    Png,
    Gif,
    Webp,
    Jpeg,
}

/// What is to be done next while the format of an input is looked for.
pub enum Attempt {
    /// Go back to the start of the input and decode it as this format.
    Try(Format),
    /// The search is over, with this result.
    Done(Result<GenericMetadata, Error>),
}

/// [`Attempt`] with the texts of an error as sequences of characters.
pub enum AttemptView {
    Try(Format),
    Done(Result<GenericMetadata, ErrorView>),
}

impl View for Attempt {
    type V = AttemptView;

    open spec fn view(&self) -> AttemptView {
        match *self {
            Attempt::Try(format) => AttemptView::Try(format),
            Attempt::Done(Ok(md)) => AttemptView::Done(Ok(md)),
            Attempt::Done(Err(e)) => AttemptView::Done(Err(e@)),
        }
    }
}

impl Format {
    /// The formats in the order in which an input is tried as each.
    pub open spec fn order() -> Seq<Format> {
        seq![Format::Png, Format::Gif, Format::Webp, Format::Jpeg]
    }

    /// The place of this format in [`order`](Format::order).
    pub open spec fn place(self) -> int {
        match self {
            Format::Png => 0,
            Format::Gif => 1,
            Format::Webp => 2,
            Format::Jpeg => 3,
        }
    }

    /// What follows an attempt to decode the input as this format: its
    /// metadata where that succeeded (`found`), else the format after this
    /// one, else the verdict that the input is of no known format.
    pub open spec fn after(self, found: Option<GenericMetadata>) -> AttemptView {
        match found {
            Some(md) => AttemptView::Done(Ok(md)),
            None => if self.place() + 1 < Format::order().len() {
                AttemptView::Try(Format::order()[self.place() + 1])
            } else {
                AttemptView::Done(
                    Err(ErrorView::InvalidFormat("unknown or unsupported image type"@)),
                )
            },
        }
    }

    /// The format to try first.
    pub fn first() -> (format: Format)
        ensures
            format == Format::order()[0],
    {
        Format::Png
    }

    /// What follows an attempt to decode the input as this format, which
    /// found `found`.
    pub fn next(self, found: Option<GenericMetadata>) -> (step: Attempt)
        ensures
            step@ == self.after(found),
    {
        match found {
            Some(md) => Attempt::Done(Ok(md)),
            None => match self {
                Format::Png => Attempt::Try(Format::Gif),
                Format::Gif => Attempt::Try(Format::Webp),
                Format::Webp => Attempt::Try(Format::Jpeg),
                Format::Jpeg => Attempt::Done(
                    Err(Error::invalid_format("unknown or unsupported image type")),
                ),
            },
        }
    }
}

impl GenericMetadata {
    /// The dimensions in the metadata, whatever the format.
    pub open spec fn spec_dimensions(&self) -> Dimensions {
        match *self {
            GenericMetadata::Png(md) => md.dimensions,
            GenericMetadata::Gif(md) => md.dimensions,
            GenericMetadata::Jpeg(md) => md.dimensions,
            GenericMetadata::Webp(md) => md.spec_dimensions(),
        }
    }

    /// The MIME type of the format.
    pub open spec fn spec_mime_type(&self) -> Seq<char> {
        match *self {
            GenericMetadata::Png(_) => "image/png"@,
            GenericMetadata::Gif(_) => "image/gif"@,
            GenericMetadata::Jpeg(_) => "image/jpeg"@,
            GenericMetadata::Webp(_) => "image/webp"@,
        }
    }

    /// Returns image dimensions from the contained metadata.
    pub fn dimensions(&self) -> (d: Dimensions)
        ensures
            d == self.spec_dimensions(),
    {
        match *self {
            GenericMetadata::Png(ref md) => md.dimensions,
            GenericMetadata::Gif(ref md) => md.dimensions,
            GenericMetadata::Jpeg(ref md) => md.dimensions,
            GenericMetadata::Webp(ref md) => md.dimensions(),
        }
    }

    /// Returns a MIME type string for the image type of the contained
    /// metadata.
    pub fn mime_type(&self) -> (s: &'static str)
        ensures
            s@ == self.spec_mime_type(),
    {
        match *self {
            GenericMetadata::Png(_) => "image/png",
            GenericMetadata::Gif(_) => "image/gif",
            GenericMetadata::Jpeg(_) => "image/jpeg",
            GenericMetadata::Webp(_) => "image/webp",
        }
    }

    /// The metadata of the format that `T` marks, or this value itself where
    /// it is of another format.
    pub fn into<T: MetadataMarker>(self) -> (r: Result<T::Metadata, GenericMetadata>)
        ensures
            r == match T::pick(self) {
                Some(md) => Ok::<T::Metadata, GenericMetadata>(md),
                None => Err::<T::Metadata, GenericMetadata>(self),
            },
    {
        T::from_generic(self)
    }

    /// A reference to the metadata of the format that `T` marks, if this
    /// value is of that format.
    pub fn as_ref<T: MetadataMarker>(&self) -> (r: Option<&T::Metadata>)
        ensures
            match T::pick(*self) {
                Some(md) => r matches Some(found) && *found == md,
                None => r is None,
            },
    {
        T::from_generic_ref(self)
    }
}

} // verus!
