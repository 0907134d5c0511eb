//! Metadata of PNG images.
//!
//! A PNG file opens with an eight-byte signature. The first chunk behind it
//! is the image header: a four-byte length, the tag `IHDR`, then width and
//! height as big-endian `u32` and five single bytes.

use crate::bytes::{be_u32, read_u32_be, stands_at};
use crate::types::{Dimensions, Error, ErrorView};
use crate::text::{debug_bytes, decimal, push_debug_bytes, push_decimal};
use vstd::prelude::*;
use vstd::slice::slice_subrange;
use vstd::string::StringExecFns;

verus! {

/// Color type of an image, as the PNG standard defines them.
#[derive(Copy, Clone, Debug, PartialEq, Eq, Structural)]
pub enum ColorType {
    Grayscale,
    Rgb,
    Indexed,
    GrayscaleAlpha,
    RgbAlpha,
}

pub const CT_GRAYSCALE: u8 = 0;

pub const CT_RGB: u8 = 2;

pub const CT_INDEXED: u8 = 3;

pub const CT_GRAYSCALE_ALPHA: u8 = 4;

pub const CT_RGB_ALPHA: u8 = 6;

impl ColorType {
    /// The color type that the byte `n` of an image header stands for.
    pub open spec fn of(n: u8) -> Option<ColorType> {
        if n == CT_GRAYSCALE {
            Some(ColorType::Grayscale)
        } else if n == CT_RGB {
            Some(ColorType::Rgb)
        } else if n == CT_INDEXED {
            Some(ColorType::Indexed)
        } else if n == CT_GRAYSCALE_ALPHA {
            Some(ColorType::GrayscaleAlpha)
        } else if n == CT_RGB_ALPHA {
            Some(ColorType::RgbAlpha)
        } else {
            None
        }
    }

    /// How many samples make up one pixel.
    pub open spec fn samples(self) -> nat {
        match self {
            ColorType::Grayscale => 1,
            ColorType::Rgb => 3,
            ColorType::Indexed => 1,
            ColorType::GrayscaleAlpha => 2,
            ColorType::RgbAlpha => 4,
        }
    }

    /// Whether the standard allows samples of `bit_depth` bits with this
    /// color type.
    pub open spec fn allows(self, bit_depth: u8) -> bool {
        match self {
            ColorType::Grayscale => bit_depth == 1 || bit_depth == 2 || bit_depth == 4 || bit_depth
                == 8 || bit_depth == 16,
            ColorType::Indexed => bit_depth == 1 || bit_depth == 2 || bit_depth == 4 || bit_depth
                == 8,
            _ => bit_depth == 8 || bit_depth == 16,
        }
    }

    /// The name of the color type.
    pub open spec fn name(self) -> Seq<char> {
        match self {
            ColorType::Grayscale => "Grayscale"@,
            ColorType::Rgb => "RGB"@,
            ColorType::Indexed => "Indexed"@,
            ColorType::GrayscaleAlpha => "Grayscale with alpha channel"@,
            ColorType::RgbAlpha => "RGB with alpha channel"@,
        }
    }

    pub fn from_u8(n: u8) -> (r: Option<ColorType>)
        ensures
            r == ColorType::of(n),
    {
        match n {
            CT_GRAYSCALE => Some(ColorType::Grayscale),
            CT_RGB => Some(ColorType::Rgb),
            CT_INDEXED => Some(ColorType::Indexed),
            CT_GRAYSCALE_ALPHA => Some(ColorType::GrayscaleAlpha),
            CT_RGB_ALPHA => Some(ColorType::RgbAlpha),
            _ => None,
        }
    }

    /// The name of the color type.
    pub fn to_string(&self) -> (s: String)
        ensures
            s@ == self.name(),
    {
        String::from_str(
            match *self {
                ColorType::Grayscale => "Grayscale",
                ColorType::Rgb => "RGB",
                ColorType::Indexed => "Indexed",
                ColorType::GrayscaleAlpha => "Grayscale with alpha channel",
                ColorType::RgbAlpha => "RGB with alpha channel",
            },
        )
    }
}

/// Bits per pixel of an image whose header gives `bit_depth` bits per sample
/// and the color type byte `color_type`: the product of the bit depth and the
/// samples per pixel, where the standard allows the pair.
pub open spec fn color_depth(bit_depth: u8, color_type: u8) -> Option<u8> {
    match ColorType::of(color_type) {
        Some(ct) => if ct.allows(bit_depth) {
            Some((bit_depth * ct.samples()) as u8)
        } else {
            None
        },
        None => None,
    }
}

pub fn compute_color_depth(bit_depth: u8, color_type: u8) -> (r: Option<u8>)
    ensures
        r == color_depth(bit_depth, color_type),
{
    match color_type {
        CT_INDEXED => match bit_depth {
            1 | 2 | 4 | 8 => Some(bit_depth),
            _ => None,
        },
        CT_GRAYSCALE => match bit_depth {
            1 | 2 | 4 | 8 | 16 => Some(bit_depth),
            _ => None,
        },
        CT_GRAYSCALE_ALPHA => match bit_depth {
            8 | 16 => Some(bit_depth * 2),
            _ => None,
        },
        CT_RGB => match bit_depth {
            8 | 16 => Some(bit_depth * 3),
            _ => None,
        },
        CT_RGB_ALPHA => match bit_depth {
            8 | 16 => Some(bit_depth * 4),
            _ => None,
        },
        _ => None,
    }
}

/// Compression method of an image. The PNG standard defines one.
#[derive(Copy, Clone, Debug, PartialEq, Eq, Structural)]
pub enum CompressionMethod {
    DeflateInflate,
}

impl CompressionMethod {
    /// The compression method that the byte `n` of an image header stands for.
    pub open spec fn of(n: u8) -> Option<CompressionMethod> {
        if n == 0 {
            Some(CompressionMethod::DeflateInflate)
        } else {
            None
        }
    }

    /// The name of the compression method.
    pub open spec fn name(self) -> Seq<char> {
        "Deflate/inflate"@
    }

    pub fn from_u8(n: u8) -> (r: Option<CompressionMethod>)
        ensures
            r == CompressionMethod::of(n),
    {
        match n {
            0 => Some(CompressionMethod::DeflateInflate),
            _ => None,
        }
    }

    /// The name of the compression method.
    pub fn to_string(&self) -> (s: String)
        ensures
            s@ == self.name(),
    {
        String::from_str(
            match *self {
                CompressionMethod::DeflateInflate => "Deflate/inflate",
            },
        )
    }
}

/// Filter method of an image. The PNG standard defines one.
#[derive(Copy, Clone, Debug, PartialEq, Eq, Structural)]
pub enum FilterMethod {
    AdaptiveFiltering,
}

impl FilterMethod {
    /// The filter method that the byte `n` of an image header stands for.
    pub open spec fn of(n: u8) -> Option<FilterMethod> {
        if n == 0 {
            Some(FilterMethod::AdaptiveFiltering)
        } else {
            None
        }
    }

    /// The name of the filter method.
    pub open spec fn name(self) -> Seq<char> {
        "Adaptive filtering"@
    }

    pub fn from_u8(n: u8) -> (r: Option<FilterMethod>)
        ensures
            r == FilterMethod::of(n),
    {
        match n {
            0 => Some(FilterMethod::AdaptiveFiltering),
            _ => None,
        }
    }

    /// The name of the filter method.
    pub fn to_string(&self) -> (s: String)
        ensures
            s@ == self.name(),
    {
        String::from_str(
            match *self {
                FilterMethod::AdaptiveFiltering => "Adaptive filtering",
            },
        )
    }
}

/// Interlace method of an image: none, or Adam7.
#[derive(Copy, Clone, Debug, PartialEq, Eq, Structural)]
pub enum InterlaceMethod {
    Disabled,
    Adam7,
}

impl InterlaceMethod {
    /// The interlace method that the byte `n` of an image header stands for.
    pub open spec fn of(n: u8) -> Option<InterlaceMethod> {
        if n == 0 {
            Some(InterlaceMethod::Disabled)
        } else if n == 1 {
            Some(InterlaceMethod::Adam7)
        } else {
            None
        }
    }

    /// The name of the interlace method.
    pub open spec fn name(self) -> Seq<char> {
        match self {
            InterlaceMethod::Disabled => "Disabled"@,
            InterlaceMethod::Adam7 => "Adam7"@,
        }
    }

    pub fn from_u8(n: u8) -> (r: Option<InterlaceMethod>)
        ensures
            r == InterlaceMethod::of(n),
    {
        match n {
            0 => Some(InterlaceMethod::Disabled),
            1 => Some(InterlaceMethod::Adam7),
            _ => None,
        }
    }

    /// The name of the interlace method.
    pub fn to_string(&self) -> (s: String)
        ensures
            s@ == self.name(),
    {
        String::from_str(
            match *self {
                InterlaceMethod::Disabled => "Disabled",
                InterlaceMethod::Adam7 => "Adam7",
            },
        )
    }
}

/// Metadata of a PNG image.
#[derive(Copy, Clone, Debug, PartialEq, Eq, Structural)]
pub struct Metadata {
    /// Width and height.
    pub dimensions: Dimensions,
    /// Color type used in the image.
    pub color_type: ColorType,
    /// Color depth (bits per pixel) used in the image.
    pub color_depth: u8,
    /// Compression method used in the image.
    pub compression_method: CompressionMethod,
    /// Preprocessing method used in the image.
    pub filter_method: FilterMethod,
    /// Transmission order used in the image.
    pub interlace_method: InterlaceMethod,
}

/// The eight bytes that open every PNG file.
pub open spec fn signature() -> Seq<u8> {
    seq![0x89u8, 0x50u8, 0x4eu8, 0x47u8, 0x0du8, 0x0au8, 0x1au8, 0x0au8]
}

/// The tag of the image header chunk: the bytes of `IHDR`.
pub open spec fn header_tag() -> Seq<u8> {
    seq![0x49u8, 0x48u8, 0x44u8, 0x52u8]
}

/// The fault of an input that ends while `context` is being read.
pub open spec fn ends(context: Seq<char>) -> Result<Metadata, ErrorView> {
    Err(ErrorView::UnexpectedEndOfFile(Some(context)))
}

/// The fault of an input that holds `what` where it may not.
pub open spec fn invalid(what: Seq<char>) -> Result<Metadata, ErrorView> {
    Err(ErrorView::InvalidFormat(what))
}

/// The metadata that the seven fields of an image header give, or the first
/// of them that the standard does not allow.
pub open spec fn interpret(
    width: u32,
    height: u32,
    bit_depth: u8,
    color_type: u8,
    compression_method: u8,
    filter_method: u8,
    interlace_method: u8,
) -> Result<Metadata, ErrorView> {
    if ColorType::of(color_type) is None {
        invalid("invalid color type: "@ + decimal(color_type as nat))
    } else if color_depth(bit_depth, color_type) is None {
        invalid("invalid bit depth: "@ + decimal(bit_depth as nat))
    } else if CompressionMethod::of(compression_method) is None {
        invalid("invalid compression method: "@ + decimal(compression_method as nat))
    } else if FilterMethod::of(filter_method) is None {
        invalid("invalid filter method: "@ + decimal(filter_method as nat))
    } else if InterlaceMethod::of(interlace_method) is None {
        invalid("invalid interlace method: "@ + decimal(interlace_method as nat))
    } else {
        Ok(
            Metadata {
                dimensions: Dimensions { width, height },
                color_type: ColorType::of(color_type)->0,
                color_depth: color_depth(bit_depth, color_type)->0,
                compression_method: CompressionMethod::of(compression_method)->0,
                filter_method: FilterMethod::of(filter_method)->0,
                interlace_method: InterlaceMethod::of(interlace_method)->0,
            },
        )
    }
}

/// The metadata of the PNG file that begins with `b`, or the first fault in
/// `b`: everything is read in file order, the signature and the chunk tag are
/// checked as soon as they are read, the single fields once all are read.
pub open spec fn parse(b: Seq<u8>) -> Result<Metadata, ErrorView> {
    if b.len() < 8 {
        ends("when reading PNG signature"@)
    } else if b.subrange(0, 8) != signature() {
        invalid("invalid PNG header: "@ + debug_bytes(b.subrange(0, 8)))
    } else if b.len() < 12 {
        ends("when reading chunk length"@)
    } else if b.len() < 16 {
        ends("when reading chunk type"@)
    } else if b.subrange(12, 16) != header_tag() {
        invalid("invalid PNG chunk: "@ + debug_bytes(b.subrange(12, 16)))
    } else if b.len() < 20 {
        ends("when reading width"@)
    } else if b.len() < 24 {
        ends("when reading height"@)
    } else if b.len() < 25 {
        ends("when reading bit depth"@)
    } else if b.len() < 26 {
        ends("when reading color type"@)
    } else if b.len() < 27 {
        ends("when reading compression method"@)
    } else if b.len() < 28 {
        ends("when reading filter method"@)
    } else if b.len() < 29 {
        ends("when reading interlace method"@)
    } else {
        interpret(
            be_u32(b.subrange(16, 20)),
            be_u32(b.subrange(20, 24)),
            b[24],
            b[25],
            b[26],
            b[27],
            b[28],
        )
    }
}

fn invalid_number(what: &str, n: u8) -> (e: Error)
    ensures
        e@ == ErrorView::InvalidFormat(what@ + decimal(n as nat)),
{
    let mut message = String::from_str(what);
    push_decimal(&mut message, n);
    Error::InvalidFormat(message)
}

fn invalid_bytes(what: &str, bytes: &[u8]) -> (e: Error)
    ensures
        e@ == ErrorView::InvalidFormat(what@ + debug_bytes(bytes@)),
{
    let mut message = String::from_str(what);
    push_debug_bytes(&mut message, bytes);
    Error::InvalidFormat(message)
}

impl Metadata {
    /// Reads the metadata of a PNG image from the first bytes of its file.
    /// Twenty-nine bytes are enough; what follows them is not looked at.
    pub fn load(r: &[u8]) -> (md: Result<Metadata, Error>)
        ensures
            match parse(r@) {
                Ok(m) => md == Ok::<Metadata, Error>(m),
                Err(e) => md matches Err(err) && err@ == e,
            },
    {
        let n = r.len();
        if n < 8 {
            return Err(Error::unexpected_eof("when reading PNG signature"));
        }
        let magic: [u8; 8] = [0x89, 0x50, 0x4e, 0x47, 0x0d, 0x0a, 0x1a, 0x0a];
        assert(magic@ =~= signature());
        if !stands_at(r, 0, magic.as_slice()) {
            return Err(invalid_bytes("invalid PNG header: ", slice_subrange(r, 0, 8)));
        }
        if n < 12 {
            return Err(Error::unexpected_eof("when reading chunk length"));
        }
        if n < 16 {
            return Err(Error::unexpected_eof("when reading chunk type"));
        }
        let tag: [u8; 4] = [0x49, 0x48, 0x44, 0x52];
        assert(tag@ =~= header_tag());
        if !stands_at(r, 12, tag.as_slice()) {
            return Err(invalid_bytes("invalid PNG chunk: ", slice_subrange(r, 12, 16)));
        }
        if n < 20 {
            return Err(Error::unexpected_eof("when reading width"));
        }
        let width = read_u32_be(slice_subrange(r, 16, 20));
        if n < 24 {
            return Err(Error::unexpected_eof("when reading height"));
        }
        let height = read_u32_be(slice_subrange(r, 20, 24));
        if n < 25 {
            return Err(Error::unexpected_eof("when reading bit depth"));
        }
        let bit_depth = r[24];
        if n < 26 {
            return Err(Error::unexpected_eof("when reading color type"));
        }
        let color_type = r[25];
        if n < 27 {
            return Err(Error::unexpected_eof("when reading compression method"));
        }
        let compression_method = r[26];
        if n < 28 {
            return Err(Error::unexpected_eof("when reading filter method"));
        }
        let filter_method = r[27];
        if n < 29 {
            return Err(Error::unexpected_eof("when reading interlace method"));
        }
        let interlace_method = r[28];
        Metadata::from_fields(
            width,
            height,
            bit_depth,
            color_type,
            compression_method,
            filter_method,
            interlace_method,
        )
    }

    /// The metadata that the seven fields of an image header give.
    pub fn from_fields(
        width: u32,
        height: u32,
        bit_depth: u8,
        color_type: u8,
        compression_method: u8,
        filter_method: u8,
        interlace_method: u8,
    ) -> (md: Result<Metadata, Error>)
        ensures
            match interpret(
                width,
                height,
                bit_depth,
                color_type,
                compression_method,
                filter_method,
                interlace_method,
            ) {
                Ok(m) => md == Ok::<Metadata, Error>(m),
                Err(e) => md matches Err(err) && err@ == e,
            },
    {
        let color = match ColorType::from_u8(color_type) {
            Some(c) => c,
            None => return Err(invalid_number("invalid color type: ", color_type)),
        };
        let depth = match compute_color_depth(bit_depth, color_type) {
            Some(d) => d,
            None => return Err(invalid_number("invalid bit depth: ", bit_depth)),
        };
        let compression = match CompressionMethod::from_u8(compression_method) {
            Some(c) => c,
            None => return Err(invalid_number("invalid compression method: ", compression_method)),
        };
        let filter = match FilterMethod::from_u8(filter_method) {
            Some(f) => f,
            None => return Err(invalid_number("invalid filter method: ", filter_method)),
        };
        let interlace = match InterlaceMethod::from_u8(interlace_method) {
            Some(i) => i,
            None => return Err(invalid_number("invalid interlace method: ", interlace_method)),
        };
        Ok(
            Metadata {
                dimensions: Dimensions { width, height },
                color_type: color,
                color_depth: depth,
                compression_method: compression,
                filter_method: filter,
                interlace_method: interlace,
            },
        )
    }
}

} // verus!
