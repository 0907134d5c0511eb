//! Values shared by every format: image dimensions and the error type.

use vstd::prelude::*;

verus! {

/// Width and height of an image, in pixels.
#[derive(Copy, Clone, Debug, PartialEq, Eq, Structural)]
pub struct Dimensions {
    pub width: u32,
    pub height: u32,
}

/// Why a header could not be read.
#[derive(Debug, PartialEq, Eq)]
pub enum Error {
    /// The bytes are there but are not what the format asks for. Carries a
    /// description of the mismatch.
    InvalidFormat(String),
    /// The input ended where the format needs more bytes. May say what was
    /// being read at that point.
    UnexpectedEndOfFile(Option<String>),
}

/// An [`Error`] with its texts as sequences of characters.
pub enum ErrorView {
    InvalidFormat(Seq<char>),
    UnexpectedEndOfFile(Option<Seq<char>>),
}

impl View for Error {
    type V = ErrorView;

    open spec fn view(&self) -> ErrorView {
        match *self {
            Error::InvalidFormat(s) => ErrorView::InvalidFormat(s@),
            Error::UnexpectedEndOfFile(None) => ErrorView::UnexpectedEndOfFile(None),
            Error::UnexpectedEndOfFile(Some(s)) => ErrorView::UnexpectedEndOfFile(Some(s@)),
        }
    }
}

impl Error {
    /// An [`Error::InvalidFormat`] that carries `message`.
    pub fn invalid_format(message: &str) -> (e: Error)
        ensures
            e@ == ErrorView::InvalidFormat(message@),
    {
        Error::InvalidFormat(message.to_owned())
    }

    /// An [`Error::UnexpectedEndOfFile`] that says what was being read.
    pub fn unexpected_eof(context: &str) -> (e: Error)
        ensures
            e@ == ErrorView::UnexpectedEndOfFile(Some(context@)),
    {
        Error::UnexpectedEndOfFile(Some(context.to_owned()))
    }
}

} // verus!
