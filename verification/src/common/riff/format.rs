//! The container format, stated over sequences of bytes.
//!
//! Nothing here runs. These definitions are what the contracts of the reader
//! are written in: a [`Window`] is the stretch of the input that a view may
//! still hand out, and a [`ListView`] is a list with its cursor.

use super::id::{list_tag, root_tag, tag_text};
use crate::bytes::le_u32;
use crate::types::ErrorView;
use vstd::prelude::*;

verus! {

/// A stretch of the input: everything from the cursor `at` up to, not
/// including, `end`.
pub struct Window {
    /// The whole input.
    pub bytes: Seq<u8>,
    /// How many bytes of the input have been consumed.
    pub at: nat,
    /// The first position that may not be read.
    pub end: nat,
}

impl Window {
    pub open spec fn wf(self) -> bool {
        self.at <= self.end <= self.bytes.len()
    }

    /// How many bytes can still be had.
    pub open spec fn left(self) -> nat {
        (self.end - self.at) as nat
    }

    /// The bytes that can still be had.
    pub open spec fn rest(self) -> Seq<u8> {
        self.bytes.subrange(self.at as int, self.end as int)
    }

    /// The window after an attempt to consume `n` bytes: the cursor moves by
    /// `n`, or to the end where fewer are left.
    pub open spec fn advance(self, n: nat) -> Window {
        Window { at: if n <= self.left() { self.at + n } else { self.end }, ..self }
    }

    /// The window cut down to at most `limit` bytes from the cursor.
    pub open spec fn narrowed(self, limit: nat) -> Window {
        Window { end: if limit <= self.left() { self.at + limit } else { self.end }, ..self }
    }

    /// A window with the same end over a source that holds `bytes` and has
    /// its cursor at `at`.
    pub open spec fn over(self, bytes: Seq<u8>, at: nat) -> Window {
        Window { bytes, at, ..self }
    }

    /// Whether this window is `earlier` after some reading: the same input and
    /// end, the cursor no further back.
    pub open spec fn follows(self, earlier: Window) -> bool {
        &&& self.bytes == earlier.bytes
        &&& self.end == earlier.end
        &&& earlier.at <= self.at
    }

    /// What stands at the cursor where a chunk header is expected.
    pub open spec fn header(self) -> Header {
        if self.left() == 0 {
            Header::End
        } else if self.left() < 8 {
            Header::Truncated
        } else {
            Header::Chunk {
                id: self.bytes.subrange(self.at as int, self.at as int + 4),
                len: le_u32(self.bytes.subrange(self.at as int + 4, self.at as int + 8)),
            }
        }
    }

    /// The window after an attempt to read a chunk header: eight bytes on,
    /// or at the end where fewer were left.
    pub open spec fn past_header(self) -> Window {
        self.advance(8)
    }
}

/// A chunk as [`next`](ListView::next) produces it: tag, declared length,
/// whether its payload has been handed out, and the window on its payload.
pub struct ChunkView {
    pub id: Seq<u8>,
    pub len: u32,
    pub tainted: bool,
    pub data: Window,
}

impl ChunkView {
    /// The window lies within the input and holds no more than the declared
    /// length.
    pub open spec fn wf(self) -> bool {
        &&& self.data.wf()
        &&& self.data.left() <= self.len
    }

    /// Whether the chunk may be read as a list: nobody has been given its
    /// payload, and its tag is that of a container.
    pub open spec fn can_have_subchunks(self) -> bool {
        !self.tainted && (self.id == root_tag() || self.id == list_tag())
    }

    /// The chunk read as a list: the first four bytes of its payload are the
    /// type tag, and the cursor of the list stands behind them.
    pub open spec fn as_list(self) -> Result<ListView, ErrorView> {
        if self.data.left() < 4 {
            Err(
                ErrorView::UnexpectedEndOfFile(
                    Some("when reading chunk type of chunk "@ + tag_text(self.id)),
                ),
            )
        } else {
            Ok(
                ListView {
                    id: self.id,
                    len: self.len,
                    chunk_type: self.data.bytes.subrange(self.data.at as int, self.data.at as int + 4),
                    data: self.data.advance(4),
                    cur_chunk_start: self.data.at + 4,
                    cur_chunk_len: 0,
                },
            )
        }
    }
}

/// A list: its own tag, declared length and type tag, the window on what is
/// left of its payload, and where its most recent child began and how long
/// that child said it was.
pub struct ListView {
    pub id: Seq<u8>,
    pub len: u32,
    pub chunk_type: Seq<u8>,
    pub data: Window,
    /// The position of the first payload byte of the most recent child.
    pub cur_chunk_start: nat,
    /// The declared length of the most recent child.
    pub cur_chunk_len: u32,
}

/// What a request for the next child of a list gives.
pub enum Next {
    /// The list is exhausted.
    End,
    /// The input ends inside a payload that had to be skipped, or inside a
    /// header.
    Truncated,
    /// A child.
    Child(ChunkView),
}

impl ListView {
    pub open spec fn wf(self) -> bool {
        &&& self.data.wf()
        &&& self.cur_chunk_start <= self.data.at
    }

    /// How many bytes have been consumed since the most recent child began.
    pub open spec fn cur_chunk_read(self) -> nat {
        (self.data.at - self.cur_chunk_start) as nat
    }

    /// How much of the most recent child's payload has not been consumed.
    pub open spec fn unread(self) -> nat {
        if self.cur_chunk_read() < self.cur_chunk_len {
            (self.cur_chunk_len - self.cur_chunk_read()) as nat
        } else {
            0
        }
    }

    /// The window once the unread rest of the most recent child is skipped.
    pub open spec fn at_header(self) -> Window {
        self.data.advance(self.unread())
    }

    /// What the next request for a child gives.
    pub open spec fn next(self) -> Next {
        if self.unread() > self.data.left() {
            Next::Truncated
        } else {
            match self.at_header().header() {
                Header::End => Next::End,
                Header::Truncated => Next::Truncated,
                Header::Chunk { id, len } => Next::Child(
                    ChunkView {
                        id,
                        len,
                        tainted: false,
                        data: self.at_header().past_header().narrowed(len as nat),
                    },
                ),
            }
        }
    }

    /// The list right after the next request for a child, before anything is
    /// read from that child.
    pub open spec fn after(self) -> ListView {
        let data = self.at_header().past_header();
        match self.next() {
            Next::Child(child) => ListView {
                data,
                cur_chunk_start: data.at,
                cur_chunk_len: child.len,
                ..self
            },
            _ => ListView { data, ..self },
        }
    }

    /// The same list over a source that holds `bytes` and has its cursor at
    /// `at`.
    pub open spec fn over(self, bytes: Seq<u8>, at: nat) -> ListView {
        ListView { data: self.data.over(bytes, at), ..self }
    }
}

/// What opening a container at the cursor of `w` gives: the root list, or why
/// there is none.
pub open spec fn root(w: Window) -> Result<ListView, ErrorView> {
    match w.header() {
        Header::Chunk { id, len } => if id == root_tag() {
            (ChunkView { id, len, tainted: false, data: w.past_header().narrowed(len as nat) }).as_list()
        } else {
            Err(ErrorView::InvalidFormat("RIFF file header is invalid"@))
        },
        _ => Err(ErrorView::UnexpectedEndOfFile(None)),
    }
}

/// Where the cursor stands after a failed attempt to open a container at the
/// cursor of `w`: behind what was read before the fault showed.
pub open spec fn root_failed_at(w: Window) -> nat {
    match w.header() {
        Header::Chunk { id, len } => if id == root_tag() {
            w.past_header().narrowed(len as nat).end
        } else {
            w.past_header().at
        },
        _ => w.past_header().at,
    }
}

/// What an attempt to read a chunk header finds.
pub enum Header {
    /// Not one byte is left.
    End,
    /// Some bytes are left, but fewer than the eight of a header.
    Truncated,
    /// A tag and a length.
    Chunk { id: Seq<u8>, len: u32 },
}

} // verus!
