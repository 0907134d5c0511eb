//! Chunks and lists of chunks.

use super::format::{ChunkView, Header, ListView, Next};
use super::id::ChunkId;
use super::source::Counter;
use crate::bytes::read_u32_le;
use crate::types::Error;
use vstd::prelude::*;
use vstd::string::StringExecFns;

verus! {

/// Reads a chunk header from `source`: a tag and a length. `None` says that
/// not one byte was left.
pub fn read_id_and_len(source: &mut Counter<'_>) -> (r: Result<Option<(ChunkId, u32)>, Error>)
    requires
        old(source)@.wf(),
    ensures
        final(source)@ == old(source)@.past_header(),
        *final(final(source).lent()) == *final(old(source).lent()),
        match old(source)@.header() {
            Header::End => r == Ok::<Option<(ChunkId, u32)>, Error>(None),
            Header::Truncated => r == Err::<Option<(ChunkId, u32)>, Error>(
                Error::UnexpectedEndOfFile(None),
            ),
            Header::Chunk { id, len } => r matches Ok(Some(t)) && t.0@ == id && t.1 == len,
        },
{
    let ghost w = source@;
    let mut id = [0u8; 4];
    let n = source.read(&mut id);
    if n == 0 {
        return Ok(None);
    }
    if n != 4 {
        return Err(Error::UnexpectedEndOfFile(None));
    }
    let mut len = [0u8; 4];
    if source.read(&mut len) != 4 {
        return Err(Error::UnexpectedEndOfFile(None));
    }
    proof {
        assert(id@ =~= w.bytes.subrange(w.at as int, w.at as int + 4));
        assert(len@ =~= w.bytes.subrange(w.at as int + 4, w.at as int + 8));
    }
    Ok(Some((ChunkId(id), read_u32_le(len.as_slice()))))
}

/// One element of a container: a tag, a declared length, and a view of the
/// payload that hands out no more than that length.
pub struct RiffChunk<'a> {
    chunk_id: ChunkId,
    len: u32,
    tainted: bool,
    data: Counter<'a>,
}

impl<'a> View for RiffChunk<'a> {
    type V = ChunkView;

    open spec fn view(&self) -> ChunkView {
        ChunkView {
            id: self.spec_chunk_id()@,
            len: self.spec_len(),
            tainted: self.tainted(),
            data: self.payload()@,
        }
    }
}

impl<'a> RiffChunk<'a> {
    /// The tag of the chunk.
    pub closed spec fn spec_chunk_id(&self) -> ChunkId {
        self.chunk_id
    }

    /// The length that the header of the chunk declares.
    pub closed spec fn spec_len(&self) -> u32 {
        self.len
    }

    /// Whether the payload has been handed out for reading.
    pub closed spec fn tainted(&self) -> bool {
        self.tainted
    }

    /// The view of the payload.
    pub closed spec fn payload(self) -> Counter<'a> {
        self.data
    }

    /// Once a chunk is no longer used, the lender sees the source as the
    /// chunk left it.
    pub proof fn lemma_given_back(self)
        requires
            has_resolved(self),
        ensures
            *final(self.payload().lent()) == *self.payload().lent(),
    {
        self.data.lemma_given_back();
    }

    /// A chunk that nobody has read from yet.
    pub(crate) fn new(chunk_id: ChunkId, len: u32, data: Counter<'a>) -> (chunk: RiffChunk<'a>)
        ensures
            chunk.spec_chunk_id() == chunk_id,
            chunk.spec_len() == len,
            !chunk.tainted(),
            chunk.payload() == data,
    {
        RiffChunk { chunk_id, len, tainted: false, data }
    }

    /// The tag of the chunk.
    pub fn chunk_id(&self) -> (id: ChunkId)
        ensures
            id == self.spec_chunk_id(),
    {
        self.chunk_id
    }

    /// The length that the header of the chunk declares.
    pub fn len(&self) -> (len: u32)
        ensures
            len == self.spec_len(),
    {
        self.len
    }

    /// Hands out the view of the payload. It never gives more bytes than the
    /// chunk declares. From now on the chunk counts as read, whether or not
    /// anything is read through the view.
    pub fn contents(&mut self) -> (view: &mut Counter<'a>)
        requires
            old(self)@.wf(),
        ensures
            *view == old(self).payload(),
            view@.wf(),
            view@.left() <= old(self)@.len,
            final(self).payload() == *final(view),
            final(self).tainted(),
            final(self).spec_chunk_id() == old(self).spec_chunk_id(),
            final(self).spec_len() == old(self).spec_len(),
    {
        self.tainted = true;
        &mut self.data
    }

    /// Whether the chunk may be read as a list.
    pub fn can_have_subchunks(&self) -> (b: bool)
        ensures
            b == self@.can_have_subchunks(),
    {
        !self.tainted && (self.chunk_id.is_root() || self.chunk_id.is_list())
    }

    /// Reads the chunk as a list. A chunk that cannot be one comes back
    /// untouched in the outer `Err`, with nothing consumed. Otherwise the type
    /// tag is read, and the inner `Err` says that the payload ended before
    /// its four bytes.
    pub fn into_list(self) -> (r: Result<Result<RiffListChunk<'a>, Error>, RiffChunk<'a>>)
        requires
            self@.wf(),
        ensures
            !self@.can_have_subchunks() ==> r == Err::<Result<RiffListChunk<'a>, Error>, RiffChunk<'a>>(
                self,
            ),
            self@.can_have_subchunks() ==> r is Ok && match self@.as_list() {
                Ok(list) => {
                    &&& r->Ok_0 matches Ok(l)
                    &&& l@ == list
                    &&& l@.wf()
                    &&& *final(l.payload().lent()) == *final(self.payload().lent())
                },
                Err(e) => {
                    &&& r->Ok_0 matches Err(err)
                    &&& err@ == e
                    &&& final(self.payload().lent()).bytes() == self@.data.bytes
                    &&& final(self.payload().lent()).consumed() == self@.data.end
                },
            },
    {
        if self.can_have_subchunks() {
            Ok(self.into_list_unchecked())
        } else {
            Err(self)
        }
    }

    /// Reads the type tag and makes the chunk a list, whatever its tag.
    pub(crate) fn into_list_unchecked(self) -> (r: Result<RiffListChunk<'a>, Error>)
        requires
            self@.wf(),
        ensures
            match self@.as_list() {
                Ok(list) => {
                    &&& r matches Ok(l)
                    &&& l@ == list
                    &&& l@.wf()
                    &&& *final(l.payload().lent()) == *final(self.payload().lent())
                },
                Err(e) => {
                    &&& r matches Err(err)
                    &&& err@ == e
                    &&& final(self.payload().lent()).bytes() == self@.data.bytes
                    &&& final(self.payload().lent()).consumed() == self@.data.end
                },
            },
    {
        let mut chunk = self;
        let mut chunk_type = [0u8; 4];
        if chunk.data.read(&mut chunk_type) != 4 {
            let mut context = String::from_str("when reading chunk type of chunk ");
            let tag = chunk.chunk_id.to_string();
            context.append(tag.as_str());
            proof {
                chunk.data.lemma_given_back();
            }
            return Err(Error::UnexpectedEndOfFile(Some(context)));
        }
        let start = chunk.data.consumed();
        proof {
            assert(chunk_type@ =~= self@.data.bytes.subrange(
                self@.data.at as int,
                self@.data.at as int + 4,
            ));
        }
        Ok(
            RiffListChunk {
                chunk_id: chunk.chunk_id,
                len: chunk.len,
                chunk_type: ChunkId(chunk_type),
                data: chunk.data,
                cur_chunk_len: 0,
                cur_chunk_start: start,
            },
        )
    }
}

/// A chunk whose payload is a type tag followed by chunks, with a cursor
/// over those children.
pub struct RiffListChunk<'a> {
    chunk_id: ChunkId,
    len: u32,
    chunk_type: ChunkId,
    data: Counter<'a>,
    cur_chunk_len: u32,
    cur_chunk_start: usize,
}

impl<'a> View for RiffListChunk<'a> {
    type V = ListView;

    open spec fn view(&self) -> ListView {
        ListView {
            id: self.spec_chunk_id()@,
            len: self.spec_len(),
            chunk_type: self.spec_chunk_type()@,
            data: self.payload()@,
            cur_chunk_start: self.cur_chunk_start(),
            cur_chunk_len: self.cur_chunk_len(),
        }
    }
}

impl<'a> RiffListChunk<'a> {
    /// The tag of the list itself.
    pub closed spec fn spec_chunk_id(&self) -> ChunkId {
        self.chunk_id
    }

    /// The length that the header of the list declares.
    pub closed spec fn spec_len(&self) -> u32 {
        self.len
    }

    /// The type tag: the first four bytes of the payload.
    pub closed spec fn spec_chunk_type(&self) -> ChunkId {
        self.chunk_type
    }

    /// The view of what is left of the payload.
    pub closed spec fn payload(self) -> Counter<'a> {
        self.data
    }

    /// Where the payload of the most recent child began.
    pub closed spec fn cur_chunk_start(&self) -> nat {
        self.cur_chunk_start as nat
    }

    /// The declared length of the most recent child.
    pub closed spec fn cur_chunk_len(&self) -> u32 {
        self.cur_chunk_len
    }

    /// Once a list is no longer used, the lender sees the source as the list
    /// left it.
    pub proof fn lemma_given_back(self)
        requires
            has_resolved(self),
        ensures
            *final(self.payload().lent()) == *self.payload().lent(),
    {
        self.data.lemma_given_back();
    }

    /// The tag of the list itself.
    pub fn chunk_id(&self) -> (id: ChunkId)
        ensures
            id == self.spec_chunk_id(),
    {
        self.chunk_id
    }

    /// The length that the header of the list declares.
    pub fn len(&self) -> (len: u32)
        ensures
            len == self.spec_len(),
    {
        self.len
    }

    /// The type tag: the first four bytes of the payload.
    pub fn chunk_type(&self) -> (id: ChunkId)
        ensures
            id == self.spec_chunk_type(),
    {
        self.chunk_type
    }

    /// The next child. `None` says that the list is exhausted; an error, that
    /// the input ends inside a payload or a header.
    ///
    /// Whatever is left unread of the child before is skipped first, so the
    /// header is looked for where that child's declared length says it is.
    /// The list cannot be used while the child is; afterwards it goes on
    /// where the child left the cursor.
    pub fn next(&mut self) -> (r: Option<Result<RiffChunk<'_>, Error>>)
        requires
            old(self)@.wf(),
        ensures
            match old(self)@.next() {
                Next::End => {
                    &&& r is None
                    &&& final(self)@ == old(self)@.after()
                    &&& final(self)@.wf()
                },
                Next::Truncated => {
                    &&& r == Some(Err::<RiffChunk<'_>, Error>(Error::UnexpectedEndOfFile(None)))
                    &&& final(self)@ == old(self)@.after()
                    &&& final(self)@.wf()
                },
                Next::Child(child) => {
                    &&& r matches Some(Ok(chunk))
                    &&& chunk@ == child
                    &&& chunk@.wf()
                    &&& final(self)@ == old(self)@.after().over(
                        final(chunk.payload().lent()).bytes(),
                        final(chunk.payload().lent()).consumed(),
                    )
                },
            },
            *final(final(self).payload().lent()) == *final(old(self).payload().lent()),
    {
        let read = self.data.consumed() - self.cur_chunk_start;
        if read < self.cur_chunk_len as usize {
            let to_skip = (self.cur_chunk_len as usize - read) as u64;
            if self.data.skip_exact_0(to_skip) != to_skip {
                return Some(Err(Error::UnexpectedEndOfFile(None)));
            }
        }
        let (id, len) = match read_id_and_len(&mut self.data) {
            Ok(Some(t)) => t,
            Ok(None) => return None,
            Err(e) => return Some(Err(e)),
        };
        self.cur_chunk_start = self.data.consumed();
        self.cur_chunk_len = len;
        Some(Ok(RiffChunk::new(id, len, self.data.take(len as u64))))
    }
}

} // verus!
