//! The entry point: a reader that owns the bytes of a container.

use super::chunk::{read_id_and_len, RiffChunk, RiffListChunk};
use super::format::{root, root_failed_at, Window};
use super::source::{Counter, Source};
use crate::types::Error;
use vstd::prelude::*;

verus! {

/// Owns the input and opens the container in it.
pub struct RiffReader {
    source: Source,
}

impl View for RiffReader {
    type V = Window;

    /// All of the input from the cursor on.
    open spec fn view(&self) -> Window {
        Window {
            bytes: self.source().bytes(),
            at: self.source().consumed(),
            end: self.source().bytes().len(),
        }
    }
}

impl RiffReader {
    /// The input and its cursor.
    pub closed spec fn source(self) -> Source {
        self.source
    }

    /// A reader at the start of `source`.
    pub fn new(source: Vec<u8>) -> (reader: RiffReader)
        ensures
            reader@ == (Window { bytes: source@, at: 0, end: source@.len() }),
            reader@.wf(),
    {
        RiffReader { source: Source::new(source) }
    }

    /// Opens the container at the cursor and returns its root list: the
    /// header must carry the root tag, and the type tag must be there.
    ///
    /// While the list is in use the reader cannot be; afterwards its cursor
    /// stands where the list left it. After a failure the cursor stands
    /// behind what was read.
    pub fn root(&mut self) -> (r: Result<RiffListChunk<'_>, Error>)
        requires
            old(self)@.wf(),
        ensures
            match root(old(self)@) {
                Ok(list) => {
                    &&& r matches Ok(l)
                    &&& l@ == list
                    &&& l@.wf()
                    &&& final(self).source() == *final(l.payload().lent())
                },
                Err(e) => {
                    &&& r matches Err(err)
                    &&& err@ == e
                    &&& final(self)@ == old(self)@.over(
                        old(self)@.bytes,
                        root_failed_at(old(self)@),
                    )
                },
            },
    {
        let mut data = Counter::whole(&mut self.source);
        let (id, len) = match read_id_and_len(&mut data) {
            Ok(Some(t)) => t,
            Ok(None) => {
                proof {
                    data.lemma_given_back();
                }
                return Err(Error::UnexpectedEndOfFile(None));
            },
            Err(e) => {
                proof {
                    data.lemma_given_back();
                }
                return Err(e);
            },
        };
        if !id.is_root() {
            proof {
                data.lemma_given_back();
            }
            return Err(Error::invalid_format("RIFF file header is invalid"));
        }
        RiffChunk::new(id, len, data.narrow(len as u64)).into_list_unchecked()
    }
}

} // verus!
