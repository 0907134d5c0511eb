//! Four-byte chunk tags.

use crate::text::{debug_bytes, push_debug_bytes};
use vstd::prelude::*;
use vstd::std_specs::cmp::PartialEqSpecImpl;
use vstd::string::StringSliceAdditionalSpecFns;
use vstd::utf8::{decode_utf8, encode_utf8_decode_utf8, valid_utf8};

verus! {

/// The tag of a chunk: four bytes, usually ASCII letters.
#[derive(Copy, Clone, Debug, Eq)]
pub struct ChunkId(pub [u8; 4]);

impl View for ChunkId {
    type V = Seq<u8>;

    open spec fn view(&self) -> Seq<u8> {
        self.0@
    }
}

impl PartialEq for ChunkId {
    /// Two tags are equal when their four bytes are.
    fn eq(&self, other: &ChunkId) -> (r: bool) {
        let r = self.0[0] == other.0[0] && self.0[1] == other.0[1] && self.0[2] == other.0[2]
            && self.0[3] == other.0[3];
        proof {
            if r {
                assert(self.0@ =~= other.0@);
            }
        }
        r
    }
}

impl PartialEqSpecImpl for ChunkId {
    open spec fn obeys_eq_spec() -> bool {
        true
    }

    open spec fn eq_spec(&self, other: &ChunkId) -> bool {
        self@ == other@
    }
}

/// The tag that opens a container file: the bytes of `RIFF`.
pub open spec fn root_tag() -> Seq<u8> {
    seq![0x52u8, 0x49u8, 0x46u8, 0x46u8]
}

/// The tag of a nested container: the bytes of `LIST`.
pub open spec fn list_tag() -> Seq<u8> {
    seq![0x4cu8, 0x49u8, 0x53u8, 0x54u8]
}

/// How a tag with the bytes `id` is shown: as text where the bytes are
/// UTF-8, as a list of numbers where they are not.
pub open spec fn tag_text(id: Seq<u8>) -> Seq<char> {
    if valid_utf8(id) {
        decode_utf8(id)
    } else {
        debug_bytes(id)
    }
}

/// `core::str::from_utf8`, with the error dropped. The standard library
/// documents that it succeeds exactly on well-formed UTF-8 and that the string
/// it returns lies over the very bytes it was given.
#[verifier::external_body]
fn utf8_str(bytes: &[u8]) -> (r: Option<&str>)
    ensures
        r is Some <==> valid_utf8(bytes@),
        r matches Some(s) ==> s.spec_bytes() == bytes@,
{
    core::str::from_utf8(bytes).ok()
}

impl ChunkId {
    /// The tag as text, if its bytes are UTF-8.
    pub fn as_str(&self) -> (r: Option<&str>)
        ensures
            r is Some <==> valid_utf8(self@),
            r matches Some(s) ==> s@ == decode_utf8(self@),
    {
        let r = utf8_str(self.0.as_slice());
        proof {
            if let Some(s) = r {
                encode_utf8_decode_utf8(s@);
            }
        }
        r
    }

    /// The four bytes of the tag.
    pub fn as_bytes(&self) -> (r: &[u8])
        ensures
            r@ == self@,
    {
        self.0.as_slice()
    }

    /// The tag for display: see [`tag_text`].
    pub fn to_string(&self) -> (s: String)
        ensures
            s@ == tag_text(self@),
    {
        match self.as_str() {
            Some(text) => text.to_owned(),
            None => {
                let mut s = String::new();
                push_debug_bytes(&mut s, self.as_bytes());
                s
            },
        }
    }

    /// Whether this is the tag that opens a container file.
    pub fn is_root(&self) -> (r: bool)
        ensures
            r == (self@ == root_tag()),
    {
        let r = self.0[0] == 0x52 && self.0[1] == 0x49 && self.0[2] == 0x46 && self.0[3] == 0x46;
        proof {
            if r {
                assert(self@ =~= root_tag());
            }
        }
        r
    }

    /// Whether this is the tag of a nested container.
    pub fn is_list(&self) -> (r: bool)
        ensures
            r == (self@ == list_tag()),
    {
        let r = self.0[0] == 0x4c && self.0[1] == 0x49 && self.0[2] == 0x53 && self.0[3] == 0x54;
        proof {
            if r {
                assert(self@ =~= list_tag());
            }
        }
        r
    }
}

} // verus!
