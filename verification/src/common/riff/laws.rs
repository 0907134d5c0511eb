//! What holds of every container, whatever its bytes.

use super::format::{ChunkView, ListView, Next, Window};
use super::id::{list_tag, root_tag};
use vstd::prelude::*;

verus! {

/// The window after a series of attempts to consume `requests[0]` bytes, then
/// `requests[1]`, and so on.
pub open spec fn after_reads(w: Window, requests: Seq<nat>) -> Window
    decreases requests.len(),
{
    if requests.len() == 0 {
        w
    } else {
        after_reads(w, requests.drop_last()).advance(requests.last())
    }
}

/// However many reads are made through a window and however much each asks
/// for, the cursor stays inside the window.
pub proof fn lemma_reads_stay_in_window(w: Window, requests: Seq<nat>)
    requires
        w.wf(),
    ensures
        after_reads(w, requests).wf(),
        after_reads(w, requests).follows(w),
        after_reads(w, requests).at - w.at <= w.left(),
    decreases requests.len(),
{
    if requests.len() > 0 {
        lemma_reads_stay_in_window(w, requests.drop_last());
    }
}

/// The payload view of a chunk never yields more bytes than the chunk
/// declares: not at once, and not over any series of reads.
pub proof fn lemma_payload_within_declared_length(chunk: ChunkView, requests: Seq<nat>)
    requires
        chunk.wf(),
    ensures
        chunk.data.rest().len() <= chunk.len,
        after_reads(chunk.data, requests).at - chunk.data.at <= chunk.len,
{
    lemma_reads_stay_in_window(chunk.data, requests);
}

/// Every child that a list produces is bounded by its declared length and by
/// the list itself.
pub proof fn lemma_child_is_bounded(list: ListView)
    requires
        list.wf(),
    ensures
        list.next() matches Next::Child(child) ==> {
            &&& child.wf()
            &&& !child.tainted
            &&& child.data.bytes == list.data.bytes
            &&& child.data.at == list.after().cur_chunk_start
            &&& child.data.end <= list.data.end
            &&& child.data.left() <= child.len
        },
{
}

/// A list stays well formed over a request for its next child, and, where
/// that gave a child, over whatever is read from the child.
pub proof fn lemma_list_stays_wf(list: ListView, child_now: Window)
    requires
        list.wf(),
    ensures
        list.after().wf(),
        list.next() matches Next::Child(child) ==> (child_now.wf() && child_now.follows(child.data)
            ==> list.after().over(child_now.bytes, child_now.at).wf()),
{
}

/// Once a list has said that it is exhausted it keeps saying so, and asking
/// again changes nothing.
pub proof fn lemma_end_is_final(list: ListView)
    requires
        list.wf(),
        list.next() is End,
    ensures
        list.after().next() is End,
        list.after().after() == list.after(),
{
}

/// The header of the next child is looked for at the end of the payload that
/// the child before declared, however much of that payload was read.
pub proof fn lemma_next_header_follows_declared_length(list: ListView)
    requires
        list.wf(),
        list.cur_chunk_read() <= list.cur_chunk_len,
        list.cur_chunk_start + list.cur_chunk_len <= list.data.end,
    ensures
        list.at_header().at == list.cur_chunk_start + list.cur_chunk_len,
        list.at_header().wf(),
{
}

/// Whether a child was read in full, in part or not at all makes no
/// difference to what comes after it: two lists that differ only in how far
/// into the child's payload the cursor stands give the same next child and
/// are the same list afterwards.
pub proof fn lemma_skip_is_independent_of_reading(list: ListView, read_a: nat, read_b: nat)
    requires
        list.data.end <= list.data.bytes.len(),
        read_a <= list.cur_chunk_len,
        read_b <= list.cur_chunk_len,
        list.cur_chunk_start + read_a <= list.data.end,
        list.cur_chunk_start + read_b <= list.data.end,
    ensures
        ({
            let a = list.over(list.data.bytes, list.cur_chunk_start + read_a);
            let b = list.over(list.data.bytes, list.cur_chunk_start + read_b);
            a.wf() && b.wf() && a.next() == b.next() && a.after() == b.after()
        }),
{
}

/// A chunk whose payload has been handed out is no container, whatever its
/// tag; nor is one with another tag than the two container tags.
pub proof fn lemma_container_candidates(chunk: ChunkView)
    ensures
        chunk.tainted ==> !chunk.can_have_subchunks(),
        chunk.id != root_tag() && chunk.id != list_tag()
            ==> !chunk.can_have_subchunks(),
{
}

} // verus!
