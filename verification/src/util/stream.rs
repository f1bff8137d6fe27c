//! Accumulation of a streamed body: the chunks of a reply are appended to one
//! buffer in the order in which they arrive.

use vstd::prelude::*;

verus! {

/// The bytes of a sequence of chunks, one after the other.
pub open spec fn joined(chunks: Seq<Seq<u8>>) -> Seq<u8>
    decreases chunks.len(),
{
    if chunks.len() == 0 {
        Seq::empty()
    } else {
        joined(chunks.drop_last()) + chunks.last()
    }
}

/// Appends one chunk to the bytes received so far.
pub fn append_chunk(data: &mut Vec<u8>, chunk: &[u8])
    ensures
        final(data)@ == old(data)@ + chunk@,
{
    data.extend_from_slice(chunk);
    assert(data@ =~= old(data)@ + chunk@);
}

} // verus!
