//! Writing a whole buffer to a file descriptor in pieces: the bookkeeping
//! between the writes.
use vstd::prelude::*;

verus! {

/// After `written` more bytes went out, `sent` bytes of a `len`-byte buffer
/// have been written before: the new total, and whether the buffer is done.
pub fn advance_write(sent: usize, written: usize, len: usize) -> (r: (usize, bool))
    requires
        sent + written <= usize::MAX,
    ensures
        r.0 == sent + written,
        r.1 == (sent + written >= len),
{
    let i = sent + written;
    (i, i >= len)
}

} // verus!
