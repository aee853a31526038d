//! Suspending and resuming history recording.
use vstd::prelude::*;
use crate::types::c_int;

verus! {

/// `STOPHIST`: stop recording history by raising the shell's `stophist` by four.
pub fn STOPHIST(stophist: &mut c_int)
    requires
        *old(stophist) <= i32::MAX - 4,
    ensures
        *final(stophist) == *old(stophist) + 4,
{
    *stophist = *stophist + 4;
}

/// `ALLOWHIST`: undo one `STOPHIST` by lowering `stophist` by four.
#[inline]
pub fn ALLOWHIST(stophist: &mut c_int)
    requires
        *old(stophist) >= i32::MIN + 4,
    ensures
        *final(stophist) == *old(stophist) - 4,
{
    *stophist = *stophist - 4;
}

/// `ALLOWHIST` after `STOPHIST` restores the counter.
pub proof fn lemma_stop_allow(stophist: c_int)
    requires
        stophist <= i32::MAX - 4,
    ensures
        (stophist + 4) - 4 == stophist,
        (stophist + 4) >= i32::MIN + 4,
{
}

} // verus!
