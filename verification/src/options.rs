//! Shell options and emulation modes.
use vstd::prelude::*;
use crate::types::{c_int, c_char};
use crate::consts::EMULATE_FIELDS;

verus! {

/// A shell option, by its index in the shell's option table.
#[derive(Clone, Copy, Debug, PartialEq, Eq)]
pub struct OPT(pub u16);

/// The type zsh uses for option indices.
pub type OptIndex = c_int;

impl OPT {
    /// The option's index as a C `int`.
    #[inline(always)]
    pub fn as_int(self) -> (r: c_int)
        ensures
            r == self.0,
    {
        self.0 as c_int
    }

    /// The option's index as an `OptIndex`.
    #[inline(always)]
    pub fn as_optindex(self) -> (r: OptIndex)
        ensures
            r == self.0,
    {
        self.0 as OptIndex
    }

    #[inline(always)]
    fn as_index(self) -> (r: usize)
        ensures
            r == self.0,
    {
        self.0 as usize
    }

    /// `isset`: the option's entry in the option table `opts`.
    pub fn isset(self, opts: &[c_char]) -> (r: c_char)
        requires
            (self.0 as int) < opts@.len(),
        ensures
            r == opts@[self.0 as int],
    {
        let idx = self.as_index();
        opts[idx]
    }

    /// `unset`: the logical negation of the option's entry, as zsh's
    /// `unset(X)` (`!opts[X]`): 1 when the option is off, 0 when it is on.
    #[inline(always)]
    pub fn unset(self, opts: &[c_char]) -> (r: c_char)
        requires
            (self.0 as int) < opts@.len(),
        ensures
            r == (if opts@[self.0 as int] == 0 { 1i8 } else { 0i8 }),
    {
        if self.isset(opts) == 0 {
            1
        } else {
            0
        }
    }
}

/// `EMULATION`: the bits of `X` set in the shell's `emulation` word.
pub fn EMULATION(emulation: c_int, X: c_int) -> (r: c_int)
    ensures
        r == emulation & X,
{
    emulation & X
}

/// `SHELL_EMULATION`: only the base shell field of the `emulation` word.
#[inline(always)]
pub fn SHELL_EMULATION(emulation: c_int) -> (r: c_int)
    ensures
        r == emulation & EMULATE_FIELDS,
{
    EMULATION(emulation, EMULATE_FIELDS)
}

/// `tccan`: the length of terminal capability `X` in the shell's `tclen` table.
pub fn tccan(tclen: &[c_int], X: c_int) -> (r: c_int)
    requires
        0 <= X < tclen@.len(),
    ensures
        r == tclen@[X as int],
{
    let idx = X as usize;
    tclen[idx]
}

} // verus!
