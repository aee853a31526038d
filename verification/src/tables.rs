//! Module feature entries: hash nodes, builtins, wrappers, conditions and hooks,
//! with the constructor macros of `zsh.h` (`BUILTIN`, `BIN_PREFIX`, `WRAPDEF`,
//! `CONDDEF`, `HOOKDEF`).
use vstd::prelude::*;
use crate::types::{c_int, Addr, FnAddr, NULL};
use crate::consts::BINF_PREFIX;
use crate::syntax::ASG;

verus! {

/// The header shared by every node of a zsh hash table.
#[derive(Clone, Copy, Debug)]
pub struct hashnode {
    /// Next node in the bucket.
    pub next: Addr,
    /// Name of the node (a C string).
    pub nam: Addr,
    /// Node flags.
    pub flags: c_int,
}

/// A builtin command offered by a module.
#[derive(Clone, Copy, Debug)]
pub struct builtin {
    pub node: hashnode,
    pub handlerfunc: Option<FnAddr>,
    pub minargs: c_int,
    pub maxargs: c_int,
    pub funcid: c_int,
    pub optstr: Addr,
    pub defopts: Addr,
}

impl builtin {
    /// `BUILTIN`: a builtin with the given name, flags, handler, argument limits,
    /// function id and option strings; it is not yet linked into any table.
    pub fn BUILTIN(
        name: Addr,
        flags: c_int,
        handler: Option<FnAddr>,
        min: c_int,
        max: c_int,
        funcid: c_int,
        optstr: Addr,
        defopts: Addr,
    ) -> (r: Self)
        ensures
            r.node == (hashnode { next: NULL, nam: name, flags: flags }),
            r.handlerfunc == handler,
            r.minargs == min,
            r.maxargs == max,
            r.funcid == funcid,
            r.optstr == optstr,
            r.defopts == defopts,
    {
        builtin {
            node: hashnode { next: NULL, nam: name, flags: flags },
            handlerfunc: handler,
            minargs: min,
            maxargs: max,
            funcid,
            optstr,
            defopts,
        }
    }

    /// `BIN_PREFIX`: a precommand modifier, a builtin with no handler, no
    /// arguments and no options whose flags gain `BINF_PREFIX`.
    pub fn BIN_PREFIX(name: Addr, flags: c_int) -> (r: Self)
        ensures
            r == Self::spec_builtin(name, flags | BINF_PREFIX, None, 0, 0, 0, NULL, NULL),
    {
        Self::BUILTIN(name, flags | BINF_PREFIX, None, 0, 0, 0, NULL, NULL)
    }

    /// The value `BUILTIN` builds from its arguments.
    pub open spec fn spec_builtin(
        name: Addr,
        flags: c_int,
        handler: Option<FnAddr>,
        min: c_int,
        max: c_int,
        funcid: c_int,
        optstr: Addr,
        defopts: Addr,
    ) -> Self {
        builtin {
            node: hashnode { next: NULL, nam: name, flags: flags },
            handlerfunc: handler,
            minargs: min,
            maxargs: max,
            funcid,
            optstr,
            defopts,
        }
    }
}

/// A wrapper run around shell functions.
#[derive(Clone, Copy, Debug)]
pub struct funcwrap {
    pub next: Addr,
    pub flags: c_int,
    pub handler: Option<FnAddr>,
    pub module: Addr,
}

impl funcwrap {
    /// `WRAPDEF`: an unlinked wrapper with the given handler and no flags.
    pub fn WRAPDEF(handler: Option<FnAddr>) -> (r: Self)
        ensures
            r == (funcwrap { next: NULL, flags: 0, handler: handler, module: NULL }),
    {
        funcwrap { next: NULL, flags: 0, handler, module: NULL }
    }
}

/// A condition code (`[[ -x ... ]]` operator) offered by a module.
#[derive(Clone, Copy, Debug)]
pub struct conddef {
    pub next: Addr,
    pub name: Addr,
    pub flags: c_int,
    pub handler: Option<FnAddr>,
    pub min: c_int,
    pub max: c_int,
    pub condid: c_int,
    pub module: Addr,
}

impl conddef {
    /// `CONDDEF`: an unlinked condition with the given name, flags, handler,
    /// argument limits and id.
    pub fn CONDDEF(
        name: Addr,
        flags: c_int,
        handler: Option<FnAddr>,
        min: c_int,
        max: c_int,
        condid: c_int,
    ) -> (r: Self)
        ensures
            r == (conddef {
                next: NULL,
                name: name,
                flags: flags,
                handler: handler,
                min: min,
                max: max,
                condid: condid,
                module: NULL,
            }),
    {
        conddef { next: NULL, name, flags, handler, min, max, condid, module: NULL }
    }
}

/// A hook that functions can be attached to.
#[derive(Clone, Copy, Debug)]
pub struct hookdef {
    pub next: Addr,
    pub name: Addr,
    pub def: Option<FnAddr>,
    pub flags: c_int,
    pub funcs: Addr,
}

impl hookdef {
    /// `HOOKDEF`: an unlinked hook with the given name, default function and
    /// flags, and no attached functions.
    pub fn HOOKDEF(name: Addr, func: Option<FnAddr>, flags: c_int) -> (r: Self)
        ensures
            r == (hookdef { next: NULL, name: name, def: func, flags: flags, funcs: NULL }),
    {
        hookdef { next: NULL, name, def: func, flags, funcs: NULL }
    }
}

/// A parameter assignment, as far as the helpers read it.
#[derive(Clone, Copy, Debug)]
pub struct asgment {
    /// The parameter name.
    pub name: Addr,
    /// `ASG` flags.
    pub flags: c_int,
    /// The value: a scalar string, or for an array assignment a list.
    pub value: Addr,
}

impl asgment {
    /// Assignment is array?
    #[inline]
    pub fn ASG_ARRAYP(&self) -> (r: bool)
        ensures
            r == (self.flags & ASG::ASG_ARRAY.code() != 0),
    {
        self.flags & ASG::ASG_ARRAY.as_int() != 0
    }

    /// Assignment has value?  An array assignment always has one; otherwise
    /// the scalar must be present.
    #[inline]
    pub fn ASG_VALUEP(&self) -> (r: bool)
        ensures
            r == (self.flags & ASG::ASG_ARRAY.code() != 0 || self.value != NULL),
    {
        self.ASG_ARRAYP() || self.value != NULL
    }
}

/// `IN_EVAL_TRAP`: the shell is running a trap that is not a function, at the
/// local level where the trap was set.  The arguments are the shell's
/// `intrap`, `trapisfunc`, `traplocallevel` and `locallevel`.
pub fn IN_EVAL_TRAP(intrap: c_int, trapisfunc: c_int, traplocallevel: c_int, locallevel: c_int) -> (r:
    bool)
    ensures
        r == (intrap != 0 && trapisfunc == 0 && traplocallevel == locallevel),
{
    intrap != 0 && trapisfunc == 0 && traplocallevel == locallevel
}

} // verus!
