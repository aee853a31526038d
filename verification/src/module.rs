//! The shell's record of a loaded module.
use vstd::prelude::*;
use crate::types::{c_int, Addr, NULL};
use crate::tables::hashnode;

verus! {

/// A module record: hash node, handle (or linked descriptor, or alias), the
/// lists of autoloaded features and dependencies, and the wrapper count.
#[derive(Clone, Copy, Debug)]
pub struct module {
    pub node: hashnode,
    /// The union of handle, linked-module descriptor and alias name.
    pub u: Addr,
    pub autoloads: Addr,
    pub deps: Addr,
    pub wrapper: c_int,
}

/// The module record this library manages.
#[derive(Debug)]
pub struct Module {
    pub inner: module,
}

impl Module {
    /// A blank module record: every pointer null, no flags, no wrappers.
    pub fn util_make_module() -> (r: module)
        ensures
            r == (module {
                node: hashnode { next: NULL, nam: NULL, flags: 0 },
                u: NULL,
                autoloads: NULL,
                deps: NULL,
                wrapper: 0,
            }),
    {
        module {
            autoloads: NULL,
            deps: NULL,
            wrapper: 0,
            node: hashnode { flags: 0, next: NULL, nam: NULL },
            u: NULL,
        }
    }
}

} // verus!
