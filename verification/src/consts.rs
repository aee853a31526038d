//! Flag and limit values from zsh's `zsh.h` and `signals.h`.
use vstd::prelude::*;
use crate::types::c_int;

verus! {

// Parameter type bits.  `PM_SCALAR` is the absence of any type bit.
pub const PM_SCALAR: c_int = 0;
pub const PM_ARRAY: c_int = 0x1;
pub const PM_INTEGER: c_int = 0x2;
pub const PM_EFLOAT: c_int = 0x4;
pub const PM_FFLOAT: c_int = 0x8;
pub const PM_HASHED: c_int = 0x10;

// Parameter attribute bits.
pub const PM_LEFT: c_int = 0x20;
pub const PM_RIGHT_B: c_int = 0x40;
pub const PM_RIGHT_Z: c_int = 0x80;
pub const PM_LOWER: c_int = 0x100;
pub const PM_UPPER: c_int = 0x200;
pub const PM_READONLY: c_int = 0x400;
pub const PM_TAGGED: c_int = 0x800;
pub const PM_EXPORTED: c_int = 0x1000;
pub const PM_UNIQUE: c_int = 0x2000;
pub const PM_HIDE: c_int = 0x4000;
pub const PM_HIDEVAL: c_int = 0x8000;
pub const PM_TIED: c_int = 0x10000;
pub const PM_DONTIMPORT_SUID: c_int = 0x20000;
pub const PM_SINGLE: c_int = 0x40000;
pub const PM_LOCAL: c_int = 0x80000;
pub const PM_SPECIAL: c_int = 0x100000;
pub const PM_RO_BY_DESIGN: c_int = 0x200000;
pub const PM_DECLARED: c_int = 0x400000;
pub const PM_RESTRICTED: c_int = 0x800000;
pub const PM_UNSET: c_int = 0x1000000;
pub const PM_REMOVABLE: c_int = 0x2000000;
pub const PM_AUTOLOAD: c_int = 0x4000000;
pub const PM_NORESTORE: c_int = 0x8000000;
pub const PM_HASHELEM: c_int = 0x10000000;
pub const PM_NAMEDDIR: c_int = 0x20000000;
pub const PM_NAMEREF: c_int = 0x40000000;

/// All bits that `PM_TYPE` keeps.
/// (`PM_SCALAR | PM_INTEGER | PM_EFLOAT | PM_FFLOAT | PM_ARRAY | PM_HASHED | PM_NAMEREF`)
pub const PM_TYPE_MASK: c_int = 0x4000_001f;

// `mnumber` type tags.
pub const MN_INTEGER: c_int = 1;
pub const MN_FLOAT: c_int = 2;
pub const MN_UNSET: c_int = 4;

/// Builtin flag: the builtin is a precommand modifier.
pub const BINF_PREFIX: c_int = 0x20;

/// Math function flag: the function takes a string argument.
pub const MFF_STR: c_int = 1;

// `eprog` flags.
pub const EF_REAL: c_int = 1;
pub const EF_HEAP: c_int = 2;
pub const EF_MAP: c_int = 4;
pub const EF_RUN: c_int = 8;

// Emulation modes.
pub const EMULATE_CSH: c_int = 0x2;
pub const EMULATE_KSH: c_int = 0x4;
pub const EMULATE_SH: c_int = 0x8;
pub const EMULATE_ZSH: c_int = 0x10;

/// The bits of `emulation` that name the base shell.
pub const EMULATE_FIELDS: c_int = 0x1e;

// `value` flags.
pub const VALFLAG_INV: c_int = 0x0001;
pub const VALFLAG_EMPTY: c_int = 0x0002;
pub const VALFLAG_SUBST: c_int = 0x0004;
pub const VALFLAG_REFSLICE: c_int = 0x0008;

/// Highest ordinary signal number known to the shell.
pub const SIGCOUNT: c_int = 31;

/// Ordinary signals plus the shell's three pseudo-signals (`SIGCOUNT + 3`).
pub const VSIGCOUNT: c_int = 34;

/// Length of the circular queue of deferred signals.
pub const MAX_QUEUE_SIZE: c_int = 128;

} // verus!
