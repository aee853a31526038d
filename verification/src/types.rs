//! Plain-value stand-ins for the C scalar types used by zsh.
use vstd::prelude::*;

verus! {

/// C `int`.
pub type c_int = i32;

/// C `char`.
pub type c_char = i8;

/// zsh's integer parameter type.
pub type zlong = i64;

/// The address of a C object; zero is the null pointer.
pub type Addr = usize;

/// The address of a C function.
pub type FnAddr = usize;

/// The null address.
pub const NULL: Addr = 0;

} // verus!
