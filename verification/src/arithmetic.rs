//! Arithmetic values (`mnumber`) and math function definitions.
//!
//! An `mnumber` is a tagged union of an integer and a double.  The model keeps
//! the union as its 64-bit payload: the integer itself, or the IEEE-754 bit
//! pattern of the double.  Floating-point arithmetic on the payload is not part
//! of this library.
use vstd::prelude::*;
use crate::types::{c_int, zlong, Addr, FnAddr, NULL};
use crate::consts::{MFF_STR, MN_FLOAT, MN_INTEGER, MN_UNSET};

verus! {

/// A number produced by arithmetic evaluation.
#[derive(Clone, Copy, Debug)]
pub struct mnumber {
    /// The payload: the integer, or the bit pattern of the double.
    pub u: zlong,
    /// `MN_INTEGER`, `MN_FLOAT`, possibly with `MN_UNSET`.
    pub type_: c_int,
}

impl mnumber {
    /// The tag says integer (exactly `MN_INTEGER`).
    pub open spec fn spec_is_integer(self) -> bool {
        self.type_ == MN_INTEGER
    }

    /// The tag says float (exactly `MN_FLOAT`).
    pub open spec fn spec_is_float(self) -> bool {
        self.type_ == MN_FLOAT
    }

    /// The payload read as the bits of a double.
    pub open spec fn float_bits(self) -> u64 {
        self.u as u64
    }

    /// mnumber is integer
    #[inline]
    pub fn is_integer(self) -> (r: bool)
        ensures
            r == self.spec_is_integer(),
    {
        self.type_ == MN_INTEGER
    }

    /// mnumber is floating point
    #[inline]
    pub fn is_float(self) -> (r: bool)
        ensures
            r == self.spec_is_float(),
    {
        self.type_ == MN_FLOAT
    }

    /// mnumber not yet retrieved
    #[inline]
    pub fn is_unset(self) -> (r: bool)
        ensures
            r == (self.type_ & MN_UNSET != 0),
    {
        self.type_ & MN_UNSET != 0
    }

    /// The payload as an integer, whatever the tag says.
    #[inline(always)]
    pub fn as_integer(self) -> (r: zlong)
        ensures
            r == self.u,
    {
        self.u
    }

    /// The payload as the bit pattern of a double, whatever the tag says.
    #[inline(always)]
    pub fn as_float_bits(self) -> (r: u64)
        ensures
            r == self.float_bits(),
    {
        self.u as u64
    }

    /// The integer, or, when the number is not an integer, the bits of the
    /// double its payload holds.
    pub fn get_integer(self) -> (r: Result<zlong, u64>)
        ensures
            r == (if self.spec_is_integer() {
                Ok::<zlong, u64>(self.u)
            } else {
                Err::<zlong, u64>(self.float_bits())
            }),
    {
        if !self.is_integer() {
            return Err(self.as_float_bits());
        }
        Ok(self.as_integer())
    }

    /// The bits of the double, or, when the number is not a float, the integer
    /// its payload holds.
    pub fn get_float(self) -> (r: Result<u64, zlong>)
        ensures
            r == (if self.spec_is_float() {
                Ok::<u64, zlong>(self.float_bits())
            } else {
                Err::<u64, zlong>(self.u)
            }),
    {
        if !self.is_float() {
            return Err(self.as_integer());
        }
        Ok(self.as_float_bits())
    }

    /// The integer part of `const_add`: when both numbers are integers, their
    /// sum as an integer number (which must not overflow); `None` when either
    /// is not an integer, whose sum is a floating-point addition.
    pub fn integer_sum(self, rhs: Self) -> (r: Option<Self>)
        requires
            self.spec_is_integer() && rhs.spec_is_integer() ==> i64::MIN <= self.u + rhs.u
                <= i64::MAX,
        ensures
            r == (if self.spec_is_integer() && rhs.spec_is_integer() {
                Some(mnumber { u: (self.u + rhs.u) as zlong, type_: MN_INTEGER })
            } else {
                None::<mnumber>
            }),
    {
        match (self.get_integer(), rhs.get_integer()) {
            (Ok(a), Ok(b)) => Some(Self::new_integer(a + b)),
            _ => None,
        }
    }

    /// The integer part of `const_eq`: when both numbers are integers, whether
    /// they are equal; `None` when either is not an integer, whose comparison
    /// is a floating-point one.
    pub fn integer_eq(self, other: Self) -> (r: Option<bool>)
        ensures
            r == (if self.spec_is_integer() && other.spec_is_integer() {
                Some(self.u == other.u)
            } else {
                None::<bool>
            }),
    {
        match (self.get_integer(), other.get_integer()) {
            (Ok(a), Ok(b)) => Some(a == b),
            _ => None,
        }
    }

    /// `typeset -i`, create a new integer numeric
    #[inline]
    pub fn new_integer(l: zlong) -> (r: Self)
        ensures
            r == (mnumber { u: l, type_: MN_INTEGER }),
    {
        mnumber { u: l, type_: MN_INTEGER }
    }
}

/// Reading back a new integer gives the integer; it is an integer and not a
/// float, and it is not marked unset.
pub proof fn lemma_new_integer_roundtrip(l: zlong)
    ensures
        (mnumber { u: l, type_: MN_INTEGER }).spec_is_integer(),
        !(mnumber { u: l, type_: MN_INTEGER }).spec_is_float(),
        (mnumber { u: l, type_: MN_INTEGER }).type_ & MN_UNSET == 0,
        (if (mnumber { u: l, type_: MN_INTEGER }).spec_is_integer() {
            Ok::<zlong, u64>(l)
        } else {
            Err::<zlong, u64>((mnumber { u: l, type_: MN_INTEGER }).float_bits())
        }) == Ok::<zlong, u64>(l),
{
    assert(MN_INTEGER & MN_UNSET == 0) by (bit_vector);
}

/// A math function offered by a module.
#[derive(Clone, Copy, Debug)]
pub struct mathfunc {
    pub next: Addr,
    pub name: Addr,
    pub flags: c_int,
    pub nfunc: Option<FnAddr>,
    pub sfunc: Option<FnAddr>,
    pub module: Addr,
    pub minargs: c_int,
    pub maxargs: c_int,
    pub funcid: c_int,
}

impl mathfunc {
    /// `NUMMATHFUNC`: a function of numeric arguments with argument limits.
    #[inline]
    pub fn NUMMATHFUNC(name: Addr, func: Option<FnAddr>, min: c_int, max: c_int, id: c_int) -> (r:
        Self)
        ensures
            r == (mathfunc {
                next: NULL,
                name: name,
                flags: 0,
                nfunc: func,
                sfunc: None,
                module: NULL,
                minargs: min,
                maxargs: max,
                funcid: id,
            }),
    {
        mathfunc {
            next: NULL,
            name,
            flags: 0,
            nfunc: func,
            sfunc: None,
            module: NULL,
            minargs: min,
            maxargs: max,
            funcid: id,
        }
    }

    /// `STRMATHFUNC`: a function of one string argument.
    #[inline]
    pub fn STRMATHFUNC(name: Addr, func: Option<FnAddr>, id: c_int) -> (r: Self)
        ensures
            r == (mathfunc {
                next: NULL,
                name: name,
                flags: MFF_STR,
                nfunc: None,
                sfunc: func,
                module: NULL,
                minargs: 0,
                maxargs: 0,
                funcid: id,
            }),
    {
        mathfunc {
            next: NULL,
            name,
            flags: MFF_STR,
            nfunc: None,
            sfunc: func,
            module: NULL,
            minargs: 0,
            maxargs: 0,
            funcid: id,
        }
    }
}

} // verus!
