//! Parameter kinds (the normalised type bits) and the failure modes of the
//! checked parameter accessors.
use vstd::prelude::*;
use crate::types::c_int;
use crate::consts::{PM_ARRAY, PM_EFLOAT, PM_FFLOAT, PM_HASHED, PM_INTEGER, PM_NAMEREF, PM_SCALAR};
use crate::params::{pm_type, PM_TYPE};
use crate::text::{append_decimal, int_decimal};
use vstd::string::*;

verus! {

/// The zsh parameter type bits, normalised so that `PM_SCALAR == 0` is explicit.
#[derive(Debug, Copy, Clone, PartialEq, Eq, Structural)]
pub enum ParamKind {
    Scalar,
    Array,
    Integer,
    Float,
    Hash,
    Nameref,
    /// Any other combination of type bits.
    Other(c_int),
}

/// The kind named by a value of the type bits.
pub open spec fn kind_of_type(t: c_int) -> ParamKind {
    if t == PM_SCALAR {
        ParamKind::Scalar
    } else if t == PM_ARRAY {
        ParamKind::Array
    } else if t == PM_INTEGER {
        ParamKind::Integer
    } else if t == PM_EFLOAT || t == PM_FFLOAT {
        ParamKind::Float
    } else if t == PM_HASHED {
        ParamKind::Hash
    } else if t == PM_NAMEREF {
        ParamKind::Nameref
    } else {
        ParamKind::Other(t)
    }
}

impl ParamKind {
    /// The description of the kind.
    pub open spec fn text(self) -> Seq<char> {
        match self {
            ParamKind::Scalar => "scalar parameter"@,
            ParamKind::Array => "array parameter"@,
            ParamKind::Integer => "integer parameter"@,
            ParamKind::Float => "float parameter"@,
            ParamKind::Hash => "hash parameter"@,
            ParamKind::Nameref => "nameref parameter"@,
            ParamKind::Other(..) => "unknown parameter kind"@,
        }
    }

    /// The flags `resetparam` is given to make a parameter of this kind.
    pub open spec fn spec_reset_flags(self) -> Option<c_int> {
        match self {
            ParamKind::Scalar => Some(PM_SCALAR),
            ParamKind::Array => Some(PM_ARRAY),
            ParamKind::Integer => Some(PM_INTEGER),
            ParamKind::Float => Some(PM_FFLOAT),
            ParamKind::Hash => Some(PM_HASHED),
            ParamKind::Nameref => Some(PM_NAMEREF),
            ParamKind::Other(_) => None,
        }
    }

    /// A human-readable description of the kind.
    #[inline]
    pub fn message(self) -> (r: &'static str)
        ensures
            r@ == self.text(),
    {
        match self {
            ParamKind::Scalar => "scalar parameter",
            ParamKind::Array => "array parameter",
            ParamKind::Integer => "integer parameter",
            ParamKind::Float => "float parameter",
            ParamKind::Hash => "hash parameter",
            ParamKind::Nameref => "nameref parameter",
            ParamKind::Other(..) => "unknown parameter kind",
        }
    }

    /// Same as [`ParamKind::message`].
    #[inline]
    pub fn str(self) -> (r: &'static str)
        ensures
            r@ == self.text(),
    {
        self.message()
    }

    /// The text a kind is displayed as: its description, followed for
    /// [`ParamKind::Other`] by a colon and the type bits in decimal.
    pub open spec fn display(self) -> Seq<char> {
        match self {
            ParamKind::Other(i) => self.text() + ": "@ + int_decimal(i as int),
            _ => self.text(),
        }
    }

    /// The kind as displayed text.
    pub fn to_string(self) -> (r: String)
        ensures
            r@ == self.display(),
    {
        let mut out = String::from_str(self.message());
        if let ParamKind::Other(i) = self {
            out.append(": ");
            append_decimal(i, &mut out);
        }
        out
    }

    /// The kind of a parameter with the given flags; only the type bits count.
    #[inline]
    pub fn from_flags(flags: c_int) -> (r: Self)
        ensures
            r == kind_of_type(pm_type(flags)),
    {
        let t = PM_TYPE(flags);
        if t == PM_SCALAR {
            ParamKind::Scalar
        } else if t == PM_ARRAY {
            ParamKind::Array
        } else if t == PM_INTEGER {
            ParamKind::Integer
        } else if t == PM_EFLOAT || t == PM_FFLOAT {
            ParamKind::Float
        } else if t == PM_HASHED {
            ParamKind::Hash
        } else if t == PM_NAMEREF {
            ParamKind::Nameref
        } else {
            ParamKind::Other(t)
        }
    }

    /// The type flags to recreate a parameter of this kind with; `None` for
    /// [`ParamKind::Other`].
    #[inline]
    pub fn reset_flags(self) -> (r: Option<c_int>)
        ensures
            r == self.spec_reset_flags(),
    {
        match self {
            ParamKind::Scalar => Some(PM_SCALAR),
            ParamKind::Array => Some(PM_ARRAY),
            ParamKind::Integer => Some(PM_INTEGER),
            ParamKind::Float => Some(PM_FFLOAT),
            ParamKind::Hash => Some(PM_HASHED),
            ParamKind::Nameref => Some(PM_NAMEREF),
            ParamKind::Other(_) => None,
        }
    }
}

/// Checked failure modes of the parameter accessors.
#[derive(Debug, Copy, Clone, PartialEq, Eq, Structural)]
pub enum ParamError {
    NullName,
    NullParam,
    NotFound,
    Hidden,
    ReadOnly,
    ZshRejected,
    BadKind,
    TypeMismatch { expected: ParamKind, found: ParamKind },
    NullGsu,
    MissingGet,
    MissingSet,
    MissingUnset,
}

impl ParamError {
    /// The description of the error.
    pub open spec fn text(self) -> Seq<char> {
        match self {
            ParamError::NullName => "parameter name is null"@,
            ParamError::NullParam => "parameter pointer is null"@,
            ParamError::NotFound => "parameter was not found"@,
            ParamError::Hidden => "parameter is hidden by another visible parameter"@,
            ParamError::ReadOnly => "parameter is read-only"@,
            ParamError::ZshRejected => "zsh rejected the parameter operation"@,
            ParamError::BadKind => "parameter kind cannot be used for this operation"@,
            ParamError::TypeMismatch { .. } => "parameter type mismatch"@,
            ParamError::NullGsu => "parameter GSU table is null"@,
            ParamError::MissingGet => "parameter GSU table has no get function"@,
            ParamError::MissingSet => "parameter GSU table has no set function"@,
            ParamError::MissingUnset => "parameter GSU table has no unset function"@,
        }
    }

    /// A human-readable description of the error.
    #[inline]
    pub fn message(self) -> (r: &'static str)
        ensures
            r@ == self.text(),
    {
        match self {
            ParamError::NullName => "parameter name is null",
            ParamError::NullParam => "parameter pointer is null",
            ParamError::NotFound => "parameter was not found",
            ParamError::Hidden => "parameter is hidden by another visible parameter",
            ParamError::ReadOnly => "parameter is read-only",
            ParamError::ZshRejected => "zsh rejected the parameter operation",
            ParamError::BadKind => "parameter kind cannot be used for this operation",
            ParamError::TypeMismatch { .. } => "parameter type mismatch",
            ParamError::NullGsu => "parameter GSU table is null",
            ParamError::MissingGet => "parameter GSU table has no get function",
            ParamError::MissingSet => "parameter GSU table has no set function",
            ParamError::MissingUnset => "parameter GSU table has no unset function",
        }
    }

    /// The text an error is displayed as: its description, followed for a
    /// type mismatch by the expected and the found kind.
    pub open spec fn display(self) -> Seq<char> {
        match self {
            ParamError::TypeMismatch { expected, found } => self.text() + ", expected "@
                + expected.display() + ", found "@ + found.display(),
            _ => self.text(),
        }
    }

    /// The error as displayed text.
    pub fn to_string(self) -> (r: String)
        ensures
            r@ == self.display(),
    {
        let mut out = String::from_str(self.message());
        if let ParamError::TypeMismatch { expected, found } = self {
            out.append(", expected ");
            out.append(expected.to_string().as_str());
            out.append(", found ");
            out.append(found.to_string().as_str());
        }
        out
    }

    /// Same as [`ParamError::message`].
    #[inline]
    pub fn str(self) -> (r: &'static str)
        ensures
            r@ == self.text(),
    {
        self.message()
    }
}

} // verus!
