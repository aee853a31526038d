//! Bookkeeping of a run of parameter checks: the names printed for kinds and
//! errors, the failure count, and the run's exit status.
use vstd::prelude::*;
use crate::param_kind::{ParamError, ParamKind};

verus! {

/// The short name printed for a kind.
pub open spec fn kind_label(kind: ParamKind) -> Seq<char> {
    match kind {
        ParamKind::Scalar => "scalar"@,
        ParamKind::Array => "array"@,
        ParamKind::Integer => "integer"@,
        ParamKind::Float => "float"@,
        ParamKind::Hash => "hash"@,
        ParamKind::Nameref => "nameref"@,
        ParamKind::Other(_) => "other"@,
    }
}

/// The variant name printed for an error.
pub open spec fn error_label(err: ParamError) -> Seq<char> {
    match err {
        ParamError::NullName => "NullName"@,
        ParamError::NullParam => "NullParam"@,
        ParamError::NotFound => "NotFound"@,
        ParamError::Hidden => "Hidden"@,
        ParamError::ReadOnly => "ReadOnly"@,
        ParamError::ZshRejected => "ZshRejected"@,
        ParamError::BadKind => "BadKind"@,
        ParamError::TypeMismatch { .. } => "TypeMismatch"@,
        ParamError::NullGsu => "NullGsu"@,
        ParamError::MissingGet => "MissingGet"@,
        ParamError::MissingSet => "MissingSet"@,
        ParamError::MissingUnset => "MissingUnset"@,
    }
}

/// The short name of a kind.
pub fn show_kind(kind: ParamKind) -> (r: &'static str)
    ensures
        r@ == kind_label(kind),
{
    match kind {
        ParamKind::Scalar => "scalar",
        ParamKind::Array => "array",
        ParamKind::Integer => "integer",
        ParamKind::Float => "float",
        ParamKind::Hash => "hash",
        ParamKind::Nameref => "nameref",
        ParamKind::Other(_) => "other",
    }
}

/// The variant name of an error.
pub fn show_error(err: ParamError) -> (r: &'static str)
    ensures
        r@ == error_label(err),
{
    match err {
        ParamError::NullName => "NullName",
        ParamError::NullParam => "NullParam",
        ParamError::NotFound => "NotFound",
        ParamError::Hidden => "Hidden",
        ParamError::ReadOnly => "ReadOnly",
        ParamError::ZshRejected => "ZshRejected",
        ParamError::BadKind => "BadKind",
        ParamError::TypeMismatch { .. } => "TypeMismatch",
        ParamError::NullGsu => "NullGsu",
        ParamError::MissingGet => "MissingGet",
        ParamError::MissingSet => "MissingSet",
        ParamError::MissingUnset => "MissingUnset",
    }
}

/// Count one failed check.
pub fn fail(failures: &mut usize)
    requires
        *old(failures) < usize::MAX,
    ensures
        *final(failures) == *old(failures) + 1,
{
    *failures += 1;
}

/// Record a check: a false condition counts as a failure.  Returns the
/// condition.
pub fn expect(condition: bool, failures: &mut usize) -> (r: bool)
    requires
        *old(failures) < usize::MAX,
    ensures
        r == condition,
        *final(failures) == (if condition { *old(failures) as int } else { *old(failures) + 1 }),
{
    if !condition {
        fail(failures);
    }
    condition
}

/// Record a check of a result: an error counts as a failure.  Returns the
/// value of a success.
pub fn expect_ok<T>(result: Result<T, ParamError>, failures: &mut usize) -> (r: Option<T>)
    requires
        *old(failures) < usize::MAX,
    ensures
        r == (match result {
            Ok(v) => Some(v),
            Err(_) => None,
        }),
        *final(failures) == (if result is Ok { *old(failures) as int } else { *old(failures) + 1 }),
{
    match result {
        Ok(value) => Some(value),
        Err(_) => {
            fail(failures);
            None
        },
    }
}

/// The exit status of a run of checks: 0 when none failed, 1 otherwise.
pub fn exit_status(failures: usize) -> (r: i32)
    ensures
        r == (if failures == 0 { 0i32 } else { 1i32 }),
{
    if failures == 0 {
        0
    } else {
        1
    }
}

} // verus!
