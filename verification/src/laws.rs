//! Properties that relate several of the library's operations.
use vstd::prelude::*;
use crate::types::c_int;
use crate::consts::{
    BINF_PREFIX, PM_ARRAY, PM_EFLOAT, PM_FFLOAT, PM_HASHED, PM_HIDE, PM_HIDEVAL, PM_INTEGER, PM_NAMEREF,
    PM_READONLY, PM_REMOVABLE, PM_SCALAR, PM_SPECIAL, PM_TYPE_MASK, PM_UNSET,
};
use crate::types::FnAddr;
use crate::params::{
    param, param__bindgen_ty_2, pm_type, paramdef, GsuTable, gsu_array, gsu_float, gsu_hash,
    gsu_integer, gsu_scalar, gsu_untyped,
};
use crate::param_kind::{kind_of_type, ParamError, ParamKind};
use crate::param_ref::{
    kind_of, spec_ensure_can_call_unset, spec_ensure_writable, spec_getter, spec_setter,
};
use crate::syntax::REDIR;

verus! {

/// The type bits of type bits are the same type bits: `PM_TYPE` is idempotent,
/// so a kind read from flags equals the kind read from their type bits.
pub proof fn lemma_pm_type_idempotent(flags: c_int)
    ensures
        pm_type(pm_type(flags)) == pm_type(flags),
        kind_of_type(pm_type(pm_type(flags))) == kind_of_type(pm_type(flags)),
{
    assert((flags & PM_TYPE_MASK) & PM_TYPE_MASK == flags & PM_TYPE_MASK) by (bit_vector);
}

/// Resetting to a kind and reading the kind back gives the same kind: for
/// every kind but `Other`, the reset flags exist and their type bits name that
/// kind; `Other` has no reset flags.
pub proof fn lemma_reset_flags_roundtrip(kind: ParamKind)
    ensures
        kind is Other <==> kind.spec_reset_flags() is None,
        kind.spec_reset_flags() matches Some(f) ==> kind_of_type(pm_type(f)) == kind,
{
    assert(PM_SCALAR & PM_TYPE_MASK == PM_SCALAR) by (bit_vector);
    assert(PM_ARRAY & PM_TYPE_MASK == PM_ARRAY) by (bit_vector);
    assert(PM_INTEGER & PM_TYPE_MASK == PM_INTEGER) by (bit_vector);
    assert(PM_FFLOAT & PM_TYPE_MASK == PM_FFLOAT) by (bit_vector);
    assert(PM_HASHED & PM_TYPE_MASK == PM_HASHED) by (bit_vector);
    assert(PM_NAMEREF & PM_TYPE_MASK == PM_NAMEREF) by (bit_vector);
}

/// The variable-backed definitions declare the kind their name says:
/// `INTPARAMDEF` an integer, `STRPARAMDEF` a scalar, `ARRPARAMDEF` an array.
pub proof fn lemma_var_paramdef_kinds(name: usize, var: usize)
    ensures
        kind_of_type(pm_type(paramdef::spec_paramdef(name, PM_INTEGER, var, 0).flags))
            == ParamKind::Integer,
        kind_of_type(pm_type(paramdef::spec_paramdef(name, PM_SCALAR, var, 0).flags))
            == ParamKind::Scalar,
        kind_of_type(pm_type(paramdef::spec_paramdef(name, PM_ARRAY, var, 0).flags))
            == ParamKind::Array,
{
    assert(PM_SCALAR & PM_TYPE_MASK == PM_SCALAR) by (bit_vector);
    assert(PM_ARRAY & PM_TYPE_MASK == PM_ARRAY) by (bit_vector);
    assert(PM_INTEGER & PM_TYPE_MASK == PM_INTEGER) by (bit_vector);
}

/// `SPECIALPMDEF` marks the definition special, hidden and value-hidden
/// without changing its type bits.
pub proof fn lemma_specialpmdef_flags(flags: c_int)
    ensures
        pm_type(flags | PM_SPECIAL | PM_HIDE | PM_HIDEVAL) == pm_type(flags),
        (flags | PM_SPECIAL | PM_HIDE | PM_HIDEVAL) & PM_SPECIAL != 0,
        (flags | PM_SPECIAL | PM_HIDE | PM_HIDEVAL) & PM_HIDE != 0,
        (flags | PM_SPECIAL | PM_HIDE | PM_HIDEVAL) & PM_HIDEVAL != 0,
{
    assert((flags | PM_SPECIAL | PM_HIDE | PM_HIDEVAL) & PM_TYPE_MASK == flags & PM_TYPE_MASK)
        by (bit_vector);
    assert((flags | PM_SPECIAL | PM_HIDE | PM_HIDEVAL) & PM_SPECIAL != 0) by (bit_vector);
    assert((flags | PM_SPECIAL | PM_HIDE | PM_HIDEVAL) & PM_HIDE != 0) by (bit_vector);
    assert((flags | PM_SPECIAL | PM_HIDE | PM_HIDEVAL) & PM_HIDEVAL != 0) by (bit_vector);
}

/// A precommand modifier always carries `BINF_PREFIX`.
pub proof fn lemma_bin_prefix_flag(flags: c_int)
    ensures
        (flags | BINF_PREFIX) & BINF_PREFIX != 0,
{
    assert((flags | BINF_PREFIX) & BINF_PREFIX != 0) by (bit_vector);
}

/// The file-writing redirections are the output forms (`>`, `>|`, `>>`,
/// `>>|`), their error forms and `<>`.  Among them the append bit marks exactly
/// the `>>` forms and the clobber bit exactly the `|` forms; every error
/// redirection writes a file.
pub proof fn lemma_redir_classes(r: REDIR)
    ensures
        r.writes_file() <==> (r.code() <= 8),
        (r.writes_file() && (r.code() & 2) != 0) <==> (r == REDIR::REDIR_APP || r
            == REDIR::REDIR_APPNOW || r == REDIR::REDIR_ERRAPP || r == REDIR::REDIR_ERRAPPNOW),
        (r.writes_file() && (r.code() & 1) != 0) <==> (r == REDIR::REDIR_WRITENOW || r
            == REDIR::REDIR_APPNOW || r == REDIR::REDIR_ERRWRITENOW || r
            == REDIR::REDIR_ERRAPPNOW),
        r.spec_between(REDIR::REDIR_ERRWRITE, REDIR::REDIR_ERRAPPNOW) ==> r.writes_file(),
{
    assert(0i32 & 2 == 0 && 1i32 & 2 == 0 && 2i32 & 2 != 0 && 3i32 & 2 != 0) by (bit_vector);
    assert(4i32 & 2 == 0 && 5i32 & 2 == 0 && 6i32 & 2 != 0 && 7i32 & 2 != 0 && 8i32 & 2 == 0)
        by (bit_vector);
    assert(0i32 & 1 == 0 && 1i32 & 1 != 0 && 2i32 & 1 == 0 && 3i32 & 1 != 0) by (bit_vector);
    assert(4i32 & 1 == 0 && 5i32 & 1 != 0 && 6i32 & 1 == 0 && 7i32 & 1 != 0 && 8i32 & 1 == 0)
        by (bit_vector);
}

/// A read never succeeds on a parameter of another kind: it reports the
/// expected and the found kind.  A successful read had the kind, a table and a
/// get function.
pub proof fn lemma_getter_checks_kind(pm: param, kind: ParamKind)
    ensures
        kind_of(pm) != kind ==> spec_getter(pm, kind) == Err::<usize, ParamError>(
            ParamError::TypeMismatch { expected: kind, found: kind_of(pm) },
        ),
        spec_getter(pm, kind) is Ok ==> {
            &&& kind_of(pm) == kind
            &&& pm.gsu.ptr != 0
            &&& pm.gsu_entries.getfn == Some(spec_getter(pm, kind)->Ok_0)
        },
{
}

/// A write never succeeds on a read-only parameter at or below its level
/// (that refusal comes first), nor on a parameter of another kind.
pub proof fn lemma_setter_checks(pm: param, kind: ParamKind, locallevel: c_int)
    ensures
        pm.node.flags & PM_READONLY != 0 && pm.level <= locallevel ==> spec_setter(
            pm,
            kind,
            locallevel,
        ) == Err::<usize, ParamError>(ParamError::ReadOnly),
        spec_ensure_writable(pm, locallevel) is Ok && kind_of(pm) != kind ==> spec_setter(
            pm,
            kind,
            locallevel,
        ) == Err::<usize, ParamError>(
            ParamError::TypeMismatch { expected: kind, found: kind_of(pm) },
        ),
        spec_setter(pm, kind, locallevel) is Ok ==> {
            &&& spec_ensure_writable(pm, locallevel) is Ok
            &&& kind_of(pm) == kind
            &&& pm.gsu.ptr != 0
            &&& pm.gsu_entries.setfn == Some(spec_setter(pm, kind, locallevel)->Ok_0)
        },
{
}

/// A parameter that may be unset is writable, and if it is set it has a table
/// with an unset function.
pub proof fn lemma_unset_checks(pm: param, locallevel: c_int)
    ensures
        spec_ensure_can_call_unset(pm, locallevel) is Ok ==> spec_ensure_writable(pm, locallevel) is Ok,
        spec_ensure_can_call_unset(pm, locallevel) is Ok && pm.node.flags & crate::consts::PM_UNSET
            == 0 ==> pm.gsu.ptr != 0 && pm.gsu_entries.unsetfn is Some,
{
}

/// The standard table of kind `G` is only handed out for a parameter whose
/// type bits are exactly `G`'s, and it is never null.
pub proof fn lemma_standard_gsu_typed<G: GsuTable>(pm: param)
    ensures
        pm.spec_standard_gsu::<G>() matches Some(t) ==> pm.spec_has_type::<G>() && t != 0,
{
}

/// Each standard table kind serves exactly the parameters of its kind: the
/// float table both float kinds (`PM_EFLOAT`, `PM_FFLOAT`), and each other
/// table the single type its union names.
pub proof fn lemma_table_kinds(pm: param)
    ensures
        pm.spec_has_type::<gsu_float>() <==> (pm_type(pm.node.flags) == PM_EFLOAT || pm_type(
            pm.node.flags,
        ) == PM_FFLOAT || pm_type(pm.node.flags) == (PM_EFLOAT | PM_FFLOAT)),
        pm.spec_has_type::<gsu_float>() <==> (kind_of(pm) == ParamKind::Float || pm_type(
            pm.node.flags,
        ) == (PM_EFLOAT | PM_FFLOAT)),
        pm.spec_has_type::<gsu_integer>() <==> kind_of(pm) == ParamKind::Integer,
        pm.spec_has_type::<gsu_scalar>() <==> kind_of(pm) == ParamKind::Scalar,
        pm.spec_has_type::<gsu_array>() <==> kind_of(pm) == ParamKind::Array,
        pm.spec_has_type::<gsu_hash>() <==> kind_of(pm) == ParamKind::Hash,
{
    let t = pm_type(pm.node.flags);
    assert((t != 0 && t & 12i32 == t) <==> (t == 4 || t == 8 || t == 12)) by (bit_vector);
    assert((t != 0 && t & 2i32 == t) <==> t == 2) by (bit_vector);
    assert((t != 0 && t & 1i32 == t) <==> t == 1) by (bit_vector);
    assert((t != 0 && t & 16i32 == t) <==> t == 16) by (bit_vector);
    assert(!(t != 0 && t & 0i32 == t)) by (bit_vector);
    assert(PM_EFLOAT | PM_FFLOAT == 12) by (bit_vector);
}

/// A read through a handle succeeds exactly when the parameter has the
/// requested kind, a table and a get function, and then it calls that get
/// function; no other flag (read-only, exported, unset, special, ...) stops a
/// read.  Each refusal names the first check that failed: a kind mismatch
/// (with both kinds), a null table, a missing get function.
pub proof fn lemma_read_checks(pm: param, kind: ParamKind, f: FnAddr)
    ensures
        kind_of(pm) == kind && pm.gsu.ptr != 0 && pm.gsu_entries.getfn == Some(f) ==> spec_getter(
            pm,
            kind,
        ) == Ok::<FnAddr, ParamError>(f),
        kind_of(pm) != kind ==> spec_getter(pm, kind) == Err::<FnAddr, ParamError>(
            ParamError::TypeMismatch { expected: kind, found: kind_of(pm) },
        ),
        kind_of(pm) == kind && pm.gsu.ptr == 0 ==> spec_getter(pm, kind) == Err::<
            FnAddr,
            ParamError,
        >(ParamError::NullGsu),
        kind_of(pm) == kind && pm.gsu.ptr != 0 && pm.gsu_entries.getfn is None ==> spec_getter(
            pm,
            kind,
        ) == Err::<FnAddr, ParamError>(ParamError::MissingGet),
{
}

/// A write through a handle succeeds exactly when the parameter is not
/// read-only at or below the current local level, has the requested kind, a
/// table and a set function, and then it calls that set function.  `ReadOnly`
/// is reported exactly for a read-only parameter at or below the current
/// level (whatever else is wrong with it); the other refusals name the first
/// failed check after that.
pub proof fn lemma_write_checks(pm: param, kind: ParamKind, locallevel: c_int, f: FnAddr)
    ensures
        !(pm.node.flags & PM_READONLY != 0 && pm.level <= locallevel) && kind_of(pm) == kind
            && pm.gsu.ptr != 0 && pm.gsu_entries.setfn == Some(f) ==> spec_setter(
            pm,
            kind,
            locallevel,
        ) == Ok::<FnAddr, ParamError>(f),
        (spec_setter(pm, kind, locallevel) == Err::<FnAddr, ParamError>(ParamError::ReadOnly)) <==> (
        pm.node.flags & PM_READONLY != 0 && pm.level <= locallevel),
        !(pm.node.flags & PM_READONLY != 0 && pm.level <= locallevel) && kind_of(pm) != kind
            ==> spec_setter(pm, kind, locallevel) == Err::<FnAddr, ParamError>(
            ParamError::TypeMismatch { expected: kind, found: kind_of(pm) },
        ),
        !(pm.node.flags & PM_READONLY != 0 && pm.level <= locallevel) && kind_of(pm) == kind
            && pm.gsu.ptr == 0 ==> spec_setter(pm, kind, locallevel) == Err::<FnAddr, ParamError>(
            ParamError::NullGsu,
        ),
        !(pm.node.flags & PM_READONLY != 0 && pm.level <= locallevel) && kind_of(pm) == kind
            && pm.gsu.ptr != 0 && pm.gsu_entries.setfn is None ==> spec_setter(
            pm,
            kind,
            locallevel,
        ) == Err::<FnAddr, ParamError>(ParamError::MissingSet),
{
}

/// Unsetting through a handle is allowed for a writable parameter of any kind
/// that has a table with an unset function, and for a writable parameter that
/// is already unset and not removable whatever its table.  `ReadOnly` is
/// reported exactly for a read-only parameter at or below the current level;
/// a set (or removable) writable parameter is refused for a null table, then
/// for a missing unset function.
pub proof fn lemma_unset_allowed(pm: param, locallevel: c_int)
    ensures
        !(pm.node.flags & PM_READONLY != 0 && pm.level <= locallevel) && pm.gsu.ptr != 0
            && pm.gsu_entries.unsetfn is Some ==> spec_ensure_can_call_unset(pm, locallevel) == Ok::<
            (),
            ParamError,
        >(()),
        !(pm.node.flags & PM_READONLY != 0 && pm.level <= locallevel) && pm.node.flags & PM_UNSET
            != 0 && pm.node.flags & PM_REMOVABLE == 0 ==> spec_ensure_can_call_unset(pm, locallevel)
            == Ok::<(), ParamError>(()),
        (spec_ensure_can_call_unset(pm, locallevel) == Err::<(), ParamError>(ParamError::ReadOnly))
            <==> (pm.node.flags & PM_READONLY != 0 && pm.level <= locallevel),
        !(pm.node.flags & PM_READONLY != 0 && pm.level <= locallevel) && (pm.node.flags & PM_UNSET
            == 0 || pm.node.flags & PM_REMOVABLE != 0) && pm.gsu.ptr == 0
            ==> spec_ensure_can_call_unset(pm, locallevel) == Err::<(), ParamError>(
            ParamError::NullGsu,
        ),
        !(pm.node.flags & PM_READONLY != 0 && pm.level <= locallevel) && (pm.node.flags & PM_UNSET
            == 0 || pm.node.flags & PM_REMOVABLE != 0) && pm.gsu.ptr != 0
            && pm.gsu_entries.unsetfn is None ==> spec_ensure_can_call_unset(pm, locallevel)
            == Err::<(), ParamError>(ParamError::MissingUnset),
{
}

/// Every standard table kind sees the union's own pointer through its member;
/// only a table of no particular kind sees null.  So a parameter of a
/// standard kind with a non-null table pointer `p` reaches `p` through the
/// table of its kind.
pub proof fn lemma_standard_tables_reach_pointer(t: param__bindgen_ty_2, pm: param)
    ensures
        t.spec_table_for_type::<gsu_array>() == t.ptr,
        t.spec_table_for_type::<gsu_float>() == t.ptr,
        t.spec_table_for_type::<gsu_hash>() == t.ptr,
        t.spec_table_for_type::<gsu_integer>() == t.ptr,
        t.spec_table_for_type::<gsu_scalar>() == t.ptr,
        t.spec_table_for_type::<gsu_untyped>() == 0,
        pm.gsu.ptr != 0 && kind_of(pm) == ParamKind::Array ==> pm.spec_standard_gsu::<gsu_array>()
            == Some(pm.gsu.ptr),
        pm.gsu.ptr != 0 && kind_of(pm) == ParamKind::Float ==> pm.spec_standard_gsu::<gsu_float>()
            == Some(pm.gsu.ptr),
        pm.gsu.ptr != 0 && kind_of(pm) == ParamKind::Hash ==> pm.spec_standard_gsu::<gsu_hash>()
            == Some(pm.gsu.ptr),
        pm.gsu.ptr != 0 && kind_of(pm) == ParamKind::Integer
            ==> pm.spec_standard_gsu::<gsu_integer>() == Some(pm.gsu.ptr),
        pm.gsu.ptr != 0 && kind_of(pm) == ParamKind::Scalar
            ==> pm.spec_standard_gsu::<gsu_scalar>() == Some(pm.gsu.ptr),
{
    assert(PM_EFLOAT | PM_FFLOAT == 12) by (bit_vector);
    assert(PM_TYPE_MASK == 0x4000_001f);
    lemma_table_kinds(pm);
}

} // verus!
