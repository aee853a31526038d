//! Parameters: the `PM_TYPE` macro, the get/set/unset ("GSU") tables, module
//! parameter definitions (`paramdef`), parameter nodes (`param`) and
//! subscripted values (`value`).
use vstd::prelude::*;
use crate::types::{c_int, Addr, FnAddr, NULL};
use crate::consts::{
    PM_ARRAY, PM_DECLARED, PM_EFLOAT, PM_EXPORTED, PM_FFLOAT, PM_HASHED, PM_HIDE, PM_HIDEVAL,
    PM_INTEGER, PM_LOCAL, PM_NAMEREF, PM_READONLY, PM_REMOVABLE, PM_RESTRICTED, PM_SCALAR,
    PM_SPECIAL, PM_TIED, PM_TYPE_MASK, PM_UNSET, VALFLAG_EMPTY, VALFLAG_INV, VALFLAG_REFSLICE,
    VALFLAG_SUBST,
};
use crate::tables::hashnode;

verus! {

/// The type bits of a parameter's flags.
pub open spec fn pm_type(flags: c_int) -> c_int {
    flags & PM_TYPE_MASK
}

/// `PM_TYPE`: extract the parameter type from flags.
#[inline]
pub fn PM_TYPE(flags: c_int) -> (r: c_int)
    ensures
        r == pm_type(flags),
{
    flags & PM_TYPE_MASK
}

/// Type bits `t` lie within the union `u`: equal to it, or non-zero and all
/// contained in it.
pub open spec fn type_in_union(t: c_int, u: c_int) -> bool {
    t == u || (t != 0 && t & u == t)
}

/// The entries of a get/set/unset table.  Every kind of table has this layout;
/// only the types of the values passed to the functions differ.
#[derive(Clone, Copy, Debug)]
pub struct gsu_scalar {
    pub getfn: Option<FnAddr>,
    pub setfn: Option<FnAddr>,
    pub unsetfn: Option<FnAddr>,
}

/// Get/set/unset table of an integer parameter.
#[derive(Clone, Copy, Debug)]
pub struct gsu_integer {
    pub getfn: Option<FnAddr>,
    pub setfn: Option<FnAddr>,
    pub unsetfn: Option<FnAddr>,
}

/// Get/set/unset table of a floating-point parameter.
#[derive(Clone, Copy, Debug)]
pub struct gsu_float {
    pub getfn: Option<FnAddr>,
    pub setfn: Option<FnAddr>,
    pub unsetfn: Option<FnAddr>,
}

/// Get/set/unset table of an array parameter.
#[derive(Clone, Copy, Debug)]
pub struct gsu_array {
    pub getfn: Option<FnAddr>,
    pub setfn: Option<FnAddr>,
    pub unsetfn: Option<FnAddr>,
}

/// Get/set/unset table of an associative-array parameter.
#[derive(Clone, Copy, Debug)]
pub struct gsu_hash {
    pub getfn: Option<FnAddr>,
    pub setfn: Option<FnAddr>,
    pub unsetfn: Option<FnAddr>,
}

/// A table of no particular kind; it claims every type bit.
#[derive(Clone, Copy, Debug)]
pub struct gsu_untyped {}

/// A kind of get/set/unset table, identified by the type bits it serves.
pub trait GsuTable {
    /// The parameter type bits ("any of") this table serves.
    spec fn typeflag_union() -> c_int;

    /// The parameter type bits this table serves.
    fn PM_TYPEFLAG_UNION() -> (r: c_int)
        ensures
            r == Self::typeflag_union(),
    ;
}

impl GsuTable for gsu_array {
    open spec fn typeflag_union() -> c_int {
        PM_ARRAY
    }

    fn PM_TYPEFLAG_UNION() -> (r: c_int) {
        PM_ARRAY
    }
}

impl GsuTable for gsu_float {
    open spec fn typeflag_union() -> c_int {
        PM_EFLOAT | PM_FFLOAT
    }

    fn PM_TYPEFLAG_UNION() -> (r: c_int) {
        PM_EFLOAT | PM_FFLOAT
    }
}

impl GsuTable for gsu_hash {
    open spec fn typeflag_union() -> c_int {
        PM_HASHED
    }

    fn PM_TYPEFLAG_UNION() -> (r: c_int) {
        PM_HASHED
    }
}

impl GsuTable for gsu_integer {
    open spec fn typeflag_union() -> c_int {
        PM_INTEGER
    }

    fn PM_TYPEFLAG_UNION() -> (r: c_int) {
        PM_INTEGER
    }
}

impl GsuTable for gsu_scalar {
    open spec fn typeflag_union() -> c_int {
        PM_SCALAR
    }

    fn PM_TYPEFLAG_UNION() -> (r: c_int) {
        PM_SCALAR
    }
}

impl GsuTable for gsu_untyped {
    open spec fn typeflag_union() -> c_int {
        PM_TYPE_MASK
    }

    fn PM_TYPEFLAG_UNION() -> (r: c_int) {
        PM_TYPE_MASK
    }
}

/// The type bits of the five standard table kinds.
pub open spec fn is_standard_union(u: c_int) -> bool {
    ||| u == PM_ARRAY
    ||| u == (PM_EFLOAT | PM_FFLOAT)
    ||| u == PM_HASHED
    ||| u == PM_INTEGER
    ||| u == PM_SCALAR
}

/// The `gsu` union of a parameter.  Every member is a pointer to a table, so
/// the union is its address.
#[derive(Clone, Copy, Debug)]
pub struct param__bindgen_ty_2 {
    pub ptr: Addr,
}

impl param__bindgen_ty_2 {
    /// The table pointer is null.
    pub fn is_null(&self) -> (r: bool)
        ensures
            r == (self.ptr == NULL),
    {
        self.ptr == NULL
    }

    /// The table as seen through the member for `G`: its address when `G` is one
    /// of the standard kinds, null otherwise.
    pub open spec fn spec_table_for_type<G: GsuTable>(&self) -> Addr {
        if is_standard_union(G::typeflag_union()) {
            self.ptr
        } else {
            NULL
        }
    }

    /// Get the member of the union that corresponds to the table kind `G`.
    #[inline(always)]
    pub fn get_table_for_type<G: GsuTable>(&self) -> (r: Addr)
        ensures
            r == self.spec_table_for_type::<G>(),
    {
        let u = G::PM_TYPEFLAG_UNION();
        if u == PM_ARRAY {
            self.ptr
        } else if u == PM_EFLOAT | PM_FFLOAT {
            self.ptr
        } else if u == PM_HASHED {
            self.ptr
        } else if u == PM_INTEGER {
            self.ptr
        } else if u == PM_SCALAR {
            self.ptr
        } else {
            NULL
        }
    }
}

/// A parameter that a module declares in its feature table.
#[derive(Clone, Copy, Debug)]
pub struct paramdef {
    pub name: Addr,
    pub flags: c_int,
    pub var: Addr,
    pub gsu: Addr,
    pub getnfn: Option<FnAddr>,
    pub scantfn: Option<FnAddr>,
    pub pm: Addr,
}

impl paramdef {
    /// The definition `PARAMDEF` builds: no special hash functions, not linked.
    pub open spec fn spec_paramdef(name: Addr, flags: c_int, var: Addr, gsu: Addr) -> Self {
        paramdef { name, flags, var, gsu, getnfn: None, scantfn: None, pm: NULL }
    }

    /// The type bits of the definition's flags.
    #[inline(always)]
    pub fn PM_TYPE(&self) -> (r: c_int)
        ensures
            r == pm_type(self.flags),
    {
        PM_TYPE(self.flags)
    }

    /// `PARAMDEF`: a parameter backed by `var` with the table `gsu`, with no
    /// special hash properties.
    #[inline]
    pub fn PARAMDEF(name: Addr, flags: c_int, var: Addr, gsu: Addr) -> (r: Self)
        ensures
            r == Self::spec_paramdef(name, flags, var, gsu),
    {
        paramdef { name, flags, var, gsu, getnfn: None, scantfn: None, pm: NULL }
    }

    /// `PARAMDEF` with no table: zsh picks the standard one for the type.
    #[inline(always)]
    pub fn PARAMDEF_NOGSU(name: Addr, flags: c_int, var: Addr) -> (r: Self)
        ensures
            r == Self::spec_paramdef(name, flags, var, NULL),
    {
        Self::PARAMDEF(name, flags, var, NULL)
    }

    /// `INTPARAMDEF`: an integer parameter backed by the `zlong` at `var`.
    #[inline(always)]
    pub fn INTPARAMDEF(name: Addr, var: Addr) -> (r: Self)
        ensures
            r == Self::spec_paramdef(name, PM_INTEGER, var, NULL),
    {
        Self::PARAMDEF_NOGSU(name, PM_INTEGER, var)
    }

    /// `STRPARAMDEF`: a scalar parameter backed by the string at `var`.
    #[inline(always)]
    pub fn STRPARAMDEF(name: Addr, var: Addr) -> (r: Self)
        ensures
            r == Self::spec_paramdef(name, PM_SCALAR, var, NULL),
    {
        Self::PARAMDEF_NOGSU(name, PM_SCALAR, var)
    }

    /// `ARRPARAMDEF`: an array parameter backed by the array at `var`.
    #[inline(always)]
    pub fn ARRPARAMDEF(name: Addr, var: Addr) -> (r: Self)
        ensures
            r == Self::spec_paramdef(name, PM_ARRAY, var, NULL),
    {
        Self::PARAMDEF_NOGSU(name, PM_ARRAY, var)
    }

    /// `SPECIALPMDEF`: a special parameter with its own table and hash
    /// functions; it is marked special, hidden and value-hidden, and has no
    /// backing variable.
    #[inline(always)]
    pub fn SPECIALPMDEF(
        name: Addr,
        flags: c_int,
        gsufn: Addr,
        getnfn: Option<FnAddr>,
        scantfn: Option<FnAddr>,
    ) -> (r: Self)
        ensures
            r == (paramdef {
                name: name,
                flags: flags | PM_SPECIAL | PM_HIDE | PM_HIDEVAL,
                var: NULL,
                gsu: gsufn,
                getnfn: getnfn,
                scantfn: scantfn,
                pm: NULL,
            }),
    {
        paramdef {
            name,
            flags: flags | PM_SPECIAL | PM_HIDE | PM_HIDEVAL,
            var: NULL,
            gsu: gsufn,
            getnfn,
            scantfn,
            pm: NULL,
        }
    }

    /// The definition has been added to the parameter table.
    #[inline(always)]
    pub fn is_linked(&self) -> (r: bool)
        ensures
            r == (self.pm != NULL),
    {
        self.pm != NULL
    }
}

/// A parameter node, as far as the helpers read it.
#[derive(Clone, Copy, Debug)]
pub struct param {
    /// Hash node header: name and flags.
    pub node: hashnode,
    /// The get/set/unset table pointer.
    pub gsu: param__bindgen_ty_2,
    /// The entries of the table `gsu` points to (meaningful when it is not null).
    pub gsu_entries: gsu_scalar,
    /// The local level the parameter was created at.
    pub level: c_int,
}

impl param {
    /// The parameter's flags contain any bit of `flag`.
    pub open spec fn has_flag(&self, flag: c_int) -> bool {
        self.node.flags & flag != 0
    }

    #[inline(always)]
    fn flags_contains(&self, flag: c_int) -> (r: bool)
        ensures
            r == self.has_flag(flag),
    {
        self.flags() & flag != 0
    }

    /// Get the parameter type (`PM_SCALAR`, `PM_ARRAY`, `PM_INTEGER`, ...).
    #[inline]
    pub fn PM_TYPE(&self) -> (r: c_int)
        ensures
            r == pm_type(self.node.flags),
    {
        PM_TYPE(self.node.flags)
    }

    /// The type bits lie within the "any of" union of the table kind `G`: they
    /// equal it, or they are non-zero and every one of them is in it.
    pub open spec fn spec_has_type<G: GsuTable>(&self) -> bool {
        type_in_union(pm_type(self.node.flags), G::typeflag_union())
    }

    /// Returns `true` if the parameter's type is one the table kind `G` serves.
    pub fn has_type<G: GsuTable>(&self) -> (r: bool)
        ensures
            r == self.spec_has_type::<G>(),
    {
        let t = self.PM_TYPE();
        let u = G::PM_TYPEFLAG_UNION();
        t == u || (t != 0 && t & u == t)
    }

    /// Is this a nameref parameter?
    #[inline]
    pub fn is_nameref(&self) -> (r: bool)
        ensures
            r == (pm_type(self.node.flags) == PM_NAMEREF),
    {
        self.PM_TYPE() == PM_NAMEREF
    }

    /// Is this a special builtin parameter?
    #[inline]
    pub fn is_special(&self) -> (r: bool)
        ensures
            r == self.has_flag(PM_SPECIAL),
    {
        self.flags_contains(PM_SPECIAL)
    }

    /// Is this a readonly parameter?
    #[inline]
    pub fn is_readonly(&self) -> (r: bool)
        ensures
            r == self.has_flag(PM_READONLY),
    {
        self.flags_contains(PM_READONLY)
    }

    /// Is this an exported parameter?
    #[inline]
    pub fn is_exported(&self) -> (r: bool)
        ensures
            r == self.has_flag(PM_EXPORTED),
    {
        self.flags_contains(PM_EXPORTED)
    }

    /// Is this a local parameter?
    #[inline]
    pub fn is_local(&self) -> (r: bool)
        ensures
            r == self.has_flag(PM_LOCAL),
    {
        self.flags_contains(PM_LOCAL)
    }

    /// Has this parameter been unset?
    #[inline]
    pub fn is_unset(&self) -> (r: bool)
        ensures
            r == self.has_flag(PM_UNSET),
    {
        self.flags_contains(PM_UNSET)
    }

    /// Was this parameter explicitly declared with `typeset`?
    #[inline]
    pub fn is_declared(&self) -> (r: bool)
        ensures
            r == self.has_flag(PM_DECLARED),
    {
        self.flags_contains(PM_DECLARED)
    }

    /// Is this parameter tied to another?
    #[inline]
    pub fn is_tied(&self) -> (r: bool)
        ensures
            r == self.has_flag(PM_TIED),
    {
        self.flags_contains(PM_TIED)
    }

    /// Is this parameter restricted?
    #[inline]
    pub fn is_restricted(&self) -> (r: bool)
        ensures
            r == self.has_flag(PM_RESTRICTED),
    {
        self.flags_contains(PM_RESTRICTED)
    }

    /// May this special parameter be removed from the parameter table?
    #[inline]
    pub fn is_removable(&self) -> (r: bool)
        ensures
            r == self.has_flag(PM_REMOVABLE),
    {
        self.flags_contains(PM_REMOVABLE)
    }

    /// The table of kind `G` a standard accessor may use: none when the type
    /// bits are not exactly `G`'s or the table pointer is null.
    pub open spec fn spec_standard_gsu<G: GsuTable>(&self) -> Option<Addr> {
        if !self.spec_has_type::<G>() {
            None
        } else if self.gsu.spec_table_for_type::<G>() == NULL {
            None
        } else {
            Some(self.gsu.spec_table_for_type::<G>())
        }
    }

    /// The address of the parameter's table of kind `G`, if the parameter has
    /// that type and the table is present.
    #[inline(always)]
    pub fn deref_standard_gsu<G: GsuTable>(&self) -> (r: Option<Addr>)
        ensures
            r == self.spec_standard_gsu::<G>(),
    {
        if !self.has_type::<G>() {
            return None;
        }
        let nnp = self.gsu.get_table_for_type::<G>();
        if nnp == NULL {
            return None;
        }
        Some(nnp)
    }

    /// The parameter name.
    #[inline]
    pub fn name(&self) -> (r: Addr)
        ensures
            r == self.node.nam,
    {
        self.node.nam
    }

    /// The parameter flags.
    #[inline]
    pub fn flags(&self) -> (r: c_int)
        ensures
            r == self.node.flags,
    {
        self.node.flags
    }
}

/// A (possibly subscripted) parameter value, as far as the helpers read it.
#[derive(Clone, Copy, Debug)]
pub struct value {
    /// `VALFLAG_*` bits.
    pub valflags: c_int,
}

impl value {
    /// Is this an inverse subscript?
    #[inline]
    pub fn is_inverse(&self) -> (r: bool)
        ensures
            r == (self.valflags & VALFLAG_INV != 0),
    {
        self.valflags & VALFLAG_INV != 0
    }

    /// Is the subscripted range empty?
    #[inline]
    pub fn is_empty(&self) -> (r: bool)
        ensures
            r == (self.valflags & VALFLAG_EMPTY != 0),
    {
        self.valflags & VALFLAG_EMPTY != 0
    }

    /// Is this a reference slice?
    #[inline]
    pub fn is_refslice(&self) -> (r: bool)
        ensures
            r == (self.valflags & VALFLAG_REFSLICE != 0),
    {
        self.valflags & VALFLAG_REFSLICE != 0
    }

    /// Is this a substitution (apply padding, case flags)?
    #[inline]
    pub fn is_subst(&self) -> (r: bool)
        ensures
            r == (self.valflags & VALFLAG_SUBST != 0),
    {
        self.valflags & VALFLAG_SUBST != 0
    }
}

} // verus!
