//! A non-null handle to a zsh parameter, and the checks the "safe-ish"
//! accessors make before they touch a parameter's get/set/unset table.
//!
//! The checks read a snapshot of the parameter node (`param`) and the shell's
//! current `locallevel`; the caller performs the call into zsh that a check
//! clears.
use vstd::prelude::*;
use crate::types::{c_int, c_char, Addr, FnAddr, NULL};
use crate::consts::{PM_READONLY, PM_REMOVABLE, PM_UNSET};
use crate::params::{param, pm_type};
use crate::param_kind::{kind_of_type, ParamError, ParamKind};

verus! {

/// The kind of a parameter node.
pub open spec fn kind_of(pm: param) -> ParamKind {
    kind_of_type(pm_type(pm.node.flags))
}

/// `Ok` when the node has the expected kind, else a mismatch naming both kinds.
pub open spec fn spec_ensure_kind(pm: param, expected: ParamKind) -> Result<(), ParamError> {
    if kind_of(pm) == expected {
        Ok(())
    } else {
        Err(ParamError::TypeMismatch { expected, found: kind_of(pm) })
    }
}

/// A read-only parameter may not be written at or below the level it belongs to.
pub open spec fn spec_ensure_writable(pm: param, locallevel: c_int) -> Result<(), ParamError> {
    if pm.has_flag(PM_READONLY) && pm.level <= locallevel {
        Err(ParamError::ReadOnly)
    } else {
        Ok(())
    }
}

/// The checks before zsh's `unsetparam_pm` may run: writable, and when the
/// parameter is set (or removable) its table must exist and have an unset
/// function.
pub open spec fn spec_ensure_can_call_unset(pm: param, locallevel: c_int) -> Result<(), ParamError> {
    if spec_ensure_writable(pm, locallevel) is Err {
        spec_ensure_writable(pm, locallevel)
    } else if !pm.has_flag(PM_UNSET) || pm.has_flag(PM_REMOVABLE) {
        if pm.gsu.ptr == NULL {
            Err(ParamError::NullGsu)
        } else if pm.gsu_entries.unsetfn is None {
            Err(ParamError::MissingUnset)
        } else {
            Ok(())
        }
    } else {
        Ok(())
    }
}

/// The table of a parameter of the expected kind: a kind mismatch first, then a
/// null table.
pub open spec fn spec_kind_gsu(pm: param, kind: ParamKind) -> Result<Addr, ParamError> {
    if spec_ensure_kind(pm, kind) is Err {
        Err(spec_ensure_kind(pm, kind)->Err_0)
    } else if pm.gsu.ptr == NULL {
        Err(ParamError::NullGsu)
    } else {
        Ok(pm.gsu.ptr)
    }
}

/// The get function a read of the given kind calls.
pub open spec fn spec_getter(pm: param, kind: ParamKind) -> Result<FnAddr, ParamError> {
    if spec_kind_gsu(pm, kind) is Err {
        Err(spec_kind_gsu(pm, kind)->Err_0)
    } else if pm.gsu_entries.getfn is None {
        Err(ParamError::MissingGet)
    } else {
        Ok(pm.gsu_entries.getfn->Some_0)
    }
}

/// The set function a write of the given kind calls: writability is checked
/// before the kind.
pub open spec fn spec_setter(pm: param, kind: ParamKind, locallevel: c_int) -> Result<
    FnAddr,
    ParamError,
> {
    if spec_ensure_writable(pm, locallevel) is Err {
        Err(ParamError::ReadOnly)
    } else if spec_kind_gsu(pm, kind) is Err {
        Err(spec_kind_gsu(pm, kind)->Err_0)
    } else if pm.gsu_entries.setfn is None {
        Err(ParamError::MissingSet)
    } else {
        Ok(pm.gsu_entries.setfn->Some_0)
    }
}

/// `k` is the position of the first NUL byte of `bytes`.
pub open spec fn first_nul(bytes: Seq<c_char>, k: int) -> bool {
    &&& 0 <= k < bytes.len()
    &&& bytes[k] == 0
    &&& forall|i: int| 0 <= i < k ==> bytes[i] != 0
}

/// The name buffer for a name whose terminator is at `k`: the name, then zeros
/// up to the buffer's length.
pub open spec fn padded_name(bytes: Seq<c_char>, k: int) -> Seq<c_char> {
    Seq::new(NAME_BUF_LEN as nat, |i: int| if i < k { bytes[i] } else { 0 as c_char })
}

/// Length of the stack buffer a parameter name is copied into before the
/// parameter is unset and recreated.
pub const NAME_BUF_LEN: usize = 256;

/// A lookup found a different parameter than the one at `addr`.
pub open spec fn hidden_by(visible: Option<ParamRef>, addr: Addr) -> bool {
    match visible {
        Some(v) => v@ != addr,
        None => false,
    }
}

/// How `lookup_direct` reaches the parameter table.
#[derive(Debug, Copy, Clone, PartialEq, Eq, Structural)]
pub enum LookupRoute {
    /// Read the real parameter table directly (`gethashnode2`).
    HashNode2,
    /// Call the table's node-lookup function at this address.
    Getter(FnAddr),
}

/// A non-null handle to a zsh `Param`.
///
/// zsh can still invalidate the parameter through other shell activity; the
/// accessors check the parameter's kind and table before touching it.
/// Methods that may remove or replace the parameter take `self` by value.
#[derive(Debug, Copy, Clone)]
pub struct ParamRef {
    ptr: Addr,
}

impl View for ParamRef {
    type V = Addr;

    closed spec fn view(&self) -> Addr {
        self.ptr
    }
}

impl ParamRef {
    #[verifier::type_invariant]
    spec fn non_null(self) -> bool {
        self.ptr != NULL
    }

    /// Wrap a raw `Param` address if it is non-null.
    #[inline]
    pub fn from_raw(ptr: Addr) -> (r: Option<Self>)
        ensures
            r is Some <==> ptr != NULL,
            r matches Some(p) ==> p@ == ptr,
    {
        if ptr == NULL {
            None
        } else {
            Some(ParamRef { ptr })
        }
    }

    /// The raw `Param` address; never null.
    #[inline]
    pub fn as_ptr(&self) -> (r: Addr)
        ensures
            r == self@,
            r != NULL,
    {
        proof {
            use_type_invariant(self);
        }
        self.ptr
    }

    /// How a lookup of `name` in the current table `tab` proceeds, given the
    /// real parameter table and the table's two lookup functions.  `None` when
    /// the table or the name is null, or the needed lookup function is missing.
    pub fn lookup_route(
        tab: Addr,
        realparamtab: Addr,
        name: Addr,
        direct: bool,
        getnode2: Option<FnAddr>,
        getnode: Option<FnAddr>,
    ) -> (r: Option<LookupRoute>)
        ensures
            r == (if tab == NULL || name == NULL {
                None
            } else if direct && tab == realparamtab {
                Some(LookupRoute::HashNode2)
            } else if direct {
                match getnode2 {
                    Some(f) => Some(LookupRoute::Getter(f)),
                    None => match getnode {
                        Some(f) => Some(LookupRoute::Getter(f)),
                        None => None,
                    },
                }
            } else {
                match getnode {
                    Some(f) => Some(LookupRoute::Getter(f)),
                    None => None,
                }
            }),
    {
        if tab == NULL || name == NULL {
            return None;
        }
        if direct && tab == realparamtab {
            Some(LookupRoute::HashNode2)
        } else if direct {
            let get = match getnode2 {
                Some(f) => Some(f),
                None => getnode,
            };
            match get {
                Some(f) => Some(LookupRoute::Getter(f)),
                None => None,
            }
        } else {
            match getnode {
                Some(f) => Some(LookupRoute::Getter(f)),
                None => None,
            }
        }
    }

    /// The name given to a name-based operation must not be null.
    #[inline]
    pub fn check_name(name: Addr) -> (r: Result<(), ParamError>)
        ensures
            r == (if name == NULL { Err(ParamError::NullName) } else { Ok(()) }),
    {
        if name == NULL {
            Err(ParamError::NullName)
        } else {
            Ok(())
        }
    }

    /// The handle for the node an assignment or creation returned; a null node
    /// means zsh refused.
    #[inline]
    pub fn from_assignment(ptr: Addr) -> (r: Result<Self, ParamError>)
        ensures
            r is Ok <==> ptr != NULL,
            r matches Ok(p) ==> p@ == ptr,
            r is Err ==> r == Err::<Self, ParamError>(ParamError::ZshRejected),
    {
        match Self::from_raw(ptr) {
            Some(p) => Ok(p),
            None => Err(ParamError::ZshRejected),
        }
    }

    /// The handle a by-name lookup found, or `NotFound`.
    #[inline]
    pub fn found(lookup: Option<Self>) -> (r: Result<Self, ParamError>)
        ensures
            r == (match lookup {
                Some(p) => Ok(p),
                None => Err(ParamError::NotFound),
            }),
    {
        match lookup {
            Some(p) => Ok(p),
            None => Err(ParamError::NotFound),
        }
    }

    /// zsh's status from `unsetparam_pm`: zero is success.
    #[inline]
    pub fn check_status(rc: c_int) -> (r: Result<(), ParamError>)
        ensures
            r == (if rc == 0 { Ok(()) } else { Err(ParamError::ZshRejected) }),
    {
        if rc == 0 {
            Ok(())
        } else {
            Err(ParamError::ZshRejected)
        }
    }

    /// The kind of the parameter this handle points at (`pm` is its node).
    #[inline]
    pub fn kind(&self, pm: &param) -> (r: ParamKind)
        ensures
            r == kind_of(*pm),
    {
        ParamKind::from_flags(pm.flags())
    }

    /// `Ok` when the parameter has the expected kind.
    #[inline]
    pub fn ensure_kind(&self, pm: &param, expected: ParamKind) -> (r: Result<(), ParamError>)
        ensures
            r == spec_ensure_kind(*pm, expected),
    {
        let found = self.kind(pm);
        if found == expected {
            Ok(())
        } else {
            Err(ParamError::TypeMismatch { expected, found })
        }
    }

    /// `Ok` unless the parameter is read-only at or below the current local level.
    #[inline]
    pub fn ensure_writable(&self, pm: &param, locallevel: c_int) -> (r: Result<(), ParamError>)
        ensures
            r == spec_ensure_writable(*pm, locallevel),
    {
        if pm.is_readonly() && pm.level <= locallevel {
            Err(ParamError::ReadOnly)
        } else {
            Ok(())
        }
    }

    /// `Ok` when zsh's `unsetparam_pm` may be called on the parameter.
    #[inline]
    pub fn ensure_can_call_unset(&self, pm: &param, locallevel: c_int) -> (r: Result<
        (),
        ParamError,
    >)
        ensures
            r == spec_ensure_can_call_unset(*pm, locallevel),
    {
        self.ensure_writable(pm, locallevel)?;
        if !pm.is_unset() || pm.is_removable() {
            if pm.gsu.ptr == NULL {
                return Err(ParamError::NullGsu);
            }
            if pm.gsu_entries.unsetfn.is_none() {
                return Err(ParamError::MissingUnset);
            }
        }
        Ok(())
    }

    /// The table of the parameter, which must have the given kind.
    #[inline]
    pub fn kind_gsu(&self, pm: &param, kind: ParamKind) -> (r: Result<Addr, ParamError>)
        ensures
            r == spec_kind_gsu(*pm, kind),
    {
        self.ensure_kind(pm, kind)?;
        if pm.gsu.ptr == NULL {
            Err(ParamError::NullGsu)
        } else {
            Ok(pm.gsu.ptr)
        }
    }

    /// The get function to call to read the current value of the given kind.
    #[inline]
    pub fn getter(&self, pm: &param, kind: ParamKind) -> (r: Result<FnAddr, ParamError>)
        ensures
            r == spec_getter(*pm, kind),
    {
        self.kind_gsu(pm, kind)?;
        match pm.gsu_entries.getfn {
            Some(f) => Ok(f),
            None => Err(ParamError::MissingGet),
        }
    }

    /// The set function to call to write the current value of the given kind.
    #[inline]
    pub fn setter(&self, pm: &param, kind: ParamKind, locallevel: c_int) -> (r: Result<
        FnAddr,
        ParamError,
    >)
        ensures
            r == spec_setter(*pm, kind, locallevel),
    {
        self.ensure_writable(pm, locallevel)?;
        self.kind_gsu(pm, kind)?;
        match pm.gsu_entries.setfn {
            Some(f) => Ok(f),
            None => Err(ParamError::MissingSet),
        }
    }

    /// The kind a numeric assignment writes: integers and floats take a number,
    /// any other kind is a mismatch reported against `Integer`.
    pub fn assign_number_kind(&self, pm: &param) -> (r: Result<ParamKind, ParamError>)
        ensures
            r == (if kind_of(*pm) == ParamKind::Integer || kind_of(*pm) == ParamKind::Float {
                Ok(kind_of(*pm))
            } else {
                Err(ParamError::TypeMismatch { expected: ParamKind::Integer, found: kind_of(*pm) })
            }),
    {
        let found = self.kind(pm);
        match found {
            ParamKind::Integer => Ok(found),
            ParamKind::Float => Ok(found),
            _ => Err(ParamError::TypeMismatch { expected: ParamKind::Integer, found }),
        }
    }

    /// The flags a type reset recreates the parameter with; `BadKind` for
    /// [`ParamKind::Other`].
    #[inline]
    pub fn reset_type_flags(kind: ParamKind) -> (r: Result<c_int, ParamError>)
        ensures
            r == (match kind.spec_reset_flags() {
                Some(f) => Ok(f),
                None => Err(ParamError::BadKind),
            }),
    {
        match kind.reset_flags() {
            Some(f) => Ok(f),
            None => Err(ParamError::BadKind),
        }
    }

    /// Copy a parameter name into the fixed buffer used while the parameter is
    /// unset and recreated.  `bytes` holds the name's bytes from its start (the
    /// terminator and anything after it may be included).  Names that do not
    /// fit together with their terminator are rejected.
    pub fn name_buffer(bytes: &Vec<c_char>) -> (r: Result<Vec<c_char>, ParamError>)
        ensures
            r is Ok <==> exists|k: int| k < NAME_BUF_LEN && #[trigger] first_nul(bytes@, k),
            forall|k: int|
                k < NAME_BUF_LEN && #[trigger] first_nul(bytes@, k) ==> (r matches Ok(buf)
                    && buf@ == padded_name(bytes@, k)),
            r is Err ==> r == Err::<Vec<c_char>, ParamError>(ParamError::ZshRejected),
    {
        let mut buf: Vec<c_char> = Vec::new();
        let mut idx: usize = 0;
        let mut terminated = false;
        while idx < NAME_BUF_LEN && idx < bytes.len()
            invariant_except_break
                !terminated,
            invariant
                idx <= NAME_BUF_LEN,
                idx <= bytes.len(),
                buf.len() == idx,
                forall|i: int| 0 <= i < idx ==> buf@[i] == bytes@[i],
                forall|i: int| 0 <= i < idx ==> bytes@[i] != 0,
            ensures
                terminated ==> first_nul(bytes@, idx as int) && buf.len() == idx && idx < NAME_BUF_LEN,
                !terminated ==> idx == NAME_BUF_LEN || idx == bytes.len(),
            decreases NAME_BUF_LEN - idx,
        {
            let ch = bytes[idx];
            if ch == 0 {
                terminated = true;
                break;
            }
            buf.push(ch);
            idx += 1;
        }
        if !terminated {
            proof {
                assert forall|k: int| k < NAME_BUF_LEN implies !first_nul(bytes@, k) by {
                    if first_nul(bytes@, k) {
                        assert(bytes@[k] != 0);
                    }
                }
            }
            return Err(ParamError::ZshRejected);
        }
        let ghost k = idx as int;
        while buf.len() < NAME_BUF_LEN
            invariant
                idx as int == k,
                first_nul(bytes@, k),
                k < NAME_BUF_LEN,
                k <= buf.len() <= NAME_BUF_LEN,
                forall|i: int| 0 <= i < k ==> buf@[i] == bytes@[i],
                forall|i: int| k <= i < buf.len() ==> buf@[i] == 0,
            decreases NAME_BUF_LEN - buf.len(),
        {
            buf.push(0);
        }
        proof {
            assert(buf@ =~= padded_name(bytes@, k));
            assert forall|j: int| j < NAME_BUF_LEN && #[trigger] first_nul(bytes@, j) implies j == k by {
                if j < k {
                    assert(bytes@[j] != 0);
                } else if j > k {
                    assert(bytes@[k] != 0);
                }
            }
        }
        Ok(buf)
    }

    /// The checks of a type reset before the parameter is unset, and the name
    /// buffer to recreate it under.  `visible` is what a direct lookup of the
    /// parameter's name finds; `name_bytes` holds the name's bytes.
    pub fn reset_prepare(
        &self,
        pm: &param,
        locallevel: c_int,
        visible: Option<Self>,
        name_bytes: &Vec<c_char>,
    ) -> (r: Result<Vec<c_char>, ParamError>)
        ensures
            spec_ensure_can_call_unset(*pm, locallevel) is Err ==> r == Err::<
                Vec<c_char>,
                ParamError,
            >(spec_ensure_can_call_unset(*pm, locallevel)->Err_0),
            spec_ensure_can_call_unset(*pm, locallevel) is Ok && pm.node.nam == NULL ==> r
                == Err::<Vec<c_char>, ParamError>(ParamError::NullName),
            spec_ensure_can_call_unset(*pm, locallevel) is Ok && pm.node.nam != NULL
                && hidden_by(visible, self@) ==> r == Err::<Vec<c_char>, ParamError>(
                ParamError::Hidden,
            ),
            spec_ensure_can_call_unset(*pm, locallevel) is Ok && pm.node.nam != NULL
                && !hidden_by(visible, self@) ==> {
                &&& (r is Ok <==> exists|k: int|
                    k < NAME_BUF_LEN && #[trigger] first_nul(name_bytes@, k))
                &&& forall|k: int|
                    k < NAME_BUF_LEN && #[trigger] first_nul(name_bytes@, k) ==> (r matches Ok(
                        buf) && buf@ == padded_name(name_bytes@, k))
                &&& r is Err ==> r == Err::<Vec<c_char>, ParamError>(ParamError::ZshRejected)
            },
    {
        self.ensure_can_call_unset(pm, locallevel)?;
        if pm.name() == NULL {
            return Err(ParamError::NullName);
        }
        if let Some(v) = visible {
            if v.as_ptr() != self.as_ptr() {
                return Err(ParamError::Hidden);
            }
        }
        Self::name_buffer(name_bytes)
    }
}

} // verus!
