use zsh_sys::consts::{
    PM_ARRAY, PM_EFLOAT, PM_EXPORTED, PM_FFLOAT, PM_HASHED, PM_HIDE, PM_HIDEVAL, PM_INTEGER,
    PM_LOCAL, PM_NAMEREF, PM_READONLY, PM_REMOVABLE, PM_SCALAR, PM_SPECIAL, PM_UNSET,
    VALFLAG_EMPTY, VALFLAG_INV,
};
use zsh_sys::param_kind::{ParamError, ParamKind};
use zsh_sys::param_ref::{LookupRoute, ParamRef};
use zsh_sys::params::{
    gsu_array, gsu_float, gsu_hash, gsu_integer, gsu_scalar, gsu_untyped, param,
    param__bindgen_ty_2, paramdef, value, PM_TYPE,
};
use zsh_sys::tables::hashnode;

fn node(flags: i32) -> param {
    param {
        node: hashnode { next: 0, nam: 0x1000, flags },
        gsu: param__bindgen_ty_2 { ptr: 0x2000 },
        gsu_entries: gsu_scalar { getfn: Some(0x3000), setfn: Some(0x3100), unsetfn: Some(0x3200) },
        level: 1,
    }
}

#[test]
fn pm_type_keeps_only_type_bits() {
    assert_eq!(PM_TYPE(PM_INTEGER | PM_READONLY | PM_EXPORTED), PM_INTEGER);
    assert_eq!(PM_TYPE(PM_SCALAR | PM_SPECIAL), PM_SCALAR);
    assert_eq!(PM_TYPE(PM_NAMEREF | PM_LOCAL), PM_NAMEREF);
    assert_eq!(PM_TYPE(PM_TYPE(-1)), PM_TYPE(-1));
}

#[test]
fn kind_from_flags() {
    assert_eq!(ParamKind::from_flags(PM_SCALAR | PM_EXPORTED), ParamKind::Scalar);
    assert_eq!(ParamKind::from_flags(PM_ARRAY), ParamKind::Array);
    assert_eq!(ParamKind::from_flags(PM_INTEGER | PM_READONLY), ParamKind::Integer);
    assert_eq!(ParamKind::from_flags(PM_EFLOAT), ParamKind::Float);
    assert_eq!(ParamKind::from_flags(PM_FFLOAT), ParamKind::Float);
    assert_eq!(ParamKind::from_flags(PM_HASHED), ParamKind::Hash);
    assert_eq!(ParamKind::from_flags(PM_NAMEREF), ParamKind::Nameref);
    assert_eq!(ParamKind::from_flags(PM_EFLOAT | PM_FFLOAT), ParamKind::Other(12));
    assert_eq!(ParamKind::from_flags(PM_ARRAY | PM_HASHED), ParamKind::Other(17));
}

#[test]
fn kind_reset_flags_roundtrip() {
    for kind in [
        ParamKind::Scalar,
        ParamKind::Array,
        ParamKind::Integer,
        ParamKind::Float,
        ParamKind::Hash,
        ParamKind::Nameref,
    ] {
        let flags = kind.reset_flags().unwrap();
        assert_eq!(ParamKind::from_flags(flags), kind);
    }
    assert_eq!(ParamKind::Float.reset_flags(), Some(PM_FFLOAT));
    assert_eq!(ParamKind::Other(3).reset_flags(), None);
    assert_eq!(ParamRef::reset_type_flags(ParamKind::Other(3)), Err(ParamError::BadKind));
    assert_eq!(ParamRef::reset_type_flags(ParamKind::Hash), Ok(PM_HASHED));
}

#[test]
fn kind_and_error_messages() {
    assert_eq!(ParamKind::Scalar.message(), "scalar parameter");
    assert_eq!(ParamKind::Other(9).str(), "unknown parameter kind");
    assert_eq!(ParamKind::Nameref.str(), ParamKind::Nameref.message());
    assert_eq!(ParamError::NullName.message(), "parameter name is null");
    assert_eq!(
        ParamError::TypeMismatch { expected: ParamKind::Array, found: ParamKind::Hash }.str(),
        "parameter type mismatch"
    );
    assert_eq!(ParamError::MissingUnset.str(), "parameter GSU table has no unset function");
}

#[test]
fn param_flag_predicates() {
    let pm = node(PM_INTEGER | PM_READONLY | PM_SPECIAL | PM_UNSET);
    assert_eq!(pm.PM_TYPE(), PM_INTEGER);
    assert!(pm.is_readonly());
    assert!(pm.is_special());
    assert!(pm.is_unset());
    assert!(!pm.is_exported());
    assert!(!pm.is_local());
    assert!(!pm.is_removable());
    assert!(!pm.is_nameref());
    assert_eq!(pm.name(), 0x1000);
    assert_eq!(pm.flags(), PM_INTEGER | PM_READONLY | PM_SPECIAL | PM_UNSET);
    assert!(node(PM_NAMEREF).is_nameref());
}

#[test]
fn standard_gsu_by_kind() {
    let pm = node(PM_INTEGER);
    assert!(pm.has_type::<gsu_integer>());
    assert!(!pm.has_type::<gsu_scalar>());
    assert_eq!(pm.deref_standard_gsu::<gsu_integer>(), Some(0x2000));
    assert_eq!(pm.deref_standard_gsu::<gsu_array>(), None);
    // The float table serves parameters with either float bit.
    assert!(node(PM_FFLOAT).has_type::<gsu_float>());
    assert!(node(PM_EFLOAT).has_type::<gsu_float>());
    assert!(!node(PM_INTEGER).has_type::<gsu_float>());
    assert!(!node(PM_SCALAR).has_type::<gsu_float>());
    assert_eq!(node(PM_FFLOAT).deref_standard_gsu::<gsu_float>(), Some(0x2000));
    assert_eq!(node(PM_EFLOAT).deref_standard_gsu::<gsu_float>(), Some(0x2000));
    assert!(node(PM_SCALAR).has_type::<gsu_scalar>());
    assert!(!node(PM_ARRAY).has_type::<gsu_scalar>());
    assert!(node(PM_HASHED).has_type::<gsu_untyped>());
    assert!(!node(PM_SCALAR).has_type::<gsu_untyped>());
    let mut nulltab = node(PM_HASHED);
    nulltab.gsu.ptr = 0;
    assert_eq!(nulltab.deref_standard_gsu::<gsu_hash>(), None);
    assert!(nulltab.gsu.is_null());
    assert_eq!(pm.gsu.get_table_for_type::<gsu_untyped>(), 0);
    assert_eq!(pm.gsu.get_table_for_type::<gsu_scalar>(), 0x2000);
}

#[test]
fn paramdef_constructors() {
    let d = paramdef::INTPARAMDEF(0x10, 0x20);
    assert_eq!(d.flags, PM_INTEGER);
    assert_eq!(d.var, 0x20);
    assert_eq!(d.gsu, 0);
    assert!(!d.is_linked());
    assert_eq!(paramdef::STRPARAMDEF(1, 2).PM_TYPE(), PM_SCALAR);
    assert_eq!(paramdef::ARRPARAMDEF(1, 2).PM_TYPE(), PM_ARRAY);
    let s = paramdef::SPECIALPMDEF(0x10, PM_HASHED, 0x30, Some(0x40), None);
    assert_eq!(s.flags, PM_HASHED | PM_SPECIAL | PM_HIDE | PM_HIDEVAL);
    assert_eq!(s.PM_TYPE(), PM_HASHED);
    assert_eq!(s.var, 0);
    assert_eq!(s.getnfn, Some(0x40));
    let mut linked = paramdef::PARAMDEF(1, PM_ARRAY, 2, 3);
    linked.pm = 0x99;
    assert!(linked.is_linked());
}

#[test]
fn value_flags() {
    let v = value { valflags: VALFLAG_INV | VALFLAG_EMPTY };
    assert!(v.is_inverse());
    assert!(v.is_empty());
    assert!(!v.is_refslice());
    assert!(!v.is_subst());
}

#[test]
fn paramref_handles() {
    assert!(ParamRef::from_raw(0).is_none());
    assert_eq!(ParamRef::from_raw(0x1234).unwrap().as_ptr(), 0x1234);
    assert_eq!(ParamRef::check_name(0), Err(ParamError::NullName));
    assert_eq!(ParamRef::check_name(5), Ok(()));
    assert_eq!(ParamRef::from_assignment(0).err(), Some(ParamError::ZshRejected));
    assert_eq!(ParamRef::from_assignment(0x40).unwrap().as_ptr(), 0x40);
    assert_eq!(ParamRef::found(None).err(), Some(ParamError::NotFound));
    assert_eq!(ParamRef::check_status(0), Ok(()));
    assert_eq!(ParamRef::check_status(1), Err(ParamError::ZshRejected));
}

#[test]
fn lookup_routes() {
    assert_eq!(ParamRef::lookup_route(0, 0x10, 0x20, true, Some(1), Some(2)), None);
    assert_eq!(ParamRef::lookup_route(0x10, 0x10, 0, true, Some(1), Some(2)), None);
    assert_eq!(
        ParamRef::lookup_route(0x10, 0x10, 0x20, true, Some(1), Some(2)),
        Some(LookupRoute::HashNode2)
    );
    assert_eq!(
        ParamRef::lookup_route(0x11, 0x10, 0x20, true, Some(1), Some(2)),
        Some(LookupRoute::Getter(1))
    );
    assert_eq!(
        ParamRef::lookup_route(0x11, 0x10, 0x20, true, None, Some(2)),
        Some(LookupRoute::Getter(2))
    );
    assert_eq!(
        ParamRef::lookup_route(0x10, 0x10, 0x20, false, Some(1), Some(2)),
        Some(LookupRoute::Getter(2))
    );
    assert_eq!(ParamRef::lookup_route(0x10, 0x10, 0x20, false, Some(1), None), None);
}

#[test]
fn accessors_check_kind_and_table() {
    let h = ParamRef::from_raw(0x500).unwrap();
    let pm = node(PM_SCALAR);
    assert_eq!(h.kind(&pm), ParamKind::Scalar);
    assert_eq!(h.getter(&pm, ParamKind::Scalar), Ok(0x3000));
    assert_eq!(
        h.getter(&pm, ParamKind::Integer),
        Err(ParamError::TypeMismatch { expected: ParamKind::Integer, found: ParamKind::Scalar })
    );
    let mut nogsu = pm;
    nogsu.gsu.ptr = 0;
    assert_eq!(h.getter(&nogsu, ParamKind::Scalar), Err(ParamError::NullGsu));
    let mut noget = pm;
    noget.gsu_entries.getfn = None;
    assert_eq!(h.getter(&noget, ParamKind::Scalar), Err(ParamError::MissingGet));
    let mut noset = pm;
    noset.gsu_entries.setfn = None;
    assert_eq!(h.setter(&noset, ParamKind::Scalar, 0), Err(ParamError::MissingSet));
    assert_eq!(h.setter(&pm, ParamKind::Scalar, 0), Ok(0x3100));
    assert_eq!(h.kind_gsu(&pm, ParamKind::Scalar), Ok(0x2000));
}

#[test]
fn readonly_refused_at_or_below_its_level() {
    let h = ParamRef::from_raw(0x500).unwrap();
    let pm = node(PM_INTEGER | PM_READONLY);
    assert_eq!(h.ensure_writable(&pm, 1), Err(ParamError::ReadOnly));
    assert_eq!(h.ensure_writable(&pm, 0), Ok(()));
    assert_eq!(h.setter(&pm, ParamKind::Integer, 3), Err(ParamError::ReadOnly));
    // Read-only is reported before a kind mismatch.
    assert_eq!(h.setter(&pm, ParamKind::Scalar, 3), Err(ParamError::ReadOnly));
    assert_eq!(h.setter(&pm, ParamKind::Integer, 0), Ok(0x3100));
}

#[test]
fn unset_checks() {
    let h = ParamRef::from_raw(0x500).unwrap();
    let mut pm = node(PM_SCALAR);
    assert_eq!(h.ensure_can_call_unset(&pm, 0), Ok(()));
    pm.gsu_entries.unsetfn = None;
    assert_eq!(h.ensure_can_call_unset(&pm, 0), Err(ParamError::MissingUnset));
    pm.gsu.ptr = 0;
    assert_eq!(h.ensure_can_call_unset(&pm, 0), Err(ParamError::NullGsu));
    // An unset, non-removable parameter needs no table.
    let mut unset = pm;
    unset.node.flags = PM_SCALAR | PM_UNSET;
    assert_eq!(h.ensure_can_call_unset(&unset, 0), Ok(()));
    unset.node.flags = PM_SCALAR | PM_UNSET | PM_REMOVABLE;
    assert_eq!(h.ensure_can_call_unset(&unset, 0), Err(ParamError::NullGsu));
    let ro = node(PM_SCALAR | PM_READONLY);
    assert_eq!(h.ensure_can_call_unset(&ro, 5), Err(ParamError::ReadOnly));
}

#[test]
fn assign_number_kinds() {
    let h = ParamRef::from_raw(0x500).unwrap();
    assert_eq!(h.assign_number_kind(&node(PM_INTEGER)), Ok(ParamKind::Integer));
    assert_eq!(h.assign_number_kind(&node(PM_EFLOAT)), Ok(ParamKind::Float));
    assert_eq!(
        h.assign_number_kind(&node(PM_ARRAY)),
        Err(ParamError::TypeMismatch { expected: ParamKind::Integer, found: ParamKind::Array })
    );
}

#[test]
fn name_buffer_accepts_short_names() {
    let name: Vec<i8> = b"VLK_PARAMTEST_SCALAR\0junk".iter().map(|b| *b as i8).collect();
    let buf = ParamRef::name_buffer(&name).unwrap();
    assert_eq!(buf.len(), 256);
    assert_eq!(&buf[..20], &name[..20]);
    assert!(buf[20..].iter().all(|b| *b == 0));
}

#[test]
fn name_buffer_limits() {
    let mut longest: Vec<i8> = vec![b'a' as i8; 255];
    longest.push(0);
    assert!(ParamRef::name_buffer(&longest).is_ok());
    let mut too_long: Vec<i8> = vec![b'a' as i8; 256];
    too_long.push(0);
    assert_eq!(ParamRef::name_buffer(&too_long), Err(ParamError::ZshRejected));
    let unterminated: Vec<i8> = vec![b'a' as i8; 10];
    assert_eq!(ParamRef::name_buffer(&unterminated), Err(ParamError::ZshRejected));
    let empty: Vec<i8> = vec![0];
    assert_eq!(ParamRef::name_buffer(&empty).unwrap(), vec![0i8; 256]);
}

#[test]
fn reset_prepare_order() {
    let h = ParamRef::from_raw(0x500).unwrap();
    let other = ParamRef::from_raw(0x600).unwrap();
    let name: Vec<i8> = vec![b'x' as i8, 0];
    let pm = node(PM_SCALAR);
    assert!(h.reset_prepare(&pm, 0, Some(h), &name).is_ok());
    assert!(h.reset_prepare(&pm, 0, None, &name).is_ok());
    assert_eq!(h.reset_prepare(&pm, 0, Some(other), &name), Err(ParamError::Hidden));
    let mut noname = pm;
    noname.node.nam = 0;
    assert_eq!(h.reset_prepare(&noname, 0, Some(other), &name), Err(ParamError::NullName));
    let ro = node(PM_SCALAR | PM_READONLY);
    assert_eq!(h.reset_prepare(&ro, 1, Some(other), &name), Err(ParamError::ReadOnly));
}

#[test]
fn displayed_kinds_and_errors() {
    assert_eq!(ParamKind::Scalar.to_string(), "scalar parameter");
    assert_eq!(ParamKind::Other(12).to_string(), "unknown parameter kind: 12");
    assert_eq!(ParamKind::Other(-7).to_string(), "unknown parameter kind: -7");
    assert_eq!(ParamKind::Other(0).to_string(), "unknown parameter kind: 0");
    assert_eq!(ParamKind::Other(i32::MIN).to_string(), "unknown parameter kind: -2147483648");
    assert_eq!(ParamError::ReadOnly.to_string(), "parameter is read-only");
    let mismatch = ParamError::TypeMismatch { expected: ParamKind::Integer, found: ParamKind::Other(1030) };
    assert_eq!(
        mismatch.to_string(),
        "parameter type mismatch, expected integer parameter, found unknown parameter kind: 1030"
    );
}
