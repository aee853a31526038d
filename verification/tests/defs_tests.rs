use zsh_sys::arithmetic::{mathfunc, mnumber};
use zsh_sys::consts::{BINF_PREFIX, MFF_STR, MN_FLOAT, MN_INTEGER, MN_UNSET, PM_INTEGER};
use zsh_sys::feature_sets::features;
use zsh_sys::lists::linknode;
use zsh_sys::module::Module;
use zsh_sys::params::paramdef;
use zsh_sys::syntax::{eprog, lextok, ASG, QT, REDIR};
use zsh_sys::tables::{asgment, builtin, conddef, funcwrap, hookdef, IN_EVAL_TRAP};

#[test]
fn token_codes() {
    assert_eq!(lextok::NULLTOK.as_int(), 0);
    assert_eq!(lextok::OUTANG.as_int(), 10);
    assert_eq!(lextok::TRINANG.as_int(), 24);
    assert_eq!(lextok::BANG.as_int(), 39);
    assert_eq!(lextok::TYPESET.as_int(), 63);
    assert_eq!(ASG::ASG_ARRAY.as_int(), 1);
    assert_eq!(ASG::ASG_KEY_VALUE.as_int(), 2);
    assert_eq!(QT::QT_SINGLE_OPTIONAL.as_int(), 6);
    assert_eq!(REDIR::REDIR_OUTPIPE.as_int(), 17);
}

#[test]
fn redirection_classes() {
    assert!(REDIR::REDIR_WRITE.IS_WRITE_FILE());
    assert!(REDIR::REDIR_READWRITE.IS_WRITE_FILE());
    assert!(!REDIR::REDIR_READ.IS_WRITE_FILE());
    assert!(REDIR::REDIR_APP.IS_APPEND_REDIR());
    assert!(REDIR::REDIR_ERRAPPNOW.IS_APPEND_REDIR());
    assert!(!REDIR::REDIR_WRITENOW.IS_APPEND_REDIR());
    assert!(REDIR::REDIR_WRITENOW.IS_CLOBBER_REDIR());
    assert!(!REDIR::REDIR_APP.IS_CLOBBER_REDIR());
    assert!(!REDIR::REDIR_HEREDOCDASH.IS_CLOBBER_REDIR());
    assert!(REDIR::REDIR_ERRWRITE.IS_ERROR_REDIR());
    assert!(!REDIR::REDIR_READWRITE.IS_ERROR_REDIR());
    assert!(REDIR::REDIR_READWRITE.IS_READFD());
    assert!(REDIR::REDIR_MERGEIN.IS_READFD());
    assert!(REDIR::REDIR_INPIPE.IS_READFD());
    assert!(!REDIR::REDIR_MERGEOUT.IS_READFD());
    assert!(!REDIR::REDIR_OUTPIPE.IS_READFD());
    assert!(REDIR::REDIR_CLOSE.IS_REDIROP());
    assert!(!REDIR::REDIR_WRITE.IS_REDIROP());
}

#[test]
fn quoting_and_programs() {
    assert!(QT::QT_SINGLE.QT_IS_SINGLE());
    assert!(QT::QT_SINGLE_OPTIONAL.QT_IS_SINGLE());
    assert!(!QT::QT_DOUBLE.QT_IS_SINGLE());
    let p = eprog { flags: 1 | 8, nref: 0 };
    assert!(p.is_real());
    assert!(!p.is_heap());
    assert!(!p.is_map());
    assert!(p.is_run());
    assert!(p.should_delete());
    assert!(!eprog { flags: 2, nref: 1 }.should_delete());
    assert!(eprog { flags: 2, nref: -1 }.should_delete());
}

#[test]
fn assignments() {
    let a = asgment { name: 1, flags: ASG::ASG_ARRAY.as_int(), value: 0 };
    assert!(a.ASG_ARRAYP());
    assert!(a.ASG_VALUEP());
    let s = asgment { name: 1, flags: ASG::ASG_KEY_VALUE.as_int(), value: 0 };
    assert!(!s.ASG_ARRAYP());
    assert!(!s.ASG_VALUEP());
    assert!(asgment { name: 1, flags: 0, value: 0x77 }.ASG_VALUEP());
}

#[test]
fn builtins_and_friends() {
    let b = builtin::BUILTIN(0x10, 3, Some(0x20), 0, 5, 7, 0x30, 0);
    assert_eq!(b.node.nam, 0x10);
    assert_eq!(b.node.next, 0);
    assert_eq!(b.node.flags, 3);
    assert_eq!(b.handlerfunc, Some(0x20));
    assert_eq!((b.minargs, b.maxargs, b.funcid), (0, 5, 7));
    assert_eq!((b.optstr, b.defopts), (0x30, 0));
    let p = builtin::BIN_PREFIX(0x11, 1);
    assert_eq!(p.node.flags, 1 | BINF_PREFIX);
    assert_eq!(p.handlerfunc, None);
    assert_eq!((p.minargs, p.maxargs, p.funcid, p.optstr, p.defopts), (0, 0, 0, 0, 0));
    let w = funcwrap::WRAPDEF(Some(0x50));
    assert_eq!((w.next, w.flags, w.handler, w.module), (0, 0, Some(0x50), 0));
    let c = conddef::CONDDEF(0x60, 2, Some(0x61), 1, 2, 9);
    assert_eq!((c.next, c.name, c.flags, c.handler, c.min, c.max, c.condid, c.module),
        (0, 0x60, 2, Some(0x61), 1, 2, 9, 0));
    let h = hookdef::HOOKDEF(0x70, None, 4);
    assert_eq!((h.next, h.name, h.def, h.flags, h.funcs), (0, 0x70, None, 4, 0));
}

#[test]
fn eval_trap() {
    assert!(IN_EVAL_TRAP(1, 0, 2, 2));
    assert!(!IN_EVAL_TRAP(0, 0, 2, 2));
    assert!(!IN_EVAL_TRAP(1, 1, 2, 2));
    assert!(!IN_EVAL_TRAP(1, 0, 2, 3));
}

#[test]
fn numbers() {
    let n = mnumber::new_integer(41);
    assert!(n.is_integer());
    assert!(!n.is_float());
    assert!(!n.is_unset());
    assert_eq!(n.get_integer(), Ok(41));
    assert_eq!(n.get_float(), Err(41));
    assert_eq!(n.as_integer(), 41);
    let bits = 2.5f64.to_bits();
    let f = mnumber { u: bits as i64, type_: MN_FLOAT };
    assert!(f.is_float());
    assert_eq!(f.get_integer(), Err(bits));
    assert_eq!(f.get_float(), Ok(bits));
    assert_eq!(f64::from_bits(f.as_float_bits()), 2.5);
    let neg = mnumber::new_integer(-1);
    assert_eq!(neg.as_float_bits(), u64::MAX);
    let unset = mnumber { u: 0, type_: MN_INTEGER | MN_UNSET };
    assert!(unset.is_unset());
    assert!(!unset.is_integer());
}

#[test]
fn integer_sums_and_comparisons() {
    let a = mnumber::new_integer(40);
    let b = mnumber::new_integer(2);
    let sum = a.integer_sum(b).unwrap();
    assert!(sum.is_integer());
    assert_eq!(sum.as_integer(), 42);
    assert_eq!(mnumber::new_integer(-5).integer_sum(b).unwrap().as_integer(), -3);
    assert_eq!(a.integer_eq(mnumber::new_integer(40)), Some(true));
    assert_eq!(a.integer_eq(b), Some(false));
    let f = mnumber { u: 2.0f64.to_bits() as i64, type_: MN_FLOAT };
    assert!(a.integer_sum(f).is_none());
    assert!(f.integer_sum(a).is_none());
    assert_eq!(a.integer_eq(f), None);
    assert_eq!(f.integer_eq(f), None);
}

#[test]
fn math_functions() {
    let m = mathfunc::NUMMATHFUNC(0x10, Some(0x20), 1, 2, 3);
    assert_eq!((m.flags, m.nfunc, m.sfunc, m.minargs, m.maxargs, m.funcid), (0, Some(0x20), None, 1, 2, 3));
    let s = mathfunc::STRMATHFUNC(0x11, Some(0x21), 4);
    assert_eq!((s.flags, s.nfunc, s.sfunc, s.minargs, s.maxargs, s.funcid), (MFF_STR, None, Some(0x21), 0, 0, 4));
    assert_eq!((s.next, s.module), (0, 0));
}

#[test]
fn feature_tables() {
    let empty = features::new();
    assert_eq!(empty.bn_size, 0);
    assert!(empty.bn_list.is_empty());
    let d = features::default();
    assert_eq!((d.cd_size, d.mf_size, d.pd_size, d.n_abstract), (0, 0, 0, 0));
    let t = features::builder()
        .with_builtins(vec![builtin::BUILTIN(1, 0, Some(2), 0, 5, 0, 3, 0)])
        .with_params(vec![paramdef::INTPARAMDEF(4, 5), paramdef::STRPARAMDEF(6, 7)])
        .with_n_abstract(2);
    assert_eq!(t.bn_size, 1);
    assert_eq!(t.pd_size, 2);
    assert_eq!(t.pd_list[0].flags, PM_INTEGER);
    assert_eq!(t.cd_size, 0);
    assert_eq!(t.mf_size, 0);
    assert_eq!(t.n_abstract, 2);
    let t2 = t.with_conddefs(vec![]).with_mathfuncs(vec![mathfunc::STRMATHFUNC(1, None, 0)]);
    assert_eq!(t2.mf_size, 1);
    assert_eq!(t2.bn_size, 1);
    assert_eq!(t2.pd_list.len(), 2);
}

#[test]
fn list_nodes_and_modules() {
    let n = linknode { next: 0x10, prev: 0x20, dat: 0x30 };
    assert_eq!(n.nextnode(), 0x10);
    assert_eq!(n.prevnode(), 0x20);
    let m = Module::util_make_module();
    assert_eq!((m.node.next, m.node.nam, m.node.flags, m.u, m.autoloads, m.deps, m.wrapper),
        (0, 0, 0, 0, 0, 0, 0));
}
