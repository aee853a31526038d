use zsh_sys::consts::{EMULATE_KSH, EMULATE_ZSH, MAX_QUEUE_SIZE, VSIGCOUNT};
use zsh_sys::heaps::{realloc_step, HeapSlots, PushStep, ReallocStep, ZHeapVec, ZHEAPVEC_DEFAULT_CAP};
use zsh_sys::history::{ALLOWHIST, STOPHIST};
use zsh_sys::options::{tccan, EMULATION, OPT, SHELL_EMULATION};
use zsh_sys::param_kind::{ParamError, ParamKind};
use zsh_sys::printing::advance_write;
use zsh_sys::report::{exit_status, expect, expect_ok, fail, show_error, show_kind};
use zsh_sys::signals::{
    sig_msg_slot, sigmsg, signal_index, signal_number, trap_count, SignalQueue, SIGIDX, SIGNUM, TRAPCOUNT,
};
use zsh_sys::strings::MetaString;
use zsh_sys::zle::{COMP_EXPAND, COMP_ISEXPAND, COMP_LIST_COMPLETE, CURF_COLOR_MASK};

#[test]
fn heap_vec_push_pop() {
    let mut v: ZHeapVec<u32> = ZHeapVec::with_capacity(2).unwrap();
    assert!(v.is_empty());
    assert_eq!(v.capacity(), 2);
    assert_eq!(v.push(7), Ok(()));
    assert_eq!(v.push(8), Ok(()));
    assert_eq!(v.push(9), Err(9));
    assert_eq!(v.capacity(), 2);
    assert_eq!(v.len(), 2);
    assert_eq!(v.as_slice(), &[7, 8]);
    assert_eq!(*v.index(1), 8);
    *v.index_mut(0) = 70;
    assert_eq!(v.as_slice(), &[70, 8]);
    *v.index_mut(0) = 7;
    assert_eq!(v.pop(), Some(8));
    assert_eq!(v.pop(), Some(7));
    assert_eq!(v.pop(), None);
    assert_eq!(v.capacity(), 2);
    assert_eq!(v.push(1), Ok(()));
    assert_eq!(v.push(2), Ok(()));
    v.clear();
    assert!(v.is_empty());
    assert_eq!(v.len(), 0);
    assert_eq!(v.pop(), None);
    assert_eq!(v.capacity(), 2);
}

#[test]
fn heap_vec_default() {
    let mut v: ZHeapVec<u8> = ZHeapVec::new().unwrap();
    assert_eq!(v.capacity(), ZHEAPVEC_DEFAULT_CAP);
    for i in 0..256u32 {
        assert_eq!(v.push(i as u8), Ok(()));
    }
    assert_eq!(v.push(1), Err(1));
    assert_eq!(v.capacity(), ZHEAPVEC_DEFAULT_CAP);
    assert_eq!(v.pop(), Some(255));
}

#[test]
fn heap_slots_steps() {
    let mut s = HeapSlots::new(2);
    assert_eq!(s.push_step(), PushStep::Write(0));
    s.pushed();
    assert_eq!(s.push_step(), PushStep::Write(1));
    s.pushed();
    assert_eq!((s.len(), s.capacity()), (2, 2));
    assert_eq!(s.push_step(), PushStep::Refuse);
    assert_eq!(s.clear(), 2);
    assert_eq!(s.pop_slot(), None);
    s.pushed();
    assert_eq!(s.pop_slot(), Some(0));
    assert_eq!(realloc_step(4, 4), ReallocStep::Keep);
    assert_eq!(realloc_step(4, 8), ReallocStep::Refuse);
    assert_eq!(realloc_step(4, 2), ReallocStep::Shrink);
}

#[test]
fn signal_slots() {
    assert_eq!(trap_count(34, 64), Some(VSIGCOUNT + 31));
    assert_eq!(trap_count(i32::MIN, i32::MAX), None);
    assert_eq!(signal_number(5, 34), Some(5));
    assert_eq!(signal_number(VSIGCOUNT, 34), Some(34));
    assert_eq!(signal_number(VSIGCOUNT + 3, 34), Some(37));
    assert_eq!(signal_number(i32::MAX, i32::MAX), None);
    assert_eq!(signal_index(37, 34, 64), Some(VSIGCOUNT + 3));
    assert_eq!(signal_index(65, 34, 64), Some(65));
    assert_eq!(signal_index(2, 34, 64), Some(2));
    assert_eq!(signal_index(i32::MAX, i32::MIN, i32::MAX), None);
    for x in VSIGCOUNT..VSIGCOUNT + 31 {
        let n = signal_number(x, 34).unwrap();
        assert_eq!(signal_index(n, 34, 64), Some(x));
    }
}

#[test]
fn signal_slots_of_this_libc() {
    let lo = libc::SIGRTMIN();
    let hi = libc::SIGRTMAX();
    assert_eq!(TRAPCOUNT(), Some(VSIGCOUNT + hi - lo + 1));
    assert_eq!(SIGNUM(3), Some(3));
    assert_eq!(SIGNUM(VSIGCOUNT + 1), Some(lo + 1));
    assert_eq!(SIGIDX(lo + 1), Some(VSIGCOUNT + 1));
    assert_eq!(SIGIDX(2), Some(2));
}

#[test]
fn signal_messages() {
    let table: Vec<&str> = (0..32).map(|i| if i == 2 { "interrupt" } else { "x" }).collect();
    assert_eq!(sigmsg(2, &table), "interrupt");
    assert_eq!(sigmsg(32, &table), "unknown signal");
    assert_eq!(sigmsg(-1, &table), "unknown signal");
    assert_eq!(sig_msg_slot(0), Some(0));
    assert_eq!(sig_msg_slot(31), Some(31));
    assert_eq!(sig_msg_slot(32), None);
    assert_eq!(sig_msg_slot(-5), None);
}

#[test]
fn signal_queue() {
    let mut q = SignalQueue { queue_front: 0, queue_rear: 0, queue_in: 0, queueing_enabled: 0 };
    assert_eq!(q.queue_signals(), 0);
    assert_eq!(q.queue_signal_level(), 1);
    assert_eq!(q.queue_signals(), 1);
    assert!(!q.unqueue_signals());
    assert!(q.unqueue_signals());
    assert_eq!((q.queue_in, q.queueing_enabled), (0, 0));
    q.queue_rear = 2;
    assert_eq!(q.next_queued_signal(), Some(1));
    assert_eq!(q.next_queued_signal(), Some(2));
    assert_eq!(q.next_queued_signal(), None);
    let mut wrap = SignalQueue {
        queue_front: MAX_QUEUE_SIZE - 1,
        queue_rear: 1,
        queue_in: 0,
        queueing_enabled: 3,
    };
    assert_eq!(wrap.next_queued_signal(), Some(0));
    assert_eq!(wrap.next_queued_signal(), Some(1));
    assert_eq!(wrap.next_queued_signal(), None);
    wrap.dont_queue_signals();
    assert_eq!((wrap.queue_in, wrap.queueing_enabled), (3, 0));
    wrap.restore_queued_signals(5);
    assert_eq!((wrap.queue_in, wrap.queueing_enabled), (5, 5));
}

#[test]
fn options_and_emulation() {
    let opts: Vec<i8> = vec![0, 1, 0, 1];
    assert_eq!(OPT(1).isset(&opts), 1);
    assert_eq!(OPT(1).unset(&opts), 0);
    assert_eq!(OPT(2).unset(&opts), 1);
    assert_eq!(OPT(0).isset(&opts), 0);
    assert_eq!(OPT(3).as_int(), 3);
    assert_eq!(OPT(3).as_optindex(), 3);
    assert_eq!(EMULATION(EMULATE_KSH | 0x40, EMULATE_KSH), EMULATE_KSH);
    assert_eq!(SHELL_EMULATION(EMULATE_ZSH | 0x20 | 0x1), EMULATE_ZSH);
    assert_eq!(tccan(&[4, 0, 7], 2), 7);
}

#[test]
fn history_counter() {
    let mut s = 0;
    STOPHIST(&mut s);
    assert_eq!(s, 4);
    STOPHIST(&mut s);
    ALLOWHIST(&mut s);
    ALLOWHIST(&mut s);
    assert_eq!(s, 0);
}

#[test]
fn meta_strings() {
    assert!(MetaString::from_ptr(0).is_none());
    let mut m = MetaString::from_ptr(0x44).unwrap();
    assert_eq!(m.as_ptr(), 0x44);
    assert_eq!(m.as_mut_ptr(), 0x44);
    assert_eq!(m.as_nonnull_ptr(), 0x44);
}

#[test]
fn completion_modes() {
    assert!(COMP_ISEXPAND(COMP_EXPAND));
    assert!(!COMP_ISEXPAND(COMP_LIST_COMPLETE));
    assert_eq!(CURF_COLOR_MASK, ((0x00ff_ffffu32 << 8) as i32) | 32);
}

#[test]
fn check_bookkeeping() {
    assert_eq!(show_kind(ParamKind::Scalar), "scalar");
    assert_eq!(show_kind(ParamKind::Other(3)), "other");
    assert_eq!(show_error(ParamError::ZshRejected), "ZshRejected");
    assert_eq!(
        show_error(ParamError::TypeMismatch { expected: ParamKind::Scalar, found: ParamKind::Hash }),
        "TypeMismatch"
    );
    let mut failures = 0usize;
    assert!(expect(true, &mut failures));
    assert_eq!(failures, 0);
    assert!(!expect(false, &mut failures));
    assert_eq!(failures, 1);
    assert_eq!(expect_ok::<u8>(Ok(3), &mut failures), Some(3));
    assert_eq!(expect_ok::<u8>(Err(ParamError::NotFound), &mut failures), None);
    assert_eq!(failures, 2);
    fail(&mut failures);
    assert_eq!(exit_status(failures), 1);
    assert_eq!(exit_status(0), 0);
}

#[test]
fn write_progress() {
    assert_eq!(advance_write(0, 3, 10), (3, false));
    assert_eq!(advance_write(3, 7, 10), (10, true));
    assert_eq!(advance_write(0, 0, 0), (0, true));
}
