//! Signal numbering (ordinary, pseudo- and real-time signals), signal names,
//! and the queue of signals deferred during critical sections.
use vstd::prelude::*;
use crate::types::c_int;
use crate::consts::{MAX_QUEUE_SIZE, SIGCOUNT, VSIGCOUNT};

verus! {

/// `libc::SIGRTMIN`: the lowest real-time signal number the running C library
/// leaves to programs.  The value is read from the C library at run time; no
/// range is promised.
#[verifier::external_body]
fn sigrtmin() -> (r: c_int) {
    libc::SIGRTMIN()
}

/// `libc::SIGRTMAX`: the highest real-time signal number of the running C
/// library.  The value is read from the C library at run time; no range is
/// promised.
#[verifier::external_body]
fn sigrtmax() -> (r: c_int) {
    libc::SIGRTMAX()
}

/// The number of trap slots for the given real-time signal range, computed in
/// C `int` arithmetic that does not overflow.
pub open spec fn trap_count_fits(rtmin: c_int, rtmax: c_int) -> bool {
    &&& VSIGCOUNT + rtmax <= i32::MAX
    &&& i32::MIN <= VSIGCOUNT + rtmax - rtmin <= i32::MAX
    &&& VSIGCOUNT + rtmax - rtmin + 1 <= i32::MAX
}

/// Trap slots: the ordinary and pseudo-signals, then one per real-time signal
/// from `rtmin` to `rtmax`; `None` when the count overflows a C `int`.
pub open spec fn spec_trap_count(rtmin: c_int, rtmax: c_int) -> Option<c_int> {
    if trap_count_fits(rtmin, rtmax) {
        Some((VSIGCOUNT + rtmax - rtmin + 1) as c_int)
    } else {
        None
    }
}

/// The number of trap slots for the real-time range `rtmin..=rtmax`.
pub fn trap_count(rtmin: c_int, rtmax: c_int) -> (r: Option<c_int>)
    ensures
        r == spec_trap_count(rtmin, rtmax),
{
    let with_max = VSIGCOUNT as i64 + rtmax as i64;
    let span = with_max - rtmin as i64;
    if with_max <= i32::MAX as i64 && span >= i32::MIN as i64 && span + 1 <= i32::MAX as i64 {
        Some(VSIGCOUNT + rtmax - rtmin + 1)
    } else {
        None
    }
}

/// `TRAPCOUNT`: the number of trap slots for the real-time signal range of the
/// running C library; `None` when that count does not fit a C `int`.
pub fn TRAPCOUNT() -> (r: Option<c_int>)
    ensures
        exists|lo: c_int, hi: c_int| r == spec_trap_count(lo, hi),
{
    let hi = sigrtmax();
    let lo = sigrtmin();
    trap_count(lo, hi)
}

/// The signal number of trap slot `x` when real-time signals start at `rtmin`.
pub open spec fn spec_signal_number(x: c_int, rtmin: c_int) -> int {
    if x >= VSIGCOUNT {
        x - VSIGCOUNT + rtmin
    } else {
        x as int
    }
}

/// The trap slot of signal `x` for the real-time range `rtmin..=rtmax`.
pub open spec fn spec_signal_index(x: c_int, rtmin: c_int, rtmax: c_int) -> int {
    if rtmin <= x <= rtmax {
        x - rtmin + VSIGCOUNT
    } else {
        x as int
    }
}

/// `Some` of `v` when it fits a C `int`.
pub open spec fn fits_int(v: int) -> Option<c_int> {
    if i32::MIN <= v <= i32::MAX {
        Some(v as c_int)
    } else {
        None
    }
}

/// Slots from `VSIGCOUNT` on name real-time signals counted from `rtmin`;
/// lower slots are signal numbers themselves.  `None` when the signal number
/// overflows a C `int`.
pub fn signal_number(x: c_int, rtmin: c_int) -> (r: Option<c_int>)
    ensures
        r == fits_int(spec_signal_number(x, rtmin)),
{
    if x >= VSIGCOUNT {
        let n = x as i64 - VSIGCOUNT as i64 + rtmin as i64;
        if n >= i32::MIN as i64 && n <= i32::MAX as i64 {
            Some(x - VSIGCOUNT + rtmin)
        } else {
            None
        }
    } else {
        Some(x)
    }
}

/// Real-time signals map to slots from `VSIGCOUNT` on; other signals are
/// their own slot.  `None` when the slot overflows a C `int`.
pub fn signal_index(x: c_int, rtmin: c_int, rtmax: c_int) -> (r: Option<c_int>)
    ensures
        r == fits_int(spec_signal_index(x, rtmin, rtmax)),
{
    if x >= rtmin && x <= rtmax {
        let n = x as i64 - rtmin as i64 + VSIGCOUNT as i64;
        if n <= i32::MAX as i64 {
            Some(x - rtmin + VSIGCOUNT)
        } else {
            None
        }
    } else {
        Some(x)
    }
}

/// `SIGNUM`: the signal number of trap slot `x` for the C library's
/// `SIGRTMIN`, read at the call; `None` when it does not fit a C `int`.
/// Slots below `VSIGCOUNT` are their own signal number; slot `VSIGCOUNT` is
/// `SIGRTMIN` itself (see `signal_number`).
pub fn SIGNUM(x: c_int) -> (r: Option<c_int>)
    ensures
        x < VSIGCOUNT ==> r == Some(x),
        exists|lo: c_int| r == fits_int(spec_signal_number(x, lo)),
{
    signal_number(x, sigrtmin())
}

/// `SIGIDX`: the trap slot of signal `x` for the C library's real-time range;
/// `None` when it does not fit a C `int`.
pub fn SIGIDX(x: c_int) -> (r: Option<c_int>)
    ensures
        exists|lo: c_int, hi: c_int| r == fits_int(spec_signal_index(x, lo, hi)),
{
    let min = sigrtmin();
    if x >= min {
        let max = sigrtmax();
        signal_index(x, min, max)
    } else {
        let r = signal_index(x, min, min);
        assert(r == fits_int(spec_signal_index(x, min, min)));
        r
    }
}

/// Trap slots below `VSIGCOUNT` are the ordinary signals themselves; slot
/// `VSIGCOUNT` is the first real-time signal `rtmin`, and each further slot is
/// the next signal.  Likewise the signals `rtmin..=rtmax` occupy consecutive
/// slots from `VSIGCOUNT`, and every other signal is its own slot.
pub proof fn lemma_signal_slot_layout(x: c_int, rtmin: c_int, rtmax: c_int)
    ensures
        x < VSIGCOUNT ==> spec_signal_number(x, rtmin) == x,
        spec_signal_number(VSIGCOUNT, rtmin) == rtmin,
        x >= VSIGCOUNT && x < i32::MAX ==> spec_signal_number((x + 1) as c_int, rtmin)
            == spec_signal_number(x, rtmin) + 1,
        rtmin <= rtmax ==> spec_signal_index(rtmin, rtmin, rtmax) == VSIGCOUNT,
        rtmin <= x < rtmax ==> spec_signal_index((x + 1) as c_int, rtmin, rtmax)
            == spec_signal_index(x, rtmin, rtmax) + 1,
        !(rtmin <= x <= rtmax) ==> spec_signal_index(x, rtmin, rtmax) == x,
{
}

/// Real-time slots and real-time signals correspond one to one: the slot of
/// the signal of slot `x` is `x`, and the signal of the slot of `y` is `y`.
pub proof fn lemma_signal_slots_inverse(x: c_int, y: c_int, rtmin: c_int, rtmax: c_int)
    requires
        rtmin <= rtmax,
    ensures
        VSIGCOUNT <= x <= VSIGCOUNT + rtmax - rtmin ==> spec_signal_index(
            spec_signal_number(x, rtmin) as c_int,
            rtmin,
            rtmax,
        ) == x,
        rtmin <= y <= rtmax && y - rtmin + VSIGCOUNT <= i32::MAX ==> spec_signal_number(
            spec_signal_index(y, rtmin, rtmax) as c_int,
            rtmin,
        ) == y,
{
}

/// The entry of the signal message table that describes `sig`, if the table
/// has one.
pub fn sig_msg_slot(sig: c_int) -> (r: Option<usize>)
    ensures
        r == (if 0 <= sig <= SIGCOUNT { Some(sig as usize) } else { None::<usize> }),
{
    if sig >= 0 && sig <= SIGCOUNT {
        Some(sig as usize)
    } else {
        None
    }
}

/// `sigmsg`: the description of signal `sig` from the shell's table of
/// signal messages, or "unknown signal" outside it.
pub fn sigmsg<'a>(sig: c_int, sig_msg: &'a [&'a str]) -> (r: &'a str)
    requires
        sig_msg@.len() > SIGCOUNT,
    ensures
        0 <= sig <= SIGCOUNT ==> r@ == sig_msg@[sig as int]@,
        !(0 <= sig <= SIGCOUNT) ==> r@ == "unknown signal"@,
{
    match sig_msg_slot(sig) {
        Some(i) => sig_msg[i],
        None => "unknown signal",
    }
}

/// The shell's signal-queue state: the circular queue's front and rear slots,
/// and the queueing counters.
#[derive(Clone, Copy, Debug)]
pub struct SignalQueue {
    pub queue_front: c_int,
    pub queue_rear: c_int,
    pub queue_in: c_int,
    pub queueing_enabled: c_int,
}

impl SignalQueue {
    /// Front and rear are slots of the queue.
    pub open spec fn wf(&self) -> bool {
        &&& 0 <= self.queue_front < MAX_QUEUE_SIZE
        &&& 0 <= self.queue_rear < MAX_QUEUE_SIZE
    }

    /// The number of signals waiting in the queue.
    pub open spec fn pending(&self) -> int {
        (self.queue_rear - self.queue_front) % (MAX_QUEUE_SIZE as int)
    }

    /// The state after `queue_signals`.
    pub open spec fn queued(self) -> Self {
        SignalQueue {
            queue_in: (self.queue_in + 1) as c_int,
            queueing_enabled: (self.queueing_enabled + 1) as c_int,
            ..self
        }
    }

    /// The state after `unqueue_signals`.
    pub open spec fn unqueued(self) -> Self {
        SignalQueue {
            queue_in: (self.queue_in - 1) as c_int,
            queueing_enabled: (self.queueing_enabled - 1) as c_int,
            ..self
        }
    }

    /// `queue_signals`: start (another level of) queueing; returns the level
    /// before.
    pub fn queue_signals(&mut self) -> (r: c_int)
        requires
            old(self).queue_in < i32::MAX,
            old(self).queueing_enabled < i32::MAX,
        ensures
            r == old(self).queueing_enabled,
            *final(self) == old(self).queued(),
    {
        self.queue_in = self.queue_in + 1;
        let old_level = self.queueing_enabled;
        self.queueing_enabled = self.queueing_enabled + 1;
        old_level
    }

    /// `unqueue_signals`: leave one level of queueing; returns whether queueing
    /// has ended, so that the queued signals must now be handled.
    pub fn unqueue_signals(&mut self) -> (r: bool)
        requires
            old(self).queue_in > i32::MIN,
            old(self).queueing_enabled > i32::MIN,
        ensures
            *final(self) == old(self).unqueued(),
            r == (final(self).queueing_enabled == 0),
    {
        self.queue_in = self.queue_in - 1;
        self.queueing_enabled = self.queueing_enabled - 1;
        self.queueing_enabled == 0
    }

    /// `dont_queue_signals`: remember the queueing level and stop queueing; the
    /// queued signals must then be handled.
    pub fn dont_queue_signals(&mut self)
        ensures
            final(self).queue_in == old(self).queueing_enabled,
            final(self).queueing_enabled == 0,
            final(self).queue_front == old(self).queue_front,
            final(self).queue_rear == old(self).queue_rear,
    {
        self.queue_in = self.queueing_enabled;
        self.queueing_enabled = 0;
    }

    /// `restore_queued_signals`: set both counters to `q`.
    pub fn restore_queued_signals(&mut self, q: c_int)
        ensures
            *final(self) == (SignalQueue { queue_in: q, queueing_enabled: q, ..*old(self) }),
    {
        self.queue_in = q;
        self.queueing_enabled = q;
    }

    /// `queue_signal_level`: the current queueing level.
    pub fn queue_signal_level(&self) -> (r: c_int)
        ensures
            r == self.queueing_enabled,
    {
        self.queueing_enabled
    }

    /// One step of `run_queued_signals`: when a signal is waiting, advance the
    /// front and return the slot whose saved mask and signal are to be handled.
    pub fn next_queued_signal(&mut self) -> (r: Option<usize>)
        requires
            old(self).wf(),
        ensures
            final(self).wf(),
            final(self).queue_rear == old(self).queue_rear,
            final(self).queue_in == old(self).queue_in,
            final(self).queueing_enabled == old(self).queueing_enabled,
            old(self).pending() == 0 ==> r is None && *final(self) == *old(self),
            old(self).pending() > 0 ==> {
                &&& final(self).queue_front == (old(self).queue_front + 1) % (MAX_QUEUE_SIZE as int)
                &&& r == Some(final(self).queue_front as usize)
                &&& final(self).pending() == old(self).pending() - 1
            },
    {
        if self.queue_front != self.queue_rear {
            let ghost before = *self;
            self.queue_front = (self.queue_front + 1) % MAX_QUEUE_SIZE;
            proof {
                let m = MAX_QUEUE_SIZE as int;
                let f = before.queue_front as int;
                let q = before.queue_rear as int;
                if f + 1 == m {
                    assert(self.queue_front == 0);
                } else {
                    assert(self.queue_front == f + 1);
                }
                if q > f {
                    assert(before.pending() == q - f);
                } else {
                    assert(before.pending() == q - f + m);
                }
            }
            Some(self.queue_front as usize)
        } else {
            None
        }
    }
}

/// Queueing and then unqueueing leaves the state as it was, and unqueueing
/// ends queueing exactly when it was off before.
pub proof fn lemma_queue_unqueue(s: SignalQueue)
    requires
        s.queue_in < i32::MAX,
        s.queueing_enabled < i32::MAX,
    ensures
        s.queued().unqueued() == s,
        (s.queued().unqueued().queueing_enabled == 0) == (s.queueing_enabled == 0),
{
}

/// The waiting count of a well-formed queue is below the queue's size, so
/// draining it takes fewer than `MAX_QUEUE_SIZE` steps.
pub proof fn lemma_pending_bounded(s: SignalQueue)
    requires
        s.wf(),
    ensures
        0 <= s.pending() < MAX_QUEUE_SIZE,
        s.pending() == 0 <==> s.queue_front == s.queue_rear,
{
    let m = MAX_QUEUE_SIZE as int;
    let d = s.queue_rear - s.queue_front;
    if d >= 0 {
        assert(s.pending() == d);
    } else {
        assert(s.pending() == d + m);
    }
}

} // verus!
