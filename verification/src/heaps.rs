//! Scratch buffers in the style of zsh's heap vectors.
//!
//! A buffer has a non-zero capacity chosen when it is made.  Values are pushed
//! and popped at the back.  A push onto a full buffer asks for a block of twice
//! the capacity; the buffer's reallocation step keeps a block of the same size,
//! reallocates only to a smaller size and refuses a larger one, so that push is
//! refused and the value is handed back.
//!
//! `HeapSlots` is the bookkeeping of such a buffer (how many slots it has and
//! how many are filled, and what a push does next), for code that keeps the
//! values itself; `ZHeapVec` is a buffer that holds its values.
use vstd::prelude::*;

verus! {

/// The capacity `ZHeapVec::new` uses.
pub const ZHEAPVEC_DEFAULT_CAP: usize = 256;

/// What the reallocation of a buffer from `cap` to `new_cap` slots does.
#[derive(Debug, Clone, Copy, PartialEq, Eq, Structural)]
pub enum ReallocStep {
    /// The sizes are equal: the block is kept as it is.
    Keep,
    /// A larger size is asked for: refused, the block is kept.
    Refuse,
    /// A smaller size is asked for: the block is reallocated to it.
    Shrink,
}

/// The reallocation step from `cap` to `new_cap` slots.
pub open spec fn spec_realloc_step(cap: usize, new_cap: usize) -> ReallocStep {
    if cap == new_cap {
        ReallocStep::Keep
    } else if cap < new_cap {
        ReallocStep::Refuse
    } else {
        ReallocStep::Shrink
    }
}

/// The reallocation step from `cap` to `new_cap` slots.
pub fn realloc_step(cap: usize, new_cap: usize) -> (r: ReallocStep)
    ensures
        r == spec_realloc_step(cap, new_cap),
{
    if cap == new_cap {
        ReallocStep::Keep
    } else if cap < new_cap {
        ReallocStep::Refuse
    } else {
        ReallocStep::Shrink
    }
}

/// What a push onto a scratch buffer does next.
#[derive(Debug, Clone, Copy, PartialEq, Eq, Structural)]
pub enum PushStep {
    /// There is room: the value goes into this slot.
    Write(usize),
    /// The buffer is full and its reallocation to twice the capacity is
    /// refused: the value is handed back.
    Refuse,
}

/// The next step of a push onto a buffer with `len` values and `cap` slots.
pub open spec fn spec_push_step(len: usize, cap: usize) -> PushStep {
    if len < cap {
        PushStep::Write(len)
    } else {
        PushStep::Refuse
    }
}

/// The slot bookkeeping of a scratch buffer: `len` filled slots out of `cap`.
#[derive(Debug, Clone, Copy)]
pub struct HeapSlots {
    len: usize,
    cap: usize,
}

impl HeapSlots {
    #[verifier::type_invariant]
    spec fn bounded(self) -> bool {
        &&& 0 < self.cap <= isize::MAX
        &&& self.len <= self.cap
    }

    /// Number of filled slots.
    pub closed spec fn spec_len(&self) -> usize {
        self.len
    }

    /// Number of slots.
    pub closed spec fn spec_cap(&self) -> usize {
        self.cap
    }

    /// No slot is filled yet; `cap` slots, which must be non-zero and small
    /// enough to allocate.
    pub fn new(cap: usize) -> (r: Self)
        requires
            0 < cap <= isize::MAX,
        ensures
            r.spec_len() == 0,
            r.spec_cap() == cap,
    {
        HeapSlots { len: 0, cap }
    }

    /// Number of filled slots; never more than the capacity.
    pub fn len(&self) -> (r: usize)
        ensures
            r == self.spec_len(),
            r <= self.spec_cap(),
    {
        proof {
            use_type_invariant(self);
        }
        self.len
    }

    /// Number of slots; never zero.
    pub fn capacity(&self) -> (r: usize)
        ensures
            r == self.spec_cap(),
            0 < r <= isize::MAX,
    {
        proof {
            use_type_invariant(self);
        }
        self.cap
    }

    /// What a push does next: write into the next slot when there is room;
    /// otherwise the buffer would have to be reallocated to twice its
    /// capacity, which the reallocation step refuses.
    pub fn push_step(&self) -> (r: PushStep)
        ensures
            r == spec_push_step(self.spec_len(), self.spec_cap()),
    {
        proof {
            use_type_invariant(self);
        }
        if self.len < self.cap {
            return PushStep::Write(self.len);
        }
        let step = realloc_step(self.cap, self.calc_new_cap());
        assert(step == ReallocStep::Refuse);
        PushStep::Refuse
    }

    /// The capacity a full buffer asks for: twice the current one.
    fn calc_new_cap(&self) -> (r: usize)
        ensures
            r == 2 * self.spec_cap(),
    {
        proof {
            use_type_invariant(self);
        }
        self.cap * 2
    }

    /// The value went into slot `len`, which there was room for.
    pub fn pushed(&mut self)
        requires
            old(self).spec_len() < old(self).spec_cap(),
        ensures
            final(self).spec_len() == old(self).spec_len() + 1,
            final(self).spec_cap() == old(self).spec_cap(),
    {
        proof {
            use_type_invariant(&*self);
        }
        self.len = self.len + 1;
    }

    /// Take the last filled slot for a pop: its index, or `None` when no slot
    /// is filled.
    pub fn pop_slot(&mut self) -> (r: Option<usize>)
        ensures
            final(self).spec_cap() == old(self).spec_cap(),
            old(self).spec_len() == 0 ==> r is None && final(self).spec_len() == 0,
            old(self).spec_len() > 0 ==> r == Some((old(self).spec_len() - 1) as usize)
                && final(self).spec_len() == old(self).spec_len() - 1,
    {
        proof {
            use_type_invariant(&*self);
        }
        if self.len == 0 {
            None
        } else {
            self.len = self.len - 1;
            Some(self.len)
        }
    }

    /// Empty every slot; returns how many were filled, so that their values
    /// can be dropped front to back.
    pub fn clear(&mut self) -> (r: usize)
        ensures
            r == old(self).spec_len(),
            final(self).spec_len() == 0,
            final(self).spec_cap() == old(self).spec_cap(),
    {
        proof {
            use_type_invariant(&*self);
        }
        let n = self.len;
        self.len = 0;
        n
    }
}

/// A stack of at most `capacity()` values.
pub struct ZHeapVec<T> {
    buf: Vec<T>,
    slots: HeapSlots,
}

impl<T> View for ZHeapVec<T> {
    type V = Seq<T>;

    closed spec fn view(&self) -> Seq<T> {
        self.buf@
    }
}

impl<T> ZHeapVec<T> {
    #[verifier::type_invariant]
    spec fn in_step(self) -> bool {
        self.buf@.len() == self.slots.spec_len()
    }

    /// The capacity.
    pub closed spec fn spec_capacity(&self) -> nat {
        self.slots.spec_cap() as nat
    }

    /// The buffer is within its capacity, and the capacity is non-zero and
    /// small enough to allocate.
    pub open spec fn within_capacity(&self) -> bool {
        &&& 0 < self.spec_capacity() <= isize::MAX
        &&& self@.len() <= self.spec_capacity()
    }

    /// Number of values in the buffer.
    pub fn len(&self) -> (r: usize)
        ensures
            r == self@.len(),
            self.within_capacity(),
    {
        proof {
            use_type_invariant(self);
            use_type_invariant(&self.slots);
        }
        self.buf.len()
    }

    /// The capacity; never zero.
    pub fn capacity(&self) -> (r: usize)
        ensures
            r == self.spec_capacity(),
            self.within_capacity(),
    {
        proof {
            use_type_invariant(self);
            use_type_invariant(&self.slots);
        }
        self.slots.capacity()
    }

    /// The buffer holds no value.
    pub fn is_empty(&self) -> (r: bool)
        ensures
            r == (self@.len() == 0),
    {
        self.len() == 0
    }

    /// An empty buffer of the default capacity.
    pub fn new() -> (r: Option<Self>)
        ensures
            r matches Some(v) && v@.len() == 0 && v.spec_capacity() == ZHEAPVEC_DEFAULT_CAP
                && v.within_capacity(),
    {
        Self::with_capacity(ZHEAPVEC_DEFAULT_CAP)
    }

    /// An empty buffer of the given capacity, which must be non-zero and small
    /// enough to allocate.
    pub fn with_capacity(size: usize) -> (r: Option<Self>)
        requires
            0 < size <= isize::MAX,
        ensures
            r matches Some(v) && v@.len() == 0 && v.spec_capacity() == size
                && v.within_capacity(),
    {
        Some(ZHeapVec { buf: Vec::new(), slots: HeapSlots::new(size) })
    }

    /// The values, front to back.
    pub fn as_slice(&self) -> (r: &[T])
        ensures
            r@ == self@,
    {
        self.buf.as_slice()
    }

    /// Drop every value, front to back; the capacity stays.
    pub fn clear(&mut self)
        ensures
            final(self)@.len() == 0,
            final(self).spec_capacity() == old(self).spec_capacity(),
            final(self).within_capacity(),
    {
        proof {
            use_type_invariant(&*self);
            use_type_invariant(&self.slots);
        }
        let mut taken = ZHeapVec { buf: Vec::new(), slots: HeapSlots::new(1) };
        std::mem::swap(&mut taken, self);
        let ZHeapVec { mut buf, mut slots } = taken;
        proof {
            use_type_invariant(&slots);
        }
        buf.clear();
        slots.clear();
        *self = ZHeapVec { buf, slots };
    }

    /// Push a value at the back.  A full buffer hands the value back
    /// unchanged: it cannot be reallocated to a larger capacity.
    pub fn push(&mut self, value: T) -> (r: Result<(), T>)
        ensures
            final(self).within_capacity(),
            final(self).spec_capacity() == old(self).spec_capacity(),
            old(self)@.len() < old(self).spec_capacity() ==> r is Ok && final(self)@ == old(
                self,
            )@.push(value),
            old(self)@.len() >= old(self).spec_capacity() ==> r == Err::<(), T>(value)
                && final(self)@ == old(self)@,
    {
        proof {
            use_type_invariant(&*self);
            use_type_invariant(&self.slots);
        }
        if let PushStep::Refuse = self.slots.push_step() {
            return Err(value);
        }
        let mut taken = ZHeapVec { buf: Vec::new(), slots: HeapSlots::new(1) };
        std::mem::swap(&mut taken, self);
        let ZHeapVec { mut buf, mut slots } = taken;
        proof {
            use_type_invariant(&slots);
        }
        slots.pushed();
        buf.push(value);
        *self = ZHeapVec { buf, slots };
        Ok(())
    }

    /// Remove and return the value at the back, if any.
    pub fn pop(&mut self) -> (r: Option<T>)
        ensures
            final(self).spec_capacity() == old(self).spec_capacity(),
            final(self).within_capacity(),
            old(self)@.len() == 0 ==> r is None && final(self)@ == old(self)@,
            old(self)@.len() > 0 ==> r == Some(old(self)@.last()) && final(self)@ == old(
                self,
            )@.drop_last(),
    {
        proof {
            use_type_invariant(&*self);
            use_type_invariant(&self.slots);
        }
        let mut taken = ZHeapVec { buf: Vec::new(), slots: HeapSlots::new(1) };
        std::mem::swap(&mut taken, self);
        let ZHeapVec { mut buf, mut slots } = taken;
        proof {
            use_type_invariant(&slots);
        }
        let _ = slots.pop_slot();
        let r = buf.pop();
        *self = ZHeapVec { buf, slots };
        r
    }

    /// The value at `index`, which must be below `len()`.
    pub fn index(&self, index: usize) -> (r: &T)
        requires
            index < self@.len(),
        ensures
            *r == self@[index as int],
    {
        &self.buf[index]
    }

    /// The value at `index`, for writing; `index` must be below `len()`.
    pub fn index_mut(&mut self, index: usize) -> (r: &mut T)
        requires
            index < old(self)@.len(),
        ensures
            *r == old(self)@[index as int],
            final(self)@ == old(self)@.update(index as int, *final(r)),
            final(self).spec_capacity() == old(self).spec_capacity(),
    {
        proof {
            use_type_invariant(&*self);
        }
        &mut self.buf[index]
    }
}

/// Pushing onto a buffer with room and popping again gives back the value and
/// leaves the buffer as it was: after the push the buffer holds one more value
/// and is still within its capacity, its last value is the pushed one, and
/// dropping that value restores the contents.
pub proof fn lemma_push_pop<T>(b: ZHeapVec<T>, value: T)
    requires
        b@.len() < b.spec_capacity(),
    ensures
        b@.push(value).len() == b@.len() + 1,
        b@.push(value).len() <= b.spec_capacity(),
        b@.push(value).len() > 0,
        b@.push(value).last() == value,
        b@.push(value).drop_last() == b@,
{
    assert(b@.push(value).drop_last() =~= b@);
}

} // verus!
