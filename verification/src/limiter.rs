//! The concurrency limiter: a counter of free execution slots.
use vstd::prelude::*;

verus! {

/// The mathematical view of a limiter: how many slots exist and how many of
/// them are free.
pub struct Slots {
    pub capacity: nat,
    pub free: nat,
}

/// One operation in a history of the limiter.
pub enum SlotOp {
    /// An attempt to take a slot; it takes one exactly when one is free.
    Acquire,
    /// A worker that holds a slot gives it back.
    Release,
}

impl Slots {
    /// The limiter as it is created: every slot free.
    pub open spec fn idle(capacity: nat) -> Slots {
        Slots { capacity, free: capacity }
    }

    /// `free` never exceeds `capacity`.
    pub open spec fn bounded(self) -> bool {
        self.free <= self.capacity
    }

    /// The number of slots that are taken.
    pub open spec fn in_use(self) -> int {
        self.capacity - self.free
    }

    /// Whether an attempt to take a slot succeeds.
    pub open spec fn grants(self) -> bool {
        self.free > 0
    }

    /// The state after an attempt to take a slot.
    pub open spec fn acquire(self) -> Slots {
        if self.grants() {
            Slots { capacity: self.capacity, free: (self.free - 1) as nat }
        } else {
            self
        }
    }

    /// The state after a slot is given back. A release with every slot free
    /// changes nothing.
    pub open spec fn release(self) -> Slots {
        if self.free < self.capacity {
            Slots { capacity: self.capacity, free: self.free + 1 }
        } else {
            self
        }
    }

    /// The state after one operation.
    pub open spec fn apply(self, op: SlotOp) -> Slots {
        match op {
            SlotOp::Acquire => self.acquire(),
            SlotOp::Release => self.release(),
        }
    }

    /// The state after a history of operations, oldest first.
    pub open spec fn after(self, ops: Seq<SlotOp>) -> Slots
        decreases ops.len(),
    {
        if ops.len() == 0 {
            self
        } else {
            self.after(ops.drop_last()).apply(ops.last())
        }
    }
}

/// The number of workers running after a history of operations on a limiter
/// that starts idle with `capacity` slots: a granted acquire starts a worker,
/// a release ends one.
pub open spec fn workers_running(capacity: nat, ops: Seq<SlotOp>) -> int
    decreases ops.len(),
{
    if ops.len() == 0 {
        0
    } else {
        let before = workers_running(capacity, ops.drop_last());
        match ops.last() {
            SlotOp::Acquire => if Slots::idle(capacity).after(ops.drop_last()).grants() {
                before + 1
            } else {
                before
            },
            SlotOp::Release => before - 1,
        }
    }
}

/// Whether every release in the history is made by a worker that is running
/// at that moment.
pub open spec fn releases_paired(capacity: nat, ops: Seq<SlotOp>) -> bool
    decreases ops.len(),
{
    if ops.len() == 0 {
        true
    } else {
        &&& releases_paired(capacity, ops.drop_last())
        &&& ops.last() is Release ==> workers_running(capacity, ops.drop_last()) > 0
    }
}

/// A counter of free execution slots, between zero and the limit it was
/// created with.
pub struct Limiter {
    available: usize,
    max_threads: usize,
}

impl View for Limiter {
    type V = Slots;

    closed spec fn view(&self) -> Slots {
        Slots { capacity: self.max_threads as nat, free: self.available as nat }
    }
}

impl Limiter {
    #[verifier::type_invariant]
    spec fn within_limit(self) -> bool {
        self.available <= self.max_threads
    }

    /// A limiter with `max_threads` slots, all of them free.
    pub fn new(max_threads: usize) -> (limiter: Limiter)
        ensures
            limiter@ == Slots::idle(max_threads as nat),
    {
        Limiter { available: max_threads, max_threads }
    }

    /// Takes a slot if one is free and says whether it did. Never waits.
    pub fn try_acquire(&mut self) -> (granted: bool)
        ensures
            granted == old(self)@.grants(),
            final(self)@ == old(self)@.acquire(),
            final(self)@.bounded(),
    {
        proof {
            use_type_invariant(&*self);
        }
        if self.available > 0 {
            self.available = self.available - 1;
            true
        } else {
            false
        }
    }

    /// Gives a slot back. The count of free slots never passes the limit.
    pub fn release(&mut self)
        ensures
            final(self)@ == old(self)@.release(),
            final(self)@.bounded(),
    {
        proof {
            use_type_invariant(&*self);
        }
        if self.available < self.max_threads {
            self.available = self.available + 1;
        }
    }

    /// The number of free slots.
    pub fn available(&self) -> (free: usize)
        ensures
            free == self@.free,
            free <= self@.capacity,
    {
        proof {
            use_type_invariant(self);
        }
        self.available
    }

    /// The limit the limiter was created with.
    pub fn max_threads(&self) -> (capacity: usize)
        ensures
            capacity == self@.capacity,
    {
        self.max_threads
    }

    /// The number of slots that are taken.
    pub fn in_use(&self) -> (taken: usize)
        ensures
            taken == self@.in_use(),
            taken <= self@.capacity,
    {
        proof {
            use_type_invariant(self);
        }
        self.max_threads - self.available
    }
}

/// Whatever the history of acquires and releases, the free slots stay between
/// zero and the limit, and the limit itself never changes.
pub proof fn law_slots_stay_bounded(start: Slots, ops: Seq<SlotOp>)
    requires
        start.bounded(),
    ensures
        start.after(ops).bounded(),
        start.after(ops).capacity == start.capacity,
        0 <= start.after(ops).in_use() <= start.capacity,
    decreases ops.len(),
{
    if ops.len() > 0 {
        law_slots_stay_bounded(start, ops.drop_last());
    }
}

/// At every moment the number of running workers is the number of slots in
/// use, and so never exceeds the limit: this holds after every history that
/// starts with an idle limiter and in which only running workers release.
pub proof fn law_running_workers_within_limit(capacity: nat, ops: Seq<SlotOp>)
    requires
        releases_paired(capacity, ops),
    ensures
        workers_running(capacity, ops) == Slots::idle(capacity).after(ops).in_use(),
        0 <= workers_running(capacity, ops) <= capacity,
    decreases ops.len(),
{
    law_slots_stay_bounded(Slots::idle(capacity), ops);
    if ops.len() > 0 {
        law_running_workers_within_limit(capacity, ops.drop_last());
        law_slots_stay_bounded(Slots::idle(capacity), ops.drop_last());
    }
}

} // verus!
