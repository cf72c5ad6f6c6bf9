//! The client handle, and the operations that the dispatcher's driver and the
//! workers perform on what the pool shares: the job queue, the limiter and
//! the result store.
use crate::dispatcher::{Event, Job, POLL_INTERVAL_MS};
use crate::limiter::{Limiter, Slots};
use crate::store::{lookup, ResultStore};
use crate::task::{Task, TaskAction, TaskEvent};
use crate::sync::{
    limiter_made_with, lock, new_channel, new_locks, protected, receive_within, send_on,
    span_of_millis,
};
use std::sync::mpsc::{Receiver, SendError, Sender};
use std::sync::{Arc, Mutex};
use vstd::prelude::*;

verus! {

/// Why a submission was not accepted.
#[derive(Debug, Clone, Copy, PartialEq, Eq, Structural)]
pub enum SubmissionError {
    /// The dispatcher has stopped: no further work will be processed.
    PoolClosed,
}

/// What handing out one id does to the counter `next`: the id is the counter
/// and the counter moves on by one.
pub open spec fn allocate(next: nat) -> (nat, nat) {
    (next, next + 1)
}

/// The ids of `count` submissions one after the other, starting with the
/// counter at `next`.
pub open spec fn ids_issued(next: nat, count: nat) -> Seq<nat>
    decreases count,
{
    if count == 0 {
        Seq::empty()
    } else {
        seq![allocate(next).0] + ids_issued(allocate(next).1, (count - 1) as nat)
    }
}

/// What a submission returns for the id it allocated: the id if the job
/// queue took the job, and `PoolClosed` if the queue refused it.
pub fn submission_result<T>(id: usize, sent: Result<(), SendError<T>>) -> (outcome: Result<
    usize,
    SubmissionError,
>)
    ensures
        outcome == if sent is Ok {
            Ok::<usize, SubmissionError>(id)
        } else {
            Err::<usize, SubmissionError>(SubmissionError::PoolClosed)
        },
{
    match sent {
        Ok(_) => Ok(id),
        Err(_) => Err(SubmissionError::PoolClosed),
    }
}

/// What the dispatcher shares with its workers: the result store and the
/// limiter, each behind a lock of its own. The locks stay inside this crate:
/// no guard is handed out, and no function of the crate holds one while it
/// takes another or runs a caller's code.
#[verifier::reject_recursive_types(B)]
pub struct WorkerSide<B> {
    results: Arc<Mutex<ResultStore<B>>>,
    limiter: Arc<Mutex<Limiter>>,
}

/// The dispatcher's side of a pool: the receiving end of the job queue, and
/// what it shares with its workers.
#[verifier::reject_recursive_types(A)]
#[verifier::reject_recursive_types(B)]
pub struct PoolParts<A, B> {
    pub queue: Receiver<Job<A>>,
    pub side: WorkerSide<B>,
}

/// Creates what a pool with `max_threads` slots consists of: an empty job
/// queue, an empty result store and an idle limiter. Returns the client
/// handle, whose first id is zero, and the dispatcher's side. The limiter
/// starts with all `max_threads` slots free, and the handle takes results
/// from the store that the workers store into. The handle is the only
/// sending end of the queue, so the queue closes when the handle is dropped.
pub fn open_pool<A, B>(max_threads: usize) -> (pool: (WorkerChannel<A, B>, PoolParts<A, B>))
    requires
        max_threads > 0,
    ensures
        pool.0.upcoming() == 0,
        pool.1.side.slots_at_start() == Slots::idle(max_threads as nat),
        pool.0.store_lock() == pool.1.side.store_lock(),
{
    let (sender, receiver) = new_channel::<Job<A>>();
    let (store, slots) = new_locks(ResultStore::new(), Limiter::new(max_threads));
    let results = Arc::new(store);
    let limiter = Arc::new(slots);
    let handle = WorkerChannel { queue: sender, results: results.clone(), next_id: 0 };
    (handle, PoolParts { queue: receiver, side: WorkerSide { results, limiter } })
}

/// The handle through which callers submit inputs and take results.
#[verifier::reject_recursive_types(A)]
#[verifier::reject_recursive_types(B)]
pub struct WorkerChannel<A, B> {
    queue: Sender<Job<A>>,
    results: Arc<Mutex<ResultStore<B>>>,
    next_id: usize,
}

impl<A, B> WorkerChannel<A, B> {
    /// The id that the next submission gets.
    pub closed spec fn upcoming(&self) -> nat {
        self.next_id as nat
    }

    /// The sending end of the job queue that this handle submits to.
    pub closed spec fn queue_end(&self) -> Sender<Job<A>> {
        self.queue
    }

    /// The lock, and behind it the store, that this handle takes results
    /// from.
    pub closed spec fn store_lock(&self) -> Arc<Mutex<ResultStore<B>>> {
        self.results
    }

    /// The id that the next submission gets.
    pub fn next_id(&self) -> (id: usize)
        ensures
            id == self.upcoming(),
    {
        self.next_id
    }

    /// Submits `params`: puts the job that [`next_job`](Self::next_job) makes
    /// on the queue, without waiting for a free slot. Returns the job's id,
    /// or `PoolClosed` when the dispatcher has stopped and the queue no
    /// longer takes jobs. The id is used up either way.
    pub fn send(&mut self, params: A) -> (outcome: Result<usize, SubmissionError>)
        requires
            old(self).upcoming() < usize::MAX,
        ensures
            final(self).upcoming() == allocate(old(self).upcoming()).1,
            outcome matches Ok(id) ==> id == allocate(old(self).upcoming()).0,
            outcome matches Err(error) ==> error == SubmissionError::PoolClosed,
            final(self).queue_end() == old(self).queue_end(),
            final(self).store_lock() == old(self).store_lock(),
    {
        let job = self.next_job(params);
        let id = job.id;
        let sent = send_on(&self.queue, job);
        submission_result(id, sent)
    }

    /// Allocates the next id and makes the job that a submission of `params`
    /// puts on the queue: it carries that id and `params` unchanged. Only the
    /// counter moves; the handle keeps its queue and its store.
    pub fn next_job(&mut self, params: A) -> (job: Job<A>)
        requires
            old(self).upcoming() < usize::MAX,
        ensures
            job.id == allocate(old(self).upcoming()).0,
            job.input == params,
            final(self).upcoming() == allocate(old(self).upcoming()).1,
            final(self).queue_end() == old(self).queue_end(),
            final(self).store_lock() == old(self).store_lock(),
    {
        let id = self.next_id;
        self.next_id = id + 1;
        Job { id, input: params }
    }

    /// Takes the result of request `res_id` out of the store. For an id that
    /// this handle has not issued the answer is `None`, and the store is not
    /// touched. For an issued id it is what [`take_locked`] gives on the
    /// store as it stands when the lock is won: `None` while the job has not
    /// finished and after the result was taken once. A poisoned lock is
    /// treated as an absent result. Never waits for a job.
    ///
    /// The store is shared with the workers, so the contract cannot say
    /// what the store holds when the lock is won; [`take_locked`] says what is
    /// returned for each store.
    pub fn get(&self, res_id: usize) -> (output: Option<B>)
        ensures
            res_id >= self.upcoming() ==> output is None,
    {
        if res_id >= self.next_id {
            return None;
        }
        let mut guard = lock(&*self.results);
        let store = match &mut guard {
            Some(held) => Some(protected(held)),
            None => None,
        };
        take_locked(store, res_id)
    }
}

/// What taking the result of request `id` gives once the store's lock has
/// answered. `store` is the store as the lock gave it, or `None` where the
/// lock is poisoned. From a store the result is what [`ResultStore::take`]
/// gives, and the entry is gone afterwards; a poisoned lock gives an absent
/// result.
pub fn take_locked<B>(store: Option<&mut ResultStore<B>>, id: usize) -> (output: Option<B>)
    ensures
        match store {
            Some(held) => output == lookup(held@, id) && final(held)@ == held@.remove(id),
            None => output is None,
        },
{
    match store {
        Some(held) => held.take(id),
        None => None,
    }
}

/// Ids of successive submissions are strictly increasing, hence unique, and
/// none is below the counter that the first submission found.
pub proof fn law_ids_strictly_increase(next: nat, count: nat)
    ensures
        ids_issued(next, count).len() == count,
        forall|i: int| 0 <= i < count ==> #[trigger] ids_issued(next, count)[i] == next + i,
        forall|i: int, j: int|
            0 <= i < j < count ==> #[trigger] ids_issued(next, count)[i] < #[trigger] ids_issued(
                next,
                count,
            )[j],
    decreases count,
{
    if count > 0 {
        law_ids_strictly_increase(allocate(next).1, (count - 1) as nat);
    }
}

/// A new id collides with no result. If every result in the store belongs to
/// an id issued so far, nothing is held under the id of the next submission
/// until its own output is stored, that output is then what a lookup of the id
/// gives, and the store still holds results of issued ids only.
pub proof fn law_new_id_has_no_result<B>(held: Map<usize, B>, next: nat, id: usize, output: B)
    requires
        forall|known: usize| held.contains_key(known) ==> known < next,
        id == allocate(next).0,
    ensures
        lookup(held, id) is None,
        lookup(held.insert(id, output), id) == Some(output),
        forall|known: usize| #[trigger]
            held.insert(id, output).contains_key(known) ==> known < allocate(next).1,
{
}

/// Waits for a job on the queue for at most [`POLL_INTERVAL_MS`] and reports
/// what came: a job, a timeout, or the closure of the queue. Which of them
/// comes is up to the senders and the clock; whatever comes answers a
/// receive, and [`Dispatcher::step`](crate::dispatcher::Dispatcher::step)
/// says what follows from each.
pub fn await_job<A>(queue: &Receiver<Job<A>>) -> (event: Event<A>)
    ensures
        event is Received || event is TimedOut || event is Closed,
{
    receive_within(queue, span_of_millis(POLL_INTERVAL_MS))
}

/// Tries once to take a slot from the pool's limiter and reports whether it
/// got one: what [`poll_locked`] gives on the limiter as it stands when the
/// lock is won. A poisoned lock counts as no slot.
///
/// The limiter is shared with the workers, so the contract cannot say how
/// many slots are free when the lock is won; [`poll_locked`] says what is
/// reported for each limiter.
pub fn acquire_slot<A, B>(parts: &PoolParts<A, B>) -> (event: Event<A>)
    ensures
        event is Granted || event is Denied,
{
    let mut guard = lock(&*parts.side.limiter);
    let slots = match &mut guard {
        Some(held) => Some(protected(held)),
        None => None,
    };
    poll_locked(slots)
}

/// What one attempt to take a slot reports once the limiter's lock has
/// answered. `limiter` is the limiter as the lock gave it, or `None` where
/// the lock is poisoned. On a limiter the attempt is
/// [`Limiter::try_acquire`]: `Granted` exactly when a slot was free, which is
/// then taken. A poisoned lock gives `Denied`.
pub fn poll_locked<A>(limiter: Option<&mut Limiter>) -> (event: Event<A>)
    ensures
        match limiter {
            Some(slots) => {
                &&& event == if slots@.grants() {
                    Event::<A>::Granted
                } else {
                    Event::<A>::Denied
                }
                &&& final(slots)@ == slots@.acquire()
            },
            None => event == Event::<A>::Denied,
        },
{
    match limiter {
        Some(slots) => {
            if slots.try_acquire() {
                Event::Granted
            } else {
                Event::Denied
            }
        },
        None => Event::Denied,
    }
}

/// What storing an output does once the store's lock has answered. `store`
/// is the store as the lock gave it, or `None` where the lock is poisoned.
/// A store then holds `output` under `id`, and the output that it held under
/// `id` before, if any, is returned. With a poisoned lock nothing is stored
/// and `output` itself is returned. Whatever is returned is no longer
/// needed; it is handed out so that the caller drops it after the lock is
/// free.
pub fn store_locked<B>(store: Option<&mut ResultStore<B>>, id: usize, output: B) -> (unused:
    Option<B>)
    ensures
        match store {
            Some(held) => final(held)@ == held@.insert(id, output) && unused == lookup(held@, id),
            None => unused == Some(output),
        },
{
    match store {
        Some(held) => held.insert(id, output),
        None => Some(output),
    }
}

/// What giving a slot back does once the limiter's lock has answered.
/// `limiter` is the limiter as the lock gave it, or `None` where the lock is
/// poisoned. A limiter then has one more free slot, up to its limit.
pub fn release_locked(limiter: Option<&mut Limiter>)
    ensures
        match limiter {
            Some(slots) => final(slots)@ == slots@.release(),
            None => true,
        },
{
    match limiter {
        Some(slots) => {
            slots.release();
        },
        None => {},
    }
}

/// What a count of the free slots gives once the limiter's lock has
/// answered: the count, or `None` where the lock is poisoned.
pub fn free_slots_locked(limiter: Option<&Limiter>) -> (free: Option<usize>)
    ensures
        match limiter {
            Some(slots) => free matches Some(count) && count == slots@.free,
            None => free is None,
        },
{
    match limiter {
        Some(slots) => Some(slots.available()),
        None => None,
    }
}

/// What a count of the results that wait to be taken gives once the store's
/// lock has answered: the count, or `None` where the lock is poisoned.
pub fn results_held_locked<B>(store: Option<&ResultStore<B>>) -> (held: Option<usize>)
    ensures
        match store {
            Some(results) => held matches Some(count) && count == results@.len(),
            None => held is None,
        },
{
    match store {
        Some(results) => Some(results.len()),
        None => None,
    }
}

impl<B> WorkerSide<B> {
    /// The lock, and behind it the store, that workers store into.
    pub closed spec fn store_lock(&self) -> Arc<Mutex<ResultStore<B>>> {
        self.results
    }

    /// The lock, and behind it the limiter, that workers give their slots
    /// back to.
    pub closed spec fn limiter_lock(&self) -> Arc<Mutex<Limiter>> {
        self.limiter
    }

    /// The slots of the limiter as the pool was opened with it.
    pub closed spec fn slots_at_start(&self) -> Slots {
        limiter_made_with(*self.limiter)
    }

    /// Another handle on the same store and the same limiter, for a worker
    /// to take along.
    pub fn share(&self) -> (other: WorkerSide<B>)
        ensures
            other == *self,
    {
        WorkerSide { results: self.results.clone(), limiter: self.limiter.clone() }
    }

    /// The number of free slots as the limiter stands when its lock is won:
    /// what [`free_slots_locked`] gives. `None` for a poisoned lock.
    pub fn free_slots(&self) -> (free: Option<usize>) {
        let mut guard = lock(&*self.limiter);
        let slots = match &mut guard {
            Some(held) => Some(&*protected(held)),
            None => None,
        };
        free_slots_locked(slots)
    }

    /// The number of results that wait to be taken as the store stands when
    /// its lock is won: what [`results_held_locked`] gives. `None` for a
    /// poisoned lock.
    pub fn results_held(&self) -> (held: Option<usize>) {
        let mut guard = lock(&*self.results);
        let store = match &mut guard {
            Some(held) => Some(&*protected(held)),
            None => None,
        };
        results_held_locked(store)
    }

    /// Takes the result of request `id` out of the store, whoever issued the
    /// id: what [`take_locked`] gives on the store as it stands when the lock
    /// is won. Results outlive the client handle, and this is how they are
    /// still reached.
    pub fn take_result(&self, id: usize) -> (output: Option<B>) {
        let mut guard = lock(&*self.results);
        let store = match &mut guard {
            Some(held) => Some(protected(held)),
            None => None,
        };
        take_locked(store, id)
    }

    /// Stores `output` under `id`: [`store_locked`] on the store as it stands
    /// when the lock is won. The lock is free again on return, and the output
    /// that was not kept is returned for the caller to drop.
    fn store(&self, id: usize, output: B) -> (unused: Option<B>) {
        let mut guard = lock(&*self.results);
        let store = match &mut guard {
            Some(held) => Some(protected(held)),
            None => None,
        };
        store_locked(store, id, output)
    }

    /// Gives one slot back: [`release_locked`] on the limiter as it stands
    /// when the lock is won. The lock is free again on return.
    fn release(&self) {
        let mut guard = lock(&*self.limiter);
        let slots = match &mut guard {
            Some(held) => Some(protected(held)),
            None => None,
        };
        release_locked(slots);
    }
}

/// Runs a worker for one job. `work` is the job function followed by the
/// hook. The worker computes the output and then does what its [`Task`] asks
/// for, in that order: it stores the output under the job's id, gives its
/// slot back, and finishes. The two locks are taken one after the other,
/// never together; a poisoned lock makes its step a no-op.
pub fn run_worker<A, B, W: Fn(A) -> B>(work: &W, job: Job<A>, side: &WorkerSide<B>)
    requires
        call_requires(*work, (job.input,)),
{
    let (mut stage, input) = Task::start(job);
    let mut event = TaskEvent::Computed(work(input));
    loop
        decreases stage.operations_left(),
    {
        let (next, action) = stage.step(event);
        match action {
            TaskAction::Store { id, output } => {
                // What the store did not keep is dropped at the end of this
                // arm, when the store's lock is free again.
                let _unused = side.store(id, output);
                event = TaskEvent::Stored;
            },
            TaskAction::Release => {
                side.release();
                event = TaskEvent::Released;
            },
            TaskAction::Finish => {
                break;
            },
        }
        stage = next;
    }
}

} // verus!
