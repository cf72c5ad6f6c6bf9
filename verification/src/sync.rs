//! What the pool takes from `std::sync`, which Verus does not know: the
//! types are declared opaque, and each call stands behind a function whose
//! contract is assumed, not proved.
use crate::dispatcher::{Event, Job};
use crate::limiter::{Limiter, Slots};
use crate::store::ResultStore;
use std::sync::mpsc::{Receiver, RecvTimeoutError, SendError, Sender};
use std::sync::{Mutex, MutexGuard};
use std::time::Duration;
use vstd::prelude::*;

verus! {

#[verifier::external_type_specification]
#[verifier::external_body]
#[verifier::reject_recursive_types(T)]
pub struct ExSender<T>(Sender<T>);

#[verifier::external_type_specification]
#[verifier::external_body]
#[verifier::reject_recursive_types(T)]
pub struct ExReceiver<T>(Receiver<T>);

#[verifier::external_type_specification]
#[verifier::external_body]
#[verifier::reject_recursive_types(T)]
pub struct ExSendError<T>(SendError<T>);

#[verifier::external_type_specification]
#[verifier::external_body]
#[verifier::reject_recursive_types(T)]
pub struct ExMutex<T: ?Sized>(Mutex<T>);

#[verifier::external_type_specification]
#[verifier::external_body]
#[verifier::reject_recursive_types(T)]
pub struct ExMutexGuard<'a, T: ?Sized + 'a>(MutexGuard<'a, T>);

/// `std::sync::mpsc::channel`: a new unbounded channel, as its sending and
/// its receiving end.
#[verifier::external_body]
pub(crate) fn new_channel<T>() -> (ends: (Sender<T>, Receiver<T>)) {
    std::sync::mpsc::channel()
}

/// `Sender::send`: puts `item` on the channel without waiting. The call
/// fails, and hands the item back inside the error, when the receiving end
/// is gone. Nothing is claimed about which of the two happens.
#[verifier::external_body]
pub(crate) fn send_on<T>(queue: &Sender<T>, item: T) -> (sent: Result<(), SendError<T>>) {
    queue.send(item)
}

/// `Receiver::recv_timeout`: waits up to `wait` for a job. The three outcomes
/// of the call become the three events that answer a receive: a job, a
/// timeout, or a queue that is empty with every sending end gone. Nothing is
/// claimed about which of them comes.
#[verifier::external_body]
pub(crate) fn receive_within<A>(queue: &Receiver<Job<A>>, wait: Duration) -> (event: Event<A>)
    ensures
        event is Received || event is TimedOut || event is Closed,
{
    match queue.recv_timeout(wait) {
        Ok(job) => Event::Received(job),
        Err(RecvTimeoutError::Timeout) => Event::TimedOut,
        Err(RecvTimeoutError::Disconnected) => Event::Closed,
    }
}

/// `Duration::from_millis`: a span of `millis` milliseconds.
#[verifier::external_body]
pub(crate) fn span_of_millis(millis: u64) -> (span: Duration) {
    Duration::from_millis(millis)
}

/// The slots of the limiter that a limiter's lock was made around. This is
/// what the lock held when it was new, not what it holds now.
pub uninterp spec fn limiter_made_with(lock: Mutex<Limiter>) -> Slots;

/// `Mutex::new`, once for each of the pool's two locks: a lock around
/// `store` and a lock around `limiter`. The limiter's lock was made around
/// `limiter`, which is all that is claimed.
#[verifier::external_body]
pub(crate) fn new_locks<B>(store: ResultStore<B>, limiter: Limiter) -> (locks: (
    Mutex<ResultStore<B>>,
    Mutex<Limiter>,
))
    ensures
        limiter_made_with(locks.1) == limiter@,
{
    (Mutex::new(store), Mutex::new(limiter))
}

/// `Mutex::lock`: waits for the lock and gives the guard, or `None` when the
/// lock is poisoned. Nothing is claimed about the value behind the guard:
/// other threads may have changed it.
///
/// `Mutex::lock` may panic or never return when the calling thread holds the
/// same lock already. No contract can speak of what a thread holds, so the
/// crate rules it out by how it is built: every mutex it locks is in a
/// private field and no guard leaves the function that took it. While it
/// holds a guard, such a function takes no other lock, calls neither the job
/// nor a hook, and drops no output: an output that leaves the store is handed
/// out of the function, so that its destructor runs after the guard is gone.
#[verifier::external_body]
pub(crate) fn lock<'a, T>(mutex: &'a Mutex<T>) -> (guard: Option<MutexGuard<'a, T>>) {
    mutex.lock().ok()
}

/// `DerefMut::deref_mut` of a `MutexGuard`: the value that the lock protects,
/// for as long as the guard is borrowed.
#[verifier::external_body]
pub(crate) fn protected<'a, 'b, T>(guard: &'a mut MutexGuard<'b, T>) -> (value: &'a mut T) {
    std::ops::DerefMut::deref_mut(guard)
}

} // verus!
