//! The dispatcher's decisions: which outside operation comes next, given what
//! the last one brought.
//!
//! The dispatcher itself performs nothing. A driver performs the [`Action`]
//! it is handed (a timed receive, an attempt to take a slot, a sleep, the
//! start of a worker) and reports the outcome as an [`Event`]; [`Dispatcher::step`]
//! answers with the next state and the next action.
use vstd::prelude::*;

verus! {

/// How long a timed receive on the job queue waits, and how long the
/// dispatcher sleeps between two attempts to take a slot, in milliseconds.
pub const POLL_INTERVAL_MS: u64 = 100;

/// A submitted work item: the request id and the input of the job function.
#[derive(Debug, PartialEq, Eq)]
pub struct Job<A> {
    pub id: usize,
    pub input: A,
}

/// The state of the dispatcher between two outside operations.
#[derive(Debug, PartialEq, Eq)]
pub enum Dispatcher<A> {
    /// A timed receive on the job queue is under way.
    AwaitJob,
    /// A job is in hand and an attempt to take a slot is under way.
    Throttle(Job<A>),
    /// A job is in hand, no slot was free, and the dispatcher sleeps before
    /// it tries again.
    Backoff(Job<A>),
    /// A slot is taken and the worker for the job is being started.
    Dispatch,
    /// The dispatcher has stopped.
    Terminated,
}

/// The outcome of an outside operation.
#[derive(Debug, PartialEq, Eq)]
pub enum Event<A> {
    /// The timed receive brought a job.
    Received(Job<A>),
    /// The timed receive ran out of time with the queue still open.
    TimedOut,
    /// The queue is empty and every sending end is gone.
    Closed,
    /// The attempt to take a slot took one.
    Granted,
    /// The attempt to take a slot found none free.
    Denied,
    /// The sleep is over.
    Woke,
    /// The worker was started.
    Spawned,
}

/// The outside operation that the driver performs next.
#[derive(Debug, PartialEq, Eq)]
pub enum Action<A> {
    /// Receive from the job queue, waiting at most [`POLL_INTERVAL_MS`].
    Receive,
    /// Try to take a slot from the limiter, without waiting.
    Acquire,
    /// Sleep for `millis` milliseconds.
    Sleep { millis: u64 },
    /// Start a worker for the job and do not wait for it.
    Spawn(Job<A>),
    /// Leave the loop.
    Exit,
}

/// Whether `event` is an outcome of the operation that is under way in
/// `state`.
pub open spec fn expects<A>(state: Dispatcher<A>, event: Event<A>) -> bool {
    match state {
        Dispatcher::AwaitJob => event is Received || event is TimedOut || event is Closed,
        Dispatcher::Throttle(_) => event is Granted || event is Denied,
        Dispatcher::Backoff(_) => event is Woke,
        Dispatcher::Dispatch => event is Spawned,
        Dispatcher::Terminated => false,
    }
}

/// The next state and the next action. An event that the state does not
/// expect stops the dispatcher.
pub open spec fn transition<A>(state: Dispatcher<A>, event: Event<A>) -> (
    Dispatcher<A>,
    Action<A>,
) {
    match (state, event) {
        (Dispatcher::AwaitJob, Event::Received(job)) => (Dispatcher::Throttle(job), Action::Acquire),
        (Dispatcher::AwaitJob, Event::TimedOut) => (Dispatcher::AwaitJob, Action::Receive),
        (Dispatcher::AwaitJob, Event::Closed) => (Dispatcher::Terminated, Action::Exit),
        (Dispatcher::Throttle(job), Event::Granted) => (Dispatcher::Dispatch, Action::Spawn(job)),
        (Dispatcher::Throttle(job), Event::Denied) => (
            Dispatcher::Backoff(job),
            Action::Sleep { millis: POLL_INTERVAL_MS },
        ),
        (Dispatcher::Backoff(job), Event::Woke) => (Dispatcher::Throttle(job), Action::Acquire),
        (Dispatcher::Dispatch, Event::Spawned) => (Dispatcher::AwaitJob, Action::Receive),
        _ => (Dispatcher::Terminated, Action::Exit),
    }
}

/// The jobs that the dispatcher has in hand in `state`: one or none.
pub open spec fn held<A>(state: Dispatcher<A>) -> Seq<Job<A>> {
    match state {
        Dispatcher::Throttle(job) => seq![job],
        Dispatcher::Backoff(job) => seq![job],
        _ => Seq::empty(),
    }
}

/// The jobs that `event` brings: one or none.
pub open spec fn brought<A>(event: Event<A>) -> Seq<Job<A>> {
    match event {
        Event::Received(job) => seq![job],
        _ => Seq::empty(),
    }
}

/// The jobs that `action` hands to a worker: one or none.
pub open spec fn started<A>(action: Action<A>) -> Seq<Job<A>> {
    match action {
        Action::Spawn(job) => seq![job],
        _ => Seq::empty(),
    }
}

/// Whether each event of the run is expected in the state that the events
/// before it lead to.
pub open spec fn conforms<A>(state: Dispatcher<A>, events: Seq<Event<A>>) -> bool
    decreases events.len(),
{
    events.len() == 0 || (expects(state, events.first()) && conforms(
        transition(state, events.first()).0,
        events.drop_first(),
    ))
}

/// The state after a run of events.
pub open spec fn state_after<A>(state: Dispatcher<A>, events: Seq<Event<A>>) -> Dispatcher<A>
    decreases events.len(),
{
    if events.len() == 0 {
        state
    } else {
        state_after(transition(state, events.first()).0, events.drop_first())
    }
}

/// The jobs received during a run of events, in order of arrival.
pub open spec fn jobs_received<A>(events: Seq<Event<A>>) -> Seq<Job<A>>
    decreases events.len(),
{
    if events.len() == 0 {
        Seq::empty()
    } else {
        brought(events.first()) + jobs_received(events.drop_first())
    }
}

/// The jobs for which a run of events starts a worker, in order.
pub open spec fn jobs_started<A>(state: Dispatcher<A>, events: Seq<Event<A>>) -> Seq<Job<A>>
    decreases events.len(),
{
    if events.len() == 0 {
        Seq::empty()
    } else {
        started(transition(state, events.first()).1) + jobs_started(
            transition(state, events.first()).0,
            events.drop_first(),
        )
    }
}

/// The number of slots taken during a run of events.
pub open spec fn slots_granted<A>(events: Seq<Event<A>>) -> nat
    decreases events.len(),
{
    if events.len() == 0 {
        0
    } else if events.first() is Granted {
        1 + slots_granted(events.drop_first())
    } else {
        slots_granted(events.drop_first())
    }
}

impl<A> Dispatcher<A> {
    /// The dispatcher as it starts, with the first action: a receive.
    pub fn start() -> (begin: (Dispatcher<A>, Action<A>))
        ensures
            begin == (Dispatcher::<A>::AwaitJob, Action::<A>::Receive),
    {
        (Dispatcher::AwaitJob, Action::Receive)
    }

    /// Takes the outcome of the last action and gives the next state and the
    /// next action.
    pub fn step(self, event: Event<A>) -> (next: (Dispatcher<A>, Action<A>))
        ensures
            next == transition(self, event),
    {
        match self {
            Dispatcher::AwaitJob => match event {
                Event::Received(job) => (Dispatcher::Throttle(job), Action::Acquire),
                Event::TimedOut => (Dispatcher::AwaitJob, Action::Receive),
                Event::Closed => (Dispatcher::Terminated, Action::Exit),
                _ => (Dispatcher::Terminated, Action::Exit),
            },
            Dispatcher::Throttle(job) => match event {
                Event::Granted => (Dispatcher::Dispatch, Action::Spawn(job)),
                Event::Denied => (Dispatcher::Backoff(job), Action::Sleep { millis: POLL_INTERVAL_MS }),
                _ => (Dispatcher::Terminated, Action::Exit),
            },
            Dispatcher::Backoff(job) => match event {
                Event::Woke => (Dispatcher::Throttle(job), Action::Acquire),
                _ => (Dispatcher::Terminated, Action::Exit),
            },
            Dispatcher::Dispatch => match event {
                Event::Spawned => (Dispatcher::AwaitJob, Action::Receive),
                _ => (Dispatcher::Terminated, Action::Exit),
            },
            Dispatcher::Terminated => (Dispatcher::Terminated, Action::Exit),
        }
    }

    /// Whether the dispatcher has stopped.
    pub fn is_terminated(&self) -> (stopped: bool)
        ensures
            stopped == (*self is Terminated),
    {
        match self {
            Dispatcher::Terminated => true,
            _ => false,
        }
    }
}

/// One expected event keeps the books balanced: the jobs in hand before it
/// plus the job it brings are the job it starts plus the jobs in hand after
/// it. A worker is started exactly on a granted slot, and the dispatcher
/// stops only on a closed queue, with nothing in hand.
pub proof fn law_step_keeps_every_job<A>(state: Dispatcher<A>, event: Event<A>)
    requires
        expects(state, event),
    ensures
        held(state) + brought(event) == started(transition(state, event).1) + held(
            transition(state, event).0,
        ),
        transition(state, event).1 is Spawn <==> event is Granted,
        transition(state, event).0 is Terminated <==> event is Closed,
        transition(state, event).1 is Exit <==> event is Closed,
        event is Closed ==> held(state).len() == 0,
{
    let next = transition(state, event);
    assert(held(state) + brought(event) =~= started(next.1) + held(next.0));
}

/// Over a run of expected events no job is lost, repeated or reordered: the
/// jobs in hand at the start followed by the jobs received are the jobs
/// handed to workers followed by the job still in hand. Each worker started
/// stands for one slot taken.
pub proof fn law_every_job_dispatched_once<A>(state: Dispatcher<A>, events: Seq<Event<A>>)
    requires
        conforms(state, events),
    ensures
        held(state) + jobs_received(events) == jobs_started(state, events) + held(
            state_after(state, events),
        ),
        jobs_started(state, events).len() == slots_granted(events),
    decreases events.len(),
{
    if events.len() == 0 {
        assert(held(state) + jobs_received(events) =~= jobs_started(state, events) + held(
            state_after(state, events),
        ));
    } else {
        let event = events.first();
        let next = transition(state, event);
        let rest = events.drop_first();
        law_step_keeps_every_job(state, event);
        law_every_job_dispatched_once(next.0, rest);
        assert(held(state) + jobs_received(events) =~= (held(state) + brought(event))
            + jobs_received(rest));
        assert((started(next.1) + held(next.0)) + jobs_received(rest) =~= started(next.1) + (held(
            next.0,
        ) + jobs_received(rest)));
        assert(started(next.1) + (jobs_started(next.0, rest) + held(state_after(next.0, rest)))
            =~= jobs_started(state, events) + held(state_after(state, events)));
    }
}

/// A run of expected events ends in the terminal state only through a closed
/// queue, and by then every job that was in hand or received has been handed
/// to a worker. No event is expected after that.
pub proof fn law_termination_drops_nothing<A>(state: Dispatcher<A>, events: Seq<Event<A>>)
    requires
        conforms(state, events),
        state_after(state, events) is Terminated,
    ensures
        held(state) + jobs_received(events) == jobs_started(state, events),
        state is Terminated || (events.len() > 0 && events.last() is Closed),
        forall|event: Event<A>| !expects(state_after(state, events), event),
    decreases events.len(),
{
    law_every_job_dispatched_once(state, events);
    assert(jobs_started(state, events) + held(state_after(state, events)) =~= jobs_started(
        state,
        events,
    ));
    if events.len() > 0 {
        let event = events.first();
        let next = transition(state, event);
        let rest = events.drop_first();
        law_step_keeps_every_job(state, event);
        law_termination_drops_nothing(next.0, rest);
        if next.0 is Terminated {
            assert(rest.len() == 0) by {
                reveal_with_fuel(conforms, 2);
            }
            assert(events.last() == event);
        } else {
            assert(events.last() == rest.last());
        }
    }
}

} // verus!
