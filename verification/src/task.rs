//! The worker task's decisions: in which order a worker does its three
//! operations, and on what.
//!
//! Like the dispatcher, the task performs nothing itself. Whoever runs the
//! worker computes the output, stores it and releases the slot when asked to,
//! and reports each operation as a [`TaskEvent`]; [`Task::step`] answers with
//! the next stage and the next operation.
use crate::dispatcher::Job;
use vstd::prelude::*;

verus! {

/// The stage of a worker between two of its operations.
#[derive(Debug, Clone, Copy, PartialEq, Eq)]
pub enum Task {
    /// The job function and the hook are running for the request with this
    /// id.
    Computing(usize),
    /// The output is being stored.
    Storing,
    /// The slot is being given back.
    Releasing,
    /// The worker is done.
    Finished,
}

/// The outcome of one operation of a worker.
#[derive(Debug, PartialEq, Eq)]
pub enum TaskEvent<B> {
    /// The job function and the hook have produced this output.
    Computed(B),
    /// The attempt to store the output is over.
    Stored,
    /// The attempt to give the slot back is over.
    Released,
}

/// The operation that a worker performs next.
#[derive(Debug, PartialEq, Eq)]
pub enum TaskAction<B> {
    /// Store `output` as the result of request `id`.
    Store { id: usize, output: B },
    /// Give the slot back to the limiter.
    Release,
    /// Nothing is left to do.
    Finish,
}

impl Task {
    /// Whether `event` is an outcome of the operation that is under way in
    /// this stage.
    pub open spec fn expects<B>(self, event: TaskEvent<B>) -> bool {
        match self {
            Task::Computing(_) => event is Computed,
            Task::Storing => event is Stored,
            Task::Releasing => event is Released,
            Task::Finished => false,
        }
    }

    /// The next stage and the next operation. An event that the stage does
    /// not expect ends the task.
    pub open spec fn after<B>(self, event: TaskEvent<B>) -> (Task, TaskAction<B>) {
        match (self, event) {
            (Task::Computing(id), TaskEvent::Computed(output)) => (
                Task::Storing,
                TaskAction::Store { id, output },
            ),
            (Task::Storing, TaskEvent::Stored) => (Task::Releasing, TaskAction::Release),
            (Task::Releasing, TaskEvent::Released) => (Task::Finished, TaskAction::Finish),
            _ => (Task::Finished, TaskAction::Finish),
        }
    }

    /// The number of operations that a worker in this stage has yet to
    /// perform.
    pub open spec fn operations_left(self) -> nat {
        match self {
            Task::Computing(_) => 3,
            Task::Storing => 2,
            Task::Releasing => 1,
            Task::Finished => 0,
        }
    }

    /// The task of a worker that was started for `job`, and the input on
    /// which it computes first.
    pub fn start<A>(job: Job<A>) -> (begin: (Task, A))
        ensures
            begin == (Task::Computing(job.id), job.input),
    {
        (Task::Computing(job.id), job.input)
    }

    /// Takes the outcome of the last operation and gives the next stage and
    /// the next operation.
    pub fn step<B>(self, event: TaskEvent<B>) -> (next: (Task, TaskAction<B>))
        ensures
            next == self.after(event),
    {
        match self {
            Task::Computing(id) => match event {
                TaskEvent::Computed(output) => (Task::Storing, TaskAction::Store { id, output }),
                _ => (Task::Finished, TaskAction::Finish),
            },
            Task::Storing => match event {
                TaskEvent::Stored => (Task::Releasing, TaskAction::Release),
                _ => (Task::Finished, TaskAction::Finish),
            },
            Task::Releasing => (Task::Finished, TaskAction::Finish),
            Task::Finished => (Task::Finished, TaskAction::Finish),
        }
    }
}

/// A worker stores before it releases, and does each once. A store is asked
/// for only when the output has been computed, and it carries the id of the
/// worker's job and that output unchanged; a release is asked for only when
/// the store is over; every step that asks for an operation leaves fewer
/// operations to do.
pub proof fn law_task_step_keeps_the_order<B>(stage: Task, event: TaskEvent<B>)
    ensures
        stage.after(event).1 is Store <==> stage is Computing && event is Computed,
        stage.after(event).1 is Release <==> stage is Storing && event is Stored,
        stage matches Task::Computing(id) ==> (event matches TaskEvent::Computed(output)
            ==> stage.after(event).1 == (TaskAction::Store { id, output })),
        !(stage.after(event).1 is Finish) ==> stage.after(event).0.operations_left()
            < stage.operations_left(),
        stage.after(event).1 is Finish ==> stage.after(event).0 is Finished,
{
}

/// The whole run of a worker for request `id` whose job produces `output`:
/// it is asked to store `output` under `id`, then to release its slot, then
/// to finish, and each event on the way is the expected one.
pub proof fn law_task_runs_store_release_finish<B>(id: usize, output: B)
    ensures
        ({
            let computing = Task::Computing(id);
            let stored = computing.after(TaskEvent::Computed(output));
            let released = stored.0.after(TaskEvent::<B>::Stored);
            let finished = released.0.after(TaskEvent::<B>::Released);
            &&& computing.expects(TaskEvent::Computed(output))
            &&& stored == (Task::Storing, TaskAction::Store { id, output })
            &&& stored.0.expects(TaskEvent::<B>::Stored)
            &&& released == (Task::Releasing, TaskAction::<B>::Release)
            &&& released.0.expects(TaskEvent::<B>::Released)
            &&& finished == (Task::Finished, TaskAction::<B>::Finish)
        }),
{
}

} // verus!
