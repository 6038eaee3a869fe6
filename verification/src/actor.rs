//! Decisions of the actors: when a message loop stops, when an actor that
//! runs its handlers' tasks concurrently is finished, and what a promise
//! receiver yields.

use vstd::prelude::*;

verus! {

/// What a message handler asks of its actor's loop.
#[derive(Clone, Copy, PartialEq, Eq, Debug)]
pub enum ControlFlow {
    Continue,
    Stop,
}

impl ControlFlow {
    /// Whether the message loop ends after this handler outcome.
    pub fn is_stop(&self) -> (r: bool)
        ensures
            r <==> *self == ControlFlow::Stop,
    {
        match self {
            ControlFlow::Continue => false,
            ControlFlow::Stop => true,
        }
    }
}

/// Whether an actor task is finished (`Ready`) or must be polled again.
#[derive(Clone, Copy, PartialEq, Eq, Debug)]
pub enum PollState {
    Ready,
    Pending,
}

/// The state of an actor that runs the task of each message concurrently:
/// whether its mailbox was closed, and, during a poll, whether some task is
/// still pending.
pub struct ActorLoop {
    pub closed: bool,
    pub pending: bool,
}

impl ActorLoop {
    /// An actor whose mailbox is open.
    pub fn new() -> (a: Self)
        ensures
            !a.closed,
            !a.pending,
    {
        ActorLoop { closed: false, pending: false }
    }

    /// Starts a poll after the running tasks were polled; `tasks_ready`
    /// tells whether all of them finished.
    pub fn begin_poll(&mut self, tasks_ready: bool)
        ensures
            final(self).closed == old(self).closed,
            final(self).pending == !tasks_ready,
    {
        self.pending = !tasks_ready;
    }

    /// Whether the mailbox must be polled for the next message.
    pub fn wants_message(&self) -> (r: bool)
        ensures
            r == !self.closed,
    {
        !self.closed
    }

    /// A received message's task was started and polled once; `task_ready`
    /// tells whether it already finished.
    pub fn message_started(&mut self, task_ready: bool)
        ensures
            final(self).closed == old(self).closed,
            final(self).pending == (old(self).pending || !task_ready),
    {
        if !task_ready {
            self.pending = true;
        }
    }

    /// The mailbox reported that no message will come any more.
    pub fn mailbox_closed(&mut self)
        ensures
            final(self).closed,
            final(self).pending == old(self).pending,
    {
        self.closed = true;
    }

    /// The outcome of the poll once the mailbox has nothing to deliver:
    /// pending while the mailbox is open or a task is pending, finished
    /// otherwise.
    pub fn finish_poll(&self) -> (r: PollState)
        ensures
            r == PollState::Ready <==> (self.closed && !self.pending),
    {
        if !self.closed || self.pending {
            PollState::Pending
        } else {
            PollState::Ready
        }
    }
}

/// An actor is finished only when its mailbox is closed and none of the
/// tasks that the poll ran or started is pending.
pub proof fn lemma_actor_finishes_only_when_drained(a: ActorLoop, tasks_ready: bool, task_ready: bool)
    ensures
        ({
            let b = ActorLoop { closed: a.closed, pending: !tasks_ready };
            let c = ActorLoop { closed: b.closed, pending: b.pending || !task_ready };
            (c.closed && !c.pending) ==> a.closed && tasks_ready && task_ready
        }),
{
}

/// The promise's value could not be received because its sender was
/// dropped without sending.
#[derive(Clone, Copy, PartialEq, Eq, Debug)]
pub struct RecvError;

impl RecvError {
    /// The message describing the error.
    pub fn message(&self) -> (s: &'static str)
        ensures
            s@ == "channel closed"@,
    {
        "channel closed"
    }
}

/// What polling the promise's semaphore gave: a permit (the value was
/// sent), a closed semaphore (the sender was dropped), or nothing yet.
#[derive(Clone, Copy, PartialEq, Eq, Debug)]
pub enum Acquire {
    Granted,
    Closed,
    Pending,
}

/// What polling a promise receiver yields.
#[derive(Debug)]
pub enum Received<T> {
    Ready(Result<T, RecvError>),
    Pending,
}

/// The outcome of polling a promise receiver whose slot holds `value`.
pub fn receive<T: Clone>(acquire: Acquire, value: &Option<T>) -> (r: Received<T>)
    requires
        acquire == Acquire::Granted ==> value.is_some(),
    ensures
        acquire == Acquire::Pending ==> r is Pending,
        acquire == Acquire::Closed ==> r == Received::<T>::Ready(Err(RecvError)),
        acquire == Acquire::Granted ==> match r {
            Received::Ready(Ok(v)) => cloned(value.unwrap(), v),
            _ => false,
        },
{
    match acquire {
        Acquire::Granted => {
            match value {
                Some(v) => Received::Ready(Ok(v.clone())),
                None => Received::Pending,
            }
        },
        Acquire::Closed => Received::Ready(Err(RecvError)),
        Acquire::Pending => Received::Pending,
    }
}

} // verus!
