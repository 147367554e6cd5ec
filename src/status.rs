use vstd::prelude::*;

use crate::errors::{batch_cause, cli_error_of, cli_result_of, BatchError, CLIErrors};

verus! {

/// A status subcommand: the status of one or more batches, described by
/// arguments that only the batch query reads, or the status of the L1 chain.
#[derive(Debug, Clone, PartialEq, Eq)]
pub enum StatusCommand<A> {
    Batch(A),
    L1,
}

/// One of the two status queries that a dispatch can hand work to.
#[derive(PartialEq, Eq, Structural, Clone, Copy, Debug)]
pub enum Collaborator {
    Batch,
    L1,
}

/// The call that a dispatch asks its caller to make: the batch query with
/// the command's arguments, or the L1 query with none.
#[derive(Debug, Clone, PartialEq, Eq)]
pub enum Request<A> {
    Batch(A),
    L1,
}

/// What the caller hands back to a running dispatch: the result of the batch
/// query, the result of the L1 query, or word that the call was cancelled.
#[derive(Debug, PartialEq, Eq)]
pub enum Event {
    BatchDone(Result<(), BatchError>),
    L1Done(Result<(), CLIErrors>),
    Cancelled,
}

/// Where a dispatch stands: waiting on one collaborator, completed with its
/// result, or cancelled before the collaborator answered.
#[derive(Debug, PartialEq, Eq)]
pub enum Dispatch {
    Running(Collaborator),
    Completed(Result<(), CLIErrors>),
    Cancelled,
}

impl<A> StatusCommand<A> {
    /// The one call that this command stands for.
    pub open spec fn request(self) -> Request<A> {
        match self {
            StatusCommand::Batch(args) => Request::Batch(args),
            StatusCommand::L1 => Request::L1,
        }
    }

    /// The state of a dispatch of this command that has just begun: waiting
    /// on the collaborator that its call goes to.
    pub open spec fn started(self) -> Dispatch {
        Dispatch::Running(self.request().collaborator())
    }

    /// Begins the dispatch of this command: returns the running state and the
    /// one call that the caller must make, with the batch arguments unchanged.
    pub fn start(self) -> (r: (Dispatch, Request<A>))
        ensures
            r.1 == self.request(),
            r.0 == self.started(),
    {
        match self {
            StatusCommand::Batch(args) => (Dispatch::Running(Collaborator::Batch), Request::Batch(args)),
            StatusCommand::L1 => (Dispatch::Running(Collaborator::L1), Request::L1),
        }
    }
}

impl<A> Request<A> {
    /// The collaborator that this call goes to.
    pub open spec fn collaborator(self) -> Collaborator {
        match self {
            Request::Batch(_) => Collaborator::Batch,
            Request::L1 => Collaborator::L1,
        }
    }
}

impl Event {
    /// The collaborator that answered, if one did.
    pub open spec fn source(self) -> Option<Collaborator> {
        match self {
            Event::BatchDone(_) => Some(Collaborator::Batch),
            Event::L1Done(_) => Some(Collaborator::L1),
            Event::Cancelled => None,
        }
    }
}

impl Dispatch {
    /// The state that an event leads to. Only a running dispatch moves: the
    /// answer of the collaborator it waits on completes it, a cancellation
    /// cancels it, and anything else leaves it as it is.
    pub open spec fn next(self, ev: Event) -> Dispatch {
        match self {
            Dispatch::Running(c) => match ev {
                Event::Cancelled => Dispatch::Cancelled,
                Event::BatchDone(res) => if c == Collaborator::Batch {
                    Dispatch::Completed(cli_result_of(res))
                } else {
                    self
                },
                Event::L1Done(res) => if c == Collaborator::L1 {
                    Dispatch::Completed(res)
                } else {
                    self
                },
            },
            _ => self,
        }
    }

    /// The result of the dispatch, once it has completed.
    pub open spec fn result(self) -> Option<Result<(), CLIErrors>> {
        match self {
            Dispatch::Completed(r) => Some(r),
            _ => None,
        }
    }

    /// Takes the caller's event into account.
    pub fn step(self, ev: Event) -> (r: Dispatch)
        ensures
            r == self.next(ev),
    {
        match self {
            Dispatch::Running(c) => match ev {
                Event::Cancelled => Dispatch::Cancelled,
                Event::BatchDone(res) => {
                    if c == Collaborator::Batch {
                        match res {
                            Ok(()) => Dispatch::Completed(Ok(())),
                            Err(e) => Dispatch::Completed(Err(CLIErrors::from(e))),
                        }
                    } else {
                        Dispatch::Running(c)
                    }
                },
                Event::L1Done(res) => {
                    if c == Collaborator::L1 {
                        Dispatch::Completed(res)
                    } else {
                        Dispatch::Running(c)
                    }
                },
            },
            _ => self,
        }
    }

    /// The result of the dispatch, once it has completed; `None` while it
    /// runs and after a cancellation.
    pub fn into_outcome(self) -> (r: Option<Result<(), CLIErrors>>)
        ensures
            r == self.result(),
    {
        match self {
            Dispatch::Completed(res) => Some(res),
            _ => None,
        }
    }
}

/// A batch command hands its arguments, unchanged, to the batch query, and
/// makes no other call: the dispatch waits on the batch query alone.
pub proof fn lemma_batch_forwards_args<A>(args: A)
    ensures
        StatusCommand::Batch(args).request() == Request::Batch(args),
        StatusCommand::Batch(args).request().collaborator() == Collaborator::Batch,
{
}

/// An L1 command makes the one call of the L1 query, with no arguments, and
/// the dispatch waits on the L1 query alone.
pub proof fn lemma_l1_calls_l1_query<A>()
    ensures
        StatusCommand::<A>::L1.request() == Request::<A>::L1,
        StatusCommand::<A>::L1.request().collaborator() == Collaborator::L1,
{
}

/// A dispatch involves one collaborator only: it completes only on the answer
/// of the collaborator its command called, and once completed or cancelled
/// no later event changes it.
pub proof fn lemma_one_collaborator_per_run<A>(cmd: StatusCommand<A>, ev: Event, later: Event)
    ensures
        cmd.started().next(ev) is Completed ==> ev.source() == Some(cmd.request().collaborator()),
        cmd.started().next(ev) !is Running ==> cmd.started().next(ev).next(later)
            == cmd.started().next(ev),
{
}

/// A failure of the batch query comes out of a batch dispatch as the error
/// that reports exactly that failure.
pub proof fn lemma_batch_failure_passed_through<A>(args: A, e: BatchError)
    ensures
        StatusCommand::Batch(args).started().next(Event::BatchDone(Err(e))).result()
            == Some(Err::<(), CLIErrors>(cli_error_of(e))),
        batch_cause(cli_error_of(e)) == Some(e),
{
}

/// Whatever the L1 query answers, success or error, is the result of an L1
/// dispatch; in particular success gives success.
pub proof fn lemma_l1_result_passed_through<A>(res: Result<(), CLIErrors>)
    ensures
        StatusCommand::<A>::L1.started().next(Event::L1Done(res)).result() == Some(res),
        StatusCommand::<A>::L1.started().next(Event::L1Done(Ok(()))).result()
            == Some(Ok::<(), CLIErrors>(())),
{
}

/// Two L1 dispatches carry nothing from one to the other: each one's result
/// is the answer its own L1 query gave.
pub proof fn lemma_l1_runs_independent<A>(
    first: StatusCommand<A>,
    second: StatusCommand<A>,
    first_res: Result<(), CLIErrors>,
    second_res: Result<(), CLIErrors>,
)
    requires
        first is L1,
        second is L1,
    ensures
        first.started().next(Event::L1Done(first_res)).result() == Some(first_res),
        second.started().next(Event::L1Done(second_res)).result() == Some(second_res),
{
}

/// A cancelled dispatch never reports success: it has no result, and no
/// later event gives it one.
pub proof fn lemma_cancelled_never_ok<A>(cmd: StatusCommand<A>, later: Event)
    ensures
        cmd.started().next(Event::Cancelled) is Cancelled,
        cmd.started().next(Event::Cancelled).next(later).result() is None,
{
}

} // verus!
