use vstd::prelude::*;
use crate::cancellation::{Cancelled, TrCancellationToken};
use crate::poll::{Poll, TrPoll};

verus! {

/// A suspendable task that may or may not be cancelled by a cancellation
/// token. The task is driven one scheduling step at a time; at every step
/// it looks at the token it is handed.
pub trait TrMayCancel: Sized {
    type MayCancelOutput;

    /// Whether the task may be stepped. A task that has ended may refuse
    /// further steps.
    spec fn pollable(&self) -> bool;

    /// Whether the task can end with `output` at its next step.
    spec fn completes(&self, output: Self::MayCancelOutput) -> bool;

    /// Whether the next step of the task, taken under a token that has
    /// (`cancelled`) or has not received the signal, can yield `p` and leave
    /// the task as `after`.
    spec fn steps(
        &self,
        cancelled: bool,
        p: Poll<Result<Self::MayCancelOutput, Cancelled>>,
        after: Self,
    ) -> bool;

    /// Takes one step of the task, as `steps` describes it for the token at
    /// hand. The task ends as a cancelled one only on a token that has
    /// received the signal by then; a task that has not ended can be stepped
    /// again.
    fn may_cancel_with<C>(&mut self, cancel: &mut C) -> (p: Poll<
        Result<Self::MayCancelOutput, Cancelled>,
    >) where C: TrCancellationToken
        requires
            old(self).pollable(),
        ensures
            old(self).steps(final(cancel).cancelled(), p, *final(self)),
            match p {
                Poll::Ready(Ok(output)) => old(self).completes(output),
                Poll::Ready(Err(_)) => final(cancel).cancelled(),
                Poll::Pending => final(self).pollable(),
            },
    ;
}

/// What one step of a piece of work under a cancellation token yields,
/// given what the work yields at that step and whether the token has
/// received the signal: the work's value whenever it is ready, else the
/// cancelled outcome if the signal was given, else nothing yet.
pub open spec fn step_under_token<T>(work: Poll<T>, cancelled: bool) -> Poll<Result<T, Cancelled>> {
    match work {
        Poll::Ready(v) => Poll::Ready(Ok(v)),
        Poll::Pending => if cancelled {
            Poll::Ready(Err(Cancelled))
        } else {
            Poll::Pending
        },
    }
}

/// A computation made cancellable: at every step the computation is stepped
/// first, and the token is looked at only when the computation is pending.
pub struct Cancellable<F> where F: TrPoll {
    work_: F,
}

impl<F> Cancellable<F> where F: TrPoll {
    pub fn new(work: F) -> (r: Self)
        ensures
            r.work() == work,
    {
        Cancellable { work_: work }
    }

    /// The computation.
    pub closed spec fn work(&self) -> F {
        self.work_
    }
}

impl<F> TrMayCancel for Cancellable<F> where F: TrPoll {
    type MayCancelOutput = F::Output;

    open spec fn pollable(&self) -> bool {
        self.work().pollable()
    }

    open spec fn completes(&self, output: F::Output) -> bool {
        self.work().outcome() == Poll::Ready(output)
    }

    open spec fn steps(
        &self,
        cancelled: bool,
        p: Poll<Result<F::Output, Cancelled>>,
        after: Self,
    ) -> bool {
        p == step_under_token(self.work().outcome(), cancelled) && after.work()
            == self.work().next()
    }

    fn may_cancel_with<C>(&mut self, cancel: &mut C) -> (p: Poll<Result<F::Output, Cancelled>>)
        where C: TrCancellationToken
        ensures
            p == step_under_token(old(self).work().outcome(), old(cancel).cancelled()),
            final(self).work() == old(self).work().next(),
            *final(cancel) == *old(cancel),
    {
        match self.work_.poll() {
            Poll::Ready(v) => Poll::Ready(Ok(v)),
            Poll::Pending => if cancel.is_cancelled() {
                Poll::Ready(Err(Cancelled))
            } else {
                Poll::Pending
            },
        }
    }
}

} // verus!
