use vstd::prelude::*;
use crate::cancellation::{Cancelled, NonCancellableToken};
use crate::may_cancel::TrMayCancel;
use crate::poll::Poll;

verus! {

/// What a step that yields `p` to a caller without a token had yielded
/// under the token: the same, as a success.
pub open spec fn as_success<T>(p: Poll<T>) -> Poll<Result<T, Cancelled>> {
    match p {
        Poll::Ready(output) => Poll::Ready(Ok(output)),
        Poll::Pending => Poll::Pending,
    }
}

/// Drives a task that may be cancelled under a token that never receives
/// the signal, for callers that have no need to cancel: what the task ends
/// with is handed out as it is, with no cancelled outcome beside it.
pub struct NeverCancelAsync<T> where T: TrMayCancel {
    task_: T,
}

impl<T> NeverCancelAsync<T> where T: TrMayCancel {
    pub fn new(task: T) -> (r: Self)
        ensures
            r.task() == task,
    {
        NeverCancelAsync { task_: task }
    }

    /// The task that is driven.
    pub closed spec fn task(&self) -> T {
        self.task_
    }

    /// Takes one step of the task, the step that the task takes under a
    /// token that has not received the signal, and hands out what the step
    /// yields: the plain value where the task has ended, nothing yet where
    /// it has not. A task that has not ended can be stepped again.
    pub fn run_without_cancel(&mut self) -> (p: Poll<T::MayCancelOutput>)
        requires
            old(self).task().pollable(),
        ensures
            old(self).task().steps(false, as_success(p), final(self).task()),
            match p {
                Poll::Ready(output) => old(self).task().completes(output),
                Poll::Pending => final(self).task().pollable(),
            },
    {
        let mut cancel = NonCancellableToken::new();
        match self.task_.may_cancel_with(&mut cancel) {
            Poll::Ready(Ok(output)) => Poll::Ready(output),
            Poll::Ready(Err(_)) => vstd::pervasive::unreached(),
            Poll::Pending => Poll::Pending,
        }
    }
}

} // verus!
