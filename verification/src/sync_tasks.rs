use vstd::prelude::*;
use crate::cancellation::{Cancelled, NonCancellableToken, TrCancellationToken};

verus! {

/// A piece of blocking work that gives up when its cancellation token
/// receives the signal.
pub trait TrSyncTask: Sized {
    type MayCancelOutput: Sized;

    /// Whether the work can end with `output`.
    spec fn completes(&self, output: Self::MayCancelOutput) -> bool;

    /// Does the work. It is given up only on a token that has received the
    /// signal by then.
    fn may_cancel_with<C>(self, cancel: &mut C) -> (r: Result<Self::MayCancelOutput, Cancelled>)
        where C: TrCancellationToken,

        ensures
            match r {
                Ok(output) => self.completes(output),
                Err(_) => final(cancel).cancelled(),
            },
    ;

    /// Does the work under a token that never receives the signal.
    fn wait(self) -> (output: Self::MayCancelOutput)
        ensures
            self.completes(output),
    {
        let mut cancel = NonCancellableToken::new();
        let r = self.may_cancel_with(&mut cancel);
        match r {
            Ok(t) => t,
            Err(_) => vstd::pervasive::unreached(),
        }
    }
}

/// Work that is done already.
pub struct CompletedSyncTask<T>(T);

impl<T> CompletedSyncTask<T> {
    pub fn new(value: T) -> (r: Self)
        ensures
            r.value() == value,
    {
        Self(value)
    }

    /// The value that the work ended with.
    pub closed spec fn value(&self) -> T {
        self.0
    }

    pub fn may_cancel_with<C>(self, cancel: &mut C) -> (r: Result<T, Cancelled>) where
        C: TrCancellationToken,

        ensures
            r == Ok::<T, Cancelled>(self.value()),
            *final(cancel) == *old(cancel),
    {
        let _ = cancel;
        Ok(self.0)
    }

    pub fn wait(self) -> (output: T)
        ensures
            output == self.value(),
    {
        self.0
    }
}

impl<T> From<T> for CompletedSyncTask<T> {
    fn from(value: T) -> (r: Self)
        ensures
            r.value() == value,
    {
        Self::new(value)
    }
}

impl<T> vstd::std_specs::convert::FromSpecImpl<T> for CompletedSyncTask<T> {
    open spec fn obeys_from_spec() -> bool {
        true
    }

    closed spec fn from_spec(value: T) -> Self {
        CompletedSyncTask(value)
    }
}

impl<T> TrSyncTask for CompletedSyncTask<T> {
    type MayCancelOutput = T;

    open spec fn completes(&self, output: T) -> bool {
        output == self.value()
    }

    #[inline]
    fn may_cancel_with<C>(self, cancel: &mut C) -> (r: Result<T, Cancelled>) where
        C: TrCancellationToken,
     {
        CompletedSyncTask::may_cancel_with(self, cancel)
    }

    #[inline]
    fn wait(self) -> (output: T) {
        CompletedSyncTask::wait(self)
    }
}

} // verus!
