use vstd::prelude::*;
use crate::cancellation::{NonCancellableToken, TrCancellationToken};

verus! {

/// Describes a coroutine, a loop, or a job to run on other thread, that can be
/// discontinued with an external cancellation token.
///
/// ## Usage Note
///
/// * This is different from `TrMayCancel` in that it is not driven step by
///   step: one call runs the job to its end;
/// * This is assumed to work only that, the coroutine, or loop, or the job,
///   actively or passively poll the cancellation token for signal;
pub trait TrMayBreak: Sized {
    type MayBreakOutput: Sized;

    /// Whether the job can end with `output` when it is left to run.
    spec fn completes(&self, output: Self::MayBreakOutput) -> bool;

    /// Whether the job can end with `output` when it is discontinued.
    spec fn breaks(&self, output: Self::MayBreakOutput) -> bool;

    /// Runs the job. It is discontinued only on a token that has received
    /// the signal by then.
    fn may_break_with<C>(self, cancel: &mut C) -> (output: Self::MayBreakOutput) where
        C: TrCancellationToken,

        ensures
            self.completes(output) || (self.breaks(output) && final(cancel).cancelled()),
    ;

    /// Runs the job under a token that never receives the signal.
    fn wait(self) -> (output: Self::MayBreakOutput)
        ensures
            self.completes(output),
    {
        let mut cancel = NonCancellableToken::new();
        self.may_break_with(&mut cancel)
    }
}

/// Runs a job that reports success or failure under a token that never
/// receives the signal, and hands out what it succeeded with. It is for a
/// job that cannot fail when left to run.
pub fn wait_and_unwrap<M, T, E>(job: M) -> (x: T) where M: TrMayBreak<MayBreakOutput = Result<T, E>>
    requires
        forall|output: Result<T, E>| job.completes(output) ==> output is Ok,
    ensures
        job.completes(Ok(x)),
{
    match job.wait() {
        Ok(x) => x,
        Err(_) => vstd::pervasive::unreached(),
    }
}

/// A job that is done already.
pub struct Completed<T>(T);

impl<T> Completed<T> {
    pub fn new(value: T) -> (r: Self)
        ensures
            r.value() == value,
    {
        Self(value)
    }

    /// The value that the job ended with.
    pub closed spec fn value(&self) -> T {
        self.0
    }

    pub fn may_break_with<C>(self, cancel: &mut C) -> (output: T) where C: TrCancellationToken
        ensures
            output == self.value(),
            *final(cancel) == *old(cancel),
    {
        self.0
    }
}

impl<T> From<T> for Completed<T> {
    fn from(value: T) -> (r: Self)
        ensures
            r.value() == value,
    {
        Self::new(value)
    }
}

impl<T> vstd::std_specs::convert::FromSpecImpl<T> for Completed<T> {
    open spec fn obeys_from_spec() -> bool {
        true
    }

    closed spec fn from_spec(value: T) -> Self {
        Completed(value)
    }
}

impl<T> TrMayBreak for Completed<T> {
    type MayBreakOutput = T;

    open spec fn completes(&self, output: T) -> bool {
        output == self.value()
    }

    open spec fn breaks(&self, output: T) -> bool {
        false
    }

    #[inline]
    fn may_break_with<C>(self, cancel: &mut C) -> (output: T) where C: TrCancellationToken {
        Completed::may_break_with(self, cancel)
    }
}

} // verus!
