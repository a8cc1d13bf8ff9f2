use vstd::prelude::*;
use core::marker::PhantomData;

verus! {

/// What one scheduling step of a suspendable computation produced.
#[derive(Debug)]
pub enum Poll<T> {
    /// The computation finished with this value.
    Ready(T),
    /// The computation is not finished and has to be stepped again.
    Pending,
}

impl<T> Poll<T> {
    pub fn is_ready(&self) -> (b: bool)
        ensures
            b == (*self is Ready),
    {
        match self {
            Poll::Ready(_) => true,
            Poll::Pending => false,
        }
    }

    pub fn is_pending(&self) -> (b: bool)
        ensures
            b == (*self is Pending),
    {
        match self {
            Poll::Ready(_) => false,
            Poll::Pending => true,
        }
    }
}

/// A computation that is driven one scheduling step at a time.
///
/// The three spec functions describe the next step exactly: whether it may be
/// taken, what it yields, and what the computation is afterwards.
pub trait TrPoll: Sized {
    type Output;

    /// Whether the computation may be stepped. A computation that has handed
    /// out its value may refuse further steps.
    spec fn pollable(&self) -> bool;

    /// What the next step yields.
    spec fn outcome(&self) -> Poll<Self::Output>;

    /// The computation after its next step.
    spec fn next(&self) -> Self;

    /// Takes one step. A pending computation stays pollable.
    fn poll(&mut self) -> (p: Poll<Self::Output>)
        requires
            old(self).pollable(),
        ensures
            p == old(self).outcome(),
            *final(self) == old(self).next(),
            p is Pending ==> final(self).pollable(),
    ;
}

/// What `task` yields when it is driven for at most `steps` steps: the value
/// of the first step that is ready, or `Pending` if none of them is.
pub open spec fn outcome_within<F: TrPoll>(task: F, steps: nat) -> Poll<F::Output>
    decreases steps,
{
    if steps == 0 {
        Poll::Pending
    } else {
        match task.outcome() {
            Poll::Ready(v) => Poll::Ready(v),
            Poll::Pending => outcome_within(task.next(), (steps - 1) as nat),
        }
    }
}

/// What `task` is after it was driven for at most `steps` steps: it is
/// stepped until a step is ready or the steps are used up.
pub open spec fn driven<F: TrPoll>(task: F, steps: nat) -> F
    decreases steps,
{
    if steps == 0 {
        task
    } else {
        match task.outcome() {
            Poll::Ready(_) => task.next(),
            Poll::Pending => driven(task.next(), (steps - 1) as nat),
        }
    }
}

/// Drives a computation on the spot, without yielding between its steps,
/// until it is ready or `steps` steps were taken.
pub fn drive<F: TrPoll>(task: &mut F, steps: usize) -> (p: Poll<F::Output>)
    requires
        old(task).pollable(),
    ensures
        p == outcome_within(*old(task), steps as nat),
        *final(task) == driven(*old(task), steps as nat),
        p is Pending ==> final(task).pollable(),
{
    let ghost start = *task;
    let mut left: usize = steps;
    while left > 0
        invariant
            start == *old(task),
            task.pollable(),
            outcome_within(start, steps as nat) == outcome_within(*task, left as nat),
            driven(start, steps as nat) == driven(*task, left as nat),
        decreases left,
    {
        match task.poll() {
            Poll::Ready(v) => {
                return Poll::Ready(v);
            },
            Poll::Pending => {
                left -= 1;
            },
        }
    }
    Poll::Pending
}

/// A computation that is ready at its first step.
#[derive(Debug)]
pub struct Ready<T>(Option<T>);

impl<T> Ready<T> {
    pub fn new(value: T) -> (r: Self)
        ensures
            r.value() == Some(value),
    {
        Ready(Some(value))
    }

    /// The value still to be handed out, `None` once it was.
    pub closed spec fn value(&self) -> Option<T> {
        self.0
    }
}

impl<T> TrPoll for Ready<T> {
    type Output = T;

    open spec fn pollable(&self) -> bool {
        self.value() is Some
    }

    open spec fn outcome(&self) -> Poll<T> {
        match self.value() {
            Some(v) => Poll::Ready(v),
            None => Poll::Pending,
        }
    }

    closed spec fn next(&self) -> Self {
        Ready(None)
    }

    fn poll(&mut self) -> (p: Poll<T>)
        ensures
            final(self).value() is None,
    {
        match self.0.take() {
            Some(v) => Poll::Ready(v),
            None => Poll::Pending,
        }
    }
}

/// A computation that is never ready.
#[derive(Debug)]
pub struct Pending<T>(PhantomData<T>);

impl<T> Pending<T> {
    pub fn new() -> (r: Self)
        ensures
            r.outcome() is Pending,
    {
        Pending(PhantomData)
    }
}

impl<T> TrPoll for Pending<T> {
    type Output = T;

    open spec fn pollable(&self) -> bool {
        true
    }

    open spec fn outcome(&self) -> Poll<T> {
        Poll::Pending
    }

    open spec fn next(&self) -> Self {
        *self
    }

    fn poll(&mut self) -> (p: Poll<T>) {
        Poll::Pending
    }
}

} // verus!
