use vstd::prelude::*;
use crate::may_cancel::TrMayCancel;
use crate::sync_guard::TrAcqMutGuard;

verus! {

/// Mutex for asynchronous task pattern.
pub trait TrAsyncMutex {
    type Target: ?Sized;

    type Acquire<'a>: TrAsyncMutexAcquire<'a, Self::Target> where Self: 'a;

    fn acquire(&self) -> Self::Acquire<'_>;
}

/// A borrow of a mutex through which the guard is asked for. `try_lock`
/// never suspends and leaves the mutex untouched when it hands out nothing.
/// The order in which requests are served is laid down by the state machine
/// of `crate::mutex::Mutex`.
pub trait TrAsyncMutexAcquire<'a, T>
where
    Self: 'a,
    T: 'a + ?Sized,
{
    type Guard<'g>: TrAcqMutGuard<'a, 'g, T> where 'a: 'g;

    type LockAsync<'g>: TrMayCancel<MayCancelOutput = Self::Guard<'g>> where
        'a: 'g;

    fn try_lock<'g>(&'g mut self) -> Option<Self::Guard<'g>> where 'a: 'g;

    /// Hands out the task that waits for the guard, ready to be stepped.
    fn lock_async<'g>(&'g mut self) -> (task: Self::LockAsync<'g>) where 'a: 'g
        ensures
            task.pollable(),
    ;
}

} // verus!
