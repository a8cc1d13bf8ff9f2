use vstd::prelude::*;
use crate::cancellation::Cancelled;
use crate::may_break::TrMayBreak;
use crate::sync_guard::TrAcqMutGuard;

verus! {

/// Mutex for callers that block.
pub trait TrSyncMutex {
    type Target: ?Sized;

    type Acquire<'a>: TrSyncMutexAcquire<'a, Self::Target> where Self: 'a;

    fn acquire(&self) -> Self::Acquire<'_>;
}

/// A borrow of a mutex through which the guard is asked for. `try_lock`
/// never blocks and leaves the mutex untouched when it hands out nothing.
/// The order in which requests are served is laid down by the state machine
/// of `crate::mutex::Mutex`.
pub trait TrSyncMutexAcquire<'a, T>
where
    Self: 'a,
    T: 'a + ?Sized,
{
    type Guard<'g>: TrAcqMutGuard<'a, 'g, T> where 'a: 'g;

    type Lock<'g>: TrMayBreak<MayBreakOutput = Result<Self::Guard<'g>, Cancelled>> where 'a: 'g;

    fn try_lock<'g>(&'g mut self) -> Option<Self::Guard<'g>> where 'a: 'g;

    fn lock<'g>(&'g mut self) -> Self::Lock<'g> where 'a: 'g;
}

} // verus!
