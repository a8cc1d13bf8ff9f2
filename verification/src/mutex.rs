use vstd::prelude::*;
use crate::cancellation::{Cancelled, TrCancellationToken};
use crate::lock_state::{Access, LockState};
use crate::poll::Poll;
use crate::rw_lock::{Guard, RwLock, Waiter, WriterGuard};

verus! {

/// Exclusive access to the value protected by a mutex.
#[derive(Debug)]
pub struct MutexGuard {
    held: WriterGuard,
}

/// A mutex as a state machine: a reader-writer lock of which only the
/// writer guard is ever asked for.
pub struct Mutex<T> {
    lock: RwLock<T>,
}

impl<T> Mutex<T> {
    /// The protected value.
    pub closed spec fn value(&self) -> T {
        self.lock.value()
    }

    /// Whether the guard is outstanding.
    pub closed spec fn locked(&self) -> bool {
        self.lock.state() is WriteLocked
    }

    /// The waiting requests, the oldest first.
    pub closed spec fn waiters(&self) -> Seq<Waiter> {
        self.lock.waiters()
    }

    /// The guard is outstanding or not, nothing else, the queue is in order
    /// and every request in it asks for the guard.
    pub closed spec fn wf(&self) -> bool {
        &&& self.lock.wf()
        &&& self.lock.state() is Unlocked || self.lock.state() is WriteLocked
        &&& forall|i: int|
            0 <= i < self.lock.waiters().len() ==> (#[trigger] self.lock.waiters()[i]).access
                == Access::Write
    }

    /// Whether the waiting request is served at its next step: it is the
    /// oldest one and the guard is not outstanding.
    pub open spec fn grantable(&self, w: Waiter) -> bool {
        self.waiters().len() > 0 && self.waiters()[0] == w && !self.locked()
    }

    pub fn new(value: T) -> (mutex: Self)
        ensures
            mutex.wf(),
            mutex.value() == value,
            !mutex.locked(),
            mutex.waiters() == Seq::<Waiter>::empty(),
    {
        Mutex { lock: RwLock::new(value) }
    }

    pub fn is_locked(&self) -> (b: bool)
        ensures
            b == self.locked(),
    {
        match self.lock.current_state() {
            LockState::WriteLocked => true,
            _ => false,
        }
    }

    /// The number of waiting requests.
    pub fn waiting(&self) -> (n: usize)
        ensures
            n == self.waiters().len(),
    {
        self.lock.waiting()
    }

    /// Hands out the guard if it is not outstanding and nobody waits, and
    /// changes nothing otherwise.
    pub fn try_lock(&mut self) -> (r: Option<MutexGuard>)
        requires
            old(self).wf(),
        ensures
            final(self).wf(),
            final(self).value() == old(self).value(),
            final(self).waiters() == old(self).waiters(),
            r is Some <==> !old(self).locked() && old(self).waiters().len() == 0,
            final(self).locked() == (old(self).locked() || r is Some),
    {
        match self.lock.try_write() {
            Some(held) => Some(MutexGuard { held }),
            None => None,
        }
    }

    /// Puts a request for the guard at the back of the queue. It is refused
    /// only when the number after that of the last one waiting does not
    /// exist.
    pub fn enqueue(&mut self) -> (r: Option<Waiter>)
        requires
            old(self).wf(),
        ensures
            final(self).wf(),
            final(self).value() == old(self).value(),
            final(self).locked() == old(self).locked(),
            r is Some <==> crate::rw_lock::next_id(old(self).waiters()) <= u64::MAX,
            r matches Some(w) ==> w.access == Access::Write && w.id == crate::rw_lock::next_id(
                old(self).waiters(),
            ) && final(self).waiters() == old(self).waiters().push(w),
            r is None ==> final(self).waiters() == old(self).waiters(),
    {
        self.lock.enqueue(Access::Write)
    }

    /// One step of a waiting request. The oldest request is served as soon
    /// as the guard is free, whatever the signal says. Any other is kept
    /// waiting, or leaves the queue if the signal was given. A request that
    /// does not wait counts as cancelled.
    pub fn poll(&mut self, w: Waiter, cancelled: bool) -> (r: Poll<Result<MutexGuard, Cancelled>>)
        requires
            old(self).wf(),
        ensures
            final(self).wf(),
            final(self).value() == old(self).value(),
            match r {
                Poll::Ready(Ok(_)) => {
                    &&& old(self).grantable(w)
                    &&& final(self).locked()
                    &&& final(self).waiters() == old(self).waiters().drop_first()
                },
                Poll::Ready(Err(_)) => {
                    &&& !old(self).grantable(w)
                    &&& final(self).locked() == old(self).locked()
                    &&& if old(self).waiters().contains(w) {
                        cancelled && final(self).waiters() == old(self).waiters().remove(
                            old(self).waiters().index_of(w),
                        )
                    } else {
                        final(self).waiters() == old(self).waiters()
                    }
                },
                Poll::Pending => {
                    &&& !old(self).grantable(w)
                    &&& !cancelled
                    &&& old(self).waiters().contains(w)
                    &&& final(self).locked() == old(self).locked()
                    &&& final(self).waiters() == old(self).waiters()
                },
            },
    {
        match self.lock.poll(w, cancelled) {
            Poll::Ready(Ok(Guard::Writer(held))) => Poll::Ready(Ok(MutexGuard { held })),
            Poll::Ready(Ok(_)) => {
                proof {
                    assert(old(self).lock.waiters()[0].access == Access::Write);
                }
                vstd::pervasive::unreached()
            },
            Poll::Ready(Err(e)) => Poll::Ready(Err(e)),
            Poll::Pending => Poll::Pending,
        }
    }

    /// One step of a waiting request, the signal read from a token.
    pub fn poll_with<C: TrCancellationToken>(&mut self, w: Waiter, cancel: &C) -> (r: Poll<
        Result<MutexGuard, Cancelled>,
    >)
        requires
            old(self).wf(),
        ensures
            final(self).wf(),
            final(self).value() == old(self).value(),
            match r {
                Poll::Ready(Ok(_)) => {
                    &&& old(self).grantable(w)
                    &&& final(self).locked()
                    &&& final(self).waiters() == old(self).waiters().drop_first()
                },
                Poll::Ready(Err(_)) => {
                    &&& !old(self).grantable(w)
                    &&& final(self).locked() == old(self).locked()
                    &&& if old(self).waiters().contains(w) {
                        cancel.cancelled() && final(self).waiters() == old(self).waiters().remove(
                            old(self).waiters().index_of(w),
                        )
                    } else {
                        final(self).waiters() == old(self).waiters()
                    }
                },
                Poll::Pending => {
                    &&& !old(self).grantable(w)
                    &&& !cancel.cancelled()
                    &&& old(self).waiters().contains(w)
                    &&& final(self).locked() == old(self).locked()
                    &&& final(self).waiters() == old(self).waiters()
                },
            },
    {
        let cancelled = cancel.is_cancelled();
        self.poll(w, cancelled)
    }

    /// Gives the guard up.
    pub fn unlock(&mut self, guard: MutexGuard)
        requires
            old(self).wf(),
            old(self).locked(),
        ensures
            final(self).wf(),
            final(self).value() == old(self).value(),
            final(self).waiters() == old(self).waiters(),
            !final(self).locked(),
    {
        self.lock.release(Guard::Writer(guard.held));
    }

    /// The protected value, for the holder of the guard.
    pub fn get(&self, guard: &MutexGuard) -> (v: &T)
        ensures
            *v == self.value(),
    {
        &self.lock.get_exclusive(&guard.held)
    }

    /// Puts a new value in place of the protected one and hands the old one
    /// out, for the holder of the guard.
    pub fn replace(&mut self, guard: &MutexGuard, value: T) -> (previous: T)
        requires
            old(self).wf(),
        ensures
            final(self).wf(),
            previous == old(self).value(),
            final(self).value() == value,
            final(self).locked() == old(self).locked(),
            final(self).waiters() == old(self).waiters(),
    {
        self.lock.replace(&guard.held, value)
    }
}

} // verus!
