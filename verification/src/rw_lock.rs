use vstd::prelude::*;
use crate::cancellation::{Cancelled, TrCancellationToken};
use crate::lock_state::{Access, LockState};
use crate::poll::Poll;

verus! {

/// The place of a waiting request in a lock's queue.
#[derive(Debug, Clone, Copy, PartialEq, Eq, Structural)]
pub struct Waiter {
    /// The number drawn when the request joined the queue.
    pub id: u64,
    /// What the request asks for.
    pub access: Access,
}

/// Shared access to the protected value.
#[derive(Debug)]
pub struct ReaderGuard {
    _held: (),
}

/// Exclusive access to the protected value.
#[derive(Debug)]
pub struct WriterGuard {
    _held: (),
}

/// Shared access together with the right to ask for an upgrade.
#[derive(Debug)]
pub struct UpgradableGuard {
    _held: (),
}

/// An upgradable guard that committed to becoming the writer.
#[derive(Debug)]
pub struct UpgradeTicket {
    _held: (),
}

/// A guard of any capability.
#[derive(Debug)]
pub enum Guard {
    Reader(ReaderGuard),
    Writer(WriterGuard),
    Upgradable(UpgradableGuard),
}

impl Guard {
    /// The capability that the guard carries.
    pub open spec fn access(&self) -> Access {
        match self {
            Guard::Reader(_) => Access::Read,
            Guard::Writer(_) => Access::Write,
            Guard::Upgradable(_) => Access::UpgradableRead,
        }
    }

    pub fn kind(&self) -> (a: Access)
        ensures
            a == self.access(),
    {
        match self {
            Guard::Reader(_) => Access::Read,
            Guard::Writer(_) => Access::Write,
            Guard::Upgradable(_) => Access::UpgradableRead,
        }
    }

    fn of(access: Access) -> (g: Guard)
        ensures
            g.access() == access,
    {
        match access {
            Access::Read => Guard::Reader(ReaderGuard { _held: () }),
            Access::Write => Guard::Writer(WriterGuard { _held: () }),
            Access::UpgradableRead => Guard::Upgradable(UpgradableGuard { _held: () }),
        }
    }
}

/// The outcome of an upgrade that was refused because reader guards are
/// outstanding. It holds what the caller had handed in.
#[derive(Debug)]
pub struct UpgradeConflict<G> {
    pub guard: G,
}

/// One step of a waiting upgrade.
#[derive(Debug)]
pub enum Upgrade {
    /// The readers have left: the ticket became the writer guard.
    Done(WriterGuard),
    /// Readers are left and the wait was cancelled: the ticket comes back.
    Cancelled(UpgradeTicket),
    /// Readers are left: the ticket comes back to be stepped again.
    Pending(UpgradeTicket),
}

/// The numbers in a queue grow from front to back, so none occurs twice.
pub open spec fn ordered(q: Seq<Waiter>) -> bool {
    forall|i: int, j: int| 0 <= i < j < q.len() ==> q[i].id < q[j].id
}

/// The number that the next request to join the queue draws.
pub open spec fn next_id(q: Seq<Waiter>) -> int {
    if q.len() == 0 {
        0
    } else {
        q.last().id + 1
    }
}

/// A reader-writer lock as a state machine: the protected value, the state
/// word and the queue of waiting requests. Every operation is one atomic
/// transition; requests are served first come, first served.
pub struct RwLock<T> {
    value: T,
    state: LockState,
    queue: Vec<Waiter>,
}

impl<T> RwLock<T> {
    /// The protected value.
    pub closed spec fn value(&self) -> T {
        self.value
    }

    /// The state word.
    pub closed spec fn state(&self) -> LockState {
        self.state
    }

    /// The waiting requests, the oldest first.
    pub closed spec fn waiters(&self) -> Seq<Waiter> {
        self.queue@
    }

    /// The state word is well-formed and the queue is in order.
    pub open spec fn wf(&self) -> bool {
        self.state().wf() && ordered(self.waiters())
    }

    /// Whether a new request for the given capability is served at once: the
    /// state admits it and nobody waits.
    pub open spec fn serves(&self, access: Access) -> bool {
        self.waiters().len() == 0 && self.state().admits(access)
    }

    /// Whether the waiting request is served at its next step: it is the
    /// oldest one and the state admits it.
    pub open spec fn grantable(&self, w: Waiter) -> bool {
        self.waiters().len() > 0 && self.waiters()[0] == w && self.state().admits(w.access)
    }

    /// The lock has the same value and queue as `other`.
    pub open spec fn same_but_state(&self, other: &Self) -> bool {
        self.value() == other.value() && self.waiters() == other.waiters()
    }

    pub fn new(value: T) -> (lock: Self)
        ensures
            lock.wf(),
            lock.value() == value,
            lock.state() == LockState::Unlocked,
            lock.waiters() == Seq::<Waiter>::empty(),
    {
        RwLock { value, state: LockState::Unlocked, queue: Vec::new() }
    }

    pub fn current_state(&self) -> (s: LockState)
        ensures
            s == self.state(),
    {
        self.state
    }

    /// The number of waiting requests.
    pub fn waiting(&self) -> (n: usize)
        ensures
            n == self.waiters().len(),
    {
        self.queue.len()
    }

    /// Hands out a guard of the given capability if the lock serves such a
    /// request at once, and changes nothing otherwise.
    pub fn try_acquire(&mut self, access: Access) -> (r: Option<Guard>)
        requires
            old(self).wf(),
        ensures
            final(self).wf(),
            final(self).same_but_state(old(self)),
            r is Some <==> old(self).serves(access),
            r matches Some(g) ==> g.access() == access && final(self).state()
                == old(self).state().granted(access),
            r is None ==> final(self).state() == old(self).state(),
    {
        if self.queue.len() == 0 && self.state.can_admit(access) {
            self.state = self.state.grant(access);
            Some(Guard::of(access))
        } else {
            None
        }
    }

    /// Hands out a reader guard unless a writer holds the lock, an upgrade
    /// ticket is outstanding or a request waits.
    pub fn try_read(&mut self) -> (r: Option<ReaderGuard>)
        requires
            old(self).wf(),
        ensures
            final(self).wf(),
            final(self).same_but_state(old(self)),
            r is Some <==> old(self).serves(Access::Read),
            r is Some ==> final(self).state() == old(self).state().granted(Access::Read),
            r is None ==> final(self).state() == old(self).state(),
    {
        match self.try_acquire(Access::Read) {
            Some(Guard::Reader(g)) => Some(g),
            _ => None,
        }
    }

    /// Hands out the writer guard if the lock is unlocked and nobody waits.
    pub fn try_write(&mut self) -> (r: Option<WriterGuard>)
        requires
            old(self).wf(),
        ensures
            final(self).wf(),
            final(self).same_but_state(old(self)),
            r is Some <==> old(self).serves(Access::Write),
            r is Some ==> final(self).state() == LockState::WriteLocked,
            r is None ==> final(self).state() == old(self).state(),
    {
        match self.try_acquire(Access::Write) {
            Some(Guard::Writer(g)) => Some(g),
            _ => None,
        }
    }

    /// Hands out the upgradable guard if neither a writer nor another
    /// upgradable guard is outstanding and nobody waits.
    pub fn try_upgradable_read(&mut self) -> (r: Option<UpgradableGuard>)
        requires
            old(self).wf(),
        ensures
            final(self).wf(),
            final(self).same_but_state(old(self)),
            r is Some <==> old(self).serves(Access::UpgradableRead),
            r is Some ==> final(self).state() == old(self).state().granted(Access::UpgradableRead),
            r is None ==> final(self).state() == old(self).state(),
    {
        match self.try_acquire(Access::UpgradableRead) {
            Some(Guard::Upgradable(g)) => Some(g),
            _ => None,
        }
    }

    /// Puts a request for the given capability at the back of the queue.
    /// The request draws the number after that of the last one waiting; it
    /// is refused only when that number does not exist.
    pub fn enqueue(&mut self, access: Access) -> (r: Option<Waiter>)
        requires
            old(self).wf(),
        ensures
            final(self).wf(),
            final(self).value() == old(self).value(),
            final(self).state() == old(self).state(),
            r is Some <==> next_id(old(self).waiters()) <= u64::MAX,
            r matches Some(w) ==> w.access == access && w.id == next_id(old(self).waiters())
                && final(self).waiters() == old(self).waiters().push(w),
            r is None ==> final(self).waiters() == old(self).waiters(),
    {
        let n: usize = self.queue.len();
        let id: u64 = if n == 0 {
            0
        } else {
            let last: u64 = self.queue[n - 1].id;
            if last == u64::MAX {
                return None;
            }
            last + 1
        };
        let w = Waiter { id, access };
        self.queue.push(w);
        Some(w)
    }

    /// Where in the queue the request waits.
    pub fn position(&self, w: Waiter) -> (r: Option<usize>)
        requires
            self.wf(),
        ensures
            r is Some <==> self.waiters().contains(w),
            r matches Some(i) ==> i < self.waiters().len() && self.waiters()[i as int] == w && i
                == self.waiters().index_of(w),
    {
        let mut i: usize = 0;
        while i < self.queue.len()
            invariant
                self.wf(),
                i <= self.queue.len(),
                forall|k: int| 0 <= k < i ==> self.queue@[k] != w,
            decreases self.queue.len() - i,
        {
            let x = self.queue[i];
            if x.id == w.id && x.access == w.access {
                proof {
                    let q = self.waiters();
                    assert(q[i as int] == w);
                    assert(q.contains(w));
                    let c = q.index_of(w);
                    assert(0 <= c < q.len() && q[c] == w);
                    assert(c == i) by {
                        if c < i {
                            assert(q[c].id < q[i as int].id);
                        }
                        if i < c {
                            assert(q[i as int].id < q[c].id);
                        }
                    }
                }
                return Some(i);
            }
            i += 1;
        }
        None
    }

    /// One step of a waiting request. The oldest request is served as soon
    /// as the state admits it, whatever the signal says. Any other is kept
    /// waiting, or leaves the queue if the signal was given; the state word
    /// is then untouched. A request that does not wait counts as cancelled.
    pub fn poll(&mut self, w: Waiter, cancelled: bool) -> (r: Poll<Result<Guard, Cancelled>>)
        requires
            old(self).wf(),
        ensures
            final(self).wf(),
            final(self).value() == old(self).value(),
            match r {
                Poll::Ready(Ok(g)) => {
                    &&& old(self).grantable(w)
                    &&& g.access() == w.access
                    &&& final(self).state() == old(self).state().granted(w.access)
                    &&& final(self).waiters() == old(self).waiters().drop_first()
                },
                Poll::Ready(Err(_)) => {
                    &&& !old(self).grantable(w)
                    &&& final(self).state() == old(self).state()
                    &&& if old(self).waiters().contains(w) {
                        cancelled && final(self).waiters() == old(self).waiters().remove(
                            old(self).waiters().index_of(w),
                        )
                    } else {
                        final(self).waiters() == old(self).waiters()
                    }
                },
                Poll::Pending => {
                    &&& !old(self).grantable(w)
                    &&& !cancelled
                    &&& old(self).waiters().contains(w)
                    &&& final(self).state() == old(self).state()
                    &&& final(self).waiters() == old(self).waiters()
                },
            },
    {
        match self.position(w) {
            None => Poll::Ready(Err(Cancelled)),
            Some(i) => {
                if i == 0 && self.state.can_admit(w.access) {
                    self.state = self.state.grant(w.access);
                    let _ = self.queue.remove(0);
                    proof {
                        assert(final(self).waiters() =~= old(self).waiters().drop_first());
                    }
                    Poll::Ready(Ok(Guard::of(w.access)))
                } else if cancelled {
                    let _ = self.queue.remove(i);
                    Poll::Ready(Err(Cancelled))
                } else {
                    Poll::Pending
                }
            },
        }
    }

    /// One step of a waiting request, the signal read from a token. The
    /// token is looked at only when the request cannot be served.
    pub fn poll_with<C: TrCancellationToken>(&mut self, w: Waiter, cancel: &C) -> (r: Poll<
        Result<Guard, Cancelled>,
    >)
        requires
            old(self).wf(),
        ensures
            final(self).wf(),
            final(self).value() == old(self).value(),
            match r {
                Poll::Ready(Ok(g)) => {
                    &&& old(self).grantable(w)
                    &&& g.access() == w.access
                    &&& final(self).state() == old(self).state().granted(w.access)
                    &&& final(self).waiters() == old(self).waiters().drop_first()
                },
                Poll::Ready(Err(_)) => {
                    &&& !old(self).grantable(w)
                    &&& final(self).state() == old(self).state()
                    &&& if old(self).waiters().contains(w) {
                        cancel.cancelled() && final(self).waiters() == old(self).waiters().remove(
                            old(self).waiters().index_of(w),
                        )
                    } else {
                        final(self).waiters() == old(self).waiters()
                    }
                },
                Poll::Pending => {
                    &&& !old(self).grantable(w)
                    &&& !cancel.cancelled()
                    &&& old(self).waiters().contains(w)
                    &&& final(self).state() == old(self).state()
                    &&& final(self).waiters() == old(self).waiters()
                },
            },
    {
        let cancelled = cancel.is_cancelled();
        self.poll(w, cancelled)
    }

    /// Gives a guard up.
    pub fn release(&mut self, guard: Guard)
        requires
            old(self).wf(),
            old(self).state().holds(guard.access()),
        ensures
            final(self).wf(),
            final(self).same_but_state(old(self)),
            final(self).state() == old(self).state().released(guard.access()),
    {
        self.state = self.state.release(guard.kind());
    }

    /// The protected value, for the holder of a guard.
    pub fn get(&self, guard: &Guard) -> (v: &T)
        ensures
            *v == self.value(),
    {
        &self.value
    }

    /// The protected value, for the holder of the writer guard.
    pub fn get_exclusive(&self, guard: &WriterGuard) -> (v: &T)
        ensures
            *v == self.value(),
    {
        &self.value
    }

    /// Puts a new value in place of the protected one and hands the old one
    /// out, for the holder of the writer guard.
    pub fn replace(&mut self, guard: &WriterGuard, value: T) -> (previous: T)
        ensures
            previous == old(self).value(),
            final(self).value() == value,
            final(self).state() == old(self).state(),
            final(self).waiters() == old(self).waiters(),
    {
        let mut v = value;
        core::mem::swap(&mut self.value, &mut v);
        v
    }

    /// Turns the writer guard into a reader guard in one transition: the
    /// state goes from write-locked to one reader, never through unlocked.
    pub fn downgrade_to_reader(&mut self, guard: WriterGuard) -> (r: ReaderGuard)
        requires
            old(self).wf(),
            old(self).state() is WriteLocked,
        ensures
            final(self).wf(),
            final(self).same_but_state(old(self)),
            final(self).state() == old(self).state().downgraded_to_reader(),
    {
        self.state = LockState::ReadLocked { count: 1 };
        ReaderGuard { _held: () }
    }

    /// Turns the writer guard into the upgradable guard in one transition.
    pub fn downgrade_to_upgradable(&mut self, guard: WriterGuard) -> (r: UpgradableGuard)
        requires
            old(self).wf(),
            old(self).state() is WriteLocked,
        ensures
            final(self).wf(),
            final(self).same_but_state(old(self)),
            final(self).state() == old(self).state().downgraded_to_upgradable(),
    {
        self.state = LockState::UpgradableLocked { readers: 0, pending: false };
        UpgradableGuard { _held: () }
    }

    /// Gives the upgrade right up: the upgradable guard becomes one more
    /// reader guard.
    pub fn downgrade(&mut self, guard: UpgradableGuard) -> (r: ReaderGuard)
        requires
            old(self).wf(),
            old(self).state().holds(Access::UpgradableRead),
        ensures
            final(self).wf(),
            final(self).same_but_state(old(self)),
            final(self).state() == old(self).state().downgraded(),
            final(self).state().readers() == old(self).state().readers() + 1,
    {
        match self.state {
            LockState::UpgradableLocked { readers, pending } => {
                self.state = LockState::ReadLocked { count: readers + 1 };
            },
            _ => {},
        }
        ReaderGuard { _held: () }
    }

    /// Turns the upgradable guard into the writer guard if no reader guard
    /// is outstanding. Otherwise the guard comes back and nothing changes.
    pub fn try_upgrade(&mut self, guard: UpgradableGuard) -> (r: Result<
        WriterGuard,
        UpgradeConflict<UpgradableGuard>,
    >)
        requires
            old(self).wf(),
            old(self).state().holds(Access::UpgradableRead),
        ensures
            final(self).wf(),
            final(self).same_but_state(old(self)),
            r is Ok <==> old(self).state().readers() == 0,
            r is Ok ==> final(self).state() == old(self).state().upgraded(),
            r matches Err(e) ==> e.guard == guard && final(self).state() == old(self).state(),
    {
        match self.state {
            LockState::UpgradableLocked { readers, pending } if readers == 0 => {
                self.state = LockState::WriteLocked;
                Ok(WriterGuard { _held: () })
            },
            _ => Err(UpgradeConflict { guard }),
        }
    }

    /// Commits the upgradable guard to an upgrade. From now on read requests
    /// are no longer admitted, so the readers can only leave.
    pub fn upgrade(&mut self, guard: UpgradableGuard) -> (t: UpgradeTicket)
        requires
            old(self).wf(),
            old(self).state().holds(Access::UpgradableRead),
        ensures
            final(self).wf(),
            final(self).same_but_state(old(self)),
            final(self).state() == old(self).state().with_pending(true),
    {
        match self.state {
            LockState::UpgradableLocked { readers, pending } => {
                self.state = LockState::UpgradableLocked { readers, pending: true };
            },
            _ => {},
        }
        UpgradeTicket { _held: () }
    }

    /// Turns the ticket into the writer guard if no reader guard is
    /// outstanding. Otherwise the ticket comes back and nothing changes.
    pub fn try_upgrade_ticket(&mut self, ticket: UpgradeTicket) -> (r: Result<
        WriterGuard,
        UpgradeConflict<UpgradeTicket>,
    >)
        requires
            old(self).wf(),
            old(self).state().upgrade_pending(),
        ensures
            final(self).wf(),
            final(self).same_but_state(old(self)),
            r is Ok <==> old(self).state().readers() == 0,
            r is Ok ==> final(self).state() == old(self).state().upgraded(),
            r matches Err(e) ==> e.guard == ticket && final(self).state() == old(self).state(),
    {
        match self.state {
            LockState::UpgradableLocked { readers, pending } if readers == 0 => {
                self.state = LockState::WriteLocked;
                Ok(WriterGuard { _held: () })
            },
            _ => Err(UpgradeConflict { guard: ticket }),
        }
    }

    /// One step of a waiting upgrade. The ticket becomes the writer guard as
    /// soon as no reader guard is outstanding, whatever the signal says.
    /// Otherwise the ticket comes back, and the lock is untouched.
    pub fn poll_upgrade(&mut self, ticket: UpgradeTicket, cancelled: bool) -> (r: Upgrade)
        requires
            old(self).wf(),
            old(self).state().upgrade_pending(),
        ensures
            final(self).wf(),
            final(self).same_but_state(old(self)),
            match r {
                Upgrade::Done(_) => old(self).state().readers() == 0 && final(self).state()
                    == old(self).state().upgraded(),
                Upgrade::Cancelled(t) => old(self).state().readers() > 0 && cancelled && t
                    == ticket && final(self).state() == old(self).state(),
                Upgrade::Pending(t) => old(self).state().readers() > 0 && !cancelled && t
                    == ticket && final(self).state() == old(self).state(),
            },
    {
        match self.try_upgrade_ticket(ticket) {
            Ok(g) => Upgrade::Done(g),
            Err(conflict) => if cancelled {
                Upgrade::Cancelled(conflict.guard)
            } else {
                Upgrade::Pending(conflict.guard)
            },
        }
    }

    /// One step of a waiting upgrade, the signal read from a token. The
    /// token is looked at only when reader guards are outstanding.
    pub fn poll_upgrade_with<C: TrCancellationToken>(
        &mut self,
        ticket: UpgradeTicket,
        cancel: &C,
    ) -> (r: Upgrade)
        requires
            old(self).wf(),
            old(self).state().upgrade_pending(),
        ensures
            final(self).wf(),
            final(self).same_but_state(old(self)),
            match r {
                Upgrade::Done(_) => old(self).state().readers() == 0 && final(self).state()
                    == old(self).state().upgraded(),
                Upgrade::Cancelled(t) => old(self).state().readers() > 0 && cancel.cancelled()
                    && t == ticket && final(self).state() == old(self).state(),
                Upgrade::Pending(t) => old(self).state().readers() > 0 && !cancel.cancelled()
                    && t == ticket && final(self).state() == old(self).state(),
            },
    {
        let cancelled = cancel.is_cancelled();
        self.poll_upgrade(ticket, cancelled)
    }

    /// Takes the commitment back: the ticket becomes the upgradable guard
    /// again, with its upgrade right, and read requests are admitted again.
    pub fn into_guard(&mut self, ticket: UpgradeTicket) -> (g: UpgradableGuard)
        requires
            old(self).wf(),
            old(self).state().upgrade_pending(),
        ensures
            final(self).wf(),
            final(self).same_but_state(old(self)),
            final(self).state() == old(self).state().with_pending(false),
            final(self).state().holds(Access::UpgradableRead),
    {
        match self.state {
            LockState::UpgradableLocked { readers, pending } => {
                self.state = LockState::UpgradableLocked { readers, pending: false };
            },
            _ => {},
        }
        UpgradableGuard { _held: () }
    }
}

/// A waiting call that was cancelled leaves no trace: when a request joins
/// the queue of `before` and its wait is then cancelled, the lock has the
/// state, the queue and the value of `before`, so every later request fares
/// as if the cancelled one had never been made.
pub proof fn lemma_cancelled_wait_leaves_no_trace<T>(
    before: RwLock<T>,
    queued: RwLock<T>,
    after: RwLock<T>,
    w: Waiter,
)
    requires
        before.wf(),
        w.id == next_id(before.waiters()),
        queued.value() == before.value(),
        queued.state() == before.state(),
        queued.waiters() == before.waiters().push(w),
        after.value() == queued.value(),
        after.state() == queued.state(),
        after.waiters() == queued.waiters().remove(queued.waiters().index_of(w)),
    ensures
        queued.wf(),
        queued.waiters().contains(w),
        after.value() == before.value(),
        after.state() == before.state(),
        after.waiters() == before.waiters(),
        forall|a: Access| after.serves(a) == before.serves(a),
        forall|v: Waiter| after.grantable(v) == before.grantable(v),
{
    let q = before.waiters();
    let p = queued.waiters();
    let n = q.len() as int;
    assert(p[n] == w);
    assert(ordered(p)) by {
        assert forall|i: int, j: int| 0 <= i < j < p.len() implies p[i].id < p[j].id by {
            if j == n {
                assert(p[i] == q[i]);
                if i < n - 1 {
                    assert(q[i].id < q[n - 1].id);
                }
            } else {
                assert(p[i] == q[i] && p[j] == q[j]);
            }
        }
    }
    let c = p.index_of(w);
    assert(0 <= c < p.len() && p[c] == w);
    if c < n {
        assert(p[c].id < p[n].id);
    }
    assert(p.remove(n) =~= q);
}

/// Nobody overtakes a waiting request: while requests wait, no new request
/// is served at once, and of those that wait only the oldest can be served.
pub proof fn lemma_no_overtaking<T>(lock: RwLock<T>, w: Waiter, access: Access)
    requires
        lock.wf(),
        lock.waiters().len() > 0,
    ensures
        !lock.serves(access),
        lock.grantable(w) ==> lock.waiters().index_of(w) == 0,
        lock.waiters().contains(w) && lock.waiters().index_of(w) > 0 ==> !lock.grantable(w),
{
    let q = lock.waiters();
    if lock.grantable(w) {
        assert(q[0] == w);
        let c = q.index_of(w);
        assert(0 <= c < q.len() && q[c] == w);
        if c > 0 {
            assert(q[0].id < q[c].id);
        }
    }
}

/// A waiting request only ever moves towards the front: when another
/// request leaves the queue, whether served or cancelled, the request keeps
/// its place or moves up by one, and a request that joins stands behind it.
pub proof fn lemma_waiters_only_advance(q: Seq<Waiter>, i: int, k: int, w: Waiter)
    requires
        ordered(q),
        0 <= i < q.len(),
        0 <= k < q.len(),
        k != i,
        w.id == next_id(q),
    ensures
        ordered(q.remove(k)),
        q.remove(k).contains(q[i]),
        q.remove(k).index_of(q[i]) == if k < i {
            i - 1
        } else {
            i
        },
        ordered(q.push(w)),
        q.push(w).contains(q[i]),
        q.push(w).index_of(q[i]) == i,
{
    let r = q.remove(k);
    let at = if k < i {
        i - 1
    } else {
        i
    };
    assert(ordered(r)) by {
        assert forall|a: int, b: int| 0 <= a < b < r.len() implies r[a].id < r[b].id by {
            let a0 = if a < k {
                a
            } else {
                a + 1
            };
            let b0 = if b < k {
                b
            } else {
                b + 1
            };
            assert(r[a] == q[a0] && r[b] == q[b0]);
        }
    }
    assert(r[at] == q[i]);
    let c = r.index_of(q[i]);
    assert(0 <= c < r.len() && r[c] == q[i]);
    if c < at {
        assert(r[c].id < r[at].id);
    }
    if at < c {
        assert(r[at].id < r[c].id);
    }
    let p = q.push(w);
    let n = q.len() as int;
    assert(ordered(p)) by {
        assert forall|a: int, b: int| 0 <= a < b < p.len() implies p[a].id < p[b].id by {
            if b == n {
                assert(p[a] == q[a]);
                if a < n - 1 {
                    assert(q[a].id < q[n - 1].id);
                }
            } else {
                assert(p[a] == q[a] && p[b] == q[b]);
            }
        }
    }
    assert(p[i] == q[i]);
    let d = p.index_of(q[i]);
    assert(0 <= d < p.len() && p[d] == q[i]);
    if d < i {
        assert(p[d].id < p[i].id);
    }
    if i < d {
        assert(p[i].id < p[d].id);
    }
}

/// The oldest waiting request is served as soon as every guard was given
/// up, whatever it asks for.
pub proof fn lemma_front_is_served_when_free<T>(lock: RwLock<T>)
    requires
        lock.wf(),
        lock.waiters().len() > 0,
        lock.state() is Unlocked,
    ensures
        lock.grantable(lock.waiters()[0]),
{
}

} // verus!
