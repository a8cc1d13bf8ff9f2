use vstd::prelude::*;
use crate::poll::{Poll, TrPoll};

verus! {

/// Races a primary computation against a secondary one.
pub trait XtOkOr<E>
where
    Self: Sized + TrPoll,
    E: TrPoll,
{
    fn ok_or(self, other: E) -> (r: OkOr<Self, E>)
        ensures
            r.primary() == self,
            r.secondary() == other,
    ;
}

/// A race of two computations. At every step the primary one is stepped
/// first; the secondary one is stepped only when the primary is still
/// pending. The race is over as soon as either is ready.
#[derive(Debug)]
pub struct OkOr<F, G>
where
    F: TrPoll,
    G: TrPoll,
{
    ok_: F,
    or_: G,
}

/// The result of one step of a race, given what each side yields at that
/// step: the primary side wins whenever it is ready, also against a ready
/// secondary side.
pub open spec fn race<A, B>(ok: Poll<A>, or: Poll<B>) -> Poll<Result<A, B>> {
    match (ok, or) {
        (Poll::Ready(x), _) => Poll::Ready(Ok(x)),
        (Poll::Pending, Poll::Ready(e)) => Poll::Ready(Err(e)),
        (Poll::Pending, Poll::Pending) => Poll::Pending,
    }
}

/// Decides one step of a race from what both sides yielded at that step.
pub fn resolve<A, B>(ok: Poll<A>, or: Poll<B>) -> (r: Poll<Result<A, B>>)
    ensures
        r == race(ok, or),
{
    match ok {
        Poll::Ready(x) => Poll::Ready(Ok(x)),
        Poll::Pending => match or {
            Poll::Ready(e) => Poll::Ready(Err(e)),
            Poll::Pending => Poll::Pending,
        },
    }
}

/// When both sides are ready at the same step, the race yields the primary
/// side's value.
pub proof fn lemma_race_prefers_primary<A, B>(x: A, e: B)
    ensures
        race(Poll::Ready(x), Poll::Ready(e)) == Poll::<Result<A, B>>::Ready(Ok(x)),
{
}

/// A race is pending exactly when both sides are, and a ready secondary side
/// decides it exactly when the primary side is pending.
pub proof fn lemma_race_outcomes<A, B>(ok: Poll<A>, or: Poll<B>)
    ensures
        race(ok, or) is Pending <==> ok is Pending && or is Pending,
        (race(ok, or) matches Poll::Ready(Ok(x)) && ok == Poll::Ready(x)) <==> ok is Ready,
        (race(ok, or) matches Poll::Ready(Err(e)) && or == Poll::Ready(e)) <==> ok is Pending
            && or is Ready,
{
}

impl<F, G> OkOr<F, G>
where
    F: TrPoll,
    G: TrPoll,
{
    pub fn new(succeed: F, otherwise: G) -> (r: Self)
        ensures
            r.primary() == succeed,
            r.secondary() == otherwise,
    {
        OkOr { ok_: succeed, or_: otherwise }
    }

    /// The primary side of the race.
    pub closed spec fn primary(&self) -> F {
        self.ok_
    }

    /// The secondary side of the race.
    pub closed spec fn secondary(&self) -> G {
        self.or_
    }
}

impl<F, G> TrPoll for OkOr<F, G>
where
    F: TrPoll,
    G: TrPoll,
{
    type Output = Result<F::Output, G::Output>;

    open spec fn pollable(&self) -> bool {
        self.primary().pollable() && self.secondary().pollable()
    }

    open spec fn outcome(&self) -> Poll<Self::Output> {
        race(self.primary().outcome(), self.secondary().outcome())
    }

    closed spec fn next(&self) -> Self {
        OkOr {
            ok_: self.ok_.next(),
            or_: if self.ok_.outcome() is Pending {
                self.or_.next()
            } else {
                self.or_
            },
        }
    }

    fn poll(&mut self) -> (p: Poll<Self::Output>)
        ensures
            final(self).primary() == old(self).primary().next(),
            final(self).secondary() == if old(self).primary().outcome() is Pending {
                old(self).secondary().next()
            } else {
                old(self).secondary()
            },
    {
        if let Poll::Ready(x) = self.ok_.poll() {
            return Poll::Ready(Ok(x));
        }
        if let Poll::Ready(e) = self.or_.poll() {
            return Poll::Ready(Err(e));
        }
        Poll::Pending
    }
}

impl<F, E> XtOkOr<E> for F
where
    F: TrPoll,
    E: TrPoll,
{
    fn ok_or(self, other: E) -> (r: OkOr<Self, E>) {
        OkOr::new(self, other)
    }
}

} // verus!
