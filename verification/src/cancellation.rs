use vstd::prelude::*;
use crate::poll::{Pending, Poll, Ready, TrPoll};

verus! {

/// The outcome of a waiting call that was abandoned on a cancellation signal.
#[derive(Debug, Clone, Copy, PartialEq, Eq, Structural)]
pub struct Cancelled;

/// A cancellation token can receive a cancellation signal.
pub trait TrCancellationToken: Sized {
    /// The wait for this token's signal, as a computation to step.
    type Cancellation: TrPoll;

    /// Whether the token has received the signal.
    spec fn cancelled(&self) -> bool;

    /// Whether the token may still receive the signal.
    spec fn cancellable(&self) -> bool;

    /// Test whether this token has received cancellation signal or not.
    fn is_cancelled(&self) -> (b: bool)
        ensures
            b == self.cancelled(),
    ;

    /// Test whether this token will receive cancellation signal or not.
    fn can_be_cancelled(&self) -> (b: bool)
        ensures
            b == self.cancellable(),
    ;

    /// Create a new token that will receive cancellation signal when this
    /// token receives the signal. A child made of a cancelled token is
    /// cancelled from the start.
    fn child_token(&self) -> (child: Self)
        ensures
            child.cancelled() == self.cancelled(),
            child.cancellable() == self.cancellable(),
    ;

    /// Create the wait that becomes ready when the cancellation signal is
    /// received by this token. The token itself is left as it was.
    fn cancellation(&mut self) -> (wait: Self::Cancellation)
        ensures
            final(self).cancelled() == old(self).cancelled(),
            final(self).cancellable() == old(self).cancellable(),
            wait.pollable(),
            old(self).cancelled() ==> wait.outcome() is Ready,
            !old(self).cancelled() && !old(self).cancellable() ==> wait.outcome() is Pending,
    ;
}

/// A token that is already cancelled and will never reset.
#[derive(Debug, Default, Clone, Copy)]
pub struct CancelledToken;

impl CancelledToken {
    /// Create an instance of `CancelledToken`
    pub fn new() -> (token: Self)
        ensures
            token.cancelled(),
            !token.cancellable(),
    {
        CancelledToken
    }

    /// Always true
    pub fn is_cancelled(&self) -> (b: bool)
        ensures
            b,
    {
        true
    }

    /// Always false
    pub fn can_be_cancelled(&self) -> (b: bool)
        ensures
            !b,
    {
        false
    }

    pub fn child_token(&self) -> (child: CancelledToken)
        ensures
            child == *self,
    {
        CancelledToken::new()
    }

    /// Always return a ready wait.
    pub fn cancellation(&mut self) -> (wait: Ready<()>)
        ensures
            *final(self) == *old(self),
            wait.value() == Some(()),
            wait.outcome() == Poll::Ready(()),
    {
        Ready::new(())
    }
}

impl TrCancellationToken for CancelledToken {
    type Cancellation = Ready<()>;

    open spec fn cancelled(&self) -> bool {
        true
    }

    open spec fn cancellable(&self) -> bool {
        false
    }

    #[inline]
    fn is_cancelled(&self) -> (b: bool) {
        CancelledToken::is_cancelled(self)
    }

    #[inline]
    fn can_be_cancelled(&self) -> (b: bool) {
        CancelledToken::can_be_cancelled(self)
    }

    #[inline]
    fn child_token(&self) -> (child: Self) {
        CancelledToken::child_token(self)
    }

    #[inline]
    fn cancellation(&mut self) -> (wait: Ready<()>) {
        CancelledToken::cancellation(self)
    }
}

/// A cancellation token that will never be cancelled, usually used
/// as a dummy for `TrCancellationToken`.
#[derive(Debug, Default, Clone, Copy)]
pub struct NonCancellableToken;

impl NonCancellableToken {
    /// Create an instance of `NonCancellableToken`
    pub fn new() -> (token: Self)
        ensures
            !token.cancelled(),
            !token.cancellable(),
    {
        NonCancellableToken
    }

    /// Always false
    pub fn is_cancelled(&self) -> (b: bool)
        ensures
            !b,
    {
        false
    }

    /// Always false
    pub fn can_be_cancelled(&self) -> (b: bool)
        ensures
            !b,
    {
        false
    }

    pub fn child_token(&self) -> (child: NonCancellableToken)
        ensures
            child == *self,
    {
        NonCancellableToken::new()
    }

    /// Always returns a pending wait.
    pub fn cancellation(&mut self) -> (wait: Pending<()>)
        ensures
            *final(self) == *old(self),
            wait.outcome() == Poll::<()>::Pending,
            wait.next() == wait,
    {
        Pending::new()
    }
}

impl TrCancellationToken for NonCancellableToken {
    type Cancellation = Pending<()>;

    open spec fn cancelled(&self) -> bool {
        false
    }

    open spec fn cancellable(&self) -> bool {
        false
    }

    #[inline]
    fn is_cancelled(&self) -> (b: bool) {
        NonCancellableToken::is_cancelled(self)
    }

    #[inline]
    fn can_be_cancelled(&self) -> (b: bool) {
        NonCancellableToken::can_be_cancelled(self)
    }

    #[inline]
    fn child_token(&self) -> (child: Self) {
        NonCancellableToken::child_token(self)
    }

    #[inline]
    fn cancellation(&mut self) -> (wait: Pending<()>) {
        NonCancellableToken::cancellation(self)
    }
}

} // verus!
