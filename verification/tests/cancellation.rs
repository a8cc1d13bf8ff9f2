use abs_sync::cancellation::{CancelledToken, NonCancellableToken, TrCancellationToken};
use abs_sync::ok_or::{resolve, OkOr, XtOkOr};
use abs_sync::poll::{Pending, Poll, Ready, TrPoll};
use abs_sync::token_tree::{CancellationTree, OrphanPolicy};

fn observe<C: TrCancellationToken>(token: &C) -> (bool, bool) {
    (token.is_cancelled(), token.can_be_cancelled())
}

#[test]
fn cancelled_token_is_cancelled_for_good() {
    let mut token = CancelledToken::new();
    assert!(token.is_cancelled());
    assert!(!token.can_be_cancelled());
    assert!(token.child_token().is_cancelled());
    assert_eq!(observe(&token), (true, false));
    let r = token.cancellation().ok_or(Ready::new(42)).poll();
    assert!(matches!(r, Poll::Ready(Ok(()))));
    assert!(token.is_cancelled());
}

#[test]
fn non_cancellable_token_never_signals() {
    let mut token = NonCancellableToken::new();
    assert!(!token.is_cancelled());
    assert!(!token.can_be_cancelled());
    assert!(!token.child_token().is_cancelled());
    assert_eq!(observe(&token), (false, false));
    let r = token.cancellation().ok_or(Ready::new(42)).poll();
    assert!(matches!(r, Poll::Ready(Err(42))));
    let mut wait = token.cancellation();
    assert!(wait.poll().is_pending());
    assert!(wait.poll().is_pending());
}

#[test]
fn default_tokens_behave_like_new_ones() {
    assert!(CancelledToken::default().is_cancelled());
    assert!(!NonCancellableToken::default().is_cancelled());
}

#[test]
fn race_prefers_the_primary_side() {
    assert!(matches!(resolve(Poll::Ready(1), Poll::Ready("late")), Poll::Ready(Ok(1))));
    assert!(matches!(resolve(Poll::Ready(1), Poll::<()>::Pending), Poll::Ready(Ok(1))));
    assert!(matches!(resolve(Poll::<u8>::Pending, Poll::Ready("late")), Poll::Ready(Err("late"))));
    assert!(matches!(resolve(Poll::<u8>::Pending, Poll::<()>::Pending), Poll::Pending));
    let mut both = OkOr::new(Ready::new(1), Ready::new(2));
    assert!(matches!(both.poll(), Poll::Ready(Ok(1))));
}

#[test]
fn race_of_two_pending_sides_stays_pending() {
    let mut race = Pending::<u8>::new().ok_or(Pending::<u8>::new());
    assert!(race.poll().is_pending());
    assert!(race.poll().is_pending());
}

#[test]
fn race_steps_the_secondary_side_only_when_the_primary_is_pending() {
    let mut outer = OkOr::new(OkOr::new(Pending::<u8>::new(), Ready::new(5u8)), Ready::new(9u8));
    assert!(matches!(outer.poll(), Poll::Ready(Ok(Err(5)))));
    let mut nested = OkOr::new(Pending::<u8>::new(), OkOr::new(Pending::<u8>::new(), Ready::new(3u8)));
    assert!(matches!(nested.poll(), Poll::Ready(Err(Err(3)))));
}

#[test]
fn ready_hands_its_value_out_at_the_first_step() {
    let mut ready = Ready::new("done");
    let step = ready.poll();
    assert!(step.is_ready());
    assert!(!step.is_pending());
    assert!(matches!(step, Poll::Ready("done")));
}

#[test]
fn signal_reaches_the_descendants_only() {
    let mut tree = CancellationTree::new();
    let root = tree.root_token();
    let other = tree.root_token();
    let child = tree.child_token(root, OrphanPolicy::PendOnOrphan).unwrap();
    let grandchild = tree.child_token(child, OrphanPolicy::PendOnOrphan).unwrap();
    let sibling = tree.child_token(root, OrphanPolicy::PendOnOrphan).unwrap();
    assert_eq!((root, other, child, grandchild, sibling), (0, 1, 2, 3, 4));
    assert_eq!(tree.len(), 5);
    for id in 0..5 {
        assert!(!tree.is_cancelled(id));
        assert!(tree.can_be_cancelled(id));
        assert!(tree.cancellation(id).is_pending());
    }
    tree.cancel(child);
    assert!(!tree.is_cancelled(root));
    assert!(!tree.is_cancelled(other));
    assert!(tree.is_cancelled(child));
    assert!(tree.is_cancelled(grandchild));
    assert!(!tree.is_cancelled(sibling));
    assert!(tree.cancellation(grandchild).is_ready());
    tree.cancel(root);
    assert!(tree.is_cancelled(root));
    assert!(tree.is_cancelled(sibling));
    assert!(!tree.is_cancelled(other));
}

#[test]
fn cancelling_twice_is_cancelling_once() {
    let mut tree = CancellationTree::new();
    let root = tree.root_token();
    let child = tree.child_token(root, OrphanPolicy::CancelOnOrphan).unwrap();
    tree.cancel(root);
    let once = (tree.is_cancelled(root), tree.is_cancelled(child), tree.len());
    tree.cancel(root);
    tree.cancel(root);
    assert_eq!((tree.is_cancelled(root), tree.is_cancelled(child), tree.len()), once);
    assert_eq!(once, (true, true, 2));
    tree.release(root);
    assert!(tree.is_cancelled(root));
    assert!(tree.is_cancelled(child));
}

#[test]
fn child_of_a_cancelled_token_is_cancelled_from_the_start() {
    let mut tree = CancellationTree::new();
    let root = tree.root_token();
    tree.cancel(root);
    let child = tree.child_token(root, OrphanPolicy::PendOnOrphan).unwrap();
    assert!(tree.is_cancelled(child));
}

#[test]
fn orphans_fare_by_their_policy() {
    let mut tree = CancellationTree::new();
    let root = tree.root_token();
    let strict = tree.child_token(root, OrphanPolicy::CancelOnOrphan).unwrap();
    let patient = tree.child_token(root, OrphanPolicy::PendOnOrphan).unwrap();
    let below = tree.child_token(strict, OrphanPolicy::PendOnOrphan).unwrap();
    tree.release(root);
    assert!(!tree.is_cancelled(root));
    assert!(tree.is_cancelled(strict));
    assert!(tree.is_cancelled(below));
    assert!(!tree.is_cancelled(patient));
    assert!(tree.cancellation(patient).is_pending());
    let late = tree.child_token(root, OrphanPolicy::CancelOnOrphan).unwrap();
    assert!(tree.is_cancelled(late));
}

#[test]
fn unknown_token_names_are_ignored() {
    let mut tree = CancellationTree::new();
    assert!(tree.child_token(0, OrphanPolicy::PendOnOrphan).is_none());
    tree.cancel(3);
    tree.release(3);
    assert_eq!(tree.len(), 0);
    assert!(!tree.is_cancelled(3));
    assert!(!tree.can_be_cancelled(3));
}

#[test]
fn observer_sees_the_token_of_its_hierarchy() {
    let mut tree = CancellationTree::new();
    let root = tree.root_token();
    let child = tree.child_token(root, OrphanPolicy::PendOnOrphan).unwrap();
    {
        let mut seen = tree.token(child);
        assert_eq!(observe(&seen), (false, true));
        assert!(seen.cancellation().poll().is_pending());
        assert_eq!(observe(&tree.token(7)), (false, false));
    }
    tree.cancel(root);
    let mut seen = tree.token(child);
    assert_eq!(observe(&seen), (true, true));
    assert!(seen.child_token().is_cancelled());
    let mut wait = seen.cancellation();
    assert!(matches!(wait.poll(), Poll::Ready(())));
    assert!(matches!(wait.poll(), Poll::Ready(())));
    let r = seen.cancellation().ok_or(Pending::<u8>::new()).poll();
    assert!(matches!(r, Poll::Ready(Ok(()))));
}

#[test]
fn token_that_went_away_takes_no_signal_and_hands_none_on() {
    let mut tree = CancellationTree::new();
    let root = tree.root_token();
    let middle = tree.child_token(root, OrphanPolicy::PendOnOrphan).unwrap();
    let leaf = tree.child_token(middle, OrphanPolicy::PendOnOrphan).unwrap();
    tree.release(middle);
    assert!(!tree.can_be_cancelled(middle));
    assert!(tree.can_be_cancelled(leaf));
    tree.cancel(middle);
    assert!(!tree.is_cancelled(middle));
    tree.cancel(root);
    assert!(tree.is_cancelled(root));
    assert!(!tree.is_cancelled(middle));
    assert!(!tree.is_cancelled(leaf));
    tree.cancel(leaf);
    assert!(tree.is_cancelled(leaf));
    tree.release(leaf);
    tree.release(leaf);
    assert!(tree.is_cancelled(leaf));
    assert!(!tree.can_be_cancelled(leaf));
    assert_eq!(observe(&tree.token(leaf)), (true, false));
}

#[test]
fn token_that_went_away_keeps_the_signal_it_had() {
    let mut tree = CancellationTree::new();
    let root = tree.root_token();
    let child = tree.child_token(root, OrphanPolicy::PendOnOrphan).unwrap();
    tree.cancel(root);
    tree.release(child);
    tree.release(root);
    assert!(tree.is_cancelled(root));
    assert!(tree.is_cancelled(child));
    let late = tree.child_token(child, OrphanPolicy::PendOnOrphan).unwrap();
    assert!(tree.is_cancelled(late));
}
