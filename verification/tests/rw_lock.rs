use abs_sync::cancellation::{Cancelled, CancelledToken, NonCancellableToken};
use abs_sync::lock_state::{Access, LockState};
use abs_sync::poll::Poll;
use abs_sync::rw_lock::{Guard, ReaderGuard, RwLock, Upgrade, UpgradableGuard, Waiter, WriterGuard};
use abs_sync::token_tree::{CancellationTree, OrphanPolicy};

fn granted(step: Poll<Result<Guard, Cancelled>>) -> Guard {
    match step {
        Poll::Ready(Ok(g)) => g,
        other => panic!("not granted: {:?}", other),
    }
}

fn reader(g: Guard) -> ReaderGuard {
    match g {
        Guard::Reader(r) => r,
        other => panic!("not a reader guard: {:?}", other),
    }
}

fn writer(g: Guard) -> WriterGuard {
    match g {
        Guard::Writer(w) => w,
        other => panic!("not a writer guard: {:?}", other),
    }
}

fn upgradable(g: Guard) -> UpgradableGuard {
    match g {
        Guard::Upgradable(u) => u,
        other => panic!("not an upgradable guard: {:?}", other),
    }
}

#[test]
fn new_lock_is_unlocked_and_keeps_its_value() {
    let lock = RwLock::new(7u32);
    assert_eq!(lock.current_state(), LockState::Unlocked);
    assert_eq!(lock.waiting(), 0);
}

#[test]
fn readers_share_the_lock() {
    let mut lock = RwLock::new(0u8);
    let a = lock.try_read().unwrap();
    let b = lock.try_read().unwrap();
    let c = lock.try_read().unwrap();
    assert_eq!(lock.current_state(), LockState::ReadLocked { count: 3 });
    assert!(lock.try_write().is_none());
    assert_eq!(lock.current_state(), LockState::ReadLocked { count: 3 });
    lock.release(Guard::Reader(a));
    lock.release(Guard::Reader(b));
    assert_eq!(lock.current_state(), LockState::ReadLocked { count: 1 });
    lock.release(Guard::Reader(c));
    assert_eq!(lock.current_state(), LockState::Unlocked);
}

#[test]
fn writer_excludes_everyone() {
    let mut lock = RwLock::new(0u8);
    let w = lock.try_write().unwrap();
    assert_eq!(lock.current_state(), LockState::WriteLocked);
    assert!(lock.try_read().is_none());
    assert!(lock.try_write().is_none());
    assert!(lock.try_upgradable_read().is_none());
    assert_eq!(lock.current_state(), LockState::WriteLocked);
    lock.release(Guard::Writer(w));
    assert_eq!(lock.current_state(), LockState::Unlocked);
    assert!(lock.try_write().is_some());
}

#[test]
fn upgradable_guard_shares_with_readers_only() {
    let mut lock = RwLock::new(0u8);
    let r = lock.try_read().unwrap();
    let u = lock.try_upgradable_read().unwrap();
    assert_eq!(lock.current_state(), LockState::UpgradableLocked { readers: 1, pending: false });
    assert!(lock.try_upgradable_read().is_none());
    assert!(lock.try_write().is_none());
    let r2 = lock.try_read().unwrap();
    assert_eq!(lock.current_state(), LockState::UpgradableLocked { readers: 2, pending: false });
    lock.release(Guard::Upgradable(u));
    assert_eq!(lock.current_state(), LockState::ReadLocked { count: 2 });
    lock.release(Guard::Reader(r));
    lock.release(Guard::Reader(r2));
    assert_eq!(lock.current_state(), LockState::Unlocked);
}

#[test]
fn writer_guard_replaces_the_value() {
    let mut lock = RwLock::new(String::from("old"));
    let w = lock.try_write().unwrap();
    let previous = lock.replace(&w, String::from("new"));
    assert_eq!(previous, "old");
    let g = Guard::Writer(w);
    assert_eq!(lock.get(&g), "new");
    assert_eq!(g.kind(), Access::Write);
    lock.release(g);
}

#[test]
fn downgrade_to_reader_never_unlocks() {
    let mut lock = RwLock::new(0u8);
    let w = lock.try_write().unwrap();
    let waiter = lock.enqueue(Access::Write).unwrap();
    let r = lock.downgrade_to_reader(w);
    assert_eq!(lock.current_state(), LockState::ReadLocked { count: 1 });
    assert!(matches!(lock.poll(waiter, false), Poll::Pending));
    lock.release(Guard::Reader(r));
    let w2 = writer(granted(lock.poll(waiter, false)));
    assert_eq!(lock.current_state(), LockState::WriteLocked);
    lock.release(Guard::Writer(w2));
}

#[test]
fn downgrade_to_upgradable_keeps_the_upgrade_right() {
    let mut lock = RwLock::new(0u8);
    let w = lock.try_write().unwrap();
    let u = lock.downgrade_to_upgradable(w);
    assert_eq!(lock.current_state(), LockState::UpgradableLocked { readers: 0, pending: false });
    let w = lock.try_upgrade(u).unwrap();
    assert_eq!(lock.current_state(), LockState::WriteLocked);
    lock.release(Guard::Writer(w));
}

#[test]
fn upgradable_downgrade_adds_a_reader() {
    let mut lock = RwLock::new(0u8);
    let u = lock.try_upgradable_read().unwrap();
    let r1 = lock.try_read().unwrap();
    let r2 = lock.downgrade(u);
    assert_eq!(lock.current_state(), LockState::ReadLocked { count: 2 });
    assert!(lock.try_upgradable_read().is_some());
    lock.release(Guard::Reader(r1));
    lock.release(Guard::Reader(r2));
}

#[test]
fn try_upgrade_fails_beside_a_reader_and_changes_nothing() {
    let mut lock = RwLock::new(0u8);
    let u = lock.try_upgradable_read().unwrap();
    let r = lock.try_read().unwrap();
    let before = lock.current_state();
    let u = lock.try_upgrade(u).unwrap_err().guard;
    assert_eq!(lock.current_state(), before);
    lock.release(Guard::Reader(r));
    assert!(lock.try_upgrade(u).is_ok());
    assert_eq!(lock.current_state(), LockState::WriteLocked);
}

#[test]
fn outstanding_ticket_refuses_new_readers() {
    let mut lock = RwLock::new(0u8);
    let u = lock.try_upgradable_read().unwrap();
    let r = lock.try_read().unwrap();
    let ticket = lock.upgrade(u);
    assert_eq!(lock.current_state(), LockState::UpgradableLocked { readers: 1, pending: true });
    assert!(lock.try_read().is_none());
    assert!(lock.try_write().is_none());
    let ticket = lock.try_upgrade_ticket(ticket).unwrap_err().guard;
    let ticket = match lock.poll_upgrade(ticket, false) {
        Upgrade::Pending(t) => t,
        other => panic!("unexpected step: {:?}", other),
    };
    lock.release(Guard::Reader(r));
    assert!(matches!(lock.poll_upgrade(ticket, true), Upgrade::Done(_)));
    assert_eq!(lock.current_state(), LockState::WriteLocked);
}

#[test]
fn cancelled_upgrade_restores_the_upgradable_guard() {
    let mut lock = RwLock::new(0u8);
    let u = lock.try_upgradable_read().unwrap();
    let r = lock.try_read().unwrap();
    let before = lock.current_state();
    let ticket = lock.upgrade(u);
    let during = lock.current_state();
    let ticket = match lock.poll_upgrade(ticket, true) {
        Upgrade::Cancelled(t) => t,
        other => panic!("unexpected step: {:?}", other),
    };
    assert_eq!(lock.current_state(), during);
    let u = lock.into_guard(ticket);
    assert_eq!(lock.current_state(), before);
    let r2 = lock.try_read().unwrap();
    lock.release(Guard::Reader(r));
    lock.release(Guard::Reader(r2));
    assert!(lock.try_upgrade(u).is_ok());
}

#[test]
fn waiting_requests_are_served_in_order() {
    let mut lock = RwLock::new(0u8);
    let w = lock.try_write().unwrap();
    let first = lock.enqueue(Access::Write).unwrap();
    let second = lock.enqueue(Access::Read).unwrap();
    assert_eq!(first, Waiter { id: 0, access: Access::Write });
    assert_eq!(second, Waiter { id: 1, access: Access::Read });
    assert_eq!(lock.position(second), Some(1));
    assert_eq!(lock.waiting(), 2);
    assert!(lock.try_read().is_none());
    lock.release(Guard::Writer(w));
    assert!(lock.try_read().is_none());
    assert!(matches!(lock.poll(second, false), Poll::Pending));
    let w1 = writer(granted(lock.poll(first, false)));
    assert!(matches!(lock.poll(second, false), Poll::Pending));
    lock.release(Guard::Writer(w1));
    let r = reader(granted(lock.poll(second, false)));
    assert_eq!(lock.waiting(), 0);
    assert_eq!(lock.current_state(), LockState::ReadLocked { count: 1 });
    lock.release(Guard::Reader(r));
}

#[test]
fn cancelled_wait_leaves_the_lock_as_it_was() {
    let mut lock = RwLock::new(0u8);
    let r = lock.try_read().unwrap();
    let before = lock.current_state();
    let waiter = lock.enqueue(Access::Write).unwrap();
    assert!(lock.try_read().is_none());
    assert!(matches!(lock.poll(waiter, true), Poll::Ready(Err(Cancelled))));
    assert_eq!(lock.current_state(), before);
    assert_eq!(lock.waiting(), 0);
    assert_eq!(lock.position(waiter), None);
    let r2 = lock.try_read().unwrap();
    assert_eq!(lock.current_state(), LockState::ReadLocked { count: 2 });
    assert!(lock.try_write().is_none());
    lock.release(Guard::Reader(r));
    lock.release(Guard::Reader(r2));
    assert!(lock.try_write().is_some());
}

#[test]
fn cancellation_in_the_middle_keeps_the_others_in_order() {
    let mut lock = RwLock::new(0u8);
    let w = lock.try_write().unwrap();
    let a = lock.enqueue(Access::Read).unwrap();
    let b = lock.enqueue(Access::Write).unwrap();
    let c = lock.enqueue(Access::UpgradableRead).unwrap();
    assert!(matches!(lock.poll(b, true), Poll::Ready(Err(Cancelled))));
    assert_eq!(lock.position(a), Some(0));
    assert_eq!(lock.position(c), Some(1));
    let d = lock.enqueue(Access::Write).unwrap();
    assert_eq!(d.id, 3);
    lock.release(Guard::Writer(w));
    let ra = reader(granted(lock.poll(a, false)));
    let uc = upgradable(granted(lock.poll(c, false)));
    assert_eq!(lock.current_state(), LockState::UpgradableLocked { readers: 1, pending: false });
    assert!(matches!(lock.poll(d, false), Poll::Pending));
    lock.release(Guard::Reader(ra));
    lock.release(Guard::Upgradable(uc));
    assert!(matches!(lock.poll(d, false), Poll::Ready(Ok(Guard::Writer(_)))));
}

#[test]
fn served_request_wins_over_the_signal() {
    let mut lock = RwLock::new(0u8);
    let waiter = lock.enqueue(Access::Read).unwrap();
    let g = granted(lock.poll(waiter, true));
    assert_eq!(g.kind(), Access::Read);
    assert_eq!(lock.current_state(), LockState::ReadLocked { count: 1 });
}

#[test]
fn poll_with_reads_the_token() {
    let mut lock = RwLock::new(0u8);
    let w = lock.try_write().unwrap();
    let a = lock.enqueue(Access::Read).unwrap();
    assert!(matches!(lock.poll_with(a, &NonCancellableToken::new()), Poll::Pending));
    assert!(matches!(lock.poll_with(a, &CancelledToken::new()), Poll::Ready(Err(Cancelled))));
    assert_eq!(lock.waiting(), 0);
    assert_eq!(lock.current_state(), LockState::WriteLocked);
    lock.release(Guard::Writer(w));
}

#[test]
fn request_that_does_not_wait_counts_as_cancelled() {
    let mut lock = RwLock::new(0u8);
    let stray = Waiter { id: 9, access: Access::Read };
    assert!(matches!(lock.poll(stray, false), Poll::Ready(Err(Cancelled))));
    assert_eq!(lock.current_state(), LockState::Unlocked);
    assert_eq!(lock.waiting(), 0);
}

#[test]
fn upgrade_scenario_from_end_to_end() {
    let mut lock = RwLock::new(0u32);
    assert_eq!(lock.current_state(), LockState::Unlocked);
    // A takes the upgradable guard, B reads beside it.
    let a = lock.try_upgradable_read().unwrap();
    let b = lock.try_read().unwrap();
    // A cannot upgrade while B reads.
    let a = lock.try_upgrade(a).unwrap_err().guard;
    assert_eq!(lock.current_state(), LockState::UpgradableLocked { readers: 1, pending: false });
    lock.release(Guard::Reader(b));
    // Now A becomes the writer.
    let a = lock.try_upgrade(a).unwrap();
    assert_eq!(lock.current_state(), LockState::WriteLocked);
    // C asks for the writer guard and has to wait.
    let c = lock.enqueue(Access::Write).unwrap();
    assert!(matches!(lock.poll(c, false), Poll::Pending));
    // A becomes a reader: C still waits.
    let a = lock.downgrade_to_reader(a);
    assert_eq!(lock.current_state(), LockState::ReadLocked { count: 1 });
    assert!(matches!(lock.poll(c, false), Poll::Pending));
    assert_eq!(lock.waiting(), 1);
    // A leaves: C is served.
    lock.release(Guard::Reader(a));
    assert!(matches!(lock.poll(c, false), Poll::Ready(Ok(Guard::Writer(_)))));
    assert_eq!(lock.current_state(), LockState::WriteLocked);
    assert_eq!(lock.waiting(), 0);
}

#[test]
fn lock_state_transitions() {
    let s = LockState::Unlocked;
    assert!(s.can_admit(Access::Read));
    assert!(s.can_admit(Access::Write));
    assert!(s.can_admit(Access::UpgradableRead));
    assert!(!s.has(Access::Read));
    let s = s.grant(Access::Read);
    assert_eq!(s, LockState::ReadLocked { count: 1 });
    assert!(s.has(Access::Read));
    assert!(!s.can_admit(Access::Write));
    let s = s.grant(Access::UpgradableRead);
    assert_eq!(s, LockState::UpgradableLocked { readers: 1, pending: false });
    assert!(s.has(Access::UpgradableRead));
    assert!(!s.can_admit(Access::UpgradableRead));
    let s = s.release(Access::Read);
    assert_eq!(s, LockState::UpgradableLocked { readers: 0, pending: false });
    assert!(!s.has(Access::Read));
    assert_eq!(s.release(Access::UpgradableRead), LockState::Unlocked);
    assert_eq!(LockState::WriteLocked.release(Access::Write), LockState::Unlocked);
    assert!(!LockState::WriteLocked.can_admit(Access::Read));
    assert!(!LockState::ReadLocked { count: usize::MAX }.can_admit(Access::Read));
    assert!(!LockState::UpgradableLocked { readers: usize::MAX - 1, pending: false }
        .can_admit(Access::Read));
    assert!(!LockState::UpgradableLocked { readers: 0, pending: true }.can_admit(Access::Read));
    assert!(!LockState::UpgradableLocked { readers: 0, pending: true }.has(Access::UpgradableRead));
}

#[test]
fn waiting_request_follows_a_live_token() {
    let mut tree = CancellationTree::new();
    let root = tree.root_token();
    let token = tree.child_token(root, OrphanPolicy::PendOnOrphan).unwrap();
    let mut lock = RwLock::new(0u8);
    let w = lock.try_write().unwrap();
    let waiter = lock.enqueue(Access::Read).unwrap();
    assert!(matches!(lock.poll_with(waiter, &tree.token(token)), Poll::Pending));
    tree.cancel(root);
    assert!(matches!(lock.poll_with(waiter, &tree.token(token)), Poll::Ready(Err(Cancelled))));
    assert_eq!(lock.current_state(), LockState::WriteLocked);
    assert_eq!(lock.waiting(), 0);
    assert_eq!(*lock.get_exclusive(&w), 0);
    lock.release(Guard::Writer(w));
    assert!(lock.try_read().is_some());
}

#[test]
fn waiting_upgrade_follows_a_token() {
    let mut lock = RwLock::new(0u8);
    let u = lock.try_upgradable_read().unwrap();
    let r = lock.try_read().unwrap();
    let ticket = lock.upgrade(u);
    let ticket = match lock.poll_upgrade_with(ticket, &NonCancellableToken::new()) {
        Upgrade::Pending(t) => t,
        other => panic!("unexpected step: {:?}", other),
    };
    let ticket = match lock.poll_upgrade_with(ticket, &CancelledToken::new()) {
        Upgrade::Cancelled(t) => t,
        other => panic!("unexpected step: {:?}", other),
    };
    assert_eq!(lock.current_state(), LockState::UpgradableLocked { readers: 1, pending: true });
    lock.release(Guard::Reader(r));
    assert!(matches!(lock.poll_upgrade_with(ticket, &CancelledToken::new()), Upgrade::Done(_)));
    assert_eq!(lock.current_state(), LockState::WriteLocked);
}
