use std::sync::atomic::{AtomicUsize, Ordering};

use abs_sync::ok_or::XtOkOr;
use abs_sync::poll::{drive, Pending, Poll, Ready, TrPoll};

/// Adds one to a counter at its first step and then rests: one step after
/// an odd count, two after an even one.
struct FetchAdd<'a> {
    counter: &'a AtomicUsize,
    fetched: Option<usize>,
    rests: u8,
}

fn fetch_add(counter: &AtomicUsize) -> FetchAdd<'_> {
    FetchAdd { counter, fetched: None, rests: 0 }
}

impl<'a> TrPoll for FetchAdd<'a> {
    type Output = usize;

    fn pollable(&self) -> bool {
        true
    }

    fn outcome(&self) -> Poll<usize> {
        match self.fetched {
            Some(u) if self.rests == 0 => Poll::Ready(u),
            _ => Poll::Pending,
        }
    }

    fn next(&self) -> Self {
        FetchAdd {
            counter: self.counter,
            fetched: self.fetched,
            rests: self.rests.saturating_sub(1),
        }
    }

    fn poll(&mut self) -> Poll<usize> {
        match self.fetched {
            None => {
                let u = self.counter.fetch_add(1, Ordering::Relaxed);
                self.fetched = Some(u);
                self.rests = if u % 2 == 0 { 2 } else { 1 };
                Poll::Pending
            }
            Some(u) => {
                self.rests -= 1;
                if self.rests == 0 {
                    Poll::Ready(u)
                } else {
                    Poll::Pending
                }
            }
        }
    }
}

#[test]
fn or_else_should_poll_both_future() {
    let a1 = AtomicUsize::new(1);
    let a2 = AtomicUsize::new(2);

    let f1 = fetch_add(&a1);
    let f2 = fetch_add(&a2);

    let mut race = f1.ok_or(f2);
    let x = drive(&mut race, 100);
    assert!(matches!(x, Poll::Ready(Result::Ok(1))));
    assert_eq!(a1.load(Ordering::SeqCst), 2);
    assert_eq!(a2.load(Ordering::SeqCst), 3);
}

#[test]
fn slower_primary_side_loses_the_race() {
    let a1 = AtomicUsize::new(2);
    let a2 = AtomicUsize::new(1);
    let mut race = fetch_add(&a1).ok_or(fetch_add(&a2));
    assert!(matches!(drive(&mut race, 100), Poll::Ready(Err(1))));
    assert_eq!(a1.load(Ordering::SeqCst), 3);
    assert_eq!(a2.load(Ordering::SeqCst), 2);
}

#[test]
fn sides_that_are_ready_at_the_same_step_yield_the_primary() {
    let a1 = AtomicUsize::new(5);
    let a2 = AtomicUsize::new(7);
    let mut race = fetch_add(&a1).ok_or(fetch_add(&a2));
    assert!(race.poll().is_pending());
    assert!(matches!(race.poll(), Poll::Ready(Ok(5))));
}

#[test]
fn drive_stops_when_the_steps_are_used_up() {
    let a = AtomicUsize::new(4);
    let mut task = fetch_add(&a);
    assert!(drive(&mut task, 0).is_pending());
    assert_eq!(a.load(Ordering::SeqCst), 4);
    assert!(drive(&mut task, 2).is_pending());
    assert!(matches!(drive(&mut task, 1), Poll::Ready(4)));
    assert!(drive(&mut Pending::<u8>::new(), 50).is_pending());
    assert!(matches!(drive(&mut Ready::new(3), 1), Poll::Ready(3)));
    assert!(drive(&mut Ready::new(3), 0).is_pending());
}
