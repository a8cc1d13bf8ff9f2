//! Abstractions for locks whose waiting calls can be cancelled: the traits
//! of reader-writer locks and mutexes for callers that block or suspend,
//! cancellation tokens, a race of two computations, and the state machines
//! that say which guards a lock hands out and when.

pub mod async_lock;
pub mod async_mutex;
pub mod cancellation;
pub mod lock_state;
pub mod may_break;
pub mod may_cancel;
pub mod mutex;
pub mod never_cancel;
pub mod ok_or;
pub mod poll;
pub mod rw_lock;
pub mod sync_guard;
pub mod sync_lock;
pub mod sync_mutex;
pub mod sync_tasks;
pub mod token_tree;
