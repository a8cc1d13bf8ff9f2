use vstd::prelude::*;
use crate::may_cancel::TrMayCancel;
use crate::sync_guard::{TrAcqMutGuard, TrAcqRefGuard};

verus! {

/// Reader-Writer lock for asynchronous task pattern.
pub trait TrAsyncRwLock {
    type Target: ?Sized;

    type Acquire<'a>: TrAsyncRwLockAcquire<'a, Self::Target> where Self: 'a;

    fn acquire(&self) -> Self::Acquire<'_>;
}

/// A borrow of a lock through which guards are asked for, one at a time.
/// The `try_` forms never suspend and leave the lock untouched when they
/// hand out nothing; the other forms hand out a task to be driven until the
/// guard is handed out or the task is cancelled. Which guards may be
/// outstanding together, and in which order requests are served, is laid
/// down by the state machine of `crate::rw_lock::RwLock`.
pub trait TrAsyncRwLockAcquire<'a, T>
where
    Self: 'a,
    T: 'a + ?Sized,
{
    type ReaderGuard<'g>: TrReaderGuard<'a, 'g, T> where 'a: 'g;

    type WriterGuard<'g>: TrWriterGuard<'a, 'g, T, ReaderGuard = Self::ReaderGuard<'g>> where
        'a: 'g;

    type UpgradableGuard<'g>: TrUpgradableReaderGuard<
        'a,
        'g,
        T,
        ReaderGuard = Self::ReaderGuard<'g>,
    > where 'a: 'g;

    type ReadAsync<'g>: TrMayCancel<
        MayCancelOutput = Self::ReaderGuard<'g>,
    > where 'a: 'g;

    type WriteAsync<'g>: TrMayCancel<
        MayCancelOutput = Self::WriterGuard<'g>,
    > where 'a: 'g;

    type UpgradableReadAsync<'g>: TrMayCancel<
        MayCancelOutput = Self::UpgradableGuard<'g>,
    > where 'a: 'g;

    fn try_read<'g>(&'g mut self) -> Option<Self::ReaderGuard<'g>> where 'a: 'g;

    fn try_write<'g>(&'g mut self) -> Option<Self::WriterGuard<'g>> where 'a: 'g;

    fn try_upgradable_read<'g>(&'g mut self) -> Option<Self::UpgradableGuard<'g>> where 'a: 'g;

    /// Hands out the task that waits for the guard, ready to be stepped.
    fn read_async<'g>(&'g mut self) -> (task: Self::ReadAsync<'g>) where 'a: 'g
        ensures
            task.pollable(),
    ;

    /// Hands out the task that waits for the guard, ready to be stepped.
    fn write_async<'g>(&'g mut self) -> (task: Self::WriteAsync<'g>) where 'a: 'g
        ensures
            task.pollable(),
    ;

    /// Hands out the task that waits for the guard, ready to be stepped.
    fn upgradable_read_async<'g>(&'g mut self) -> (task: Self::UpgradableReadAsync<'g>) where 'a: 'g
        ensures
            task.pollable(),
    ;
}

pub trait TrReaderGuard<'a, 'g, T>
where
    'a: 'g,
    Self: 'g + Sized + TrAcqRefGuard<'a, 'g, T>,
    T: 'a + ?Sized,
{
}

pub trait TrUpgradableReaderGuard<'a, 'g, T>
where
    'a: 'g,
    Self: 'g + TrReaderGuard<'a, 'g, T>,
    T: 'a + ?Sized,
{
    type ReaderGuard: TrReaderGuard<'a, 'g, T>;

    type Upgrade: TrUpgrade<'a, 'g, T, UpgradableGuard = Self>;

    /// Gives the upgrade right up. The value stays in sight.
    fn downgrade(self) -> (reader: Self::ReaderGuard)
        ensures
            reader.target() == self.target(),
    ;

    /// Commits to becoming the writer guard.
    fn upgrade(self) -> (upgrade: Self::Upgrade)
        ensures
            upgrade.guard() == self,
    ;
}

pub trait TrWriterGuard<'a, 'g, T>
where
    'a: 'g,
    Self: 'g + TrReaderGuard<'a, 'g, T> + TrAcqMutGuard<'a, 'g, T>,
    T: 'a + ?Sized,
{
    type ReaderGuard: TrReaderGuard<'a, 'g, T>;

    type UpgradableGuard: TrReaderGuard<'a, 'g, T>;

    /// Becomes a reader guard of the value as the writer left it.
    fn downgrade(self) -> (reader: Self::ReaderGuard)
        ensures
            reader.target() == self.target(),
    ;

    /// Becomes the upgradable guard of the value as the writer left it.
    fn downgrade_to_upgradable(self) -> (upgradable: Self::UpgradableGuard)
        ensures
            upgradable.target() == self.target(),
    ;
}

/// An upgradable guard that committed to becoming the writer.
pub trait TrUpgrade<'a, 'g, T>: Sized
where
    'a: 'g,
    T: 'a + ?Sized,
{
    type UpgradableGuard: TrReaderGuard<'a, 'g, T>;

    type WriterGuard<'u>: TrWriterGuard<'a, 'u, T> where 'g: 'u, 'a: 'u, Self: 'u;

    type UpgradeAsync<'u>: TrMayCancel<
        MayCancelOutput = Self::WriterGuard<'u>,
    > where 'g: 'u, 'a: 'u, Self: 'u;

    /// The upgradable guard that committed itself.
    spec fn guard(&self) -> Self::UpgradableGuard;

    /// Becomes the writer guard of the value as the upgradable guard saw
    /// it, if the lock allows it right now.
    fn try_upgrade<'u>(&'u mut self) -> (r: Option<Self::WriterGuard<'u>>) where 'g: 'u
        ensures
            r matches Some(writer) ==> writer.target() == old(self).guard().target(),
    ;

    /// Hands out the task that waits for the guard, ready to be stepped.
    fn upgrade_async<'u>(&'u mut self) -> (task: Self::UpgradeAsync<'u>) where 'g: 'u
        ensures
            task.pollable(),
    ;

    /// Takes the commitment back: hands out the upgradable guard as it was.
    fn into_guard(self) -> (guard: Self::UpgradableGuard)
        ensures
            guard == self.guard(),
    ;
}

} // verus!
