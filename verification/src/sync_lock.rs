use vstd::prelude::*;
use crate::cancellation::Cancelled;
use crate::may_break::TrMayBreak;
use crate::sync_guard::{TrAcqMutGuard, TrAcqRefGuard};

verus! {

/// Reader-writer lock for callers that block.
pub trait TrSyncRwLock {
    type Target: ?Sized;

    type Acquire<'a>: TrSyncRwLockAcquire<'a, Self::Target> where Self: 'a;

    fn acquire(&self) -> Self::Acquire<'_>;
}

/// A borrow of a lock through which guards are asked for, one at a time.
/// The `try_` forms never block and leave the lock untouched when they hand
/// out nothing; the other forms hand out a job that blocks until the guard
/// is handed out or the job is discontinued. Which guards may be outstanding
/// together, and in which order requests are served, is laid down by the
/// state machine of `crate::rw_lock::RwLock`.
pub trait TrSyncRwLockAcquire<'a, T>
where
    Self: 'a,
    T: 'a + ?Sized,
{
    type ReaderGuard<'g>: TrSyncReaderGuard<'a, 'g, T> where 'a: 'g;

    type WriterGuard<'g>: TrSyncWriterGuard<'a, 'g, T, ReaderGuard = Self::ReaderGuard<'g>> where
        'a: 'g;

    type UpgradableGuard<'g>: TrSyncUpgradableReaderGuard<
        'a,
        'g,
        T,
        ReaderGuard = Self::ReaderGuard<'g>,
        WriterGuard = Self::WriterGuard<'g>,
    > where 'a: 'g;

    type Read<'g>: TrMayBreak<MayBreakOutput = Result<Self::ReaderGuard<'g>, Cancelled>> where
        'a: 'g;

    type Write<'g>: TrMayBreak<MayBreakOutput = Result<Self::WriterGuard<'g>, Cancelled>> where
        'a: 'g;

    type UpgradableRead<'g>: TrMayBreak<
        MayBreakOutput = Result<Self::UpgradableGuard<'g>, Cancelled>,
    > where 'a: 'g;

    fn try_read<'g>(&'g mut self) -> Option<Self::ReaderGuard<'g>> where 'a: 'g;

    fn try_write<'g>(&'g mut self) -> Option<Self::WriterGuard<'g>> where 'a: 'g;

    fn try_upgradable_read<'g>(&'g mut self) -> Option<Self::UpgradableGuard<'g>> where 'a: 'g;

    fn read<'g>(&'g mut self) -> Self::Read<'g> where 'a: 'g;

    fn write<'g>(&'g mut self) -> Self::Write<'g> where 'a: 'g;

    fn upgradable_read<'g>(&'g mut self) -> Self::UpgradableRead<'g> where 'a: 'g;
}

pub trait TrSyncReaderGuard<'a, 'g, T>
where
    'a: 'g,
    Self: 'g + Sized + TrAcqRefGuard<'a, 'g, T>,
    T: 'a + ?Sized,
{
}

pub trait TrSyncUpgradableReaderGuard<'a, 'g, T>
where
    'a: 'g,
    Self: 'g + TrSyncReaderGuard<'a, 'g, T>,
    T: 'a + ?Sized,
{
    type ReaderGuard: TrSyncReaderGuard<'a, 'g, T>;

    type WriterGuard: TrSyncWriterGuard<'a, 'g, T>;

    type Upgrade: TrSyncUpgrade<'a, 'g, T, UpgradableGuard = Self>;

    /// Gives the upgrade right up. The value stays in sight.
    fn downgrade(self) -> (reader: Self::ReaderGuard)
        ensures
            reader.target() == self.target(),
    ;

    /// Becomes the writer guard of the value as it was in sight, or comes
    /// back as it was.
    fn try_upgrade(self) -> (r: Result<Self::WriterGuard, Self>)
        ensures
            match r {
                Ok(writer) => writer.target() == self.target(),
                Err(guard) => guard == self,
            },
    ;

    /// Commits to becoming the writer guard.
    fn upgrade(self) -> (upgrade: Self::Upgrade)
        ensures
            upgrade.guard() == self,
    ;
}

pub trait TrSyncWriterGuard<'a, 'g, T>
where
    'a: 'g,
    Self: 'g + TrSyncReaderGuard<'a, 'g, T> + TrAcqMutGuard<'a, 'g, T>,
    T: 'a + ?Sized,
{
    type ReaderGuard: TrSyncReaderGuard<'a, 'g, T>;

    type UpgradableGuard: TrSyncReaderGuard<'a, 'g, T>;

    /// Becomes a reader guard of the value as the writer left it.
    fn downgrade_to_reader(self) -> (reader: Self::ReaderGuard)
        ensures
            reader.target() == self.target(),
    ;

    /// Becomes the upgradable guard of the value as the writer left it.
    fn downgrade_to_upgradable(self) -> (upgradable: Self::UpgradableGuard)
        ensures
            upgradable.target() == self.target(),
    ;
}

/// An upgradable guard that committed to becoming the writer.
pub trait TrSyncUpgrade<'a, 'g, T>: Sized
where
    'a: 'g,
    T: 'a + ?Sized,
{
    type UpgradableGuard: TrSyncReaderGuard<'a, 'g, T>;

    type WriterGuard<'u>: TrSyncWriterGuard<'a, 'u, T> where 'g: 'u, 'a: 'u, Self: 'u;

    type Upgrade<'u>: TrMayBreak<MayBreakOutput = Result<Self::WriterGuard<'u>, Cancelled>> where
        'g: 'u,
        'a: 'u,
        Self: 'u;

    /// The upgradable guard that committed itself.
    spec fn guard(&self) -> Self::UpgradableGuard;

    /// Becomes the writer guard of the value as the upgradable guard saw
    /// it, if the lock allows it right now.
    fn try_upgrade<'u>(&'u mut self) -> (r: Option<Self::WriterGuard<'u>>) where 'g: 'u
        ensures
            r matches Some(writer) ==> writer.target() == old(self).guard().target(),
    ;

    fn upgrade<'u>(&'u mut self) -> Self::Upgrade<'u> where 'g: 'u;

    /// Takes the commitment back: hands out the upgradable guard as it was.
    fn into_guard(self) -> (guard: Self::UpgradableGuard)
        ensures
            guard == self.guard(),
    ;
}

} // verus!
