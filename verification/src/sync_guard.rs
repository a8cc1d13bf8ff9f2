use vstd::prelude::*;
use core::ops::{Deref, DerefMut};

verus! {

/// A guard that grants shared access to the value protected by a lock for as
/// long as the acquisition it stands for is held.
pub trait TrAcqRefGuard<'a, 'g, T>
where
    'a: 'g,
    Self: 'g + Sized + Deref<Target = T>,
    T: 'a + ?Sized,
{
    /// The protected value as the holder of the guard sees it.
    spec fn target(&self) -> &T;
}

/// A guard that grants exclusive access to the value protected by a lock.
pub trait TrAcqMutGuard<'a, 'g, T>
where
    'a: 'g,
    Self: 'g + Sized + DerefMut<Target = T> + TrAcqRefGuard<'a, 'g, T>,
    T: 'a + ?Sized,
{
}

} // verus!
