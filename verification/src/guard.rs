//! The runtime half of the linearity emulation: a wrapper that suppresses the
//! automatic destructor of its payload and offers one explicit way out.

use core::mem::ManuallyDrop;
use core::ops::Deref;
use vstd::prelude::*;

verus! {

/// The must-consume capability.  A type that implements it promises that every
/// value is finished off through [`NearlyLinear::done`] rather than by falling
/// out of scope; the scanner flags the implicit destroys that break that
/// promise.
pub trait NearlyLinear {
    /// The payload that `done` extracts.
    type Inner;

    /// Explicitly consume the value, yielding its payload.
    fn done(self) -> Self::Inner;
}

/// A wrapper with the same payload it was built from and an inert automatic
/// destructor: letting a `DropGuard` fall out of scope runs no cleanup at all,
/// not even the payload's own.  The only intended exit is
/// [`NearlyLinear::done`], which moves the payload back out unchanged.
pub struct DropGuard<T> {
    item: ManuallyDrop<T>,
}

impl<T> View for DropGuard<T> {
    type V = T;

    closed spec fn view(&self) -> T {
        self.item@
    }
}

impl<T> DropGuard<T> {
    /// Wrap a value.  Always succeeds and performs no validation.
    pub fn new(item: T) -> (guard: Self)
        ensures
            guard@ == item,
    {
        DropGuard { item: ManuallyDrop::new(item) }
    }

    /// Transparent read access to the wrapped value.
    pub fn get(&self) -> (item: &T)
        ensures
            *item == self@,
    {
        self.item.deref()
    }

    /// Transparent write access to the wrapped value.
    pub fn get_mut(&mut self) -> (item: &mut T)
        ensures
            *item == old(self)@,
            final(self)@ == *final(item),
    {
        manually_drop_deref_mut(&mut self.item)
    }
}

impl<T> NearlyLinear for DropGuard<T> {
    type Inner = T;

    /// Consume the guard, returning the wrapped value itself.  Ordinary
    /// ownership transfer out of the `ManuallyDrop` slot: no destructor runs,
    /// neither the guard's (it has none to run) nor the payload's.
    fn done(self) -> (item: T)
        ensures
            item == self@,
    {
        ManuallyDrop::into_inner(self.item)
    }
}

/// Relies on `core::mem::ManuallyDrop`'s `DerefMut` impl: it hands out a
/// mutable reference to the slot's value, and the slot afterwards holds
/// whatever the caller wrote through that reference.
#[verifier::external_body]
fn manually_drop_deref_mut<T>(slot: &mut ManuallyDrop<T>) -> (item: &mut T)
    ensures
        *item == old(slot)@,
        final(slot)@ == *final(item),
{
    &mut **slot
}

} // verus!
