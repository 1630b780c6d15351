//! Synchronisation primitives where access to their contents can be revoked at runtime.
//!
//! A [`Revocable`] is reached through `&mut`: the exclusive borrow is the hold
//! on the cell, and a [`RevocableGuard`] keeps that hold for as long as it
//! lives. A cell that threads share is kept in the lock of the caller's
//! choice, whose guard hands out the `&mut`; a revocation then waits until
//! every guard on the value is gone.

use crate::sync::state::step;
use crate::sync::state::Op;
use core::ops::Deref;
use core::ops::DerefMut;
use vstd::prelude::*;

verus! {

/// Borrows the value in `slot`, if there is one.
fn live<T>(slot: &mut Option<T>) -> (r: Option<&mut T>)
    ensures
        r is Some <==> *old(slot) is Some,
        r matches Some(value) ==> *value == old(slot)->Some_0 && *final(slot) == Some(
            *final(value),
        ),
        r is None ==> *final(slot) == *old(slot),
    no_unwind
{
    match slot {
        Some(value) => Some(value),
        None => None,
    }
}

/// The state within the revocable synchronisation primitive.
///
/// The value is dropped where it lies, never moved out: callers may rely on
/// its address for as long as the cell itself stays put.
struct Inner<T> {
    is_available: bool,
    data: Option<T>,
}

impl<T> Inner<T> {
    /// The `is_available` field determines if `data` holds a value.
    #[verifier::type_invariant]
    spec fn consistent(&self) -> bool {
        self.is_available <==> self.data is Some
    }

    /// The live value, or `None` once it has been dropped.
    closed spec fn view(&self) -> Option<T> {
        self.data
    }

    fn new(data: T) -> (inner: Self)
        ensures
            inner@ == Some(data),
    {
        Self { is_available: true, data: Some(data) }
    }

    /// Drops the value, if it is still there.
    fn drop_in_place(&mut self)
        ensures
            final(self)@ == None::<T>,
    {
        proof {
            use_type_invariant(&*self);
        }
        if !self.is_available {
            // Already dropped.
            return;
        }
        // The flag and the value change in one assignment, which drops the
        // old value in place.
        *self = Self { is_available: false, data: None };
    }

    /// Borrows the live value, if there is one.
    fn data_mut(&mut self) -> (r: Option<&mut T>)
        ensures
            r is Some <==> old(self)@ is Some,
            r matches Some(value) ==> *value == old(self)@->Some_0 && final(self)@ == Some(
                *final(value),
            ),
            r is None ==> final(self)@ == old(self)@,
    {
        proof {
            use_type_invariant(&*self);
        }
        if !self.is_available {
            return None;
        }
        live(&mut self.data)
    }
}

/// A value that can be revoked at run time.
///
/// Its view is `Some(v)` while it holds the live value `v`, and `None` once
/// the value has been revoked. A cell that is dropped unrevoked drops its
/// value with it.
pub struct Revocable<T> {
    inner: Inner<T>,
}

impl<T> Revocable<T> {
    /// What the cell holds: the live value, or `None` once revoked.
    pub closed spec fn view(&self) -> Option<T> {
        self.inner@
    }

    /// Creates a new revocable instance holding `data`.
    pub fn new(data: T) -> (cell: Self)
        ensures
            cell@ == Some(data),
    {
        Self { inner: Inner::new(data) }
    }

    /// Revokes access to and drops the wrapped object.
    ///
    /// The exclusive borrow means that no guard on the value is alive when the
    /// revocation happens. Revoking a revoked cell changes nothing.
    pub fn revoke(&mut self)
        ensures
            final(self)@ == None::<T>,
            final(self)@ == step(old(self)@, Op::Revoke),
    {
        self.inner.drop_in_place();
    }

    /// Hands out a guard on the value, or `None` if it has been revoked.
    ///
    /// The cell stays borrowed while the guard lives, so nothing revokes it
    /// meanwhile: when the guard is gone, the cell is live and holds what the
    /// guard's holder left in it.
    pub fn try_write(&mut self) -> (r: Option<RevocableGuard<'_, T>>)
        ensures
            r is Some <==> old(self)@ is Some,
            r matches Some(guard) ==> guard@ == old(self)@->Some_0 && final(self)@ == Some(
                *final(guard.value),
            ),
            r matches Some(guard) ==> final(self)@ == step(
                old(self)@,
                Op::Access(*final(guard.value)),
            ),
            r is None ==> final(self)@ == old(self)@,
    {
        match self.inner.data_mut() {
            Some(value) => Some(RevocableGuard::new(value)),
            None => None,
        }
    }
}

/// Exclusive access to the live value of a [`Revocable`].
///
/// A cell hands out a guard only for a value that it found live, and it cannot
/// be revoked before the guard is gone: what the guard dereferences to is
/// never a dropped value. Dropping the guard gives the cell back.
pub struct RevocableGuard<'a, T> {
    /// The borrow of the value. It is public so that contracts can speak of
    /// what it leaves in the cell.
    pub value: &'a mut T,
}

impl<'a, T> RevocableGuard<'a, T> {
    /// The value as the guard sees it now.
    pub open spec fn view(&self) -> T {
        *self.value
    }

    fn new(value: &'a mut T) -> (guard: Self)
        ensures
            guard@ == *old(value),
            *final(guard.value) == *final(value),
    {
        Self { value }
    }
}

impl<'a, T> Deref for RevocableGuard<'a, T> {
    type Target = T;

    fn deref(&self) -> (r: &T)
        ensures
            *r == self@,
    {
        &*self.value
    }
}

impl<'a, T> DerefMut for RevocableGuard<'a, T> {
    /// The guard afterwards sees what is written through `r`, and still
    /// stands for the same borrow of the cell.
    fn deref_mut(&mut self) -> (r: &mut T)
        ensures
            *r == old(self)@,
            final(self)@ == *final(r),
            *final(final(self).value) == *final(old(self).value),
    {
        &mut *self.value
    }
}

} // verus!
