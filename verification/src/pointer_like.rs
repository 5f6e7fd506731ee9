//! The pointer capability layer: which ownership kinds grant which accesses.
//!
//! Each ownership kind (shared borrow, exclusive borrow, heap box,
//! reference-counted pointer, run-once slot) declares the subset of
//! capabilities it supports by implementing the traits below.  Downstream
//! erased records rely on these compile-time declarations instead of runtime
//! checks: a read-only invoke demands [`PointerDeref`], a mutable invoke
//! [`PointerDerefMut`], a move-out invoke [`PointerIntoInner`].
//!
//! Erasing a capability to a bare address and back cannot be stated in safe,
//! verified code; here the capability value itself stands for the address,
//! and [`PointerLike::pointee`] is the specification-level view of the object
//! it gives access to.
use vstd::prelude::*;

use crate::ref_once::RefOnce;
use std::rc::Rc;
use std::sync::Arc;

verus! {

/// An ownership kind over some pointee type.
///
/// The specification view [`Self::pointee`] names the object the capability
/// gives access to; the access traits below promise their operations agree
/// with it.
pub trait PointerLike: Sized {
    /// The type the capability points at.
    type Pointee;

    /// The object this capability currently gives access to.
    spec fn pointee(self) -> Self::Pointee;
}

/// Read access: the capability can hand out a shared reference to the
/// pointee.  Valid for shared and exclusive borrows, boxes,
/// reference-counted pointers and the run-once slot.
pub trait PointerDeref: PointerLike {
    /// Shared view of the pointee.
    fn pointee_ref(&self) -> (r: &Self::Pointee)
        ensures
            *r == (*self).pointee(),
    ;
}

/// Mutable access: the capability can hand out an exclusive reference to the
/// pointee.  Valid for exclusive borrows, boxes and the run-once slot.
pub trait PointerDerefMut: PointerDeref {
    /// Exclusive view of the pointee.
    fn pointee_mut(&mut self) -> (r: &mut Self::Pointee)
        ensures
            *r == (*old(self)).pointee(),
            (*final(self)).pointee() == *final(r),
    ;
}

/// Move-out: the capability can be consumed, extracting the pointee by
/// value.  Valid for boxes and the run-once slot.
pub trait PointerIntoInner: PointerDerefMut {
    /// Consumes the capability and extracts the pointee.
    fn into_inner(self) -> (r: Self::Pointee)
        ensures
            r == self.pointee(),
    ;
}

/// Pinned-in-place access: the pointee may be polled in place, because the
/// original capability is guaranteed to run its destructor rather than being
/// leaked.  Deriving an actual pinned reference is the unsafe step this
/// capability exists for; the model hands out the exclusive reference such a
/// pin would wrap.
pub trait PointerPinUnforgotten: PointerDeref {
    /// Exclusive in-place view of the pointee, under the no-leak promise.
    fn pointee_pin(&mut self) -> (r: &mut Self::Pointee)
        ensures
            *r == (*old(self)).pointee(),
            (*final(self)).pointee() == *final(r),
    ;
}

impl<'a, T> PointerLike for &'a T {
    type Pointee = T;

    open spec fn pointee(self) -> T {
        *self
    }
}

impl<'a, T> PointerDeref for &'a T {
    fn pointee_ref(&self) -> (r: &T) {
        *self
    }
}

impl<'a, T> PointerLike for &'a mut T {
    type Pointee = T;

    open spec fn pointee(self) -> T {
        *self
    }
}

impl<'a, T> PointerDeref for &'a mut T {
    fn pointee_ref(&self) -> (r: &T) {
        &**self
    }
}

impl<'a, T> PointerDerefMut for &'a mut T {
    fn pointee_mut(&mut self) -> (r: &mut T) {
        &mut **self
    }
}

/// The pointee of an exclusive borrow never moves while extended, so pinned
/// access asks no more than mutable access.
impl<'a, T> PointerPinUnforgotten for &'a mut T {
    fn pointee_pin(&mut self) -> (r: &mut T) {
        &mut **self
    }
}

impl<T> PointerLike for Box<T> {
    type Pointee = T;

    open spec fn pointee(self) -> T {
        *self
    }
}

impl<T> PointerDeref for Box<T> {
    fn pointee_ref(&self) -> (r: &T) {
        &**self
    }
}

impl<T> PointerDerefMut for Box<T> {
    fn pointee_mut(&mut self) -> (r: &mut T) {
        &mut **self
    }
}

impl<T> PointerIntoInner for Box<T> {
    fn into_inner(self) -> (r: T) {
        *self
    }
}

/// A box frees its heap cell on drop, so its pointee is never leaked in
/// place.
impl<T> PointerPinUnforgotten for Box<T> {
    fn pointee_pin(&mut self) -> (r: &mut T) {
        &mut **self
    }
}

impl<T> PointerLike for Rc<T> {
    type Pointee = T;

    open spec fn pointee(self) -> T {
        *self
    }
}

impl<T> PointerDeref for Rc<T> {
    fn pointee_ref(&self) -> (r: &T) {
        &**self
    }
}

impl<T> PointerLike for Arc<T> {
    type Pointee = T;

    open spec fn pointee(self) -> T {
        *self
    }
}

impl<T> PointerDeref for Arc<T> {
    fn pointee_ref(&self) -> (r: &T) {
        &**self
    }
}

impl<T> PointerLike for RefOnce<T> {
    type Pointee = T;

    open spec fn pointee(self) -> T {
        self@
    }
}

impl<T> PointerDeref for RefOnce<T> {
    fn pointee_ref(&self) -> (r: &T) {
        RefOnce::borrow(self)
    }
}

impl<T> PointerDerefMut for RefOnce<T> {
    fn pointee_mut(&mut self) -> (r: &mut T) {
        RefOnce::borrow_mut(self)
    }
}

impl<T> PointerIntoInner for RefOnce<T> {
    fn into_inner(self) -> (r: T) {
        RefOnce::into_inner(self)
    }
}

/// The slot's storage is caller-owned, but the slot value itself is assumed
/// not to be forgotten, so its destructor eventually runs and pinned access
/// is sound.
impl<T> PointerPinUnforgotten for RefOnce<T> {
    fn pointee_pin(&mut self) -> (r: &mut T) {
        RefOnce::borrow_mut(self)
    }
}

} // verus!
