//! The run-once slot: storage for exactly one value, read out at most once.
//!
//! Written for zero allocation, such a slot puts its value into
//! caller-supplied uninitialized storage and manages an "is the value still
//! here" state by hand.  In this model the slot owns the value directly and
//! the type system plays the role of the manual state: extraction consumes
//! the slot, so a second extraction is rejected at compile time, and a slot
//! that is never extracted drops its value exactly once when it goes out of
//! scope.
use vstd::prelude::*;

verus! {

/// A slot holding exactly one value of type `T`.
pub struct RefOnce<T> {
    value: T,
}

impl<T> View for RefOnce<T> {
    type V = T;

    /// The value currently stored in the slot.
    closed spec fn view(&self) -> T {
        self.value
    }
}

impl<T> RefOnce<T> {
    /// Writes `value` into a fresh slot.
    pub fn new(value: T) -> (this: RefOnce<T>)
        ensures
            this@ == value,
    {
        RefOnce { value }
    }

    /// Moves the value out, consuming the slot; afterwards no access
    /// remains, so the value can be extracted only once.
    pub fn into_inner(this: RefOnce<T>) -> (value: T)
        ensures
            value == this@,
    {
        this.value
    }

    /// Reads the stored value while it is present.
    pub fn borrow(this: &RefOnce<T>) -> (r: &T)
        ensures
            *r == this@,
    {
        &this.value
    }

    /// Writes through to the stored value while it is present.
    pub fn borrow_mut(this: &mut RefOnce<T>) -> (r: &mut T)
        ensures
            *r == old(this)@,
            final(this)@ == *final(r),
    {
        &mut this.value
    }
}

} // verus!
