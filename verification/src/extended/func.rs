//! Erased callable records and the extended function-call handles.
//!
//! An [`ErasedFn`] is one erasure-table record: a capability value standing
//! for the erased address, invoked through the operations its ownership kind
//! grants (read-only, mutable, or move-out invoke).  One such record exists
//! per (ownership kind, signature) pair — the monomorphized capability
//! impls — with no type tag and no dispatch table at the call site, and the
//! contracts state exactly what each invoke forwards to the pointee.
//!
//! An extended handle bundles an erased record with one fence token; the
//! token leaves the handle only when the handle is done with the pointee.
use vstd::prelude::*;

use crate::extended::sync::Reference;
use crate::extended::Extender;
use crate::pointer_like::{PointerDeref, PointerDerefMut, PointerIntoInner};

verus! {

/// One erasure-table record: a capability for some callable pointee.
pub struct ErasedFn<P> {
    target: P,
}

impl<P> View for ErasedFn<P> {
    type V = P;

    /// The capability held by the record.
    closed spec fn view(&self) -> P {
        self.target
    }
}

impl<P> ErasedFn<P> {
    /// Read-only invoke: forwards to the pointee through shared access.
    pub fn call<I, O>(&self, input: I) -> (output: O) where
        P: PointerDeref,
        P::Pointee: Fn(I) -> O,

        requires
            call_requires((*self)@.pointee(), (input,)),
        ensures
            call_ensures((*self)@.pointee(), (input,), output),
    {
        (self.target.pointee_ref())(input)
    }

    /// Mutable invoke: forwards to the pointee through exclusive access.
    ///
    /// The pointee is a stateful callable; what its state becomes is its own
    /// business, so the contract speaks of the pointee as it was when the
    /// invoke started.
    pub fn call_mut<I, O>(&mut self, input: I) -> (output: O) where
        P: PointerDerefMut,
        P::Pointee: FnMut(I) -> O,

        requires
            call_requires(old(self)@.pointee(), (input,)),
        ensures
            call_ensures(old(self)@.pointee(), (input,), output),
    {
        (self.target.pointee_mut())(input)
    }

    /// Move-out invoke: consumes the record, extracts the pointee and runs
    /// it; the pointee is cleaned up by the run itself.
    pub fn call_once<I, O>(self, input: I) -> (output: O) where
        P: PointerIntoInner,
        P::Pointee: FnOnce(I) -> O,

        requires
            call_requires(self@.pointee(), (input,)),
        ensures
            call_ensures(self@.pointee(), (input,), output),
    {
        let f = self.target.into_inner();
        f(input)
    }

    /// The release operation of the record: gives the capability up, which
    /// runs whatever cleanup the ownership kind calls for (nothing for a
    /// borrow, deallocation for a box, an in-place drop for a slot).
    pub fn release(self) {
    }
}

/// Erases a read-only callable without binding it to a fence.
///
/// "Unchecked" means nothing tracks how long the erased callable stays in
/// use: the record carries no token, so nothing keeps a scope from closing
/// over it.
pub fn extend_fn_unchecked<P, I, O>(f: P) -> (r: ErasedFn<P>) where
    P: PointerDeref,
    P::Pointee: Fn(I) -> O,

    ensures
        r@ == f,
{
    ErasedFn { target: f }
}

/// Erases a mutable callable without binding it to a fence.
pub fn extend_fn_mut_unchecked<P, I, O>(f: P) -> (r: ErasedFn<P>) where
    P: PointerDerefMut,
    P::Pointee: FnMut(I) -> O,

    ensures
        r@ == f,
{
    ErasedFn { target: f }
}

/// Erases a one-shot callable without binding it to a fence.
pub fn extend_fn_once_unchecked<P, I, O>(f: P) -> (r: ErasedFn<P>) where
    P: PointerIntoInner,
    P::Pointee: FnOnce(I) -> O,

    ensures
        r@ == f,
{
    ErasedFn { target: f }
}

/// A read-only extended handle: an erased callable plus one fence token.
pub struct ExtendedFn<P> {
    erased: ErasedFn<P>,
    reference: Reference,
}

impl<P> ExtendedFn<P> {
    /// The capability behind the handle.
    pub closed spec fn target(self) -> P {
        self.erased@
    }

    /// Invokes the extended callable through shared access.
    pub fn call<I, O>(&self, input: I) -> (output: O) where
        P: PointerDeref,
        P::Pointee: Fn(I) -> O,

        requires
            call_requires((*self).target().pointee(), (input,)),
        ensures
            call_ensures((*self).target().pointee(), (input,), output),
    {
        self.erased.call(input)
    }

    /// Destroys the handle and surrenders its token, after the last use of
    /// the pointee; the pointee itself merely outlives the borrow.
    pub fn release(self) -> (token: Reference) {
        let ExtendedFn { erased, reference } = self;
        erased.release();
        reference
    }
}

/// A mutable-call extended handle: an erased stateful callable plus one fence
/// token.
pub struct ExtendedFnMut<P> {
    erased: ErasedFn<P>,
    reference: Reference,
}

impl<P> ExtendedFnMut<P> {
    /// The capability behind the handle.
    pub closed spec fn target(self) -> P {
        self.erased@
    }

    /// Invokes the extended callable through exclusive access.
    pub fn call<I, O>(&mut self, input: I) -> (output: O) where
        P: PointerDerefMut,
        P::Pointee: FnMut(I) -> O,

        requires
            call_requires(old(self).target().pointee(), (input,)),
        ensures
            call_ensures(old(self).target().pointee(), (input,), output),
    {
        self.erased.call_mut(input)
    }

    /// Destroys the handle and surrenders its token, after the last use of
    /// the pointee.
    pub fn release(self) -> (token: Reference) {
        let ExtendedFnMut { erased, reference } = self;
        erased.release();
        reference
    }
}

/// A move-out extended handle: an erased one-shot callable plus one fence
/// token.
pub struct ExtendedFnOnce<P> {
    erased: ErasedFn<P>,
    reference: Reference,
}

impl<P> ExtendedFnOnce<P> {
    /// The capability behind the handle.
    pub closed spec fn target(self) -> P {
        self.erased@
    }

    /// Consumes the handle, runs the wrapped callable to completion and only
    /// then hands the token back: the caller cannot release the token
    /// before the wrapped value has been consumed and cleaned up.
    pub fn call_once<I, O>(self, input: I) -> (r: (O, Reference)) where
        P: PointerIntoInner,
        P::Pointee: FnOnce(I) -> O,

        requires
            call_requires(self.target().pointee(), (input,)),
        ensures
            call_ensures(self.target().pointee(), (input,), r.0),
    {
        let ExtendedFnOnce { erased, reference } = self;
        let output = erased.call_once(input);
        (output, reference)
    }

    /// Destroys the handle without running the callable: the wrapped value
    /// is dropped in place, then the token is surrendered.
    pub fn release(self) -> (token: Reference) {
        let ExtendedFnOnce { erased, reference } = self;
        erased.release();
        reference
    }
}

impl Extender {
    /// Issues a read-only extended handle: acquires one fence token and
    /// bundles it with the erased callable.
    ///
    /// The constructor families that differ only in thread-safety markers
    /// on the result collapse onto this one: the model draws no line
    /// between them.
    pub fn fn_<P, I, O>(&mut self, f: P) -> (h: ExtendedFn<P>) where
        P: PointerDeref,
        P::Pointee: Fn(I) -> O,

        requires
            old(self).can_extend(),
        ensures
            h.target() == f,
            final(self).counter() == old(self).counter() + 2,
            final(self).live() == old(self).live() + 1,
            final(self).waiting() == old(self).waiting(),
    {
        let reference = self.rc.acquire();
        ExtendedFn { erased: extend_fn_unchecked(f), reference }
    }

    /// Issues a mutable-call extended handle.
    pub fn fn_mut<P, I, O>(&mut self, f: P) -> (h: ExtendedFnMut<P>) where
        P: PointerDerefMut,
        P::Pointee: FnMut(I) -> O,

        requires
            old(self).can_extend(),
        ensures
            h.target() == f,
            final(self).counter() == old(self).counter() + 2,
            final(self).live() == old(self).live() + 1,
            final(self).waiting() == old(self).waiting(),
    {
        let reference = self.rc.acquire();
        ExtendedFnMut { erased: extend_fn_mut_unchecked(f), reference }
    }

    /// Issues a read-only extended handle for a callable that need not be
    /// shareable between threads at once.  The model draws no line between
    /// the two thread-safety flavours, so this is [`Self::fn_`] under the
    /// unsynchronized family's name.
    pub fn fn_unsync<P, I, O>(&mut self, f: P) -> (h: ExtendedFn<P>) where
        P: PointerDeref,
        P::Pointee: Fn(I) -> O,

        requires
            old(self).can_extend(),
        ensures
            h.target() == f,
            final(self).counter() == old(self).counter() + 2,
            final(self).live() == old(self).live() + 1,
            final(self).waiting() == old(self).waiting(),
    {
        self.fn_(f)
    }

    /// Issues a read-only extended handle from an explicit callable plus a
    /// copyable capture: the two are bundled into one owned callable and
    /// extended like any other.
    pub fn extend_fn<C, F, I, O>(&mut self, f: F, capture: C) -> (h: ExtendedFn<
        crate::ref_once::RefOnce<impl Fn(I) -> O>,
    >) where
        C: Copy,
        F: Fn(C, I) -> O + Copy,

        requires
            old(self).can_extend(),
        ensures
            final(self).counter() == old(self).counter() + 2,
            final(self).live() == old(self).live() + 1,
            final(self).waiting() == old(self).waiting(),
            forall|i: I, o: O|
                #[trigger] call_ensures(h.target()@, (i,), o) ==> call_ensures(f, (capture, i), o),
            forall|i: I|
                call_requires(f, (capture, i)) ==> #[trigger] call_requires(h.target()@, (i,)),
    {
        let bundled = move |input: I| -> (output: O)
            requires
                call_requires(f, (capture, input)),
            ensures
                call_ensures(f, (capture, input), output),
            {
                f(capture, input)
            };
        self.fn_(crate::ref_once::RefOnce::new(bundled))
    }

    /// Issues a move-out extended handle.
    pub fn fn_once<P, I, O>(&mut self, f: P) -> (h: ExtendedFnOnce<P>) where
        P: PointerIntoInner,
        P::Pointee: FnOnce(I) -> O,

        requires
            old(self).can_extend(),
        ensures
            h.target() == f,
            final(self).counter() == old(self).counter() + 2,
            final(self).live() == old(self).live() + 1,
            final(self).waiting() == old(self).waiting(),
    {
        let reference = self.rc.acquire();
        ExtendedFnOnce { erased: extend_fn_once_unchecked(f), reference }
    }
}

} // verus!
