//! Erased pollable records and the extended future handle.
//!
//! A future, to the fence, is one more kind of extended resource: it is
//! polled in place until it yields a final value, and its token must outlive
//! its last poll.  The model reduces a future to its poll operation — a
//! stateful callable that answers [`PollResult::Pending`] until it is done —
//! invoked through the pinned-access capability
//! [`PointerPinUnforgotten`], which promises the pollable state never has to
//! move.
use vstd::prelude::*;

use crate::extended::sync::Reference;
use crate::extended::Extender;
use crate::pointer_like::PointerPinUnforgotten;

verus! {

/// One step's outcome of an extended pollable.
pub enum PollResult<O> {
    /// The pollable is not finished; poll again later.
    Pending,
    /// The pollable finished with this output.
    Ready(O),
}

/// One erasure-table record for a pollable pointee.
pub struct ErasedFuture<P> {
    target: P,
}

impl<P> View for ErasedFuture<P> {
    type V = P;

    /// The capability held by the record.
    closed spec fn view(&self) -> P {
        self.target
    }
}

impl<P> ErasedFuture<P> {
    /// Polls the pointee in place through the pinned-access capability.
    pub fn poll<O>(&mut self) -> (output: PollResult<O>) where
        P: PointerPinUnforgotten,
        P::Pointee: FnMut() -> PollResult<O>,

        requires
            call_requires(old(self)@.pointee(), ()),
        ensures
            call_ensures(old(self)@.pointee(), (), output),
    {
        (self.target.pointee_pin())()
    }

    /// The release operation of the record: gives the capability up, running
    /// the cleanup its ownership kind calls for.
    pub fn release(self) {
    }
}

/// Erases a pollable without binding it to a fence.
pub fn extend_future_unchecked<P, O>(f: P) -> (r: ErasedFuture<P>) where
    P: PointerPinUnforgotten,
    P::Pointee: FnMut() -> PollResult<O>,

    ensures
        r@ == f,
{
    ErasedFuture { target: f }
}

/// An extended future handle: an erased pollable plus one fence token.
///
/// The token is surrendered only when the handle is destroyed, so it cannot
/// be released before the last poll of the pointee.
pub struct ExtendedFuture<P> {
    erased: ErasedFuture<P>,
    reference: Reference,
}

impl<P> ExtendedFuture<P> {
    /// The capability behind the handle.
    pub closed spec fn target(self) -> P {
        self.erased@
    }

    /// Polls the extended pollable in place.
    pub fn poll<O>(&mut self) -> (output: PollResult<O>) where
        P: PointerPinUnforgotten,
        P::Pointee: FnMut() -> PollResult<O>,

        requires
            call_requires(old(self).target().pointee(), ()),
        ensures
            call_ensures(old(self).target().pointee(), (), output),
    {
        self.erased.poll()
    }

    /// Destroys the handle and surrenders its token, after the last poll.
    pub fn release(self) -> (token: Reference) {
        let ExtendedFuture { erased, reference } = self;
        erased.release();
        reference
    }
}

impl Extender {
    /// Issues an extended future handle: acquires one fence token and bundles
    /// it with the erased pollable.
    pub fn future<P, O>(&mut self, f: P) -> (h: ExtendedFuture<P>) where
        P: PointerPinUnforgotten,
        P::Pointee: FnMut() -> PollResult<O>,

        requires
            old(self).can_extend(),
        ensures
            h.target() == f,
            final(self).counter() == old(self).counter() + 2,
            final(self).live() == old(self).live() + 1,
            final(self).waiting() == old(self).waiting(),
    {
        let reference = self.rc.acquire();
        ExtendedFuture { erased: extend_future_unchecked(f), reference }
    }
}

} // verus!
