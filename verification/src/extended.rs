//! The extender: the capability issuer bound to the synchronization fence.
use vstd::prelude::*;

pub mod func;
pub mod future;
pub mod sync;

verus! {

/// Issues extended handles while the scope is open.
///
/// An `Extender` owns the scope's fence; every handle it constructs holds one
/// fence token, so the scope cannot close before the handle is released.
pub struct Extender {
    rc: sync::ReferenceCounter,
}

impl Extender {
    /// Number of tokens currently outstanding on the scope's fence.
    pub closed spec fn live(self) -> int {
        self.rc.live()
    }

    /// Whether the scope owner has already announced it is waiting.
    pub closed spec fn waiting(self) -> bool {
        self.rc.waiting()
    }

    /// Raw encoded state of the scope's fence.
    pub closed spec fn counter(self) -> int {
        self.rc.counter as int
    }

    /// Whether one more token can be issued without overflowing the counter.
    pub open spec fn can_extend(self) -> bool {
        self.counter() <= u64::MAX - 2
    }

    /// Binds a fresh extender to the given fence.
    pub fn new(rc: sync::ReferenceCounter) -> (e: Extender)
        ensures
            e.live() == rc.live(),
            e.waiting() == rc.waiting(),
            e.counter() == rc.counter,
    {
        Extender { rc }
    }

    /// Ends the issuing phase: hands the fence over to the guard that will
    /// drain it.
    pub fn guard(self) -> (g: sync::ReferenceCounterGuard)
        ensures
            g.live() == self.live(),
            g.waiting() == self.waiting(),
            g.counter() == self.counter(),
    {
        self.rc.guard()
    }

    /// Releases a token on behalf of a handle that was consumed while the
    /// scope is still open; returns whether a waiter must be woken.
    pub fn release(&mut self, reference: sync::Reference) -> (notify: bool)
        requires
            old(self).live() >= 1,
        ensures
            final(self).live() == old(self).live() - 1,
            final(self).waiting() == old(self).waiting(),
            final(self).counter() == old(self).counter() - 2,
            notify == (final(self).live() == 0 && final(self).waiting()),
    {
        self.rc.release(reference)
    }
}

} // verus!
