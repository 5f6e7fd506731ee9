//! The synchronization fence: a counter-plus-flag join-fence.
//!
//! The fence packs two things into one integer: the number of outstanding
//! tokens (each worth [`ONE_REFERENCE`] units) and a single low bit
//! ([`WAITING_FLAG`]) that records whether the scope owner has begun waiting
//! for the drain.  Packing them makes the wake condition a single equality
//! test and lets releases that happen while nobody waits skip the wake-up.
//!
//! This module verifies the accounting: every operation states exactly how it
//! moves the token count and the flag, and the drain condition is proved to
//! coincide with "no token outstanding and the owner waiting".  The blocking
//! itself (mutex, condition variable) is left to an unverified shell that
//! drives [`ReferenceCounterGuard::begin_close`] and
//! [`ReferenceCounterGuard::check_drained`].
use vstd::prelude::*;

verus! {

/// Counter units per outstanding token; the low bit is left to the flag.
pub const ONE_REFERENCE: u64 = 2;

/// Low bit of the counter: set once the scope owner waits for the drain.
pub const WAITING_FLAG: u64 = 1;

/// The counting fence. `counter` holds `2 * live tokens + waiting flag`.
pub struct ReferenceCounter {
    /// Raw encoded state: token count and waiting flag packed together.
    pub counter: u64,
}

/// A token: proof that one unit of extended work is still outstanding.
///
/// Tokens are issued only by [`ReferenceCounter::acquire`] and consumed only
/// by the release operations; the release of the last one while the owner
/// waits is what ends the scope's wait.
pub struct Reference {
    issued: (),
}

impl ReferenceCounter {
    /// Number of tokens currently outstanding.
    pub open spec fn live(self) -> int {
        self.counter as int / 2
    }

    /// Whether the scope owner has announced it is waiting for the drain.
    pub open spec fn waiting(self) -> bool {
        self.counter as int % 2 == 1
    }

    /// The wake condition: every token released and the owner waiting.
    pub open spec fn drained(self) -> bool {
        self.counter == WAITING_FLAG
    }

    /// Whether one more token fits in the counter.
    pub open spec fn can_acquire(self) -> bool {
        self.counter <= u64::MAX - 2
    }

    /// A fresh fence: no tokens, nobody waiting.
    pub fn new() -> (rc: ReferenceCounter)
        ensures
            rc.counter == 0,
            rc.live() == 0,
            !rc.waiting(),
    {
        ReferenceCounter { counter: 0 }
    }

    /// Issues a token, incrementing the live count by one.
    ///
    /// Counter overflow is a fatal condition, not a value: callers that
    /// cannot rule it out go through [`Self::try_acquire`] and abort on
    /// `None`, as astronomically many outstanding tokens indicate a logic
    /// error.
    pub fn acquire(&mut self) -> (token: Reference)
        requires
            old(self).can_acquire(),
        ensures
            final(self).counter == old(self).counter + 2,
            final(self).live() == old(self).live() + 1,
            final(self).waiting() == old(self).waiting(),
    {
        self.counter = self.counter + ONE_REFERENCE;
        Reference { issued: () }
    }

    /// Issues a token unless the counter is at its representable limit.
    ///
    /// Returns `None` exactly when one more token would overflow the
    /// counter; the state is then left unchanged so the caller can abort.
    pub fn try_acquire(&mut self) -> (token: Option<Reference>)
        ensures
            old(self).can_acquire() ==> token is Some,
            !old(self).can_acquire() ==> token is None && *final(self) == *old(self),
            token is Some ==> {
                &&& final(self).counter == old(self).counter + 2
                &&& final(self).live() == old(self).live() + 1
                &&& final(self).waiting() == old(self).waiting()
            },
    {
        if self.counter <= u64::MAX - 2 {
            Some(self.acquire())
        } else {
            None
        }
    }

    /// Consumes a token, decrementing the live count by one; returns whether
    /// a waiter must be woken, which is the case exactly when this was the
    /// last token out and the owner already waits.
    pub fn release(&mut self, token: Reference) -> (notify: bool)
        requires
            old(self).live() >= 1,
        ensures
            final(self).counter == old(self).counter - 2,
            final(self).live() == old(self).live() - 1,
            final(self).waiting() == old(self).waiting(),
            notify == (final(self).live() == 0 && final(self).waiting()),
            notify == final(self).drained(),
    {
        let Reference { issued: () } = token;
        self.counter = self.counter - ONE_REFERENCE;
        self.counter == WAITING_FLAG
    }

    /// Ends the issuing phase: wraps the fence in the guard that drains it.
    pub fn guard(self) -> (g: ReferenceCounterGuard)
        ensures
            g.live() == self.live(),
            g.waiting() == self.waiting(),
            g.counter() == self.counter,
    {
        ReferenceCounterGuard { rc: self }
    }
}

/// The draining side of the fence: owns the counter while the scope owner
/// waits for outstanding tokens to come back.
///
/// Its operations are the verified decisions of the close protocol: announce
/// the wait ([`Self::begin_close`]), test the wake condition after each
/// wake-up ([`Self::check_drained`]), release tokens that come back
/// meanwhile ([`Self::release`]), and finish once nothing is outstanding.
pub struct ReferenceCounterGuard {
    rc: ReferenceCounter,
}

impl ReferenceCounterGuard {
    /// Number of tokens currently outstanding.
    pub closed spec fn live(self) -> int {
        self.rc.live()
    }

    /// Whether the waiting flag has been set.
    pub closed spec fn waiting(self) -> bool {
        self.rc.waiting()
    }

    /// Raw encoded state of the wrapped fence.
    pub closed spec fn counter(self) -> int {
        self.rc.counter as int
    }

    /// The wake condition of the wrapped fence.
    pub open spec fn drained(self) -> bool {
        self.counter() == WAITING_FLAG
    }

    /// Reads the raw encoded state, for callers that must test how many
    /// tokens are still out before acting.
    pub fn counter_value(&self) -> (c: u64)
        ensures
            c == self.counter(),
    {
        self.rc.counter
    }

    /// Consumes a token that came back while the owner drains the fence.
    pub fn release(&mut self, token: Reference) -> (notify: bool)
        requires
            old(self).live() >= 1,
        ensures
            final(self).counter() == old(self).counter() - 2,
            final(self).live() == old(self).live() - 1,
            final(self).waiting() == old(self).waiting(),
            notify == (final(self).live() == 0 && final(self).waiting()),
            notify == final(self).drained(),
    {
        self.rc.release(token)
    }

    /// First step of `close_and_wait`: if no token is outstanding the close
    /// is already over; otherwise set the waiting flag so that the final
    /// release wakes the owner.  Returns whether the close is over.
    ///
    /// The close protocol runs at most once, after the issuing phase.
    pub fn begin_close(&mut self) -> (done: bool)
        requires
            !old(self).waiting(),
        ensures
            done == (old(self).counter() == 0),
            done ==> *final(self) == *old(self),
            !done ==> {
                &&& final(self).counter() == old(self).counter() + 1
                &&& final(self).live() == old(self).live()
                &&& final(self).waiting()
            },
    {
        if self.rc.counter == 0 {
            true
        } else {
            proof {
                let c: u64 = self.rc.counter;
                assert(c % 2 == 0 ==> (c | 1) == c + 1) by (bit_vector);
            }
            self.rc.counter = self.rc.counter | WAITING_FLAG;
            false
        }
    }

    /// The wake condition, re-checked after every wake-up: the counter is
    /// down to the flag alone, so every token has been released.
    pub fn check_drained(&self) -> (done: bool)
        ensures
            done == self.drained(),
            done == (self.live() == 0 && self.waiting()),
    {
        self.rc.counter == WAITING_FLAG
    }

    /// The whole close, in the only case a sequential caller can be in: no
    /// token outstanding, so the wait returns immediately and the fence comes
    /// back empty.
    pub fn close_and_wait(self) -> (rc: ReferenceCounter)
        requires
            self.live() == 0,
            !self.waiting(),
        ensures
            rc.counter == 0,
    {
        self.rc
    }
}

/// The fence state holding `live` tokens, with the waiting flag as given.
pub open spec fn fence_with(live: nat, waiting: bool) -> ReferenceCounter {
    ReferenceCounter { counter: (2 * live + (if waiting { 1nat } else { 0nat })) as u64 }
}

/// The flag bit never collides with the token count: packing any in-range
/// token count together with either flag value loses neither.
pub proof fn lemma_flag_no_collision(live: nat, waiting: bool)
    requires
        live <= (u64::MAX - 1) / 2,
    ensures
        fence_with(live, waiting).live() == live,
        fence_with(live, waiting).waiting() == waiting,
{
}

/// The wake condition is exact: a fence reports drained if and only if no
/// token is outstanding and the owner is waiting.
pub proof fn lemma_drained_iff(rc: ReferenceCounter)
    ensures
        rc.drained() <==> (rc.live() == 0 && rc.waiting()),
{
}

/// Release-by-release progress of a close: with `n` tokens issued and the
/// owner waiting, the fence reports drained after the `k`th release exactly
/// when `k == n`; and once all `n` tokens are back before the close begins,
/// the counter is zero, so `close_and_wait` returns without blocking.
pub proof fn lemma_release_progress(n: nat, k: nat)
    requires
        k <= n,
        n <= (u64::MAX - 1) / 2,
    ensures
        fence_with((n - k) as nat, true).live() == n - k,
        fence_with((n - k) as nat, true).drained() <==> k == n,
        fence_with(0, false).counter == 0,
{
    lemma_flag_no_collision((n - k) as nat, true);
}

} // verus!
