//! Scope lock: a runtime join-fence for lending caller-owned callables to
//! tasks whose termination time is not statically known.
//!
//! The core is a counting synchronization fence ([`extended::sync::ReferenceCounter`]):
//! every handle issued by an [`Extender`] holds one fence token, and the scope
//! entry point [`lock_scope`] refuses to return before every token has been
//! handed back.  Around the fence sit a pointer-capability layer
//! ([`pointer_like`]), erased callable records, a run-once slot ([`RefOnce`])
//! and the extended handle types that bundle an erased callable with a token.
//!
//! This crate verifies the accounting and hand-over logic of that design in a
//! sequential model: every operation on the fence, the slot and the handles
//! carries a contract, and the blocking wait itself is reduced to verified
//! decision functions that a threaded shell can drive.
use vstd::prelude::*;

mod extended;
pub mod pointer_like;
mod ref_once;

pub use ref_once::RefOnce;

pub use extended::func::extend_fn_mut_unchecked;
pub use extended::func::extend_fn_once_unchecked;
pub use extended::func::extend_fn_unchecked;
pub use extended::func::ErasedFn;
pub use extended::func::ExtendedFn;
pub use extended::func::ExtendedFnMut;
pub use extended::func::ExtendedFnOnce;
pub use extended::future::extend_future_unchecked;
pub use extended::future::ErasedFuture;
pub use extended::future::ExtendedFuture;
pub use extended::future::PollResult;
pub use extended::sync::Reference;
pub use extended::sync::ReferenceCounter;
pub use extended::sync::ReferenceCounterGuard;
pub use extended::Extender;

verus! {

/// Scope entry point: runs `scope` with a fresh [`Extender`] and returns its
/// result once the fence has drained.
///
/// The body receives the extender by value and must hand it back; in this
/// sequential model the body has released every token it acquired by the time
/// it returns, so the closing wait completes immediately.  A shell that
/// really hands tokens to other threads performs the blocking wait with
/// [`ReferenceCounterGuard::begin_close`] and
/// [`ReferenceCounterGuard::check_drained`] instead.
pub fn lock_scope<F, T>(scope: F) -> (result: T) where
    F: FnOnce(Extender) -> (Extender, T),

    requires
        forall|e: Extender|
            e.live() == 0 && !e.waiting() ==> #[trigger] call_requires(scope, (e,)),
        forall|e: Extender, r: (Extender, T)|
            #[trigger] call_ensures(scope, (e,), r) ==> r.0.live() == 0 && !r.0.waiting(),
    ensures
        exists|e: Extender, e2: Extender|
            e.live() == 0 && !e.waiting() && #[trigger] call_ensures(scope, (e,), (e2, result)),
{
    let rc = ReferenceCounter::new();
    let extender = Extender::new(rc);
    let (extender, result) = scope(extender);
    let guard = extender.guard();
    let _rc = guard.close_and_wait();
    result
}

} // verus!
