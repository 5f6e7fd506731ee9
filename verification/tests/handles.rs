//! Extended handles: invoke flavours, token hand-back and drop ordering.
use std::cell::Cell;
use std::rc::Rc;

use scope_lock::{Extender, PollResult, RefOnce, ReferenceCounter};

/// Bumps a shared counter when dropped.
struct DropTally(Rc<Cell<usize>>);

impl Drop for DropTally {
    fn drop(&mut self) {
        self.0.set(self.0.get() + 1);
    }
}

#[test]
fn shared_handle_reads_capture() {
    let a: Vec<usize> = vec![1, 2, 3];
    let f = |i: usize| a[i];
    let mut e = Extender::new(ReferenceCounter::new());
    let h = e.fn_(&f);
    assert_eq!(h.call(0), 1);
    assert_eq!(h.call(2), 3);
    let token = h.release();
    assert!(!e.release(token));
    let back = e.guard().close_and_wait();
    assert_eq!(back.counter, 0);
}

#[test]
fn mutable_handle_effects_visible() {
    let a: Vec<usize> = vec![1, 2, 3];
    let mut x: usize = 0;
    {
        let mut f = |()| x += a[0] + a[2];
        let mut e = Extender::new(ReferenceCounter::new());
        let mut h = e.fn_mut(&mut f);
        h.call(());
        let token = h.release();
        assert!(!e.release(token));
        let back = e.guard().close_and_wait();
        assert_eq!(back.counter, 0);
    }
    // the handle is gone, so the owner reads the mutation
    assert_eq!(x, 4);
}

#[test]
fn move_out_value_dropped_once_before_token_returns() {
    let drops: Rc<Cell<usize>> = Rc::new(Cell::new(0));
    let tally = DropTally(drops.clone());
    let f = move |()| {
        let _consumed = tally;
        7usize
    };
    let mut e = Extender::new(ReferenceCounter::new());
    let h = e.fn_once(RefOnce::new(f));
    assert_eq!(drops.get(), 0);
    let (out, token) = h.call_once(());
    // by the time the token is back in hand, the wrapped value has been
    // consumed and its destructor has run exactly once
    assert_eq!(out, 7);
    assert_eq!(drops.get(), 1);
    assert!(!e.release(token));
    assert_eq!(drops.get(), 1);
    let back = e.guard().close_and_wait();
    assert_eq!(back.counter, 0);
}

#[test]
fn unused_move_out_handle_drops_value_once() {
    let drops: Rc<Cell<usize>> = Rc::new(Cell::new(0));
    let tally = DropTally(drops.clone());
    let f = move |()| {
        let _consumed = tally;
    };
    let mut e = Extender::new(ReferenceCounter::new());
    let h = e.fn_once(RefOnce::new(f));
    let token = h.release();
    assert_eq!(drops.get(), 1);
    assert!(!e.release(token));
    let back = e.guard().close_and_wait();
    assert_eq!(back.counter, 0);
}

#[test]
fn future_polls_to_ready() {
    let remaining: Cell<usize> = Cell::new(2);
    let step = || {
        if remaining.get() > 0 {
            remaining.set(remaining.get() - 1);
            PollResult::Pending
        } else {
            PollResult::Ready(5usize)
        }
    };
    let mut e = Extender::new(ReferenceCounter::new());
    let mut h = e.future(RefOnce::new(step));
    assert!(matches!(h.poll(), PollResult::Pending));
    assert!(matches!(h.poll(), PollResult::Pending));
    assert!(matches!(h.poll(), PollResult::Ready(5)));
    let token = h.release();
    assert!(!e.release(token));
    let back = e.guard().close_and_wait();
    assert_eq!(back.counter, 0);
}

#[test]
fn erased_records_invoke() {
    let plus_one = |x: usize| x + 1;
    let shared = scope_lock::extend_fn_unchecked(&plus_one);
    assert_eq!(shared.call(1), 2);
    shared.release();

    let mut doubler = |x: usize| x * 2;
    let mut mutable = scope_lock::extend_fn_mut_unchecked(&mut doubler);
    assert_eq!(mutable.call_mut(4), 8);
    mutable.release();

    let once = scope_lock::extend_fn_once_unchecked(RefOnce::new(|x: usize| x - 1));
    assert_eq!(once.call_once(9), 8);

    let mut pollable = scope_lock::extend_future_unchecked(Box::new(|| PollResult::Ready(3usize)));
    assert!(matches!(pollable.poll(), PollResult::Ready(3)));
    pollable.release();
}

#[test]
fn capture_bundling_constructor() {
    let mut e = Extender::new(ReferenceCounter::new());
    let h = e.extend_fn(|c: usize, i: usize| c + i, 10);
    assert_eq!(h.call(5), 15);
    assert_eq!(h.call(0), 10);
    let token = h.release();
    assert!(!e.release(token));
    let back = e.guard().close_and_wait();
    assert_eq!(back.counter, 0);
}

#[test]
fn unsync_flavour_behaves_like_shared() {
    let f = |x: usize| x + 2;
    let mut e = Extender::new(ReferenceCounter::new());
    let h = e.fn_unsync(&f);
    assert_eq!(h.call(1), 3);
    let token = h.release();
    assert!(!e.release(token));
    let back = e.guard().close_and_wait();
    assert_eq!(back.counter, 0);
}
