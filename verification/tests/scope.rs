//! The scope entry point, end to end.
use scope_lock::{Extender, PollResult, ReferenceCounter};

#[test]
fn scope_returns_body_result() {
    let r: usize = scope_lock::lock_scope(|e: Extender| (e, 7usize));
    assert_eq!(r, 7);
}

#[test]
fn scope_reclaims_after_tasks() {
    let mut a: Vec<usize> = vec![1, 2, 3];
    let mut x: usize = 0;
    {
        let read_task = |()| {
            let _first = a[0];
        };
        let mut sum_task = |()| x += a[0] + a[2];
        scope_lock::lock_scope(|mut e: Extender| {
            let h1 = e.fn_(&read_task);
            let mut h2 = e.fn_mut(&mut sum_task);
            // both tasks run to completion while the scope is open
            h1.call(());
            h2.call(());
            let t1 = h1.release();
            let t2 = h2.release();
            assert!(!e.release(t1));
            assert!(!e.release(t2));
            (e, ())
        });
    }
    // after the scope, the owner modifies and reads its variables again
    a.push(4);
    assert_eq!(x, a.len());
}

#[test]
fn closure_async_boxed() {
    let a: usize = 37;
    scope_lock::lock_scope(|mut e: Extender| {
        let mut f = e.fn_mut(Box::new(move |b: usize| a + b));
        assert_eq!(f.call(5), 42);
        let mut fut = e.future(Box::new(move || PollResult::Ready(a)));
        assert!(matches!(fut.poll(), PollResult::Ready(37)));
        let t1 = f.release();
        let t2 = fut.release();
        assert!(!e.release(t1));
        assert!(!e.release(t2));
        (e, ())
    });
}

#[test]
fn scope_counts_every_handle() {
    scope_lock::lock_scope(|mut e: Extender| {
        let f = |x: usize| x;
        let h1 = e.fn_(&f);
        let h2 = e.fn_(&f);
        let h3 = e.fn_(&f);
        let t1 = h1.release();
        let t2 = h2.release();
        let t3 = h3.release();
        assert!(!e.release(t1));
        assert!(!e.release(t2));
        assert!(!e.release(t3));
        (e, ())
    });
    // a second scope runs independently of the first
    let mut rc = ReferenceCounter::new();
    let t = rc.acquire();
    assert!(!rc.release(t));
}
