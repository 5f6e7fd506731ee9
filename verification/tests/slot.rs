//! The run-once slot: write once, read out at most once, drop exactly once.
use std::cell::Cell;
use std::rc::Rc;

use scope_lock::pointer_like::{PointerDeref, PointerDerefMut, PointerIntoInner};
use scope_lock::RefOnce;

/// Bumps a shared counter when dropped.
struct DropTally(Rc<Cell<usize>>);

impl Drop for DropTally {
    fn drop(&mut self) {
        self.0.set(self.0.get() + 1);
    }
}

#[test]
fn extraction_moves_value_out() {
    let slot = RefOnce::new(41usize);
    // extraction consumes the slot, so the type itself rules out a second one
    assert_eq!(RefOnce::into_inner(slot), 41);
}

#[test]
fn slot_reads_and_writes_in_place() {
    let mut slot = RefOnce::new(10usize);
    assert_eq!(*RefOnce::borrow(&slot), 10);
    *RefOnce::borrow_mut(&mut slot) = 25;
    assert_eq!(*RefOnce::borrow(&slot), 25);
    assert_eq!(RefOnce::into_inner(slot), 25);
}

#[test]
fn unextracted_slot_drops_value_exactly_once() {
    let drops: Rc<Cell<usize>> = Rc::new(Cell::new(0));
    {
        let _slot = RefOnce::new(DropTally(drops.clone()));
    }
    assert_eq!(drops.get(), 1);
}

#[test]
fn extracted_value_dropped_only_as_itself() {
    let drops: Rc<Cell<usize>> = Rc::new(Cell::new(0));
    let slot = RefOnce::new(DropTally(drops.clone()));
    let value = RefOnce::into_inner(slot);
    assert_eq!(drops.get(), 0);
    drop(value);
    assert_eq!(drops.get(), 1);
}

#[test]
fn capabilities_of_each_ownership_kind() {
    let b = Box::new(10usize);
    assert_eq!(*b.pointee_ref(), 10);
    let mut b2 = Box::new(1usize);
    *b2.pointee_mut() = 5;
    assert_eq!(b2.into_inner(), 5);

    let n: usize = 7;
    let shared = &n;
    assert_eq!(*shared.pointee_ref(), 7);

    let mut m: usize = 3;
    let mut exclusive = &mut m;
    *exclusive.pointee_mut() += 1;
    assert_eq!(m, 4);

    let rc = Rc::new(8usize);
    assert_eq!(*rc.pointee_ref(), 8);
    let arc = std::sync::Arc::new(9usize);
    assert_eq!(*arc.pointee_ref(), 9);

    let mut slot = RefOnce::new(2usize);
    assert_eq!(*slot.pointee_ref(), 2);
    *slot.pointee_mut() = 6;
    assert_eq!(slot.into_inner(), 6);
}
