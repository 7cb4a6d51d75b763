use std::cell::Cell;
use std::rc::Rc;

use nearly_linear::guard::{DropGuard, NearlyLinear};

/// Increments a shared counter when (and only when) its destructor runs.
struct DropCounter {
    drops: Rc<Cell<u32>>,
}

impl Drop for DropCounter {
    fn drop(&mut self) {
        self.drops.set(self.drops.get() + 1);
    }
}

#[test]
fn new_then_done_returns_wrapped_value() {
    let guard = DropGuard::new(1u8);
    assert_eq!(guard.done(), 1u8);
}

#[test]
fn done_returns_vec_unchanged() {
    let mut items: Vec<i32> = Vec::new();
    items.push(4);
    items.push(7);
    let guard = DropGuard::new(items);
    assert_eq!(guard.done(), vec![4, 7]);
}

#[test]
fn get_reads_wrapped_value() {
    let guard = DropGuard::new(42u64);
    assert_eq!(*guard.get(), 42u64);
    assert_eq!(guard.done(), 42u64);
}

#[test]
fn get_mut_writes_through_to_payload() {
    let mut guard = DropGuard::new(Vec::new());
    guard.get_mut().push(33232);
    guard.get_mut().push(5);
    assert_eq!(guard.get().len(), 2);
    assert_eq!(guard.done(), vec![33232, 5]);
}

#[test]
fn done_runs_no_destructor_on_the_consumed_instance() {
    let drops = Rc::new(Cell::new(0u32));
    let guard = DropGuard::new(DropCounter { drops: Rc::clone(&drops) });
    let payload = guard.done();
    assert_eq!(drops.get(), 0, "consuming the guard must not destroy the payload");
    drop(payload);
    assert_eq!(drops.get(), 1, "the extracted payload still has its own destructor");
}

#[test]
fn implicit_drop_of_guard_skips_payload_destructor() {
    let drops = Rc::new(Cell::new(0u32));
    {
        let _guard = DropGuard::new(DropCounter { drops: Rc::clone(&drops) });
    }
    assert_eq!(
        drops.get(),
        0,
        "letting the guard fall out of scope must leak the payload, not destroy it"
    );
}
