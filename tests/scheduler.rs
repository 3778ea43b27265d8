use kernel_core::mask::Interrupts;
use kernel_core::table::{Context, ProcessTable, Switch};

fn ctx(pid: u64) -> Context {
    Context { pid, address_space: 0x1000 * pid, stack: 0x8000 + pid }
}

fn table_of(n: u64) -> ProcessTable {
    let mut t = ProcessTable::new(ctx(0));
    for pid in 1..n {
        t.push(ctx(pid));
    }
    t
}

#[test]
fn yields_visit_each_slot_once_and_return() {
    let mut ints = Interrupts::new(true);
    let mut t = table_of(4);
    let mut seen = Vec::new();
    for _ in 0..4 {
        let from = t.current();
        let s = t.yield_now(&mut ints);
        let to = t.current();
        assert_eq!(s, Some(Switch { from: ctx(from as u64), to: ctx(to as u64) }));
        seen.push(to);
    }
    assert_eq!(seen, vec![1, 2, 3, 0]);
    assert_eq!(t.current(), 0);
    assert!(ints.enabled);
}

#[test]
fn yield_alone_does_not_switch() {
    let mut ints = Interrupts::new(true);
    let mut t = table_of(1);
    assert_eq!(t.yield_now(&mut ints), None);
    assert_eq!(t.current(), 0);
}

#[test]
fn yield_keeps_interrupts_masked_when_called_masked() {
    let mut ints = Interrupts::new(false);
    let mut t = table_of(2);
    t.yield_now(&mut ints);
    assert!(!ints.enabled);
}

#[test]
fn exit_from_last_slot_rebases_to_zero() {
    let mut ints = Interrupts::new(true);
    let mut t = table_of(4);
    for _ in 0..3 {
        t.yield_now(&mut ints);
    }
    assert_eq!(t.current(), 3);
    let s = t.exit(&mut ints);
    assert_eq!(t.len(), 3);
    assert_eq!(t.current(), 0);
    assert_eq!(s, Some(Switch { from: ctx(3), to: ctx(0) }));
    assert!(ints.enabled);
}

#[test]
fn exit_from_middle_keeps_cursor() {
    let mut ints = Interrupts::new(true);
    let mut t = table_of(4);
    t.yield_now(&mut ints);
    t.yield_now(&mut ints);
    let s = t.exit(&mut ints);
    assert_eq!(t.len(), 3);
    assert_eq!(t.current(), 2);
    assert_eq!(t.get(2), Some(ctx(3)));
    assert_eq!(s, Some(Switch { from: ctx(2), to: ctx(3) }));
}

#[test]
fn yield_then_exit_scenario() {
    let mut ints = Interrupts::new(true);
    let mut t = table_of(3);
    t.yield_now(&mut ints);
    assert_eq!(t.current(), 1);
    let s = t.yield_now(&mut ints);
    assert_eq!(t.current(), 2);
    assert_eq!(s, Some(Switch { from: ctx(1), to: ctx(2) }));
    let s = t.exit(&mut ints);
    assert_eq!(t.len(), 2);
    assert_eq!(t.get(0), Some(ctx(0)));
    assert_eq!(t.get(1), Some(ctx(1)));
    assert_eq!(t.get(2), None);
    assert_eq!(t.current(), 0);
    assert_eq!(s, Some(Switch { from: ctx(2), to: ctx(0) }));
}

#[test]
fn exit_with_single_context_is_noop() {
    let mut ints = Interrupts::new(true);
    let mut t = table_of(1);
    assert_eq!(t.exit(&mut ints), None);
    assert_eq!(t.len(), 1);
    assert_eq!(t.current(), 0);
    assert_eq!(t.get(0), Some(ctx(0)));
}

#[test]
fn exit_from_slot_one_is_refused() {
    let mut ints = Interrupts::new(true);
    let mut t = table_of(2);
    t.yield_now(&mut ints);
    assert_eq!(t.current(), 1);
    assert_eq!(t.exit(&mut ints), None);
    assert_eq!(t.len(), 2);
    assert_eq!(t.current(), 1);
}

#[test]
fn exit_from_idle_slot_is_refused() {
    let mut ints = Interrupts::new(true);
    let mut t = table_of(3);
    assert_eq!(t.exit(&mut ints), None);
    assert_eq!(t.len(), 3);
}

#[test]
fn nested_masks_stay_masked() {
    let mut ints = Interrupts::new(true);
    let outer = ints.acquire();
    assert!(!ints.enabled);
    let inner = ints.acquire();
    ints.release(inner);
    assert!(!ints.enabled);
    ints.release(outer);
    assert!(ints.enabled);
}

#[test]
fn release_restores_disabled_flag() {
    let mut ints = Interrupts::new(false);
    let t = ints.acquire();
    assert!(!t.reenable);
    ints.release(t);
    assert!(!ints.enabled);
}
