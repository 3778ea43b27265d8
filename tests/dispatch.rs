use kernel_core::console::{DebugConsole, DebugSurface, Glyph};
use kernel_core::dispatch::{
    syscall_handle, Effect, Kernel, SYS_DEBUG, SYS_EXIT, SYS_OPEN, SYS_TRIGGER, SYS_WINDOW_CREATE,
    SYS_WINDOW_DESTROY, SYS_YIELD,
};
use kernel_core::session::{Event, Session};
use kernel_core::table::{Context, Switch};

fn ctx(pid: u64) -> Context {
    Context { pid, address_space: pid, stack: pid }
}

fn kernel(n: u64) -> Kernel {
    let console = DebugConsole::new(Some(DebugSurface { width: 640, height: 480 }));
    let mut k = Kernel::new(ctx(0), Session::new(320, 200), console);
    for pid in 1..n {
        k.table.push(ctx(pid));
    }
    k
}

#[test]
fn debug_call_draws_and_echoes() {
    let mut k = kernel(1);
    let r = syscall_handle(&mut k, SYS_DEBUG, b'H' as u32, 0, 0);
    match r {
        Some(Effect::Debug(d)) => {
            assert_eq!(d.glyph, Some(Glyph { x: 0, y: 0, byte: b'H' }));
            assert_eq!(d.serial, b'H');
        }
        other => panic!("unexpected {:?}", other),
    }
    assert_eq!(k.console.x, 8);
}

#[test]
fn yield_and_exit_calls_switch() {
    let mut k = kernel(3);
    assert_eq!(syscall_handle(&mut k, SYS_YIELD, 0, 0, 0), Some(Effect::Switch(Switch { from: ctx(0), to: ctx(1) })));
    assert_eq!(syscall_handle(&mut k, SYS_YIELD, 0, 0, 0), Some(Effect::Switch(Switch { from: ctx(1), to: ctx(2) })));
    assert_eq!(syscall_handle(&mut k, SYS_EXIT, 0, 0, 0), Some(Effect::Switch(Switch { from: ctx(2), to: ctx(0) })));
    assert_eq!(k.table.len(), 2);
    assert_eq!(k.table.current(), 0);
    assert!(k.ints.enabled);
}

#[test]
fn exit_call_on_single_context_does_nothing() {
    let mut k = kernel(1);
    assert_eq!(syscall_handle(&mut k, SYS_EXIT, 0, 0, 0), None);
    assert_eq!(k.table.len(), 1);
}

#[test]
fn open_call_hands_locator_and_output() {
    let mut k = kernel(1);
    assert_eq!(syscall_handle(&mut k, SYS_OPEN, 0x100, 0x200, 0), Some(Effect::Open { locator: 0x100, output: 0x200 }));
}

#[test]
fn trigger_call_fetches_then_queues() {
    let mut k = kernel(1);
    assert_eq!(syscall_handle(&mut k, SYS_TRIGGER, 0x300, 0, 0), Some(Effect::FetchEvent { address: 0x300 }));
    k.trigger(Event { code: 'm', a: 500, b: 10, c: 0 });
    k.trigger(Event { code: 'x', a: 1, b: 2, c: 3 });
    assert_eq!(k.events, vec![Event { code: 'm', a: 319, b: 10, c: 0 }, Event { code: 'x', a: 1, b: 2, c: 3 }]);
    assert!(k.ints.enabled);
}

#[test]
fn window_calls_update_list() {
    let mut k = kernel(1);
    assert_eq!(syscall_handle(&mut k, SYS_WINDOW_CREATE, 11, 0, 0), None);
    assert_eq!(syscall_handle(&mut k, SYS_WINDOW_CREATE, 12, 0, 0), None);
    assert_eq!(k.session.windows, vec![12, 11]);
    assert_eq!(syscall_handle(&mut k, SYS_WINDOW_DESTROY, 11, 0, 0), None);
    assert_eq!(syscall_handle(&mut k, SYS_WINDOW_DESTROY, 11, 0, 0), None);
    assert_eq!(k.session.windows, vec![12]);
}

#[test]
fn unknown_call_is_noop() {
    let mut k = kernel(2);
    assert_eq!(syscall_handle(&mut k, 0xDEAD, 1, 2, 3), None);
    assert_eq!(k.table.current(), 0);
    assert_eq!(k.table.len(), 2);
    assert!(k.events.is_empty());
    assert!(k.session.windows.is_empty());
}
