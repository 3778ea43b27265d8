use kernel_core::console::{DebugConsole, DebugSurface};
use kernel_core::session::{Event, Session, REDRAW_ALL, REDRAW_CURSOR, REDRAW_NONE};

fn console() -> DebugConsole {
    DebugConsole::new(Some(DebugSurface { width: 640, height: 480 }))
}

#[test]
fn mouse_motion_is_clamped_to_display() {
    let mut s = Session::new(100, 50);
    let mut c = console();
    let r = s.apply_event(&mut c, Event { code: 'm', a: 150, b: -20, c: 7 });
    assert_eq!(r, Event { code: 'm', a: 99, b: 0, c: 7 });
    assert_eq!((s.mouse_x, s.mouse_y), (99, 0));
    assert_eq!(s.redraw, REDRAW_CURSOR);
    let r = s.apply_event(&mut c, Event { code: 'm', a: -40, b: 30, c: 0 });
    assert_eq!((r.a, r.b), (59, 30));
    assert_eq!(c, console());
}

#[test]
fn mouse_motion_extreme_moves() {
    let mut s = Session::new(100, 50);
    let mut c = console();
    let r = s.apply_event(&mut c, Event { code: 'm', a: i64::MAX, b: i64::MIN, c: 0 });
    assert_eq!((r.a, r.b), (99, 0));
}

#[test]
fn mouse_on_empty_display_stays_at_zero() {
    let mut s = Session::new(0, 0);
    let mut c = console();
    let r = s.apply_event(&mut c, Event { code: 'm', a: 5, b: 5, c: 0 });
    assert_eq!((r.a, r.b), (0, 0));
}

#[test]
fn motion_keeps_higher_redraw_level() {
    let mut s = Session::new(100, 50);
    s.redraw = REDRAW_ALL;
    let mut c = console();
    s.apply_event(&mut c, Event { code: 'm', a: 1, b: 1, c: 0 });
    assert_eq!(s.redraw, REDRAW_ALL);
}

#[test]
fn debug_keys_toggle_overlay() {
    let mut s = Session::new(100, 50);
    let mut c = console();
    let e = Event { code: 'k', a: 0, b: 0x3B, c: 1 };
    assert_eq!(s.apply_event(&mut c, e), e);
    assert!(c.draw && c.redraw);
    assert_eq!(s.redraw, REDRAW_NONE);
    s.apply_event(&mut c, Event { code: 'k', a: 0, b: 0x3C, c: 1 });
    assert!(!c.draw);
    assert_eq!(s.redraw, REDRAW_ALL);
}

#[test]
fn key_release_changes_nothing() {
    let mut s = Session::new(100, 50);
    let mut c = console();
    s.apply_event(&mut c, Event { code: 'k', a: 0, b: 0x3B, c: 0 });
    assert!(!c.draw && !c.redraw);
    assert_eq!(s.redraw, REDRAW_NONE);
}

#[test]
fn window_create_inserts_at_front() {
    let mut s = Session::new(100, 50);
    s.window_create(1);
    s.window_create(2);
    assert_eq!(s.windows, vec![2, 1]);
}

#[test]
fn window_destroy_removes_first_match() {
    let mut s = Session::new(100, 50);
    s.windows = vec![3, 7, 5, 7];
    s.window_destroy(7);
    assert_eq!(s.windows, vec![3, 5, 7]);
}

#[test]
fn window_destroy_twice_removes_once() {
    let mut s = Session::new(100, 50);
    s.windows = vec![3, 7, 5];
    s.window_destroy(7);
    assert_eq!(s.windows, vec![3, 5]);
    s.window_destroy(7);
    assert_eq!(s.windows, vec![3, 5]);
}

#[test]
fn window_destroy_absent_is_noop() {
    let mut s = Session::new(100, 50);
    s.window_destroy(9);
    assert!(s.windows.is_empty());
}
