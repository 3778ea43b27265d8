//! The active session as the dispatcher sees it: display bounds, the mouse
//! cursor, the redraw level and the list of open windows, and how an input
//! event updates them.
use vstd::prelude::*;
use crate::console::DebugConsole;

verus! {

/// Nothing needs repainting.
pub const REDRAW_NONE: u8 = 0;

/// The mouse cursor needs repainting.
pub const REDRAW_CURSOR: u8 = 1;

/// The whole display needs repainting.
pub const REDRAW_ALL: u8 = 2;

/// Scan code of the key that shows the debug overlay.
pub const KEY_DEBUG_SHOW: i64 = 0x3B;

/// Scan code of the key that hides the debug overlay.
pub const KEY_DEBUG_HIDE: i64 = 0x3C;

/// An input event: `code` tells its class (`'m'` mouse motion, `'k'` key),
/// `a`, `b`, `c` are its words. For motion, `a` and `b` are the moves along
/// x and y; for a key, `b` is the scan code and `c` positive when pressed.
#[derive(Clone, Copy, Debug, PartialEq, Eq, Structural)]
pub struct Event {
    pub code: char,
    pub a: i64,
    pub b: i64,
    pub c: i64,
}

/// The session's state that system calls read or change.
pub struct Session {
    pub display_width: u32,
    pub display_height: u32,
    pub mouse_x: i64,
    pub mouse_y: i64,
    pub redraw: u8,
    pub windows: Vec<u64>,
}

/// `pos + delta` held to the range from 0 to `size - 1` (to 0 when `size`
/// is 0).
pub open spec fn clamp_coord(pos: int, delta: int, size: int) -> int {
    let v = pos + delta;
    let m = if v < size - 1 {
        v
    } else {
        size - 1
    };
    if m > 0 {
        m
    } else {
        0
    }
}

pub open spec fn max_level(a: u8, b: u8) -> u8 {
    if a >= b {
        a
    } else {
        b
    }
}

pub open spec fn is_key_press(e: Event, scan: i64) -> bool {
    e.code == 'k' && e.b == scan && e.c > 0
}

/// The slot of the first entry equal to `w`, if any.
pub open spec fn first_match(s: Seq<u64>, w: u64) -> Option<int> {
    if exists|i: int| 0 <= i < s.len() && s[i] == w && forall|j: int| 0 <= j < i ==> s[j] != w {
        Some(
            choose|i: int| 0 <= i < s.len() && s[i] == w && forall|j: int| 0 <= j < i ==> s[j] != w,
        )
    } else {
        None
    }
}

/// The window list after destroying `w`: its first entry removed, or the
/// list unchanged when `w` is absent.
pub open spec fn destroyed(s: Seq<u64>, w: u64) -> Seq<u64> {
    match first_match(s, w) {
        Some(i) => s.remove(i),
        None => s,
    }
}

/// The clamped coordinate, computed without overflow.
fn clamp_move(pos: i64, delta: i64, size: u32) -> (r: i64)
    ensures
        r == clamp_coord(pos as int, delta as int, size as int),
{
    let v: i128 = pos as i128 + delta as i128;
    let hi: i128 = size as i128 - 1;
    let m: i128 = if v < hi {
        v
    } else {
        hi
    };
    if m > 0 {
        m as i64
    } else {
        0
    }
}

impl Session {
    /// `post`, `con_post` and `r` are the session, the console and the
    /// queued event after applying `event` to this session and `con_pre`.
    pub open spec fn applied(
        self,
        post: Session,
        con_pre: DebugConsole,
        con_post: DebugConsole,
        event: Event,
        r: Event,
    ) -> bool {
        &&& post.display_width == self.display_width
        &&& post.display_height == self.display_height
        &&& post.windows@ == self.windows@
        &&& event.code == 'm' ==> {
            &&& r == (Event {
                a: clamp_coord(self.mouse_x as int, event.a as int, self.display_width as int) as i64,
                b: clamp_coord(self.mouse_y as int, event.b as int, self.display_height as int) as i64,
                ..event
            })
            &&& post.mouse_x == r.a
            &&& post.mouse_y == r.b
            &&& post.redraw == max_level(self.redraw, REDRAW_CURSOR)
            &&& con_post == con_pre
        }
        &&& event.code != 'm' ==> {
            &&& r == event
            &&& post.mouse_x == self.mouse_x
            &&& post.mouse_y == self.mouse_y
        }
        &&& is_key_press(event, KEY_DEBUG_SHOW) ==> {
            &&& con_post == (DebugConsole { draw: true, redraw: true, ..con_pre })
            &&& post.redraw == self.redraw
        }
        &&& is_key_press(event, KEY_DEBUG_HIDE) ==> {
            &&& con_post == (DebugConsole { draw: false, ..con_pre })
            &&& post.redraw == max_level(self.redraw, REDRAW_ALL)
        }
        &&& (event.code != 'm' && !is_key_press(event, KEY_DEBUG_SHOW) && !is_key_press(
            event,
            KEY_DEBUG_HIDE,
        )) ==> con_post == con_pre && post.redraw == self.redraw
    }

    /// A session with no windows, the mouse at the top-left corner and
    /// nothing to repaint.
    pub fn new(display_width: u32, display_height: u32) -> (r: Session)
        ensures
            r.display_width == display_width,
            r.display_height == display_height,
            r.mouse_x == 0,
            r.mouse_y == 0,
            r.redraw == REDRAW_NONE,
            r.windows@ == Seq::<u64>::empty(),
    {
        Session {
            display_width,
            display_height,
            mouse_x: 0,
            mouse_y: 0,
            redraw: REDRAW_NONE,
            windows: Vec::new(),
        }
    }

    /// Applies an input event to the session and the debug overlay and
    /// returns it as it is to be queued: a motion event has its moves
    /// replaced by the new, clamped cursor position.
    pub fn apply_event(&mut self, console: &mut DebugConsole, event: Event) -> (r: Event)
        ensures
            old(self).applied(*final(self), *old(console), *final(console), event, r),
    {
        let mut e = event;
        if e.code == 'm' {
            e.a = clamp_move(self.mouse_x, e.a, self.display_width);
            e.b = clamp_move(self.mouse_y, e.b, self.display_height);
            self.mouse_x = e.a;
            self.mouse_y = e.b;
            if self.redraw < REDRAW_CURSOR {
                self.redraw = REDRAW_CURSOR;
            }
        }
        if e.code == 'k' && e.b == KEY_DEBUG_SHOW && e.c > 0 {
            console.draw = true;
            console.redraw = true;
        }
        if e.code == 'k' && e.b == KEY_DEBUG_HIDE && e.c > 0 {
            console.draw = false;
            if self.redraw < REDRAW_ALL {
                self.redraw = REDRAW_ALL;
            }
        }
        e
    }

    /// Puts a window at the front of the list.
    pub fn window_create(&mut self, window: u64)
        ensures
            final(self).windows@ == seq![window] + old(self).windows@,
            final(self).display_width == old(self).display_width,
            final(self).display_height == old(self).display_height,
            final(self).mouse_x == old(self).mouse_x,
            final(self).mouse_y == old(self).mouse_y,
            final(self).redraw == old(self).redraw,
    {
        self.windows.insert(0, window);
        assert(self.windows@ =~= seq![window] + old(self).windows@);
    }

    /// Removes the first entry equal to `window`; does nothing when there
    /// is none.
    pub fn window_destroy(&mut self, window: u64)
        ensures
            final(self).windows@ == destroyed(old(self).windows@, window),
            final(self).display_width == old(self).display_width,
            final(self).display_height == old(self).display_height,
            final(self).mouse_x == old(self).mouse_x,
            final(self).mouse_y == old(self).mouse_y,
            final(self).redraw == old(self).redraw,
    {
        let mut i: usize = 0;
        while i < self.windows.len()
            invariant
                i <= self.windows@.len(),
                self.windows@ == old(self).windows@,
                self.display_width == old(self).display_width,
                self.display_height == old(self).display_height,
                self.mouse_x == old(self).mouse_x,
                self.mouse_y == old(self).mouse_y,
                self.redraw == old(self).redraw,
                forall|j: int| 0 <= j < i ==> self.windows@[j] != window,
            decreases self.windows@.len() - i,
        {
            if self.windows[i] == window {
                let ghost s = self.windows@;
                assert(first_match(s, window) == Some(i as int)) by {
                    let k = choose|k: int|
                        0 <= k < s.len() && s[k] == window && forall|j: int| 0 <= j < k ==> s[j] != window;
                    assert(!(k < i) && !(i < k));
                };
                self.windows.remove(i);
                return;
            }
            i = i + 1;
        }
    }
}

/// Destroying a window that is listed at most once, twice over, leaves the
/// list as one destruction does, and that list no longer holds it.
pub proof fn lemma_destroy_idempotent(s: Seq<u64>, w: u64)
    requires
        forall|i: int, j: int| 0 <= i < s.len() && 0 <= j < s.len() && s[i] == w && s[j] == w ==> i == j,
    ensures
        destroyed(destroyed(s, w), w) == destroyed(s, w),
        !destroyed(s, w).contains(w),
{
    match first_match(s, w) {
        Some(i) => {
            let t = s.remove(i);
            assert forall|k: int| 0 <= k < t.len() implies t[k] != w by {
                if k < i {
                    assert(t[k] == s[k]);
                } else {
                    assert(t[k] == s[k + 1]);
                }
            };
            assert(first_match(t, w) is None);
        },
        None => {
            assert forall|k: int| 0 <= k < s.len() implies s[k] != w by {
                if s[k] == w {
                    lemma_first_match_exists(s, w, k);
                }
            };
        },
    }
}

/// Where `w` occurs, some entry equal to it has none before it.
proof fn lemma_first_match_exists(s: Seq<u64>, w: u64, k: int)
    requires
        0 <= k < s.len(),
        s[k] == w,
    ensures
        first_match(s, w) is Some,
    decreases k,
{
    if exists|j: int| 0 <= j < k && s[j] == w {
        let j = choose|j: int| 0 <= j < k && s[j] == w;
        lemma_first_match_exists(s, w, j);
    } else {
        assert(0 <= k < s.len() && s[k] == w && forall|j: int| 0 <= j < k ==> s[j] != w);
    }
}

} // verus!
