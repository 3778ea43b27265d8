//! The debug console: glyph placement, line wrap and scrolling on an
//! optional debug surface, beside the raw byte sent to the serial port.
use vstd::prelude::*;

verus! {

/// Horizontal advance of one glyph, in pixels.
pub const GLYPH_WIDTH: i64 = 8;

/// Height of one text line, in pixels; also the scroll step.
pub const LINE_HEIGHT: i64 = 16;

/// The byte value that ends a line instead of drawing a glyph.
pub const NEWLINE: u32 = 10;

/// Size of the surface the console draws on.
#[derive(Clone, Copy, Debug, PartialEq, Eq, Structural)]
pub struct DebugSurface {
    pub width: u32,
    pub height: u32,
}

/// One glyph to draw with its top-left corner at (`x`, `y`).
#[derive(Clone, Copy, Debug, PartialEq, Eq, Structural)]
pub struct Glyph {
    pub x: i64,
    pub y: i64,
    pub byte: u8,
}

/// What one debug write asks of the hardware, in order: draw the glyph,
/// scroll the surface up by one line `scrolls` times, send `serial` to the
/// serial port.
#[derive(Clone, Copy, Debug, PartialEq, Eq, Structural)]
pub struct DebugEffects {
    pub glyph: Option<Glyph>,
    pub scrolls: u64,
    pub serial: u8,
}

/// The console's cursor and overlay flags. `redraw` asks for the overlay
/// to be repainted; `draw` says whether the overlay is shown.
#[derive(Clone, Copy, Debug, PartialEq, Eq, Structural)]
pub struct DebugConsole {
    pub surface: Option<DebugSurface>,
    pub x: i64,
    pub y: i64,
    pub redraw: bool,
    pub draw: bool,
}

/// The cursor after placing `value` at (`x`, `y`), before scrolling: a
/// newline goes to the start of the next line, a glyph moves one step right,
/// and reaching the width wraps to the next line.
pub open spec fn advance(x: int, y: int, width: int, value: u32) -> (int, int) {
    let (x1, y1) = if value == NEWLINE {
        (0int, y + LINE_HEIGHT)
    } else {
        (x + GLYPH_WIDTH, y)
    };
    if x1 >= width {
        (0int, y1 + LINE_HEIGHT)
    } else {
        (x1, y1)
    }
}

/// How many one-line scrolls bring a line at `y` inside a surface of
/// height `height`.
pub open spec fn scroll_lines(y: int, height: int) -> int {
    if y + LINE_HEIGHT > height {
        (y + LINE_HEIGHT - height + LINE_HEIGHT - 1) / (LINE_HEIGHT as int)
    } else {
        0
    }
}

impl DebugConsole {
    /// The cursor lies on the surface, a line below its bottom at most.
    pub open spec fn wf(&self) -> bool {
        match self.surface {
            Some(s) => 0 <= self.x <= s.width && -2 * LINE_HEIGHT < self.y <= s.height,
            None => true,
        }
    }

    /// `post` and `r` are the console and the effects after writing
    /// `value` to this console.
    pub open spec fn wrote(self, post: DebugConsole, value: u32, r: DebugEffects) -> bool {
        &&& r.serial == value as u8
        &&& post.surface == self.surface
        &&& post.draw == self.draw
        &&& match self.surface {
            None => post == self && r.glyph is None && r.scrolls == 0,
            Some(s) => {
                let (x1, y1) = advance(self.x as int, self.y as int, s.width as int, value);
                &&& r.glyph == (if value == NEWLINE {
                    None
                } else {
                    Some(Glyph { x: self.x, y: self.y, byte: value as u8 })
                })
                &&& r.scrolls == scroll_lines(y1, s.height as int)
                &&& post.x == x1
                &&& post.y == y1 - LINE_HEIGHT * scroll_lines(y1, s.height as int)
                &&& post.redraw == (self.redraw || value == NEWLINE)
            },
        }
    }

    /// A console at the top-left corner with the overlay hidden.
    pub fn new(surface: Option<DebugSurface>) -> (r: DebugConsole)
        ensures
            r.wf(),
            r == (DebugConsole { surface, x: 0, y: 0, redraw: false, draw: false }),
    {
        DebugConsole { surface, x: 0, y: 0, redraw: false, draw: false }
    }

    /// Writes one value: on a surface, draws it as a glyph (or breaks the
    /// line for a newline), wraps and scrolls; always echoes its low byte to
    /// the serial port.
    pub fn write(&mut self, value: u32) -> (r: DebugEffects)
        requires
            old(self).wf(),
        ensures
            final(self).wf(),
            old(self).wrote(*final(self), value, r),
    {
        let mut glyph: Option<Glyph> = None;
        let mut scrolls: u64 = 0;
        match self.surface {
            None => {},
            Some(s) => {
                let width = s.width as i64;
                let height = s.height as i64;
                if value == NEWLINE {
                    self.x = 0;
                    self.y = self.y + LINE_HEIGHT;
                    self.redraw = true;
                } else {
                    glyph = Some(Glyph { x: self.x, y: self.y, byte: #[verifier::truncate] (value as u8) });
                    self.x = self.x + GLYPH_WIDTH;
                }
                if self.x >= width {
                    self.x = 0;
                    self.y = self.y + LINE_HEIGHT;
                }
                let ghost y1 = self.y as int;
                let ghost placed = *self;
                while self.y + LINE_HEIGHT > height
                    invariant
                        y1 <= height + 2 * LINE_HEIGHT,
                        y1 > -2 * LINE_HEIGHT,
                        self.y == y1 - LINE_HEIGHT * scrolls,
                        self.y > -2 * LINE_HEIGHT,
                        scrolls > 0 ==> self.y + 2 * LINE_HEIGHT > height,
                        scrolls <= 4,
                        height == s.height,
                        *self == (DebugConsole { y: self.y, ..placed }),
                    decreases self.y + 2 * LINE_HEIGHT,
                {
                    self.y = self.y - LINE_HEIGHT;
                    scrolls = scrolls + 1;
                }
                assert(scrolls == scroll_lines(y1, height as int));
            },
        }
        DebugEffects { glyph, scrolls, serial: #[verifier::truncate] (value as u8) }
    }
}

/// With `count` glyphs already on the line, one more wraps it exactly when
/// `count + 1` glyphs reach the width; and a line starting at `y` makes the
/// surface scroll exactly when it would end below the bottom.
pub proof fn lemma_wrap_and_scroll(count: nat, y: int, width: int, height: int, value: u32)
    requires
        value != NEWLINE,
    ensures
        advance(count * GLYPH_WIDTH, y, width, value).0 == 0 <==> (count + 1) * GLYPH_WIDTH >= width,
        (count + 1) * GLYPH_WIDTH >= width ==> advance(count * GLYPH_WIDTH, y, width, value).1 == y + LINE_HEIGHT,
        scroll_lines(y, height) > 0 <==> y + LINE_HEIGHT > height,
{
}

} // verus!
