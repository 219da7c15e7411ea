use vstd::prelude::*;

verus! {

/// A range of text lines, `start` included and `end` excluded.
#[derive(Clone, Copy, Debug, PartialEq, Eq, Structural)]
pub struct Span {
    pub start: usize,
    pub end: usize,
}

/// Cursor and scroll state of a pager showing `len` lines of text on a
/// screen `x` columns wide and `y` rows tall. `line` is the text line under
/// the cursor and `cy` the screen row the cursor is on, so the screen shows
/// the text from line `line - cy` on.
#[derive(Clone, Copy, Debug, PartialEq, Eq, Structural)]
pub struct Tui {
    pub len: usize,
    pub x: u16,
    pub y: u16,
    pub cx: u16,
    pub cy: u16,
    pub line: usize,
}

impl Tui {
    /// The cursor is on a text line (or on line 0 of an empty text) and on
    /// a screen row, and the rows above it hold text lines.
    pub open spec fn wf(&self) -> bool {
        &&& self.cy as nat <= self.line
        &&& (self.len == 0 ==> self.line == 0)
        &&& (self.len > 0 ==> self.line < self.len)
        &&& (self.y == 0 ==> self.cy == 0)
        &&& (self.y > 0 ==> self.cy < self.y)
    }

    /// The text lines on screen: from the line on the top row, as many as
    /// the screen holds or as the text has left.
    pub open spec fn visible_spec(&self) -> Span {
        let start = (self.line - self.cy) as usize;
        Span {
            start,
            end: if self.len - start > self.y {
                (start + self.y) as usize
            } else {
                self.len
            },
        }
    }

    /// A pager at the top of a text of `len` lines.
    pub fn new(len: usize, x: u16, y: u16) -> (r: Tui)
        ensures
            r.wf(),
            r == (Tui { len, x, y, cx: 0, cy: 0, line: 0 }),
    {
        Tui { len, x, y, cx: 0, cy: 0, line: 0 }
    }

    /// The text lines on screen; they lie inside the text.
    pub fn visible(&self) -> (r: Span)
        requires
            self.wf(),
        ensures
            r == self.visible_spec(),
            r.start <= r.end <= self.len,
    {
        let start = self.line - self.cy as usize;
        let end = if self.len - start > self.y as usize {
            start + self.y as usize
        } else {
            self.len
        };
        Span { start, end }
    }

    /// Moves the cursor one line down. At the last text line nothing
    /// changes. On the bottom row the text scrolls instead, and the lines
    /// to redraw are returned.
    pub fn scroll_down(&mut self) -> (r: Option<Span>)
        requires
            old(self).wf(),
        ensures
            final(self).wf(),
            old(self).line + 1 < old(self).len ==> {
                &&& final(self).line == old(self).line + 1
                &&& if old(self).cy + 1 < old(self).y {
                    &&& final(self).cy == old(self).cy + 1
                    &&& r is None
                } else {
                    &&& final(self).cy == old(self).cy
                    &&& r == Some(final(self).visible_spec())
                }
            },
            old(self).line + 1 >= old(self).len ==> *final(self) == *old(self) && r is None,
            final(self).len == old(self).len,
            final(self).x == old(self).x,
            final(self).y == old(self).y,
            final(self).cx == old(self).cx,
    {
        if self.len - self.line <= 1 {
            return None;
        }
        self.line = self.line + 1;
        if (self.cy as u32) + 1 < self.y as u32 {
            self.cy = self.cy + 1;
            None
        } else {
            Some(self.visible())
        }
    }

    /// Moves the cursor one line up. At the first text line nothing
    /// changes. On the top row the text scrolls instead, and the lines to
    /// redraw are returned.
    pub fn scroll_up(&mut self) -> (r: Option<Span>)
        requires
            old(self).wf(),
        ensures
            final(self).wf(),
            old(self).line > 0 ==> {
                &&& final(self).line == old(self).line - 1
                &&& if old(self).cy > 0 {
                    &&& final(self).cy == old(self).cy - 1
                    &&& r is None
                } else {
                    &&& final(self).cy == 0
                    &&& r == Some(final(self).visible_spec())
                }
            },
            old(self).line == 0 ==> *final(self) == *old(self) && r is None,
            final(self).len == old(self).len,
            final(self).x == old(self).x,
            final(self).y == old(self).y,
            final(self).cx == old(self).cx,
    {
        if self.line == 0 {
            return None;
        }
        self.line = self.line - 1;
        if self.cy > 0 {
            self.cy = self.cy - 1;
            None
        } else {
            Some(self.visible())
        }
    }

    /// Takes the new screen size. The cursor keeps its text line and moves
    /// up to the last row if that row is gone; the lines to redraw are
    /// returned.
    pub fn resize(&mut self, x: u16, y: u16) -> (r: Span)
        requires
            old(self).wf(),
        ensures
            final(self).wf(),
            final(self).x == x,
            final(self).y == y,
            final(self).line == old(self).line,
            final(self).len == old(self).len,
            final(self).cx == old(self).cx,
            final(self).cy == if (old(self).cy as int) < (y as int) {
                old(self).cy as int
            } else if y > 0 {
                y - 1
            } else {
                0
            },
            r == final(self).visible_spec(),
    {
        self.x = x;
        self.y = y;
        if self.cy >= y {
            self.cy = if y > 0 {
                y - 1
            } else {
                0
            };
        }
        self.visible()
    }
}

} // verus!
