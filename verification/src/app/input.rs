//! Keys, the mouse, and where things are on the screen.

use vstd::prelude::*;

verus! {

/// A key.
#[derive(Debug, Clone, Copy, PartialEq, Eq, Structural)]
pub enum KeyCode {
    /// A key that types a character.
    Char(char),
    /// Escape.
    Esc,
    /// Enter.
    Enter,
    /// Tab.
    Tab,
    /// Tab with shift.
    BackTab,
    /// Backspace.
    Backspace,
    /// Delete.
    Delete,
    /// Up arrow.
    Up,
    /// Down arrow.
    Down,
    /// Left arrow.
    Left,
    /// Right arrow.
    Right,
    /// Home.
    Home,
    /// End.
    End,
    /// Page up.
    PageUp,
    /// Page down.
    PageDown,
    /// A key that means nothing here.
    Unbound,
}

/// What happened to a key.
#[derive(Debug, Clone, Copy, PartialEq, Eq, Structural)]
pub enum KeyEventKind {
    /// It went down.
    Press,
    /// It is held down.
    Repeat,
    /// It came up.
    Release,
}

/// One key event.
#[derive(Debug, Clone, Copy, PartialEq, Eq, Structural)]
pub struct KeyEvent {
    /// Which key.
    pub code: KeyCode,
    /// Whether control was held.
    pub control: bool,
    /// What happened to it.
    pub kind: KeyEventKind,
}

/// What the mouse did.
#[derive(Debug, Clone, Copy, PartialEq, Eq, Structural)]
pub enum MouseEventKind {
    /// One notch of the wheel, down.
    ScrollDown,
    /// One notch of the wheel, up.
    ScrollUp,
    /// One notch of the wheel, left.
    ScrollLeft,
    /// One notch of the wheel, right.
    ScrollRight,
    /// A click, a drag or a move.
    Elsewise,
}

/// One mouse event.
#[derive(Debug, Clone, Copy, PartialEq, Eq, Structural)]
pub struct MouseEvent {
    /// What the mouse did.
    pub kind: MouseEventKind,
    /// Column the pointer is over.
    pub column: u16,
    /// Row the pointer is over.
    pub row: u16,
}

/// A rectangle of screen cells.
#[derive(Debug, Clone, Copy, PartialEq, Eq, Structural)]
pub struct Rect {
    /// Leftmost column.
    pub x: u16,
    /// Topmost row.
    pub y: u16,
    /// Columns.
    pub width: u16,
    /// Rows.
    pub height: u16,
}

impl Rect {
    /// The rectangle of so many columns and rows from a corner on.
    pub fn new(x: u16, y: u16, width: u16, height: u16) -> (r: Rect)
        ensures
            r == (Rect { x, y, width, height }),
    {
        Rect { x, y, width, height }
    }

    /// The last column or row there is, plus one; cells past it are no one's.
    pub open spec fn edge(start: u16, length: u16) -> int {
        if start + length > u16::MAX {
            u16::MAX as int
        } else {
            start + length
        }
    }

    /// Whether the rectangle covers a cell.
    pub open spec fn covers(self, column: u16, row: u16) -> bool {
        &&& self.x <= column < Rect::edge(self.x, self.width)
        &&& self.y <= row < Rect::edge(self.y, self.height)
    }

    /// Whether the rectangle covers a cell.
    pub fn contains(self, column: u16, row: u16) -> (r: bool)
        ensures
            r == self.covers(column, row),
    {
        self.x <= column && column < self.x.saturating_add(self.width) && self.y <= row && row
            < self.y.saturating_add(self.height)
    }
}

/// A rectangle covers the cells from its corner on, as many as it is wide and
/// high, and no cell of the last column or row there can be.
pub proof fn a_rectangle_covers_its_cells(r: Rect, column: u16, row: u16)
    ensures
        r.covers(column, row) <==> {
            &&& r.x <= column < r.x + r.width && column < 0xffff
            &&& r.y <= row < r.y + r.height && row < 0xffff
        },
{
}

} // verus!
