//! The editor's window state, apart from the window itself.

use vstd::prelude::*;

verus! {

/// Width of the editor window, in pixels.
pub const WINDOW_WIDTH: i32 = 600;

/// Height of the editor window, in pixels.
pub const WINDOW_HEIGHT: i32 = 400;

/// Whether the editor window is open. Opening an open editor is refused, so at
/// most one window exists at a time.
pub struct EditorState {
    pub is_open: bool,
}

impl EditorState {
    /// A closed editor.
    pub fn new() -> (r: EditorState)
        ensures
            !r.is_open,
    {
        EditorState { is_open: false }
    }

    /// Marks the editor open. Returns whether a window is to be opened now:
    /// false, with nothing changed, when the editor is open already.
    pub fn open(&mut self) -> (r: bool)
        ensures
            r == !old(self).is_open,
            final(self).is_open,
    {
        if self.is_open {
            return false;
        }
        self.is_open = true;
        true
    }

    /// Marks the editor closed.
    pub fn close(&mut self)
        ensures
            !final(self).is_open,
    {
        self.is_open = false;
    }

    /// Whether the editor is open.
    pub fn is_open(&self) -> (r: bool)
        ensures
            r == self.is_open,
    {
        self.is_open
    }

    /// The window's size, width first.
    pub fn size(&self) -> (r: (i32, i32))
        ensures
            r == (WINDOW_WIDTH, WINDOW_HEIGHT),
    {
        (WINDOW_WIDTH, WINDOW_HEIGHT)
    }

    /// The window's position within its parent.
    pub fn position(&self) -> (r: (i32, i32))
        ensures
            r == (0i32, 0i32),
    {
        (0, 0)
    }
}

} // verus!
