//! Who has the mouse: the game or the desktop.
//!
//! A click of the left button into the window hands the mouse to the game:
//! the cursor is hidden and locked in place. Escape hands it back. The host
//! reports, once per frame, whether either was pressed in that frame.

use vstd::prelude::*;

verus! {

/// How far the cursor may move.
#[derive(Clone, Copy, PartialEq, Eq, Structural, Debug)]
pub enum GrabMode {
    /// The cursor moves freely and may leave the window.
    Free,
    /// The cursor is kept inside the window.
    Confined,
    /// The cursor is held in place.
    Locked,
}

/// The state of the window's cursor.
#[derive(Clone, Copy, PartialEq, Eq, Structural, Debug)]
pub struct Cursor {
    pub visible: bool,
    pub grab_mode: GrabMode,
}

impl Cursor {
    /// The cursor while the game has the mouse: hidden and locked.
    pub open spec fn grabbed() -> Cursor {
        Cursor { visible: false, grab_mode: GrabMode::Locked }
    }

    /// The cursor while the desktop has the mouse: visible and free.
    pub open spec fn released() -> Cursor {
        Cursor { visible: true, grab_mode: GrabMode::Free }
    }

    /// The cursor after a frame in which the left button was clicked, or
    /// escape was pressed, or both, or neither. Escape has the last word.
    pub open spec fn after_frame(self, left_click: bool, escape: bool) -> Cursor {
        if escape {
            Cursor::released()
        } else if left_click {
            Cursor::grabbed()
        } else {
            self
        }
    }
}

/// Moves the mouse between the game and the desktop: a left click grabs it,
/// escape releases it, and where both come in one frame it is released. With
/// neither, the cursor stays as it is.
pub fn grab_mouse(cursor: &mut Cursor, left_click: bool, escape: bool)
    ensures
        *final(cursor) == old(cursor).after_frame(left_click, escape),
{
    if left_click {
        cursor.visible = false;
        cursor.grab_mode = GrabMode::Locked;
    }
    if escape {
        cursor.visible = true;
        cursor.grab_mode = GrabMode::Free;
    }
}

} // verus!
