//! Where on screen the user is working: the text caret where the focused
//! application reveals it, the mouse pointer otherwise.

use vstd::prelude::*;

verus! {

/// A position on screen, and whether it is that of the text caret.
#[derive(Debug, Clone, Copy, PartialEq, Eq, Structural)]
pub struct CursorPosition {
    pub x: i32,
    pub y: i32,
    pub is_caret: bool,
}

/// The position to use: the caret where there is one, else the mouse
/// pointer, else none.
pub open spec fn cursor_for(caret: Option<(i32, i32)>, mouse: Option<(i32, i32)>) -> Option<
    CursorPosition,
> {
    match caret {
        Some((x, y)) => Some(CursorPosition { x, y, is_caret: true }),
        None => match mouse {
            Some((x, y)) => Some(CursorPosition { x, y, is_caret: false }),
            None => None,
        },
    }
}

/// Chooses between the caret position and the mouse position, as far as
/// each could be had, and fails where neither could.
pub fn get_cursor_position(caret: Option<(i32, i32)>, mouse: Option<(i32, i32)>) -> (r: Result<
    CursorPosition,
    String,
>)
    ensures
        cursor_for(caret, mouse) matches Some(p) ==> r == Ok::<CursorPosition, String>(p),
        cursor_for(caret, mouse) is None ==> (r matches Err(message) && message@
            == "Failed to get cursor position"@),
{
    if let Some((x, y)) = caret {
        return Ok(CursorPosition { x, y, is_caret: true });
    }
    if let Some((x, y)) = mouse {
        return Ok(CursorPosition { x, y, is_caret: false });
    }
    Err("Failed to get cursor position".to_owned())
}

} // verus!
