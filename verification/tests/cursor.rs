use scrivano::cursor::{get_cursor_position, CursorPosition};

#[test]
fn caret_is_preferred_to_the_mouse() {
    assert_eq!(
        get_cursor_position(Some((10, 20)), Some((30, 40))),
        Ok(CursorPosition { x: 10, y: 20, is_caret: true })
    );
    assert_eq!(
        get_cursor_position(Some((-1, 0)), None),
        Ok(CursorPosition { x: -1, y: 0, is_caret: true })
    );
}

#[test]
fn mouse_is_the_fallback() {
    assert_eq!(
        get_cursor_position(None, Some((30, 40))),
        Ok(CursorPosition { x: 30, y: 40, is_caret: false })
    );
}

#[test]
fn no_position_is_an_error() {
    assert_eq!(get_cursor_position(None, None), Err("Failed to get cursor position".to_string()));
}
