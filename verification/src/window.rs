//! Where the windows go: the main window under the tray icon, the indicator
//! beside the mouse pointer, both kept on screen; and which tray icon shows.

use vstd::prelude::*;

verus! {

/// The width of the main window.
pub const MAIN_WINDOW_WIDTH: i32 = 320;

/// The width and height of the indicator.
pub const INDICATOR_SIZE: i32 = 36;

/// The least distance the indicator keeps from the edges of the screen.
pub const SCREEN_MARGIN: i32 = 4;

/// The larger of two numbers.
pub open spec fn larger(a: int, b: int) -> int {
    if a >= b {
        a
    } else {
        b
    }
}

/// The smaller of two numbers.
pub open spec fn smaller(a: int, b: int) -> int {
    if a <= b {
        a
    } else {
        b
    }
}

/// The left edge of the main window when it is shown centred under `x`,
/// never closer than 10 to the left edge of the screen.
pub open spec fn main_window_left(x: int) -> int {
    larger(x - MAIN_WINDOW_WIDTH / 2, 10)
}

/// Where the left edge of the main window goes when it is shown centred
/// under `x`.
pub fn main_window_x(x: i32) -> (left: i32)
    ensures
        left == main_window_left(x as int),
{
    if x >= MAIN_WINDOW_WIDTH / 2 + 10 {
        x - MAIN_WINDOW_WIDTH / 2
    } else {
        10
    }
}

/// `v` pushed up to `low` first, then down to `high`.
pub open spec fn held_between(v: int, low: int, high: int) -> int {
    smaller(larger(v, low), high)
}

/// The left edge of the indicator for a mouse at `mouse_x` on a screen
/// `screen_width` wide: a little to the right of the pointer, inside the
/// margins.
pub open spec fn indicator_left(mouse_x: int, screen_width: int) -> int {
    held_between(mouse_x + 8, SCREEN_MARGIN as int, screen_width - INDICATOR_SIZE - SCREEN_MARGIN)
}

/// The top edge of the indicator for a mouse at `mouse_y` on a screen
/// `screen_height` high: above the pointer where there is room, else just
/// below it, inside the margins.
pub open spec fn indicator_top(mouse_y: int, screen_height: int) -> int {
    let above = mouse_y - INDICATOR_SIZE - 12;
    let wanted = if above >= SCREEN_MARGIN {
        above
    } else {
        mouse_y + 4
    };
    held_between(wanted, SCREEN_MARGIN as int, screen_height - INDICATOR_SIZE - SCREEN_MARGIN)
}

/// Where the indicator goes for a mouse at `mouse` on a screen of size
/// `screen`, both given as (horizontal, vertical). The coordinates must leave
/// room for the offsets that are applied to them.
pub fn indicator_position(mouse: (i32, i32), screen: (i32, i32)) -> (origin: (i32, i32))
    requires
        mouse.0 <= i32::MAX - 8,
        mouse.1 <= i32::MAX - 4,
        mouse.1 >= i32::MIN + 48,
        screen.0 >= i32::MIN + 40,
        screen.1 >= i32::MIN + 40,
    ensures
        origin.0 == indicator_left(mouse.0 as int, screen.0 as int),
        origin.1 == indicator_top(mouse.1 as int, screen.1 as int),
{
    let wanted_x = mouse.0 + 8;
    let wanted_y = if mouse.1 - INDICATOR_SIZE - 12 >= SCREEN_MARGIN {
        mouse.1 - INDICATOR_SIZE - 12
    } else {
        mouse.1 + 4
    };
    (
        hold_between(wanted_x, SCREEN_MARGIN, screen.0 - INDICATOR_SIZE - SCREEN_MARGIN),
        hold_between(wanted_y, SCREEN_MARGIN, screen.1 - INDICATOR_SIZE - SCREEN_MARGIN),
    )
}

/// Pushes `v` up to `low` first, then down to `high`.
pub fn hold_between(v: i32, low: i32, high: i32) -> (r: i32)
    ensures
        r == held_between(v as int, low as int, high as int),
{
    let raised = if v >= low {
        v
    } else {
        low
    };
    if raised <= high {
        raised
    } else {
        high
    }
}

/// The difference of two numbers, held inside the range of `i32`.
pub open spec fn bounded_difference(a: int, b: int) -> int {
    held_between(a - b, i32::MIN as int, i32::MAX as int)
}

/// One coordinate of a window after a resize: not negative, and such that
/// a window of `extent` still ends on a screen of `screen_extent`; a negative
/// extent counts as none.
pub open spec fn coordinate_on_screen(position: int, extent: int, screen_extent: int) -> int {
    held_between(position, 0, bounded_difference(screen_extent, larger(extent, 0)))
}

/// Brings one coordinate of a resized window back on screen.
pub fn keep_on_screen(position: i32, extent: i32, screen_extent: i32) -> (r: i32)
    ensures
        r == coordinate_on_screen(position as int, extent as int, screen_extent as int),
{
    let extent = if extent >= 0 {
        extent
    } else {
        0
    };
    let limit = if screen_extent >= i32::MIN + extent {
        screen_extent - extent
    } else {
        i32::MIN
    };
    hold_between(position, 0, limit)
}

/// The icons the tray can show.
#[derive(Debug, Clone, Copy, PartialEq, Eq, Structural)]
pub enum TrayIcon {
    Idle,
    IdleRetina,
    Recording,
    RecordingRetina,
}

/// The tray icon for the state of the recorder and the kind of display.
pub fn select_tray_icon(recording: bool, retina: bool) -> (icon: TrayIcon)
    ensures
        icon == match (recording, retina) {
            (false, false) => TrayIcon::Idle,
            (false, true) => TrayIcon::IdleRetina,
            (true, false) => TrayIcon::Recording,
            (true, true) => TrayIcon::RecordingRetina,
        },
{
    match (recording, retina) {
        (false, false) => TrayIcon::Idle,
        (false, true) => TrayIcon::IdleRetina,
        (true, false) => TrayIcon::Recording,
        (true, true) => TrayIcon::RecordingRetina,
    }
}

/// On a screen that has room for it, the indicator lies wholly inside the
/// margins.
pub proof fn lemma_indicator_stays_on_screen(mouse: (int, int), screen: (int, int))
    requires
        screen.0 >= INDICATOR_SIZE + 2 * SCREEN_MARGIN,
        screen.1 >= INDICATOR_SIZE + 2 * SCREEN_MARGIN,
    ensures
        SCREEN_MARGIN <= indicator_left(mouse.0, screen.0),
        indicator_left(mouse.0, screen.0) + INDICATOR_SIZE <= screen.0 - SCREEN_MARGIN,
        SCREEN_MARGIN <= indicator_top(mouse.1, screen.1),
        indicator_top(mouse.1, screen.1) + INDICATOR_SIZE <= screen.1 - SCREEN_MARGIN,
{
}

} // verus!
