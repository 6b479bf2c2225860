use scrivano::window::{
    hold_between, indicator_position, keep_on_screen, main_window_x, select_tray_icon, TrayIcon,
    INDICATOR_SIZE, MAIN_WINDOW_WIDTH, SCREEN_MARGIN,
};

#[test]
fn window_constants() {
    assert_eq!(MAIN_WINDOW_WIDTH, 320);
    assert_eq!(INDICATOR_SIZE, 36);
    assert_eq!(SCREEN_MARGIN, 4);
}

#[test]
fn main_window_is_centred_but_not_off_the_left_edge() {
    assert_eq!(main_window_x(1000), 840);
    assert_eq!(main_window_x(171), 11);
    assert_eq!(main_window_x(170), 10);
    assert_eq!(main_window_x(169), 10);
    assert_eq!(main_window_x(0), 10);
    assert_eq!(main_window_x(-5000), 10);
    assert_eq!(main_window_x(i32::MIN), 10);
    assert_eq!(main_window_x(i32::MAX), i32::MAX - 160);
}

#[test]
fn indicator_sits_above_right_of_the_mouse() {
    assert_eq!(indicator_position((500, 400), (1440, 900)), (508, 352));
    assert_eq!(indicator_position((100, 100), (1440, 900)), (108, 52));
}

#[test]
fn indicator_drops_below_the_mouse_near_the_top() {
    assert_eq!(indicator_position((500, 52), (1440, 900)), (508, 4));
    assert_eq!(indicator_position((500, 51), (1440, 900)), (508, 55));
    assert_eq!(indicator_position((500, 0), (1440, 900)), (508, 4));
}

#[test]
fn indicator_is_held_inside_the_margins() {
    assert_eq!(indicator_position((1439, 899), (1440, 900)), (1400, 851));
    assert_eq!(indicator_position((-50, -50), (1440, 900)), (4, 4));
    assert_eq!(indicator_position((5000, 5000), (1440, 900)), (1400, 860));
    assert_eq!(indicator_position((10, 10), (20, 20)), (-20, -20));
}

#[test]
fn hold_between_raises_then_lowers() {
    assert_eq!(hold_between(5, 0, 10), 5);
    assert_eq!(hold_between(-5, 0, 10), 0);
    assert_eq!(hold_between(15, 0, 10), 10);
    assert_eq!(hold_between(5, 8, 3), 3);
    assert_eq!(hold_between(i32::MIN, i32::MIN, i32::MAX), i32::MIN);
}

#[test]
fn resized_window_is_kept_on_screen() {
    assert_eq!(keep_on_screen(100, 320, 1440), 100);
    assert_eq!(keep_on_screen(-30, 320, 1440), 0);
    assert_eq!(keep_on_screen(1300, 320, 1440), 1120);
    assert_eq!(keep_on_screen(700, 400, 900), 500);
    assert_eq!(keep_on_screen(700, -400, 900), 700);
    assert_eq!(keep_on_screen(50, 2000, 900), -1100);
    assert_eq!(keep_on_screen(50, i32::MAX, i32::MIN), i32::MIN);
}

#[test]
fn tray_icon_follows_state_and_display() {
    assert_eq!(select_tray_icon(false, false), TrayIcon::Idle);
    assert_eq!(select_tray_icon(false, true), TrayIcon::IdleRetina);
    assert_eq!(select_tray_icon(true, false), TrayIcon::Recording);
    assert_eq!(select_tray_icon(true, true), TrayIcon::RecordingRetina);
}
