use app_shell::AppState;
use app_shell::WindowCall;
use app_shell::WindowModel;
use app_shell::get_screen_size;
use app_shell::is_dev_mode;
use app_shell::move_character;
use app_shell::set_click_through;
use app_shell::set_dev_mode;

#[test]
fn dev_mode_starts_false() {
    let state = AppState::new();
    assert_eq!(is_dev_mode(&state), false);
}

#[test]
fn set_dev_mode_then_read_returns_written_value() {
    let mut state = AppState::new();
    set_dev_mode(&mut state, true);
    assert_eq!(is_dev_mode(&state), true);
    set_dev_mode(&mut state, false);
    assert_eq!(is_dev_mode(&state), false);
}

#[test]
fn dev_mode_holds_last_of_many_writes() {
    let mut state = AppState::new();
    let writes: [bool; 7] = [true, true, false, true, false, false, true];
    for w in writes {
        set_dev_mode(&mut state, w);
    }
    assert_eq!(is_dev_mode(&state), true);
}

#[test]
fn screen_size_is_fixed_placeholder() {
    assert_eq!(get_screen_size(), Ok((1920, 1080)));
}

#[test]
fn screen_size_ignores_call_history() {
    let mut state = AppState::new();
    assert_eq!(get_screen_size(), Ok((1920, 1080)));
    set_dev_mode(&mut state, true);
    let _ = move_character(44, -9);
    let _ = set_click_through(true);
    assert_eq!(get_screen_size(), Ok((1920, 1080)));
}

#[test]
fn move_character_requests_exact_coordinates() {
    assert_eq!(move_character(250, 620), WindowCall::SetPosition(250, 620));
    assert_eq!(move_character(0, 0), WindowCall::SetPosition(0, 0));
    assert_eq!(
        move_character(i32::MIN, i32::MAX),
        WindowCall::SetPosition(i32::MIN, i32::MAX)
    );
}

#[test]
fn move_character_positions_window_and_leaves_dev_mode_alone() {
    let mut state = AppState::new();
    set_dev_mode(&mut state, true);
    let mut window = WindowModel::new(true, 10, 20);
    window.apply(&move_character(-3, 7));
    assert_eq!(window.x(), -3);
    assert_eq!(window.y(), 7);
    assert_eq!(window.click_through(), true);
    assert_eq!(is_dev_mode(&state), true);
}

#[test]
fn set_click_through_requests_exact_flag() {
    assert_eq!(set_click_through(true), WindowCall::SetIgnoreCursorEvents(true));
    assert_eq!(set_click_through(false), WindowCall::SetIgnoreCursorEvents(false));
}

#[test]
fn click_through_on_then_off_ends_off() {
    let mut window = WindowModel::new(false, 3, 4);
    window.apply(&set_click_through(true));
    assert!(window.click_through());
    window.apply(&set_click_through(false));
    assert!(!window.click_through());
    assert_eq!(window.x(), 3);
    assert_eq!(window.y(), 4);
}
