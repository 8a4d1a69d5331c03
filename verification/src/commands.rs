//! The command handlers the shell exposes to its embedded front end.
//!
//! Each handler is a pure request-to-response mapping with at most one
//! side effect. The two window commands emit the [`WindowCall`] the host
//! forwards to the toolkit; a toolkit failure is the host's to surface as
//! an error string, and touches nothing here — in particular it leaves
//! the developer-mode flag alone, which no window command so much as
//! receives. The two state commands run under the host's lock and cannot
//! fail once it is held; the host maps a failed lock acquisition to an
//! error string before they are reached.

use vstd::prelude::*;

use crate::state::AppState;
use crate::window::WindowCall;

verus! {

/// The placeholder screen width reported to the front end.
pub const SCREEN_WIDTH: u32 = 1920;

/// The placeholder screen height reported to the front end.
pub const SCREEN_HEIGHT: u32 = 1080;

/// Asks the toolkit to set the window's ignore-cursor-events flag to
/// exactly `enabled`.
pub fn set_click_through(enabled: bool) -> (c: WindowCall)
    ensures
        c == WindowCall::SetIgnoreCursorEvents(enabled),
{
    WindowCall::SetIgnoreCursorEvents(enabled)
}

/// Asks the toolkit to move the window to exactly the physical pixel
/// position `(x, y)`, for any 32-bit coordinates.
pub fn move_character(x: i32, y: i32) -> (c: WindowCall)
    ensures
        c == WindowCall::SetPosition(x, y),
{
    WindowCall::SetPosition(x, y)
}

/// Reports the screen size. Always succeeds with the fixed pair
/// `(1920, 1080)`, whatever was called before: a documented placeholder,
/// not real monitor geometry.
pub fn get_screen_size() -> (r: Result<(u32, u32), String>)
    ensures
        r == Ok::<(u32, u32), String>((SCREEN_WIDTH, SCREEN_HEIGHT)),
{
    Ok((SCREEN_WIDTH, SCREEN_HEIGHT))
}

/// Stores `enabled` in the shared developer-mode flag.
pub fn set_dev_mode(state: &mut AppState, enabled: bool)
    ensures
        *final(state) == old(state).spec_set(enabled),
        final(state).dev_mode_flag() == enabled,
{
    state.set(enabled);
}

/// Reads the shared developer-mode flag.
pub fn is_dev_mode(state: &AppState) -> (r: bool)
    ensures
        r == state.dev_mode_flag(),
{
    state.get()
}

} // verus!
