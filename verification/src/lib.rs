//! Verified core of a desktop shell's command layer.
//!
//! The shell exposes a handful of commands to its embedded front end:
//! toggling click-through on the application window, repositioning the
//! window, reporting a (placeholder) screen size, and storing or reading a
//! process-wide "developer mode" flag. Everything that touches the
//! windowing toolkit or the host's dispatch threads lives outside this
//! crate; here stand the decisions the commands make, each with a proved
//! contract: the shared state container, the model of the window state the
//! toolkit owns, and the five command handlers.

mod commands;
mod state;
mod window;

pub use commands::SCREEN_HEIGHT;
pub use commands::SCREEN_WIDTH;
pub use commands::get_screen_size;
pub use commands::is_dev_mode;
pub use commands::move_character;
pub use commands::set_click_through;
pub use commands::set_dev_mode;
pub use state::AppState;
pub use state::apply_writes;
pub use state::lemma_last_write_wins;
pub use state::lemma_set_then_get;
pub use window::WindowCall;
pub use window::WindowModel;
pub use window::lemma_ignore_cursor_last_write_wins;
