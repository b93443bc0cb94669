//! A small verified wrapper around the curses screen: lifecycle of the screen
//! handle, drawing text, refreshing, querying the screen size and the cursor.
use vstd::prelude::*;

pub mod cursor;
mod curses;
pub mod status;
pub mod text;
pub mod window;

pub use cursor::{visibility_code, visibility_from_code, Visibility};
pub use status::{handle_err, teardown_result, ERR};
pub use text::bytes_to_text;
pub use window::{cursor_result, endwin, max_yx_from, Window};
