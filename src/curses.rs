//! The calls into the curses library, each behind a contract that says what
//! this library relies on. Results that depend on the terminal are promised
//! nothing.
use vstd::prelude::*;
use libc::c_int;
use ncurses::CURSOR_VISIBILITY as Cv;
use crate::cursor::Visibility;

verus! {

/// Relies on `ncurses::initscr`: starts curses and hands back the handle of
/// the screen's window.
#[verifier::external_body]
pub(crate) fn init_screen() -> (r: ncurses::WINDOW) {
    ncurses::initscr()
}

/// Relies on `ncurses::endwin`: ends curses and returns its status code. It
/// calls straight into the C library and does not unwind.
#[verifier::external_body]
pub(crate) fn end_screen() -> (r: c_int)
    opens_invariants none
    no_unwind
{
    ncurses::endwin()
}

/// Relies on `ncurses::mvwaddstr`: draws `s` at row `y`, column `x`, and
/// returns the status code. It panics on text holding a NUL character.
#[verifier::external_body]
pub(crate) fn draw_str(w: ncurses::WINDOW, y: c_int, x: c_int, s: &str) -> (r: c_int)
    requires
        !s@.contains('\0'),
{
    ncurses::mvwaddstr(w, y, x, s)
}

/// Relies on `ncurses::mvwaddnstr`: draws at most `n` bytes of `s` at row `y`,
/// column `x`, and returns the status code. It panics on text holding a NUL
/// character.
#[verifier::external_body]
pub(crate) fn draw_nstr(w: ncurses::WINDOW, y: c_int, x: c_int, s: &str, n: c_int) -> (r: c_int)
    requires
        !s@.contains('\0'),
{
    ncurses::mvwaddnstr(w, y, x, s, n)
}

/// Relies on `ncurses::wrefresh`: shows the window's pending output and returns
/// the status code.
#[verifier::external_body]
pub(crate) fn refresh_window(w: ncurses::WINDOW) -> (r: c_int) {
    ncurses::wrefresh(w)
}

/// Relies on `ncurses::getmaxy`: the window's height, or a negative code.
#[verifier::external_body]
pub(crate) fn window_max_y(w: ncurses::WINDOW) -> (r: c_int) {
    ncurses::getmaxy(w)
}

/// Relies on `ncurses::getmaxx`: the window's width, or a negative code.
#[verifier::external_body]
pub(crate) fn window_max_x(w: ncurses::WINDOW) -> (r: c_int) {
    ncurses::getmaxx(w)
}

/// Relies on `ncurses::curs_set`: sets the cursor's visibility and returns the
/// level it had before, or `None` where the terminal refused.
#[verifier::external_body]
pub(crate) fn set_cursor(v: Visibility) -> (r: Option<Visibility>) {
    let level = match v {
        Visibility::Invisible => Cv::CURSOR_INVISIBLE,
        Visibility::Visible => Cv::CURSOR_VISIBLE,
        Visibility::VeryVisible => Cv::CURSOR_VERY_VISIBLE,
    };
    ncurses::curs_set(level).map(|p| match p {
        Cv::CURSOR_INVISIBLE => Visibility::Invisible,
        Cv::CURSOR_VISIBLE => Visibility::Visible,
        Cv::CURSOR_VERY_VISIBLE => Visibility::VeryVisible,
    })
}

} // verus!
