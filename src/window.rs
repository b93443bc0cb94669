//! The screen window: one live curses session, ended when the window goes
//! out of scope.
use vstd::prelude::*;
use libc::{c_char, c_int};
use crate::cursor::{code_of, visibility_code, visibility_from_code, Visibility};
use crate::curses::{
    draw_nstr, draw_str, end_screen, init_screen, refresh_window, set_cursor, window_max_x,
    window_max_y,
};
use crate::status::{handle_err, teardown_result, ERR};
use crate::text::{bytes_to_text, decoded_text, lemma_before_nul, text_bytes};

verus! {

/// What a status-carrying result says: successes carry a non-negative value,
/// failures a negative code.
pub open spec fn status_shaped(r: Result<c_int, c_int>) -> bool {
    match r {
        Ok(v) => v >= 0,
        Err(e) => e < 0,
    }
}

/// Ends the curses session. A negative status code from curses is returned as
/// the error; any other code is success.
pub fn endwin() -> (r: Result<(), c_int>)
    ensures
        r is Err ==> r->Err_0 < 0,
    opens_invariants none
    no_unwind
{
    teardown_result(end_screen())
}

/// Takes hold of a screen handle: a null handle is refused with `ERR`, any
/// other becomes a window holding that handle.
fn window_from_handle(window: ncurses::WINDOW) -> (r: Result<Window, c_int>)
    ensures
        window@.addr == 0 ==> r == Err::<Window, c_int>(ERR),
        window@.addr != 0 ==> r is Ok && r->Ok_0.handle() == window,
{
    if window.addr() == 0 {
        Err(ERR)
    } else {
        Ok(Window { w: window })
    }
}

/// Starts curses and takes hold of the screen handle it returns.
fn initscr() -> (r: Result<Window, c_int>)
    ensures
        r is Err ==> r->Err_0 == ERR,
{
    window_from_handle(init_screen())
}

/// The size of a window from its two queries, height first: the first failure
/// is returned unchanged, and two successes give their pair.
pub fn max_yx_from(y: Result<c_int, c_int>, x: Result<c_int, c_int>) -> (r: Result<(c_int, c_int), c_int>)
    ensures
        y is Err ==> r == Err::<(c_int, c_int), c_int>(y->Err_0),
        y is Ok && x is Err ==> r == Err::<(c_int, c_int), c_int>(x->Err_0),
        y is Ok && x is Ok ==> r == Ok::<(c_int, c_int), c_int>((y->Ok_0, x->Ok_0)),
{
    match y {
        Err(e) => Err(e),
        Ok(h) => match x {
            Err(e) => Err(e),
            Ok(w) => Ok((h, w)),
        },
    }
}

/// The curses screen window. Only `Window::new` makes one, from the handle
/// curses returns; dropping it ends the curses session. Curses keeps a single
/// screen per process, so callers should hold one window at a time.
pub struct Window {
    w: ncurses::WINDOW,
}

impl Window {
    /// The screen handle this window holds.
    pub closed spec fn handle(&self) -> ncurses::WINDOW {
        self.w
    }

    /// The window's screen handle is never null.
    #[verifier::type_invariant]
    spec fn holds_screen(&self) -> bool {
        self.w@.addr != 0
    }

    /// Starts curses and returns its screen window. Where curses fails to set
    /// up the terminal it ends the process itself; a null handle, should one
    /// ever come back, gives `ERR`.
    pub fn new() -> (r: Result<Window, c_int>)
        ensures
            r is Err ==> r->Err_0 == ERR,
    {
        initscr()
    }

    /// Draws `text` starting at row `y`, column `x`.
    pub fn addstr(&mut self, y: c_int, x: c_int, text: &str) -> (r: Result<c_int, c_int>)
        requires
            !text@.contains('\0'),
        ensures
            status_shaped(r),
            *final(self) == *old(self),
    {
        handle_err(draw_str(self.w, y, x, text))
    }

    /// Draws the bytes of `text` that come before its first NUL byte, starting
    /// at row `y`, column `x`. Those bytes must be UTF-8 text; otherwise
    /// nothing is drawn and the result is `ERR`.
    pub fn addbytes(&mut self, y: c_int, x: c_int, text: &Vec<c_char>) -> (r: Result<c_int, c_int>)
        requires
            text@.len() <= c_int::MAX,
        ensures
            status_shaped(r),
            decoded_text(text@) is None ==> r == Err::<c_int, c_int>(ERR),
            *final(self) == *old(self),
    {
        match bytes_to_text(text) {
            Some(s) => {
                proof {
                    lemma_before_nul(text@);
                    assert(text_bytes(text@).len() <= text@.len());
                }
                let n = s.as_str().len();
                handle_err(draw_nstr(self.w, y, x, s.as_str(), n as c_int))
            },
            None => Err(ERR),
        }
    }

    /// Shows the window's pending output on the terminal.
    pub fn refresh(&mut self) -> (r: Result<c_int, c_int>)
        ensures
            status_shaped(r),
            *final(self) == *old(self),
    {
        handle_err(refresh_window(self.w))
    }

    /// The window's height.
    pub fn get_max_y(&self) -> (r: Result<c_int, c_int>)
        ensures
            status_shaped(r),
    {
        handle_err(window_max_y(self.w))
    }

    /// The window's width.
    pub fn get_max_x(&self) -> (r: Result<c_int, c_int>)
        ensures
            status_shaped(r),
    {
        handle_err(window_max_x(self.w))
    }

    /// The window's height and width. A failed height query is returned as it
    /// is, without asking for the width; otherwise the result is that of
    /// `max_yx_from` on the two queries.
    pub fn get_max_yx(&self) -> (r: Result<(c_int, c_int), c_int>)
        ensures
            r is Ok ==> r->Ok_0.0 >= 0 && r->Ok_0.1 >= 0,
            r is Err ==> r->Err_0 < 0,
    {
        let y = self.get_max_y();
        match y {
            Err(e) => Err(e),
            Ok(_) => max_yx_from(y, self.get_max_x()),
        }
    }

    /// Sets the cursor's visibility by its curses code (0 invisible, 1 visible,
    /// 2 very visible) and returns the code of the level it had before. A code
    /// outside those three, or a level the terminal refuses, gives `ERR`.
    pub fn curs_set(&mut self, visibility: c_int) -> (r: Result<c_int, c_int>)
        ensures
            !(0 <= visibility <= 2) ==> r == Err::<c_int, c_int>(ERR),
            r is Ok ==> 0 <= r->Ok_0 <= 2,
            r is Err ==> r->Err_0 == ERR,
            *final(self) == *old(self),
    {
        match visibility_from_code(visibility) {
            None => Err(ERR),
            Some(level) => cursor_result(set_cursor(level)),
        }
    }
}

/// The result of a cursor change from what curses reported: the code of the
/// level the cursor had before, or `ERR` where curses refused the change.
pub fn cursor_result(before: Option<Visibility>) -> (r: Result<c_int, c_int>)
    ensures
        before is Some ==> r == Ok::<c_int, c_int>(code_of(before->Some_0) as c_int),
        before is None ==> r == Err::<c_int, c_int>(ERR),
{
    match before {
        Some(v) => Ok(visibility_code(v)),
        None => Err(ERR),
    }
}

impl Drop for Window {
    /// Ends the curses session; a failure to end it is ignored, as there is no
    /// caller left to report it to.
    fn drop(&mut self)
        opens_invariants none
        no_unwind
    {
        let _ = endwin();
    }
}

} // verus!
