//! Cursor visibility levels and their curses codes.
use vstd::prelude::*;
use libc::c_int;

verus! {

/// How visible the terminal cursor is.
#[derive(Clone, Copy, Debug, PartialEq, Eq, Structural)]
pub enum Visibility {
    Invisible,
    Visible,
    VeryVisible,
}

/// The curses code of a visibility level: 0, 1 and 2, from invisible up.
pub open spec fn code_of(v: Visibility) -> int {
    match v {
        Visibility::Invisible => 0,
        Visibility::Visible => 1,
        Visibility::VeryVisible => 2,
    }
}

/// The visibility level that a curses code names, if it names one.
pub fn visibility_from_code(code: c_int) -> (r: Option<Visibility>)
    ensures
        r is Some <==> 0 <= code <= 2,
        r is Some ==> code_of(r->Some_0) == code,
{
    if code == 0 {
        Some(Visibility::Invisible)
    } else if code == 1 {
        Some(Visibility::Visible)
    } else if code == 2 {
        Some(Visibility::VeryVisible)
    } else {
        None
    }
}

/// The curses code of a visibility level.
pub fn visibility_code(v: Visibility) -> (r: c_int)
    ensures
        r == code_of(v),
{
    match v {
        Visibility::Invisible => 0,
        Visibility::Visible => 1,
        Visibility::VeryVisible => 2,
    }
}

} // verus!
