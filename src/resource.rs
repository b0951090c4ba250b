//! System resources that a window refers to by name.
use vstd::prelude::*;

verus! {

/// A window icon: a resource of the program, or an icon file.
#[derive(Clone, PartialEq, Eq, Debug)]
pub enum Icon {
    Resource(u16),
    File(String),
}

/// A system cursor shape.
#[derive(Clone, Copy, PartialEq, Eq, Structural, Debug)]
pub enum Cursor {
    AppStarting,
    Arrow,
    Cross,
    Hand,
    Help,
    IBeam,
    No,
    SizeAll,
    SizeNESW,
    SizeNS,
    SizeNWSE,
    SizeWE,
    SizeUpArrow,
    Wait,
}

impl Default for Cursor {
    fn default() -> (r: Cursor)
        ensures
            r == Cursor::Arrow,
    {
        Cursor::Arrow
    }
}

} // verus!
