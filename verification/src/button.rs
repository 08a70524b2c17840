//! The pointer button that the click loop injects, and how a free-form
//! button name resolves to one.

use vstd::prelude::*;
use crate::text::str_eq;

verus! {

/// The pointer button that the engine clicks. An unrecognised name always
/// resolves to `Left` rather than failing.
#[derive(Clone, Copy, Debug, PartialEq, Eq, Structural)]
pub enum MouseButtonSelector {
    Left,
    Middle,
    Right,
}

/// The button that a given name denotes; every unrecognised name denotes
/// `Left`.
pub open spec fn button_of_name(s: Seq<char>) -> MouseButtonSelector {
    if s == "Left"@ {
        MouseButtonSelector::Left
    } else if s == "Right"@ {
        MouseButtonSelector::Right
    } else if s == "Middle"@ {
        MouseButtonSelector::Middle
    } else {
        MouseButtonSelector::Left
    }
}

impl MouseButtonSelector {
    /// Resolves a button name; any string other than the three known names
    /// falls back to `Left` without an error.
    pub fn from_name(name: &str) -> (r: Self)
        ensures
            r == button_of_name(name@),
    {
        if str_eq(name, "Left") {
            MouseButtonSelector::Left
        } else if str_eq(name, "Right") {
            MouseButtonSelector::Right
        } else if str_eq(name, "Middle") {
            MouseButtonSelector::Middle
        } else {
            MouseButtonSelector::Left
        }
    }
}

} // verus!
