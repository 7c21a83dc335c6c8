//! The messages of the tray menu.

use vstd::prelude::*;

verus! {

/// What the tray menu asks for.
#[derive(Debug, Clone, Copy, PartialEq, Eq, Structural)]
pub enum Message {
    Nothing,
    Show,
    Quit,
    Hide,
    AddDl,
}

impl Default for Message {
    fn default() -> (r: Self)
        ensures
            r == Message::Nothing,
    {
        Message::Nothing
    }
}

} // verus!
