//! Modes of the terminal interface.

use vstd::prelude::*;

verus! {

/// Which surface of the interface is active.
#[derive(Clone, Copy, Debug, PartialEq, Eq, Structural)]
pub enum AppMode {
    Normal,
    Agent,
    Help,
    Settings,
}

/// Whether keystrokes navigate or edit the input line.
#[derive(Clone, Copy, Debug, PartialEq, Eq, Structural)]
pub enum InputMode {
    Normal,
    Editing,
}

} // verus!
