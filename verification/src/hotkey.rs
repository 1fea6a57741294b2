//! The global shortcut's action.
use vstd::prelude::*;

verus! {

/// What the global shortcut (Super+Shift+S) asks for.
#[derive(Debug, Clone, Copy, PartialEq, Eq, Structural)]
pub enum HotkeyAction {
    CaptureRegion,
}

} // verus!
