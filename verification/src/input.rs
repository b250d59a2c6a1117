//! Keyboard input as the element state machines see it.

use vstd::prelude::*;

verus! {

/// A key press forwarded by the window shell. Only the keys the elements
/// react to are told apart.
#[derive(Clone, Copy, Debug, PartialEq, Eq, Structural)]
pub enum Key {
    Escape,
    Enter,
    Other,
}

} // verus!
