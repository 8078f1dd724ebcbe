//! Save states.
use vstd::prelude::*;

verus! {

/// Saves the emulator state; there is nothing to save yet.
pub fn save_state() {
}

} // verus!
