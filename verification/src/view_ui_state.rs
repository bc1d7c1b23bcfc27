//! What a viewer remembers of the pointer, the modifier keys and the window.

use vstd::prelude::*;

verus! {

/// The state of the user interface between two events.
#[derive(Clone, Copy, Debug, PartialEq, Eq)]
pub struct UiState {
    pub win_width: u32,
    pub win_height: u32,
    pub is_left_btn: bool,
    pub is_mod_alt: bool,
    pub is_mod_shift: bool,
}

impl UiState {
    /// A window of 300 by 300 pixels, no button down and no modifier held.
    pub fn new() -> (r: Self)
        ensures
            r == (UiState {
                win_width: 300,
                win_height: 300,
                is_left_btn: false,
                is_mod_alt: false,
                is_mod_shift: false,
            }),
    {
        UiState {
            win_width: 300,
            win_height: 300,
            is_left_btn: false,
            is_mod_alt: false,
            is_mod_shift: false,
        }
    }
}

} // verus!
