//! What is asked of a window manager, and what it tells of the pointer.

use crate::record_store::Archetype;
use vstd::prelude::*;

verus! {

/// Where the pointer is and which of its buttons are held down.
#[derive(Debug)]
pub struct MouseState {
    pub coords: (i32, i32),
    /// One entry per button, by the button's number; entry zero stands for
    /// no button.
    pub button_pressed: Vec<bool>,
}

impl MouseState {
    /// Whether any button is held down.
    pub fn any_button_pressed(&self) -> (pressed: bool)
        ensures
            pressed == self.button_pressed@.contains(true),
    {
        let mut i: usize = 0;
        while i < self.button_pressed.len()
            invariant
                i <= self.button_pressed.len(),
                forall|j: int| 0 <= j < i ==> !self.button_pressed@[j],
            decreases self.button_pressed.len() - i,
        {
            if self.button_pressed[i] {
                return true;
            }
            i += 1;
        }
        false
    }
}

/// What senses the desktop for the tracker. Nothing is promised of what an
/// implementation reports.
pub trait OSWindowManager {
    /// What the window manager tells of the keys that are held down.
    type KeyboardState;

    /// The window in focus, or nothing where none can be had.
    fn get_window_archetype(&self) -> Option<Archetype>;

    /// Where the pointer is and which of its buttons are held down.
    fn query_mouse_pointer(&self) -> MouseState;

    /// The keys that are held down.
    fn query_keyboard(&self) -> Self::KeyboardState;
}

} // verus!
