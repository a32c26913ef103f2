use std::collections::HashMap;
use vstd::prelude::*;

verus! {

broadcast use vstd::std_specs::hash::group_hash_axioms;

/// Code of the arrow key that points left.
pub const KEY_LEFT: u32 = 70;

/// Code of the arrow key that points up.
pub const KEY_UP: u32 = 71;

/// Code of the arrow key that points right.
pub const KEY_RIGHT: u32 = 72;

/// Code of the arrow key that points down.
pub const KEY_DOWN: u32 = 73;

/// Whether a key went down or came up.
#[derive(Clone, Copy, Debug, PartialEq, Eq, Structural)]
pub enum ElementState {
    Pressed,
    Released,
}

/// The last state that was reported of each key, by the code of the key.
pub struct InputState {
    pub(crate) key_state: HashMap<u32, ElementState>,
}

/// Which way the arrow keys that are down move the camera along an axis:
/// the first key wins over the second.
pub open spec fn axis_direction(first_down: bool, second_down: bool) -> int {
    if first_down {
        1
    } else if second_down {
        -1
    } else {
        0
    }
}

impl Default for InputState {
    fn default() -> (r: InputState)
        ensures
            r.key_state() == Map::<u32, ElementState>::empty(),
    {
        InputState { key_state: HashMap::new() }
    }
}

impl InputState {
    pub open(crate) spec fn key_state(&self) -> Map<u32, ElementState> {
        self.key_state@
    }

    /// The key is known and the last that was reported of it is that it
    /// went down.
    pub open spec fn is_down(&self, key_code: u32) -> bool {
        self.key_state().contains_key(key_code) && self.key_state()[key_code]
            == ElementState::Pressed
    }

    /// No key has been reported yet.
    pub fn new() -> (r: InputState)
        ensures
            r.key_state() == Map::<u32, ElementState>::empty(),
    {
        InputState { key_state: HashMap::new() }
    }

    /// Records the state of a key over what was known of it.
    pub fn on_key_input(&mut self, key_code: u32, state: ElementState)
        ensures
            final(self).key_state() == old(self).key_state().insert(key_code, state),
    {
        self.key_state.insert(key_code, state);
    }

    pub fn is_key_down(&self, key_code: &u32) -> (r: bool)
        ensures
            r == self.is_down(*key_code),
    {
        match self.key_state.get(key_code) {
            Some(element_state) => match element_state {
                ElementState::Pressed => true,
                ElementState::Released => false,
            },
            None => false,
        }
    }

    /// The direction in which the arrow keys move the camera: along x, right
    /// is 1 and left is -1, and left wins where both are down; along z, up
    /// is 1 and down is -1, and up wins.
    pub fn camera_direction(&self) -> (r: (i8, i8))
        ensures
            r.0 == -axis_direction(self.is_down(KEY_LEFT), self.is_down(KEY_RIGHT)),
            r.1 == axis_direction(self.is_down(KEY_UP), self.is_down(KEY_DOWN)),
    {
        let z: i8 = if self.is_key_down(&KEY_UP) {
            1
        } else if self.is_key_down(&KEY_DOWN) {
            -1
        } else {
            0
        };
        let x: i8 = if self.is_key_down(&KEY_LEFT) {
            -1
        } else if self.is_key_down(&KEY_RIGHT) {
            1
        } else {
            0
        };
        (x, z)
    }
}

} // verus!
