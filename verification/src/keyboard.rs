//! Which keys are down, now and one update ago.

use std::collections::HashMap;
use vstd::prelude::*;

verus! {

/// The state of the keyboard at the last two moments it was looked at. A
/// state says of each key, by its scan code, whether it is down.
pub struct KeyboardState {
    pub last: HashMap<u32, bool>,
    pub current: HashMap<u32, bool>,
}

impl KeyboardState {
    /// Both states know the key `scancode`.
    pub open spec fn knows(&self, scancode: u32) -> bool {
        self.last@.contains_key(scancode) && self.current@.contains_key(scancode)
    }

    /// Creates a keyboard from two states read one after the other.
    pub fn new(last: HashMap<u32, bool>, current: HashMap<u32, bool>) -> (k: KeyboardState)
        ensures
            k.last == last,
            k.current == current,
    {
        KeyboardState { last, current }
    }

    /// Takes a newly read state: what was current becomes the last one.
    pub fn update(&mut self, state: HashMap<u32, bool>)
        ensures
            final(self).last == old(self).current,
            final(self).current == state,
    {
        let mut state = state;
        std::mem::swap(&mut self.current, &mut state);
        self.last = state;
    }

    /// Whether the key is down.
    pub fn is_keydown(&self, scancode: u32) -> (down: bool)
        requires
            self.current@.contains_key(scancode),
        ensures
            down == self.current@[scancode],
    {
        broadcast use vstd::std_specs::hash::group_hash_axioms;

        match self.current.get(&scancode) {
            Some(down) => *down,
            None => false,
        }
    }

    /// Whether the key is down and was not down one update ago.
    pub fn is_new_keypress(&self, scancode: u32) -> (pressed: bool)
        requires
            self.knows(scancode),
        ensures
            pressed == (self.current@[scancode] && !self.last@[scancode]),
    {
        broadcast use vstd::std_specs::hash::group_hash_axioms;

        let now = match self.current.get(&scancode) {
            Some(down) => *down,
            None => false,
        };
        let before = match self.last.get(&scancode) {
            Some(down) => *down,
            None => false,
        };
        now && !before
    }
}

} // verus!
