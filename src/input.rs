//! Keyboard and mouse state, and the camera movement that keys ask for.
//!
//! Keys and mouse buttons are named by the caller's own numbering.

use vstd::prelude::*;
use std::collections::HashSet;

verus! {

broadcast use vstd::std_specs::hash::group_hash_axioms;

/// Which keys and mouse buttons are held, and where the cursor is (the bit
/// patterns of its two 64-bit float coordinates).
#[derive(Debug)]
pub struct InputState {
    pub pressed_keys: HashSet<u32>,
    pub mouse_pressed_keys: HashSet<u32>,
    pub mouse_position: (u64, u64),
}

/// The set of held controls after a press (`pressed`) or release of `c`.
pub open spec fn after_press(held: Set<u32>, c: u32, pressed: bool) -> Set<u32> {
    if pressed {
        held.insert(c)
    } else {
        held.remove(c)
    }
}

impl InputState {
    /// Nothing held, cursor at the origin.
    pub fn new() -> (r: InputState)
        ensures
            r.pressed_keys@ == Set::<u32>::empty(),
            r.mouse_pressed_keys@ == Set::<u32>::empty(),
            r.mouse_position == (0u64, 0u64),
    {
        InputState {
            pressed_keys: HashSet::new(),
            mouse_pressed_keys: HashSet::new(),
            mouse_position: (0, 0),
        }
    }

    /// Records a key press or release; a key without a code (`None`) changes nothing.
    pub fn update(&mut self, key: Option<u32>, pressed: bool)
        ensures
            final(self).pressed_keys@ == match key {
                Some(k) => after_press(old(self).pressed_keys@, k, pressed),
                None => old(self).pressed_keys@,
            },
            final(self).mouse_pressed_keys@ == old(self).mouse_pressed_keys@,
            final(self).mouse_position == old(self).mouse_position,
    {
        let code = match key {
            Some(k) => k,
            None => return ,
        };
        if pressed {
            self.pressed_keys.insert(code);
        } else {
            self.pressed_keys.remove(&code);
        }
    }

    /// Records a mouse button press or release.
    pub fn update_mouse(&mut self, button: u32, pressed: bool)
        ensures
            final(self).mouse_pressed_keys@ == after_press(old(self).mouse_pressed_keys@, button, pressed),
            final(self).pressed_keys@ == old(self).pressed_keys@,
            final(self).mouse_position == old(self).mouse_position,
    {
        if pressed {
            self.mouse_pressed_keys.insert(button);
        } else {
            self.mouse_pressed_keys.remove(&button);
        }
    }

    /// Records where the cursor is.
    pub fn update_mouse_position(&mut self, x: u64, y: u64)
        ensures
            final(self).mouse_position == (x, y),
            final(self).pressed_keys@ == old(self).pressed_keys@,
            final(self).mouse_pressed_keys@ == old(self).mouse_pressed_keys@,
    {
        self.mouse_position = (x, y);
    }

    /// Whether `key` is held.
    pub fn is_key_pressed(&self, key: u32) -> (r: bool)
        ensures
            r == self.pressed_keys@.contains(key),
    {
        self.pressed_keys.contains(&key)
    }

    /// Whether mouse button `button` is held.
    pub fn is_mouse_pressed(&self, button: u32) -> (r: bool)
        ensures
            r == self.mouse_pressed_keys@.contains(button),
    {
        self.mouse_pressed_keys.contains(&button)
    }
}

/// The keys that move the camera.
#[derive(Clone, Copy, Debug, PartialEq, Eq, Structural)]
pub enum MoveKey {
    W,
    A,
    S,
    D,
    Space,
    ShiftLeft,
}

/// The unit step of the camera's eye along (x, y, z) for a key: W and S move
/// along -z and +z, A and D along -x and +x, Space and left Shift along +y and -y.
pub open spec fn eye_step_of(key: MoveKey) -> (i8, i8, i8) {
    match key {
        MoveKey::W => (0i8, 0i8, -1i8),
        MoveKey::S => (0i8, 0i8, 1i8),
        MoveKey::A => (-1i8, 0i8, 0i8),
        MoveKey::D => (1i8, 0i8, 0i8),
        MoveKey::Space => (0i8, 1i8, 0i8),
        MoveKey::ShiftLeft => (0i8, -1i8, 0i8),
    }
}

/// The direction in which a key moves the camera's eye.
pub fn eye_step(key: MoveKey) -> (r: (i8, i8, i8))
    ensures
        r == eye_step_of(key),
{
    match key {
        MoveKey::W => (0, 0, -1),
        MoveKey::S => (0, 0, 1),
        MoveKey::A => (-1, 0, 0),
        MoveKey::D => (1, 0, 0),
        MoveKey::Space => (0, 1, 0),
        MoveKey::ShiftLeft => (0, -1, 0),
    }
}

} // verus!
