//! Input events, as far as the renderer reads them, and the movement keys
//! they hold down.

use vstd::prelude::*;

verus! {

/// The keys the camera controller reacts to.
#[derive(Clone, Copy, Debug, PartialEq, Eq, Structural)]
pub enum Key {
    W,
    A,
    S,
    D,
    Up,
    Down,
    Left,
    Right,
    Space,
    LShift,
    Escape,
    /// Any other key.
    Other,
}

/// A window input event.
#[derive(Clone, Copy, Debug, PartialEq, Eq, Structural)]
pub enum InputEvent {
    Key { key: Key, pressed: bool },
    /// The mouse wheel turned; the camera zooms.
    Scroll,
    MouseButton { left: bool, pressed: bool },
    /// Any other event.
    Other,
}

/// Which movement directions are held down.
#[derive(Clone, Copy, Debug, PartialEq, Eq, Structural)]
pub struct MovementKeys {
    pub forward: bool,
    pub backward: bool,
    pub left: bool,
    pub right: bool,
    pub up: bool,
    pub down: bool,
}

/// Whether `key` moves the camera.
pub open spec fn is_movement_key(key: Key) -> bool {
    !(key is Escape || key is Other)
}

/// No movement key held.
pub open spec fn no_keys() -> MovementKeys {
    MovementKeys { forward: false, backward: false, left: false, right: false, up: false, down: false }
}

impl MovementKeys {
    /// `self` with the direction of `key` set to `pressed`.
    pub open spec fn with_key(self, key: Key, pressed: bool) -> MovementKeys {
        match key {
            Key::W | Key::Up => MovementKeys { forward: pressed, ..self },
            Key::S | Key::Down => MovementKeys { backward: pressed, ..self },
            Key::A | Key::Left => MovementKeys { left: pressed, ..self },
            Key::D | Key::Right => MovementKeys { right: pressed, ..self },
            Key::Space => MovementKeys { up: pressed, ..self },
            Key::LShift => MovementKeys { down: pressed, ..self },
            _ => self,
        }
    }

    /// No key held.
    pub fn new() -> (r: MovementKeys)
        ensures
            r == no_keys(),
    {
        MovementKeys {
            forward: false,
            backward: false,
            left: false,
            right: false,
            up: false,
            down: false,
        }
    }

    /// Records a key press or release; returns whether the key moves the camera.
    pub fn process_keyboard(&mut self, key: Key, pressed: bool) -> (consumed: bool)
        ensures
            consumed == is_movement_key(key),
            *final(self) == old(self).with_key(key, pressed),
    {
        match key {
            Key::W | Key::Up => {
                self.forward = pressed;
                true
            },
            Key::S | Key::Down => {
                self.backward = pressed;
                true
            },
            Key::A | Key::Left => {
                self.left = pressed;
                true
            },
            Key::D | Key::Right => {
                self.right = pressed;
                true
            },
            Key::Space => {
                self.up = pressed;
                true
            },
            Key::LShift => {
                self.down = pressed;
                true
            },
            _ => false,
        }
    }
}

} // verus!
