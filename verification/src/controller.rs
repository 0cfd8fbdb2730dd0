//! The controller port: eight buttons that the processor polls one bit at a
//! time.

use vstd::prelude::*;

verus! {

/// The bus address of the controller port.
pub const CONTROLLER_PORT: u16 = 0x4016;

/// Key code of the key that stands for button A (the letter z).
pub const KEY_A: i32 = 122;

/// Key code of the key that stands for button B (the letter x).
pub const KEY_B: i32 = 120;

/// Key code of the key that stands for Select (the letter a).
pub const KEY_SELECT: i32 = 97;

/// Key code of the key that stands for Start (the space bar).
pub const KEY_START: i32 = 32;

/// Key code of the up arrow.
pub const KEY_UP: i32 = 1073741906;

/// Key code of the down arrow.
pub const KEY_DOWN: i32 = 1073741905;

/// Key code of the left arrow.
pub const KEY_LEFT: i32 = 1073741904;

/// Key code of the right arrow.
pub const KEY_RIGHT: i32 = 1073741903;

/// A controller. `buttons` holds the key codes of the keys that are held
/// down at the moment, in any order; the front end replaces it whenever it
/// has polled the keyboard.
pub struct Controller {
    pub buttons: Vec<i32>,
    pub index: u8,
    pub strobe: u8,
}

/// The mathematical content of a controller.
pub struct ControllerView {
    pub buttons: Seq<i32>,
    pub index: u8,
    pub strobe: u8,
}

/// The key that a read reports when the polling index is `index`: none
/// right after a strobe, then A, B, Select, Start, Up, Down, Left, Right, and
/// none again once the eight buttons are exhausted.
pub open spec fn polled_key(index: u8) -> Option<i32> {
    if index == 1 {
        Some(KEY_A)
    } else if index == 2 {
        Some(KEY_B)
    } else if index == 3 {
        Some(KEY_SELECT)
    } else if index == 4 {
        Some(KEY_START)
    } else if index == 5 {
        Some(KEY_UP)
    } else if index == 6 {
        Some(KEY_DOWN)
    } else if index == 7 {
        Some(KEY_LEFT)
    } else if index == 8 {
        Some(KEY_RIGHT)
    } else {
        None
    }
}

impl ControllerView {
    /// The bit that the next read returns.
    pub open spec fn polled_bit(self) -> u8 {
        match polled_key(self.index) {
            Some(key) => if self.buttons.contains(key) {
                1u8
            } else {
                0u8
            },
            None => 0u8,
        }
    }

    /// The controller after a read: the polling index has moved on by one
    /// and stays at 255 once it has got there.
    pub open spec fn load(self) -> ControllerView {
        ControllerView {
            index: if self.index < 255 {
                (self.index + 1) as u8
            } else {
                self.index
            },
            ..self
        }
    }

    /// The controller after a write of `value` to `address`. Only the
    /// controller port is listened to; a value with its low bit set starts
    /// the polling over.
    pub open spec fn store(self, address: u16, value: u8) -> ControllerView {
        if address != CONTROLLER_PORT {
            self
        } else {
            ControllerView {
                strobe: value,
                index: if value & 1 == 1 {
                    0u8
                } else {
                    self.index
                },
                ..self
            }
        }
    }
}

impl View for Controller {
    type V = ControllerView;

    open spec fn view(&self) -> ControllerView {
        ControllerView { buttons: self.buttons@, index: self.index, strobe: self.strobe }
    }
}

/// Whether `key` is among `keys`.
pub fn is_pressed(keys: &Vec<i32>, key: i32) -> (found: bool)
    ensures
        found == keys@.contains(key),
{
    let mut i: usize = 0;
    while i < keys.len()
        invariant
            i <= keys.len(),
            forall|j: int| 0 <= j < i ==> keys@[j] != key,
        decreases keys.len() - i,
    {
        if keys[i] == key {
            return true;
        }
        i += 1;
    }
    false
}

impl Controller {
    /// A controller with no key held down, about to report nothing.
    pub fn new() -> (c: Controller)
        ensures
            c@ == (ControllerView { buttons: Seq::empty(), index: 0, strobe: 0 }),
    {
        Controller { buttons: Vec::new(), index: 0, strobe: 0 }
    }

    /// Reads the next bit from the port: 1 if the button whose turn it is is
    /// held down, else 0. The address is not looked at.
    pub fn load(&mut self, _address: u16) -> (bit: u8)
        ensures
            bit == old(self)@.polled_bit(),
            final(self)@ == old(self)@.load(),
    {
        let key = if self.index == 1 {
            is_pressed(&self.buttons, KEY_A)
        } else if self.index == 2 {
            is_pressed(&self.buttons, KEY_B)
        } else if self.index == 3 {
            is_pressed(&self.buttons, KEY_SELECT)
        } else if self.index == 4 {
            is_pressed(&self.buttons, KEY_START)
        } else if self.index == 5 {
            is_pressed(&self.buttons, KEY_UP)
        } else if self.index == 6 {
            is_pressed(&self.buttons, KEY_DOWN)
        } else if self.index == 7 {
            is_pressed(&self.buttons, KEY_LEFT)
        } else if self.index == 8 {
            is_pressed(&self.buttons, KEY_RIGHT)
        } else {
            false
        };
        if self.index < 255 {
            self.index += 1;
        }
        if key {
            1
        } else {
            0
        }
    }

    /// Writes `value` to the port, if `address` is the port's.
    pub fn store(&mut self, address: u16, value: u8)
        ensures
            final(self)@ == old(self)@.store(address, value),
    {
        if address != CONTROLLER_PORT {
            return ;
        }
        self.strobe = value;
        if self.strobe & 1 == 1 {
            self.index = 0;
        }
    }
}

} // verus!
