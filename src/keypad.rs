use vstd::prelude::*;

verus! {

/// The controller port: the key-state byte of the current frame, shifted out
/// one bit per read, bit 0 first.
#[derive(Clone, Copy, Debug, PartialEq, Eq, Structural)]
pub struct Keypad {
    pub state: u8,
    pub index: u8,
    pub strobe: bool,
}

/// The bit a read of the port returns, and the port after it. While the strobe
/// is set every read gives bit 0; after eight reads each read gives 1.
pub open spec fn keypad_read(k: Keypad) -> (u8, Keypad) {
    if k.strobe {
        (k.state & 1, k)
    } else if k.index < 8 {
        ((k.state >> k.index) & 1, Keypad { index: (k.index + 1) as u8, ..k })
    } else {
        (1, k)
    }
}

/// A write to the port: bit 0 sets the strobe, which restarts the read sequence.
pub open spec fn keypad_write(k: Keypad, data: u8) -> Keypad {
    if data & 1 == 1 {
        Keypad { strobe: true, index: 0, ..k }
    } else {
        Keypad { strobe: false, ..k }
    }
}

impl Keypad {
    pub fn new() -> (r: Keypad)
        ensures
            r == (Keypad { state: 0, index: 0, strobe: false }),
    {
        Keypad { state: 0, index: 0, strobe: false }
    }

    /// Takes the key-state byte of the current frame.
    pub fn update(&mut self, key_state: u8)
        ensures
            *final(self) == (Keypad { state: key_state, ..*old(self) }),
    {
        self.state = key_state;
    }

    pub fn read(&mut self) -> (r: u8)
        ensures
            (r, *final(self)) == keypad_read(*old(self)),
    {
        if self.strobe {
            self.state & 1
        } else if self.index < 8 {
            let bit = (self.state >> self.index) & 1;
            self.index = self.index + 1;
            bit
        } else {
            1
        }
    }

    pub fn write(&mut self, data: u8)
        ensures
            *final(self) == keypad_write(*old(self), data),
    {
        if data & 1 == 1 {
            self.strobe = true;
            self.index = 0;
        } else {
            self.strobe = false;
        }
    }
}

} // verus!
