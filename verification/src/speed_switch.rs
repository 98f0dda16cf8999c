//! Speed-switch register stub (`FF4D`): the byte is stored and read
//! back; no speed change is performed.

use vstd::prelude::*;

verus! {

/// The stored speed-switch register.
#[derive(Debug, Copy, Clone, PartialEq, Eq, Structural)]
pub struct SpeedSwitch {
    pub reg: u8,
}

impl SpeedSwitch {
    /// The power-on register: zero.
    pub fn new() -> (r: SpeedSwitch)
        ensures
            r.reg == 0,
    {
        SpeedSwitch { reg: 0 }
    }

    /// Store the register value.
    pub fn write(&mut self, value: u8)
        ensures
            final(self).reg == value,
    {
        self.reg = value;
    }

    /// Read the stored register value.
    pub fn read(&self) -> (r: u8)
        ensures
            r == self.reg,
    {
        self.reg
    }
}

} // verus!
