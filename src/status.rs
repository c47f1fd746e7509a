use vstd::prelude::*;

verus! {

// 7  bit  0
// ---- ----
// VSO. ....
// |||
// ||+------- sprite overflow
// |+-------- sprite 0 hit
// +--------- vertical blank has started
pub const SPRITE_OVERFLOW: u8 = 0b0010_0000;
pub const SPRITE_ZERO_HIT: u8 = 0b0100_0000;
pub const VBLANK_STARTED: u8 = 0b1000_0000;

/// The coprocessor's status register.
pub struct StatusRegister {
    bits: u8,
}

impl View for StatusRegister {
    type V = u8;

    closed spec fn view(&self) -> u8 {
        self.bits
    }
}

/// `bits` with the vblank flag cleared.
pub open spec fn without_vblank(bits: u8) -> u8 {
    bits & !VBLANK_STARTED
}

impl StatusRegister {
    pub fn new() -> (r: StatusRegister)
        ensures
            r@ == 0,
    {
        StatusRegister { bits: 0 }
    }

    /// The current status byte, without side effects.
    pub fn snapshot(&self) -> (r: u8)
        ensures
            r == self@,
    {
        self.bits
    }

    pub fn set_vblank_status(&mut self, status: bool)
        ensures
            final(self)@ == (if status { old(self)@ | VBLANK_STARTED } else { without_vblank(
                old(self)@,
            ) }),
    {
        if status {
            self.bits = self.bits | VBLANK_STARTED;
        } else {
            self.bits = self.bits & !VBLANK_STARTED;
        }
    }

    pub fn reset_vblank_status(&mut self)
        ensures
            final(self)@ == without_vblank(old(self)@),
    {
        self.bits = self.bits & !VBLANK_STARTED;
    }
}

} // verus!
