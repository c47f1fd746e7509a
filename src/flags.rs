use vstd::prelude::*;
use crate::bytes::has_flag;

verus! {

// 7  bit  0
// ---- ----
// NV_B DIZC
// || | ||||
// || | |||+- carry
// || | ||+-- zero
// || | |+--- interrupt disable
// || | +---- decimal
// || +------ break
// |+-------- overflow
// +--------- negative
// bit 5 (break2) has no effect on the processor.
pub const CARRY: u8 = 0b0000_0001;
pub const ZERO: u8 = 0b0000_0010;
pub const INTERRUPT_DISABLE: u8 = 0b0000_0100;
pub const DECIMAL: u8 = 0b0000_1000;
pub const BREAK: u8 = 0b0001_0000;
pub const BREAK2: u8 = 0b0010_0000;
pub const OVERFLOW: u8 = 0b0100_0000;
pub const NEGATIVE: u8 = 0b1000_0000;

/// `bits` with every bit of `flag` set when `on` holds, cleared otherwise.
pub open spec fn with_flag(bits: u8, flag: u8, on: bool) -> u8 {
    if on {
        bits | flag
    } else {
        bits & !flag
    }
}

/// The processor's status register.
pub struct CpuFlags {
    bits: u8,
}

impl View for CpuFlags {
    type V = u8;

    closed spec fn view(&self) -> u8 {
        self.bits
    }
}

impl CpuFlags {
    pub fn from_bits_truncate(bits: u8) -> (r: CpuFlags)
        ensures
            r@ == bits,
    {
        CpuFlags { bits }
    }

    pub fn bits(&self) -> (r: u8)
        ensures
            r == self@,
    {
        self.bits
    }

    pub fn contains(&self, flag: u8) -> (r: bool)
        ensures
            r == has_flag(self@, flag),
    {
        self.bits & flag == flag
    }

    pub fn set(&mut self, flag: u8, on: bool)
        ensures
            final(self)@ == with_flag(old(self)@, flag, on),
    {
        if on {
            self.bits = self.bits | flag;
        } else {
            self.bits = self.bits & !flag;
        }
    }

    pub fn insert(&mut self, flag: u8)
        ensures
            final(self)@ == with_flag(old(self)@, flag, true),
    {
        self.bits = self.bits | flag;
    }

    pub fn remove(&mut self, flag: u8)
        ensures
            final(self)@ == with_flag(old(self)@, flag, false),
    {
        self.bits = self.bits & !flag;
    }
}

} // verus!
