use vstd::prelude::*;
use crate::bytes::has_flag;

verus! {

// 7  bit  0
// ---- ----
// VPHB SINN
// |||| ||++- base nametable address (0 = $2000; 1 = $2400; 2 = $2800; 3 = $2C00)
// |||| |+--- VRAM address increment per data access (0: add 1; 1: add 32)
// |||| +---- sprite pattern table address for 8x8 sprites (0: $0000; 1: $1000)
// |||+------ background pattern table address (0: $0000; 1: $1000)
// ||+------- sprite size (0: 8x8 pixels; 1: 8x16 pixels)
// |+-------- master/slave select
// +--------- generate an NMI at the start of vertical blanking
pub const NAMETABLE1: u8 = 0b0000_0001;
pub const NAMETABLE2: u8 = 0b0000_0010;
pub const VRAM_ADD_INCREMENT: u8 = 0b0000_0100;
pub const SPRITE_PATTERN_ADDR: u8 = 0b0000_1000;
pub const BACKGROUND_PATTERN_ADDR: u8 = 0b0001_0000;
pub const SPRITE_SIZE: u8 = 0b0010_0000;
pub const MASTER_SLAVE_SELECT: u8 = 0b0100_0000;
pub const GENERATE_NMI: u8 = 0b1000_0000;

/// The coprocessor's control register: eight flag bits.
pub struct ControlRegister {
    bits: u8,
}

impl View for ControlRegister {
    type V = u8;

    closed spec fn view(&self) -> u8 {
        self.bits
    }
}

/// The VRAM address step selected by the control bits.
pub open spec fn increment_of(bits: u8) -> u8 {
    if has_flag(bits, VRAM_ADD_INCREMENT) {
        32
    } else {
        1
    }
}

impl ControlRegister {
    pub fn new() -> (r: ControlRegister)
        ensures
            r@ == 0,
    {
        ControlRegister { bits: 0 }
    }

    pub fn nametable_addr(&self) -> (r: u16)
        ensures
            r as int == 0x2000 + 0x400 * (self@ % 4),
    {
        match self.bits % 4 {
            0 => 0x2000,
            1 => 0x2400,
            2 => 0x2800,
            _ => 0x2C00,
        }
    }

    pub fn vram_add_increment(&self) -> (r: u8)
        ensures
            r == increment_of(self@),
    {
        if self.bits & VRAM_ADD_INCREMENT == VRAM_ADD_INCREMENT {
            32
        } else {
            1
        }
    }

    pub fn sprite_pattern_addr(&self) -> (r: u16)
        ensures
            r == (if has_flag(self@, SPRITE_PATTERN_ADDR) { 0x1000u16 } else { 0u16 }),
    {
        if self.bits & SPRITE_PATTERN_ADDR == SPRITE_PATTERN_ADDR {
            0x1000
        } else {
            0x0000
        }
    }

    pub fn background_pattern_addr(&self) -> (r: u16)
        ensures
            r == (if has_flag(self@, BACKGROUND_PATTERN_ADDR) { 0x1000u16 } else { 0u16 }),
    {
        if self.bits & BACKGROUND_PATTERN_ADDR == BACKGROUND_PATTERN_ADDR {
            0x1000
        } else {
            0x0000
        }
    }

    pub fn sprite_size(&self) -> (r: u8)
        ensures
            r == (if has_flag(self@, SPRITE_SIZE) { 16u8 } else { 8u8 }),
    {
        if self.bits & SPRITE_SIZE == SPRITE_SIZE {
            16
        } else {
            8
        }
    }

    pub fn master_slave_select(&self) -> (r: u8)
        ensures
            r == (if has_flag(self@, MASTER_SLAVE_SELECT) { 1u8 } else { 0u8 }),
    {
        if self.bits & MASTER_SLAVE_SELECT == MASTER_SLAVE_SELECT {
            1
        } else {
            0
        }
    }

    pub fn generate_nmi(&self) -> (r: bool)
        ensures
            r == has_flag(self@, GENERATE_NMI),
    {
        self.bits & GENERATE_NMI == GENERATE_NMI
    }

    pub fn update(&mut self, value: u8)
        ensures
            final(self)@ == value,
    {
        self.bits = value;
    }
}

} // verus!
