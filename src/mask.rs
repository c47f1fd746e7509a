use vstd::prelude::*;
use crate::bytes::has_flag;

verus! {

// 7  bit  0
// ---- ----
// BGRs bMmG
// |||| |||+- greyscale
// |||| ||+-- show background in the leftmost 8 pixels
// |||| |+--- show sprites in the leftmost 8 pixels
// |||| +---- show background
// |||+------ show sprites
// ||+------- emphasize red
// |+-------- emphasize green
// +--------- emphasize blue
pub const GREYSCALE: u8 = 0b0000_0001;
pub const LEFTMOST_8PXL_BACKGROUND: u8 = 0b0000_0010;
pub const LEFTMOST_8PXL_SPRITE: u8 = 0b0000_0100;
pub const SHOW_BACKGROUND: u8 = 0b0000_1000;
pub const SHOW_SPRITES: u8 = 0b0001_0000;
pub const EMPHASISE_RED: u8 = 0b0010_0000;
pub const EMPHASISE_GREEN: u8 = 0b0100_0000;
pub const EMPHASISE_BLUE: u8 = 0b1000_0000;

#[derive(Clone, Copy, Debug, PartialEq, Eq, Structural)]
pub enum Colour {
    Red,
    Green,
    Blue,
}

/// The coprocessor's mask register: eight flag bits.
pub struct MaskRegister {
    bits: u8,
}

impl View for MaskRegister {
    type V = u8;

    closed spec fn view(&self) -> u8 {
        self.bits
    }
}

/// `c` when `flag` is set in `bits`, nothing otherwise.
pub open spec fn emphasis_part(bits: u8, flag: u8, c: Colour) -> Seq<Colour> {
    if has_flag(bits, flag) {
        seq![c]
    } else {
        Seq::empty()
    }
}

/// The emphasised colours, in the order red, green, blue.
pub open spec fn emphasis_of(bits: u8) -> Seq<Colour> {
    emphasis_part(bits, EMPHASISE_RED, Colour::Red) + emphasis_part(
        bits,
        EMPHASISE_GREEN,
        Colour::Green,
    ) + emphasis_part(bits, EMPHASISE_BLUE, Colour::Blue)
}

impl MaskRegister {
    pub fn new() -> (r: MaskRegister)
        ensures
            r@ == 0,
    {
        MaskRegister { bits: 0 }
    }

    pub fn is_greyscale(&self) -> (r: bool)
        ensures
            r == has_flag(self@, GREYSCALE),
    {
        self.bits & GREYSCALE == GREYSCALE
    }

    pub fn leftmost_8pxl_background(&self) -> (r: bool)
        ensures
            r == has_flag(self@, LEFTMOST_8PXL_BACKGROUND),
    {
        self.bits & LEFTMOST_8PXL_BACKGROUND == LEFTMOST_8PXL_BACKGROUND
    }

    pub fn leftmost_8pxl_sprite(&self) -> (r: bool)
        ensures
            r == has_flag(self@, LEFTMOST_8PXL_SPRITE),
    {
        self.bits & LEFTMOST_8PXL_SPRITE == LEFTMOST_8PXL_SPRITE
    }

    pub fn show_background(&self) -> (r: bool)
        ensures
            r == has_flag(self@, SHOW_BACKGROUND),
    {
        self.bits & SHOW_BACKGROUND == SHOW_BACKGROUND
    }

    pub fn show_sprites(&self) -> (r: bool)
        ensures
            r == has_flag(self@, SHOW_SPRITES),
    {
        self.bits & SHOW_SPRITES == SHOW_SPRITES
    }

    pub fn emphasize(&self) -> (r: Vec<Colour>)
        ensures
            r@ == emphasis_of(self@),
    {
        let mut colours: Vec<Colour> = Vec::new();
        if self.bits & EMPHASISE_RED == EMPHASISE_RED {
            colours.push(Colour::Red);
        }
        assert(colours@ =~= emphasis_part(self@, EMPHASISE_RED, Colour::Red));
        if self.bits & EMPHASISE_GREEN == EMPHASISE_GREEN {
            colours.push(Colour::Green);
        }
        assert(colours@ =~= emphasis_part(self@, EMPHASISE_RED, Colour::Red) + emphasis_part(
            self@,
            EMPHASISE_GREEN,
            Colour::Green,
        ));
        if self.bits & EMPHASISE_BLUE == EMPHASISE_BLUE {
            colours.push(Colour::Blue);
        }
        assert(colours@ =~= emphasis_of(self@));
        colours
    }

    pub fn update(&mut self, value: u8)
        ensures
            final(self)@ == value,
    {
        self.bits = value;
    }
}

} // verus!
