use vstd::prelude::*;

verus! {

/// How the two physical nametables are laid out over the four logical ones.
#[derive(Clone, Copy, Debug, PartialEq, Eq, Structural)]
pub enum Mirroring {
    Vertical,
    Horizontal,
}

/// A cartridge image, as handed over by a loader: program memory, graphics
/// memory and the nametable layout.
pub struct Rom {
    pub prg_rom: Vec<u8>,
    pub chr_rom: Vec<u8>,
    pub screen_mirroring: Mirroring,
}

} // verus!
