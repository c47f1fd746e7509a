use vstd::prelude::*;
use crate::bytes::{le16, lemma_mask16, lemma_split16};
use crate::memory::Memory;
use crate::ppu::{initial_ppu, PPUInterface, PpuView, PPU};
use crate::rom::Rom;

verus! {

//  _______________ $10000
// | PRG-ROM       |
// | upper bank    |
// |_ _ _ _ _ _ _ _| $C000
// | PRG-ROM       |
// | lower bank    |
// |_______________| $8000
// | unmapped      |
// |_______________| $4000
// | mirrors of    |
// | $2000-$2007   |
// |_ _ _ _ _ _ _ _| $2008
// | coprocessor   |
// | registers     |
// |_______________| $2000
// | mirrors of    |
// | $0000-$07FF   |
// |_ _ _ _ _ _ _ _| $0800
// | RAM           |
// |_______________| $0000
pub const RAM: u16 = 0x0000;
pub const RAM_MIRRORS_END: u16 = 0x1FFF;
pub const PPU_REGISTERS: u16 = 0x2000;
pub const PPU_REGISTERS_MIRRORS_END: u16 = 0x3FFF;
pub const PRG_ROM_START: u16 = 0x8000;

/// Size of a program image built by `load_program`.
pub const PROGRAM_IMAGE_SIZE: usize = 0x8000;

/// The address space: console RAM, the coprocessor's registers and the
/// cartridge's program memory.
pub struct BUS {
    cpu_vram: [u8; 0x800],
    prg_rom: Vec<u8>,
    ppu: PPU,
}

/// The abstract state of the address space.
pub struct BusView {
    pub ram: Seq<u8>,
    pub prg_rom: Seq<u8>,
    pub ppu: PpuView,
}

impl View for BUS {
    type V = BusView;

    closed spec fn view(&self) -> BusView {
        BusView { ram: self.cpu_vram@, prg_rom: self.prg_rom@, ppu: self.ppu@ }
    }
}

/// The offset into the program image that `addr` (0x8000 or above) reaches:
/// a 16 KiB image is mirrored to fill the 32 KiB window.
pub open spec fn prg_offset(prg_len: nat, addr: u16) -> int {
    let offset = addr - 0x8000;
    if prg_len == 0x4000 && offset >= 0x4000 {
        offset % 0x4000
    } else {
        offset
    }
}

/// The program byte at `addr`, or 0 past the end of the image.
pub open spec fn prg_byte(prg_rom: Seq<u8>, addr: u16) -> u8 {
    let offset = prg_offset(prg_rom.len(), addr);
    if offset < prg_rom.len() {
        prg_rom[offset]
    } else {
        0
    }
}

/// What a read of coprocessor register `reg` (0 to 7) returns, and the
/// coprocessor state it leaves; the write-only registers read as 0.
pub open spec fn register_read(ppu: PpuView, reg: int) -> (u8, PpuView) {
    if reg == 2 {
        ppu.read_status()
    } else if reg == 4 {
        (ppu.read_oam_data(), ppu)
    } else if reg == 7 {
        ppu.read_data()
    } else {
        (0, ppu)
    }
}

/// The coprocessor state after a write of `value` to register `reg` (0 to
/// 7); the status register is read-only.
pub open spec fn register_write(ppu: PpuView, reg: int, value: u8) -> PpuView {
    if reg == 0 {
        ppu.write_control(value)
    } else if reg == 1 {
        ppu.write_mask(value)
    } else if reg == 3 {
        ppu.write_oam_addr(value)
    } else if reg == 4 {
        ppu.write_oam_data(value)
    } else if reg == 5 {
        ppu.write_scroll(value)
    } else if reg == 6 {
        ppu.write_address(value)
    } else if reg == 7 {
        ppu.write_data(value)
    } else {
        ppu
    }
}

/// The 32 KiB program image that holds `program` at its start (address
/// 0x8000) and whose reset vector (0xFFFC) points at 0x8000.
pub open spec fn program_image(program: Seq<u8>) -> Seq<u8> {
    Seq::new(
        0x8000,
        |i: int|
            if i < program.len() {
                program[i]
            } else if i == 0x7FFD {
                0x80u8
            } else {
                0u8
            },
    )
}

impl BusView {
    #[verifier::opaque]
    pub open spec fn read(self, addr: u16) -> (u8, BusView) {
        if addr <= RAM_MIRRORS_END {
            (self.ram[(addr % 0x800) as int], self)
        } else if addr <= PPU_REGISTERS_MIRRORS_END {
            let (value, ppu) = register_read(self.ppu, (addr % 8) as int);
            (value, BusView { ppu, ..self })
        } else if addr >= PRG_ROM_START {
            (prg_byte(self.prg_rom, addr), self)
        } else {
            (0, self)
        }
    }

    /// Writes reach RAM and the coprocessor registers; writes to unmapped
    /// addresses are dropped. Program memory is not writable.
    #[verifier::opaque]
    pub open spec fn write(self, addr: u16, value: u8) -> BusView {
        if addr <= RAM_MIRRORS_END {
            BusView { ram: self.ram.update((addr % 0x800) as int, value), ..self }
        } else if addr <= PPU_REGISTERS_MIRRORS_END {
            BusView { ppu: register_write(self.ppu, (addr % 8) as int, value), ..self }
        } else {
            self
        }
    }
}

impl BUS {
    pub fn new(rom: Rom) -> (r: BUS)
        ensures
            r@.ram == Seq::new(0x800, |i: int| 0u8),
            r@.prg_rom == rom.prg_rom@,
            r@.ppu == initial_ppu(rom.chr_rom@, rom.screen_mirroring),
    {
        let r = BUS {
            cpu_vram: [0; 0x800],
            prg_rom: rom.prg_rom,
            ppu: PPU::new(rom.chr_rom, rom.screen_mirroring),
        };
        assert(r.cpu_vram@ =~= Seq::new(0x800, |i: int| 0u8));
        r
    }

    pub fn ppu(&self) -> (r: &PPU)
        ensures
            r@ == self@.ppu,
    {
        &self.ppu
    }

    fn read_prg_rom(&self, addr: u16) -> (r: u8)
        requires
            addr >= PRG_ROM_START,
        ensures
            r == prg_byte(self@.prg_rom, addr),
    {
        let mut offset = addr - 0x8000;
        if self.prg_rom.len() == 0x4000 && offset >= 0x4000 {
            offset = offset % 0x4000;
        }
        if (offset as usize) < self.prg_rom.len() {
            self.prg_rom[offset as usize]
        } else {
            0
        }
    }

    /// Replaces the program memory with a 32 KiB image holding `program` at
    /// 0x8000, with the reset vector pointing there.
    pub fn load_program(&mut self, program: &Vec<u8>)
        requires
            program.len() <= 0x7FFC,
        ensures
            final(self)@ == (BusView { prg_rom: program_image(program@), ..old(self)@ }),
    {
        let mut image: Vec<u8> = Vec::new();
        let mut i: usize = 0;
        while i < PROGRAM_IMAGE_SIZE
            invariant
                i <= PROGRAM_IMAGE_SIZE,
                program.len() <= 0x7FFC,
                image@ =~= program_image(program@).subrange(0, i as int),
            decreases PROGRAM_IMAGE_SIZE - i,
        {
            let b: u8 = if i < program.len() {
                program[i]
            } else if i == 0x7FFD {
                0x80
            } else {
                0
            };
            image.push(b);
            i = i + 1;
        }
        assert(image@ =~= program_image(program@));
        self.prg_rom = image;
    }
}

impl Memory for BUS {
    open spec fn read_spec(state: BusView, addr: u16) -> (u8, BusView) {
        state.read(addr)
    }

    open spec fn write_spec(state: BusView, addr: u16, data: u8) -> BusView {
        state.write(addr, data)
    }

    open spec fn writable(state: BusView, addr: u16) -> bool {
        addr < PRG_ROM_START
    }

    fn m_read(&mut self, addr: u16) -> (r: u8) {
        proof {
            lemma_mask16(addr);
            reveal(BusView::read);
        }
        if addr <= RAM_MIRRORS_END {
            let mirror_down_addr = addr & 0b0000_0111_1111_1111;
            self.cpu_vram[mirror_down_addr as usize]
        } else if addr <= PPU_REGISTERS_MIRRORS_END {
            let reg = addr & 0b0000_0000_0000_0111;
            if reg == 2 {
                self.ppu.read_from_status()
            } else if reg == 4 {
                self.ppu.read_from_oam_data()
            } else if reg == 7 {
                self.ppu.read_from_data()
            } else {
                0
            }
        } else if addr >= PRG_ROM_START {
            self.read_prg_rom(addr)
        } else {
            0
        }
    }

    fn m_write(&mut self, addr: u16, data: u8) {
        proof {
            lemma_mask16(addr);
            reveal(BusView::write);
        }
        if addr <= RAM_MIRRORS_END {
            let mirror_down_addr = addr & 0b0000_0111_1111_1111;
            self.cpu_vram[mirror_down_addr as usize] = data;
            assert(self.cpu_vram@ =~= old(self).cpu_vram@.update((addr % 0x800) as int, data));
        } else if addr <= PPU_REGISTERS_MIRRORS_END {
            let reg = addr & 0b0000_0000_0000_0111;
            if reg == 0 {
                self.ppu.write_to_control(data);
            } else if reg == 1 {
                self.ppu.write_to_mask(data);
            } else if reg == 3 {
                self.ppu.write_to_oam_addr(data);
            } else if reg == 4 {
                self.ppu.write_to_oam_data(data);
            } else if reg == 5 {
                self.ppu.write_to_scroll(data);
            } else if reg == 6 {
                self.ppu.write_to_address(data);
            } else if reg == 7 {
                self.ppu.write_to_data(data);
            }
        }
    }
}

/// Every bus holds 2 KiB of RAM, so the RAM laws below apply to it.
pub proof fn lemma_ram_len(b: &BUS)
    ensures
        b@.ram.len() == 0x800,
{
}

/// A byte written at a RAM address reads back, unchanged, at that address
/// and at each of its three mirrors (`k` picks the mirror).
pub proof fn lemma_ram_write_then_read(b: BusView, addr: u16, v: u8, k: u16)
    requires
        addr <= RAM_MIRRORS_END,
        k < 4,
        b.ram.len() == 0x800,
    ensures
        b.write(addr, v).read((addr % 0x800 + k * 0x800) as u16).0 == v,
{
    reveal(BusView::read);
    reveal(BusView::write);
    let mirror = (addr % 0x800 + k * 0x800) as u16;
    assert(mirror % 0x800 == addr % 0x800);
}

/// A 16-bit value written with `m_write_u16` at a RAM address whose
/// successor is RAM too reads back unchanged with `m_read_u16`.
pub proof fn lemma_ram_write16_then_read16(b: BusView, addr: u16, v: u16)
    requires
        addr < RAM_MIRRORS_END,
        b.ram.len() == 0x800,
    ensures
        ({
            let s1 = BUS::write_spec(b, addr, (v % 0x100) as u8);
            let s2 = BUS::write_spec(s1, (addr + 1) as u16, (v / 0x100) as u8);
            let (low, s3) = BUS::read_spec(s2, addr);
            let (high, s4) = BUS::read_spec(s3, (addr + 1) as u16);
            le16(low, high) == v
        }),
{
    reveal(BusView::read);
    reveal(BusView::write);
    lemma_split16(v);
    assert((addr + 1) % 0x800 != addr % 0x800);
}

/// After a program is loaded, its bytes read back from 0x8000 on, and the
/// reset vector at 0xFFFC reads as 0x8000.
pub proof fn lemma_loaded_program_reads(b: BusView, program: Seq<u8>, i: int)
    requires
        program.len() <= 0x7FFC,
        b.prg_rom == program_image(program),
        0 <= i < program.len(),
    ensures
        b.read((0x8000 + i) as u16).0 == program[i],
        b.read(0xFFFC).0 == 0x00,
        b.read(0xFFFD).0 == 0x80,
{
    reveal(BusView::read);
}

} // verus!
