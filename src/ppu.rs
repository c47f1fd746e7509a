use vstd::prelude::*;
use crate::address::AddressRegister;
use crate::bytes::lemma_mask16;
use crate::control::{increment_of, ControlRegister};
use crate::mask::MaskRegister;
use crate::rom::Mirroring;
use crate::scroll::ScrollRegister;
use crate::status::{without_vblank, StatusRegister, VBLANK_STARTED};

verus! {

/// The graphics coprocessor's register file and memories.
pub struct PPU {
    chr_rom: Vec<u8>,
    pub mirroring: Mirroring,
    pub control: ControlRegister,
    pub mask: MaskRegister,
    pub status: StatusRegister,
    pub address: AddressRegister,
    pub scroll: ScrollRegister,
    pub vram: [u8; 0x800],
    pub oam_data: [u8; 0x100],
    pub oam_addr: u8,
    pub palette_table: [u8; 0x20],
    internal_buffer: u8,
    /// The write latch shared by the scroll and address registers: set when
    /// the next write to either is its second byte.
    write_latch: bool,
}

/// The abstract state of the coprocessor.
pub struct PpuView {
    pub chr_rom: Seq<u8>,
    pub mirroring: Mirroring,
    pub control: u8,
    pub mask: u8,
    pub status: u8,
    pub address: u16,
    pub scroll: ScrollRegister,
    /// The write latch shared by the scroll and address registers: set when
    /// the next write to either is its second byte.
    pub latch: bool,
    pub vram: Seq<u8>,
    pub oam_data: Seq<u8>,
    pub oam_addr: u8,
    pub palette_table: Seq<u8>,
    pub internal_buffer: u8,
}

impl View for PPU {
    type V = PpuView;

    closed spec fn view(&self) -> PpuView {
        PpuView {
            chr_rom: self.chr_rom@,
            mirroring: self.mirroring,
            control: self.control@,
            mask: self.mask@,
            status: self.status@,
            address: self.address@,
            scroll: self.scroll,
            latch: self.write_latch,
            vram: self.vram@,
            oam_data: self.oam_data@,
            oam_addr: self.oam_addr,
            palette_table: self.palette_table@,
            internal_buffer: self.internal_buffer,
        }
    }
}

/// Whether `addr`, taken modulo the 14-bit coprocessor bus, lies in the
/// nametable range 0x2000..0x3000.
pub open spec fn in_nametables(addr: u16) -> bool {
    0x2000 <= addr % 0x4000 < 0x3000
}

/// The VRAM index that a nametable address reaches under `mirroring`.
pub open spec fn mirrored_index(mirroring: Mirroring, addr: u16) -> int {
    let index = addr % 0x4000 - 0x2000;
    let table = index / 0x400;
    match mirroring {
        Mirroring::Vertical => if table == 2 || table == 3 {
            index - 0x800
        } else {
            index
        },
        Mirroring::Horizontal => if table == 1 || table == 2 {
            index - 0x400
        } else if table == 3 {
            index - 0x800
        } else {
            index
        },
    }
}

/// The VRAM index behind a data-port address in 0x2000..0x3F00; the range
/// 0x3000..0x3F00 repeats 0x2000..0x2F00.
pub open spec fn vram_index_of(mirroring: Mirroring, addr: u16) -> int {
    if addr < 0x3000 {
        mirrored_index(mirroring, addr)
    } else {
        mirrored_index(mirroring, (addr - 0x1000) as u16)
    }
}

/// The palette index behind an address in 0x3F00..0x4000: the table
/// repeats every 32 bytes, and entries 0x10, 0x14, 0x18 and 0x1C share the
/// cells of 0x00, 0x04, 0x08 and 0x0C.
pub open spec fn palette_index_of(addr: u16) -> int {
    let p = (addr - 0x3F00) % 0x20;
    if p == 0x10 || p == 0x14 || p == 0x18 || p == 0x1C {
        p - 0x10
    } else {
        p
    }
}

/// The byte of graphics memory at `addr`, or 0 past the end of the image.
pub open spec fn chr_byte(chr_rom: Seq<u8>, addr: u16) -> u8 {
    if (addr as int) < chr_rom.len() {
        chr_rom[addr as int]
    } else {
        0
    }
}

/// The object-attribute memory after a block copy of `data` that starts at
/// `start` and wraps around.
pub open spec fn oam_after_dma(data: Seq<u8>, start: u8) -> Seq<u8> {
    Seq::new(0x100, |j: int| data[(j - start + 0x100) % 0x100])
}

/// The coprocessor's state at power-on.
pub open spec fn initial_ppu(chr_rom: Seq<u8>, mirroring: Mirroring) -> PpuView {
    PpuView {
        chr_rom,
        mirroring,
        control: 0,
        mask: 0,
        status: 0,
        address: 0,
        scroll: ScrollRegister { scroll_x: 0, scroll_y: 0 },
        latch: false,
        vram: Seq::new(0x800, |i: int| 0u8),
        oam_data: Seq::new(0x100, |i: int| 0u8),
        oam_addr: 0,
        palette_table: Seq::new(0x20, |i: int| 0u8),
        internal_buffer: 0,
    }
}

impl PpuView {
    /// The state after the address register advances by the control
    /// register's step.
    pub open spec fn incremented(self) -> PpuView {
        PpuView {
            address: ((self.address + increment_of(self.control)) % 0x4000) as u16,
            ..self
        }
    }

    pub open spec fn write_control(self, value: u8) -> PpuView {
        PpuView { control: value, ..self }
    }

    pub open spec fn write_mask(self, value: u8) -> PpuView {
        PpuView { mask: value, ..self }
    }

    /// A status read returns the status byte, then clears the vblank flag and
    /// resets the write latch shared by the address and scroll registers.
    pub open spec fn read_status(self) -> (u8, PpuView) {
        (
            self.status,
            PpuView {
                status: without_vblank(self.status),
                latch: false,
                ..self
            },
        )
    }

    pub open spec fn write_oam_addr(self, value: u8) -> PpuView {
        PpuView { oam_addr: value, ..self }
    }

    pub open spec fn write_oam_data(self, value: u8) -> PpuView {
        PpuView {
            oam_data: self.oam_data.update(self.oam_addr as int, value),
            oam_addr: ((self.oam_addr + 1) % 0x100) as u8,
            ..self
        }
    }

    pub open spec fn read_oam_data(self) -> u8 {
        self.oam_data[self.oam_addr as int]
    }

    /// The first write after the latch clears goes to X, the second to Y;
    /// either way the shared latch flips.
    pub open spec fn write_scroll(self, value: u8) -> PpuView {
        PpuView { scroll: self.scroll.written(value, !self.latch), latch: !self.latch, ..self }
    }

    pub open spec fn write_address(self, value: u8) -> PpuView {
        PpuView {
            address: crate::address::address_after_update(self.address, !self.latch, value),
            latch: !self.latch,
            ..self
        }
    }

    /// A data-port write stores at the current address (graphics memory is
    /// read-only), then advances the address.
    pub open spec fn write_data(self, value: u8) -> PpuView {
        let addr = self.address;
        let stored = if addr < 0x2000 {
            self
        } else if addr < 0x3F00 {
            PpuView {
                vram: self.vram.update(vram_index_of(self.mirroring, addr), value),
                ..self
            }
        } else {
            PpuView {
                palette_table: self.palette_table.update(palette_index_of(addr), value),
                ..self
            }
        };
        stored.incremented()
    }

    /// A data-port read advances the address. Graphics memory and VRAM are
    /// read one access behind, through the internal buffer; palette reads
    /// are immediate.
    pub open spec fn read_data(self) -> (u8, PpuView) {
        let addr = self.address;
        let next = self.incremented();
        if addr < 0x2000 {
            (
                self.internal_buffer,
                PpuView { internal_buffer: chr_byte(self.chr_rom, addr), ..next },
            )
        } else if addr < 0x3F00 {
            (
                self.internal_buffer,
                PpuView {
                    internal_buffer: self.vram[vram_index_of(self.mirroring, addr)],
                    ..next
                },
            )
        } else {
            (self.palette_table[palette_index_of(addr)], next)
        }
    }

    pub open spec fn write_oam_dma(self, data: Seq<u8>) -> PpuView {
        PpuView { oam_data: oam_after_dma(data, self.oam_addr), ..self }
    }
}

/// Under horizontal mirroring the two nametables of each row share their
/// cells: 0x2000 with 0x2400, and 0x2800 with 0x2C00.
pub proof fn lemma_horizontal_mirroring(offset: u16)
    requires
        offset < 0x400,
    ensures
        mirrored_index(Mirroring::Horizontal, (0x2400 + offset) as u16) == mirrored_index(
            Mirroring::Horizontal,
            (0x2000 + offset) as u16,
        ),
        mirrored_index(Mirroring::Horizontal, (0x2C00 + offset) as u16) == mirrored_index(
            Mirroring::Horizontal,
            (0x2800 + offset) as u16,
        ),
{
}

/// Under vertical mirroring the two nametables of each column share their
/// cells: 0x2000 with 0x2800, and 0x2400 with 0x2C00.
pub proof fn lemma_vertical_mirroring(offset: u16)
    requires
        offset < 0x400,
    ensures
        mirrored_index(Mirroring::Vertical, (0x2800 + offset) as u16) == mirrored_index(
            Mirroring::Vertical,
            (0x2000 + offset) as u16,
        ),
        mirrored_index(Mirroring::Vertical, (0x2C00 + offset) as u16) == mirrored_index(
            Mirroring::Vertical,
            (0x2400 + offset) as u16,
        ),
{
}

/// A status read returns the status byte as it was, vblank flag included,
/// and the next status read finds the vblank flag clear.
pub proof fn lemma_status_read_clears_vblank(s: PpuView)
    ensures
        ({
            let (first, s1) = s.read_status();
            let (second, s2) = s1.read_status();
            &&& first == s.status
            &&& second & VBLANK_STARTED == 0
        }),
{
    let b = s.status;
    assert((b & !VBLANK_STARTED) & VBLANK_STARTED == 0) by (bit_vector);
}

/// Every coprocessor holds 2 KiB of VRAM, 256 bytes of object-attribute
/// memory and a 32-byte palette.
pub proof fn lemma_view_lengths(p: &PPU)
    ensures
        p@.vram.len() == 0x800,
        p@.oam_data.len() == 0x100,
        p@.palette_table.len() == 0x20,
{
}

impl PPU {
    pub fn new(chr_rom: Vec<u8>, mirroring: Mirroring) -> (r: PPU)
        ensures
            r@ == initial_ppu(chr_rom@, mirroring),
    {
        let r = PPU {
            chr_rom,
            mirroring,
            control: ControlRegister::new(),
            mask: MaskRegister::new(),
            status: StatusRegister::new(),
            address: AddressRegister::new(),
            scroll: ScrollRegister::new(),
            vram: [0; 0x800],
            oam_data: [0; 0x100],
            oam_addr: 0,
            palette_table: [0; 0x20],
            internal_buffer: 0,
            write_latch: false,
        };
        assert(r.vram@ =~= Seq::new(0x800, |i: int| 0u8));
        assert(r.oam_data@ =~= Seq::new(0x100, |i: int| 0u8));
        assert(r.palette_table@ =~= Seq::new(0x20, |i: int| 0u8));
        r
    }

    /// A coprocessor with 2 KiB of blank graphics memory and horizontal
    /// mirroring.
    pub fn new_empty_rom() -> (r: PPU)
        ensures
            r@ == initial_ppu(Seq::new(0x800, |i: int| 0u8), Mirroring::Horizontal),
    {
        let chr: Vec<u8> = vec![0; 0x800];
        assert(chr@ =~= Seq::new(0x800, |i: int| 0u8));
        PPU::new(chr, Mirroring::Horizontal)
    }

    /// Folds a nametable address onto the 2 KiB of physical VRAM.
    pub fn mirror_vram_address(&self, addr: u16) -> (r: u16)
        requires
            in_nametables(addr),
        ensures
            r as int == mirrored_index(self@.mirroring, addr),
            r < 0x800,
    {
        proof {
            lemma_mask16(addr);
        }
        let mirrored = addr & 0x3FFF;
        let vram_index = mirrored - 0x2000;
        let name_table = vram_index / 0x400;
        match (self.mirroring, name_table) {
            (Mirroring::Vertical, 2) | (Mirroring::Vertical, 3) => vram_index - 0x800,
            (Mirroring::Horizontal, 2) => vram_index - 0x400,
            (Mirroring::Horizontal, 1) => vram_index - 0x400,
            (Mirroring::Horizontal, 3) => vram_index - 0x800,
            _ => vram_index,
        }
    }

    /// Sets or clears the vblank flag of the status register.
    pub fn set_vblank_status(&mut self, status: bool)
        ensures
            final(self)@ == (PpuView {
                status: if status {
                    old(self)@.status | VBLANK_STARTED
                } else {
                    without_vblank(old(self)@.status)
                },
                ..old(self)@
            }),
    {
        self.status.set_vblank_status(status);
    }

    /// The status byte, without the side effects of a status read.
    pub fn status_bits(&self) -> (r: u8)
        ensures
            r == self@.status,
    {
        self.status.snapshot()
    }

    /// Stores `value` in physical VRAM cell `index`.
    pub fn write_vram(&mut self, index: usize, value: u8)
        requires
            index < 0x800,
        ensures
            final(self)@ == (PpuView { vram: old(self)@.vram.update(index as int, value), ..old(self)@ }),
    {
        self.vram[index] = value;
    }

    /// The byte in physical VRAM cell `index`.
    pub fn vram_at(&self, index: usize) -> (r: u8)
        requires
            index < 0x800,
        ensures
            r == self@.vram[index as int],
    {
        self.vram[index]
    }

    fn increment_vram_addr(&mut self)
        ensures
            final(self)@ == old(self)@.incremented(),
    {
        let increment = self.control.vram_add_increment();
        self.address.increment(increment);
    }

    /// The VRAM index behind a data-port address in 0x2000..0x3F00.
    fn vram_index(&self, addr: u16) -> (r: usize)
        requires
            0x2000 <= addr < 0x3F00,
        ensures
            r as int == vram_index_of(self@.mirroring, addr),
            r < 0x800,
    {
        if addr < 0x3000 {
            self.mirror_vram_address(addr) as usize
        } else {
            self.mirror_vram_address(addr - 0x1000) as usize
        }
    }

    fn palette_index(addr: u16) -> (r: usize)
        requires
            0x3F00 <= addr,
        ensures
            r as int == palette_index_of(addr),
            r < 0x20,
    {
        let p = (addr - 0x3F00) % 0x20;
        if p == 0x10 || p == 0x14 || p == 0x18 || p == 0x1C {
            (p - 0x10) as usize
        } else {
            p as usize
        }
    }
}

/// The coprocessor's external read/write surface.
pub trait PPUInterface {
    fn write_to_control(&mut self, value: u8);

    fn write_to_mask(&mut self, value: u8);

    fn read_from_status(&mut self) -> u8;

    fn write_to_oam_addr(&mut self, value: u8);

    fn write_to_oam_data(&mut self, value: u8);

    fn read_from_oam_data(&mut self) -> u8;

    fn write_to_scroll(&mut self, value: u8);

    fn write_to_address(&mut self, value: u8);

    fn read_from_data(&mut self) -> u8;

    fn write_to_data(&mut self, value: u8);

    fn write_to_oam_dma(&mut self, data: &[u8; 0x100]);
}

impl PPUInterface for PPU {
    fn write_to_control(&mut self, value: u8)
        ensures
            final(self)@ == old(self)@.write_control(value),
    {
        self.control.update(value);
    }

    fn write_to_mask(&mut self, value: u8)
        ensures
            final(self)@ == old(self)@.write_mask(value),
    {
        self.mask.update(value);
    }

    fn read_from_status(&mut self) -> (r: u8)
        ensures
            (r, final(self)@) == old(self)@.read_status(),
    {
        let data = self.status.snapshot();
        self.status.reset_vblank_status();
        self.write_latch = false;
        data
    }

    fn write_to_oam_addr(&mut self, value: u8)
        ensures
            final(self)@ == old(self)@.write_oam_addr(value),
    {
        self.oam_addr = value;
    }

    fn write_to_oam_data(&mut self, value: u8)
        ensures
            final(self)@ == old(self)@.write_oam_data(value),
    {
        self.oam_data[self.oam_addr as usize] = value;
        self.oam_addr = self.oam_addr.wrapping_add(1);
    }

    fn read_from_oam_data(&mut self) -> (r: u8)
        ensures
            r == old(self)@.read_oam_data(),
            final(self)@ == old(self)@,
    {
        self.oam_data[self.oam_addr as usize]
    }

    fn write_to_scroll(&mut self, value: u8)
        ensures
            final(self)@ == old(self)@.write_scroll(value),
    {
        let first = !self.write_latch;
        self.scroll.write(value, first);
        self.write_latch = first;
    }

    fn write_to_address(&mut self, value: u8)
        ensures
            final(self)@ == old(self)@.write_address(value),
    {
        let high = !self.write_latch;
        self.address.update(value, high);
        self.write_latch = high;
    }

    fn write_to_data(&mut self, value: u8)
        ensures
            final(self)@ == old(self)@.write_data(value),
    {
        let addr = self.address.get();
        if addr < 0x2000 {
            // graphics memory is read-only
        } else if addr < 0x3F00 {
            let i = self.vram_index(addr);
            self.vram[i] = value;
        } else {
            let i = PPU::palette_index(addr);
            self.palette_table[i] = value;
        }
        self.increment_vram_addr();
    }

    fn read_from_data(&mut self) -> (r: u8)
        ensures
            (r, final(self)@) == old(self)@.read_data(),
    {
        let addr = self.address.get();
        self.increment_vram_addr();
        if addr < 0x2000 {
            let result = self.internal_buffer;
            self.internal_buffer = if (addr as usize) < self.chr_rom.len() {
                self.chr_rom[addr as usize]
            } else {
                0
            };
            result
        } else if addr < 0x3F00 {
            let result = self.internal_buffer;
            let i = self.vram_index(addr);
            self.internal_buffer = self.vram[i];
            result
        } else {
            self.palette_table[PPU::palette_index(addr)]
        }
    }

    fn write_to_oam_dma(&mut self, data: &[u8; 0x100])
        ensures
            final(self)@ == old(self)@.write_oam_dma(data@),
    {
        let ghost start = self.oam_addr;
        let ghost before = self.oam_data@;
        let mut k: usize = 0;
        while k < 0x100
            invariant
                k <= 0x100,
                self.oam_addr as int == (start + k) % 0x100,
                self.oam_data@.len() == 0x100,
                forall|j: int|
                    0 <= j < 0x100 ==> #[trigger] self.oam_data@[j] == if (j - start + 0x100)
                        % 0x100 < k {
                        data@[(j - start + 0x100) % 0x100]
                    } else {
                        before[j]
                    },
                self@ == (PpuView { oam_data: self.oam_data@, oam_addr: self.oam_addr, ..old(self)@ }),
            decreases 0x100 - k,
        {
            self.oam_data[self.oam_addr as usize] = data[k];
            self.oam_addr = self.oam_addr.wrapping_add(1);
            k = k + 1;
        }
        assert(self.oam_data@ =~= oam_after_dma(data@, start));
    }
}

} // verus!
