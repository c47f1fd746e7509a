use nes_core::bus::BUS;
use nes_core::memory::Memory;
use nes_core::rom::{Mirroring, Rom};

fn bus_with(prg_rom: Vec<u8>) -> BUS {
    BUS::new(Rom { prg_rom, chr_rom: vec![0; 0x2000], screen_mirroring: Mirroring::Horizontal })
}

#[test]
fn ram_is_mirrored_four_times() {
    let mut bus = bus_with(vec![0; 0x8000]);
    bus.m_write(0x0812, 0xAB);
    for base in [0x0000u16, 0x0800, 0x1000, 0x1800] {
        assert_eq!(bus.m_read(base + 0x12), 0xAB);
    }
}

#[test]
fn ram_round_trip_16_bits() {
    let mut bus = bus_with(vec![0; 0x8000]);
    bus.m_write_u16(0x0100, 0xBEEF);
    assert_eq!(bus.m_read_u16(0x0100), 0xBEEF);
    assert_eq!(bus.m_read(0x0100), 0xEF);
    assert_eq!(bus.m_read(0x0101), 0xBE);
    bus.m_write_u16(0x07FF, 0x1234);
    assert_eq!(bus.m_read_u16(0x07FF), 0x1234);
    assert_eq!(bus.m_read(0x0000), 0x12);
}

#[test]
fn small_program_image_is_mirrored() {
    let mut prg = vec![0; 0x4000];
    prg[0x0010] = 0x42;
    prg[0x3FFC] = 0x34;
    let mut bus = bus_with(prg);
    assert_eq!(bus.m_read(0x8010), 0x42);
    assert_eq!(bus.m_read(0xC010), 0x42);
    assert_eq!(bus.m_read(0xFFFC), 0x34);
}

#[test]
fn unmapped_reads_are_zero_and_writes_dropped() {
    let mut bus = bus_with(vec![7; 0x8000]);
    bus.m_write(0x5000, 0x99);
    assert_eq!(bus.m_read(0x5000), 0);
    assert_eq!(bus.m_read(0x4020), 0);
}

#[test]
fn coprocessor_registers_through_the_bus() {
    let mut bus = bus_with(vec![0; 0x8000]);
    // address register through a mirror of 0x2006, data through 0x2007
    bus.m_write(0x200E, 0x23);
    bus.m_write(0x2006, 0x05);
    bus.m_write(0x3FFF, 0x66);
    assert_eq!(bus.ppu().vram[0x0305], 0x66);
    bus.m_write(0x2006, 0x23);
    bus.m_write(0x2006, 0x05);
    bus.m_read(0x2007);
    assert_eq!(bus.m_read(0x2007), 0x66);
    // OAM address and data
    bus.m_write(0x2003, 0x10);
    bus.m_write(0x2004, 0x55);
    bus.m_write(0x2003, 0x10);
    assert_eq!(bus.m_read(0x2004), 0x55);
    // write-only registers read as 0
    bus.m_write(0x2000, 0x80);
    assert_eq!(bus.m_read(0x2000), 0);
    assert!(bus.ppu().control.generate_nmi());
}

#[test]
fn status_read_through_the_bus_resets_latch() {
    let mut bus = bus_with(vec![0; 0x8000]);
    bus.m_write(0x2006, 0x21);
    assert_eq!(bus.m_read(0x2002) & 0x80, 0);
    bus.m_write(0x2006, 0x23);
    bus.m_write(0x2006, 0x05);
    assert_eq!(bus.ppu().address.get(), 0x2305);
    assert_eq!(bus.ppu().status.snapshot() & 0x80, 0);
}
