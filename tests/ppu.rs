use nes_core::address::AddressRegister;
use nes_core::control::ControlRegister;
use nes_core::mask::{Colour, MaskRegister};
use nes_core::ppu::{PPUInterface, PPU};
use nes_core::rom::Mirroring;
use nes_core::scroll::ScrollRegister;

#[test]
fn test_ppu_vram_writes() {
    let mut ppu = PPU::new_empty_rom();
    ppu.write_to_address(0x23);
    ppu.write_to_address(0x05);
    ppu.write_to_data(0x66);

    assert_eq!(ppu.vram[0x0305], 0x66);
}

#[test]
fn test_ppu_vram_reads() {
    let mut ppu = PPU::new_empty_rom();
    ppu.write_to_control(0);
    ppu.vram[0x0305] = 0x66;

    ppu.write_to_address(0x23);
    ppu.write_to_address(0x05);

    ppu.read_from_data(); //load_into_buffer
    assert_eq!(ppu.address.get(), 0x2306);
    assert_eq!(ppu.read_from_data(), 0x66);
}

#[test]
fn test_ppu_vram_reads_cross_page() {
    let mut ppu = PPU::new_empty_rom();
    ppu.write_to_control(0);
    ppu.vram[0x01ff] = 0x66;
    ppu.vram[0x0200] = 0x77;

    ppu.write_to_address(0x21);
    ppu.write_to_address(0xff);

    ppu.read_from_data(); //load_into_buffer
    assert_eq!(ppu.read_from_data(), 0x66);
    assert_eq!(ppu.read_from_data(), 0x77);
}

#[test]
fn test_ppu_vram_reads_step_32() {
    let mut ppu = PPU::new_empty_rom();
    ppu.write_to_control(0b100);
    ppu.vram[0x01ff] = 0x66;
    ppu.vram[0x01ff + 32] = 0x77;
    ppu.vram[0x01ff + 64] = 0x88;

    ppu.write_to_address(0x21);
    ppu.write_to_address(0xff);

    ppu.read_from_data(); //load_into_buffer
    assert_eq!(ppu.read_from_data(), 0x66);
    assert_eq!(ppu.read_from_data(), 0x77);
    assert_eq!(ppu.read_from_data(), 0x88);
}

// Horizontal:
//   [0x2000 A ] [0x2400 a ]
//   [0x2800 B ] [0x2C00 b ]
#[test]
fn test_vram_horizontal_mirror() {
    let mut ppu = PPU::new_empty_rom();
    ppu.write_to_address(0x24);
    ppu.write_to_address(0x05);

    ppu.write_to_data(0x66); //write to a

    ppu.write_to_address(0x28);
    ppu.write_to_address(0x05);

    ppu.write_to_data(0x77); //write to B

    ppu.write_to_address(0x20);
    ppu.write_to_address(0x05);

    ppu.read_from_data(); //load into buffer
    assert_eq!(ppu.read_from_data(), 0x66); //read from A

    ppu.write_to_address(0x2C);
    ppu.write_to_address(0x05);

    ppu.read_from_data(); //load into buffer
    assert_eq!(ppu.read_from_data(), 0x77); //read from b
}

// Vertical:
//   [0x2000 A ] [0x2400 B ]
//   [0x2800 a ] [0x2C00 b ]
#[test]
fn test_vram_vertical_mirror() {
    let mut ppu = PPU::new(vec![0; 2048], Mirroring::Vertical);

    ppu.write_to_address(0x20);
    ppu.write_to_address(0x05);

    ppu.write_to_data(0x66); //write to A

    ppu.write_to_address(0x2C);
    ppu.write_to_address(0x05);

    ppu.write_to_data(0x77); //write to b

    ppu.write_to_address(0x28);
    ppu.write_to_address(0x05);

    ppu.read_from_data(); //load into buffer
    assert_eq!(ppu.read_from_data(), 0x66); //read from a

    ppu.write_to_address(0x24);
    ppu.write_to_address(0x05);

    ppu.read_from_data(); //load into buffer
    assert_eq!(ppu.read_from_data(), 0x77); //read from B
}

#[test]
fn test_read_from_status_resets_latch() {
    let mut ppu = PPU::new_empty_rom();
    ppu.vram[0x0305] = 0x66;

    ppu.write_to_address(0x21);
    ppu.write_to_address(0x23);
    ppu.write_to_address(0x05);

    ppu.read_from_data(); //load_into_buffer
    assert_ne!(ppu.read_from_data(), 0x66);

    ppu.read_from_status();

    ppu.write_to_address(0x23);
    ppu.write_to_address(0x05);

    ppu.read_from_data(); //load_into_buffer
    assert_eq!(ppu.read_from_data(), 0x66);
}

#[test]
fn test_ppu_vram_mirroring() {
    let mut ppu = PPU::new_empty_rom();
    ppu.write_to_control(0);
    ppu.vram[0x0305] = 0x66;

    ppu.write_to_address(0x63); //0x6305 -> 0x2305
    ppu.write_to_address(0x05);

    ppu.read_from_data(); //load into_buffer
    assert_eq!(ppu.read_from_data(), 0x66);
}

#[test]
fn test_read_from_status_resets_vblank() {
    let mut ppu = PPU::new_empty_rom();
    ppu.status.set_vblank_status(true);

    let status = ppu.read_from_status();

    assert_eq!(status >> 7, 1);
    assert_eq!(ppu.status.snapshot() >> 7, 0);
}

#[test]
fn test_oam_read_write() {
    let mut ppu = PPU::new_empty_rom();
    ppu.write_to_oam_addr(0x10);
    ppu.write_to_oam_data(0x66);
    ppu.write_to_oam_data(0x77);

    ppu.write_to_oam_addr(0x10);
    assert_eq!(ppu.read_from_oam_data(), 0x66);

    ppu.write_to_oam_addr(0x11);
    assert_eq!(ppu.read_from_oam_data(), 0x77);
}

#[test]
fn test_oam_dma() {
    let mut ppu = PPU::new_empty_rom();

    let mut data = [0x66; 256];
    data[0] = 0x77;
    data[255] = 0x88;

    ppu.write_to_oam_addr(0x10);
    ppu.write_to_oam_dma(&data);

    ppu.write_to_oam_addr(0xf); //wrap around
    assert_eq!(ppu.read_from_oam_data(), 0x88);

    ppu.write_to_oam_addr(0x10);
    assert_eq!(ppu.read_from_oam_data(), 0x77);

    ppu.write_to_oam_addr(0x11);
    assert_eq!(ppu.read_from_oam_data(), 0x66);
}

#[test]
fn data_write_advances_by_control_step() {
    let mut ppu = PPU::new_empty_rom();
    ppu.write_to_address(0x23);
    ppu.write_to_address(0x05);
    ppu.write_to_data(0x66);
    assert_eq!(ppu.vram[0x0305], 0x66);
    assert_eq!(ppu.address.get(), 0x2306);

    let mut ppu = PPU::new_empty_rom();
    ppu.write_to_control(0b100);
    ppu.write_to_address(0x23);
    ppu.write_to_address(0x05);
    ppu.write_to_data(0x66);
    assert_eq!(ppu.vram[0x0305], 0x66);
    assert_eq!(ppu.address.get(), 0x2325);
}

#[test]
fn nametable_aliases_by_mirroring() {
    let horizontal = PPU::new(vec![0; 0x2000], Mirroring::Horizontal);
    assert_eq!(horizontal.mirror_vram_address(0x2405), horizontal.mirror_vram_address(0x2005));
    assert_eq!(horizontal.mirror_vram_address(0x2C05), horizontal.mirror_vram_address(0x2805));
    assert_eq!(horizontal.mirror_vram_address(0x2805), 0x0405);
    let vertical = PPU::new(vec![0; 0x2000], Mirroring::Vertical);
    assert_eq!(vertical.mirror_vram_address(0x2805), vertical.mirror_vram_address(0x2005));
    assert_eq!(vertical.mirror_vram_address(0x2C05), 0x0405);
    assert_eq!(vertical.mirror_vram_address(0x2405), 0x0405);
}

#[test]
fn status_read_clears_vblank_for_next_read() {
    let mut ppu = PPU::new_empty_rom();
    ppu.status.set_vblank_status(true);
    assert_eq!(ppu.read_from_status() & 0x80, 0x80);
    assert_eq!(ppu.read_from_status() & 0x80, 0);
}

#[test]
fn palette_reads_are_immediate_and_mirrored() {
    let mut ppu = PPU::new_empty_rom();
    ppu.write_to_address(0x3F);
    ppu.write_to_address(0x10);
    ppu.write_to_data(0x2A);
    assert_eq!(ppu.palette_table[0], 0x2A);
    ppu.write_to_address(0x3F);
    ppu.write_to_address(0x00);
    assert_eq!(ppu.read_from_data(), 0x2A);
    ppu.write_to_address(0x3F);
    ppu.write_to_address(0x25);
    ppu.write_to_data(0x11);
    assert_eq!(ppu.palette_table[0x05], 0x11);
}

#[test]
fn graphics_memory_reads_are_buffered() {
    let mut chr = vec![0; 0x2000];
    chr[0x0123] = 0x5A;
    let mut ppu = PPU::new(chr, Mirroring::Horizontal);
    ppu.write_to_address(0x01);
    ppu.write_to_address(0x23);
    ppu.write_to_data(0x99);
    ppu.write_to_address(0x01);
    ppu.write_to_address(0x23);
    assert_eq!(ppu.read_from_data(), 0);
    assert_eq!(ppu.read_from_data(), 0x5A);
}

#[test]
fn address_register_masks_to_14_bits() {
    let mut addr = AddressRegister::new();
    addr.update(0xFF, true);
    addr.update(0xFF, false);
    assert_eq!(addr.get(), 0x3FFF);
    addr.increment(1);
    assert_eq!(addr.get(), 0x0000);
    addr.update(0x12, true);
    addr.update(0x34, true);
    assert_eq!(addr.get(), 0x3400);
}

#[test]
fn scroll_register_halves() {
    let mut scroll = ScrollRegister::new();
    scroll.write(5, true);
    scroll.write(7, false);
    assert_eq!((scroll.scroll_x, scroll.scroll_y), (5, 7));
}

#[test]
fn scroll_and_address_share_one_latch() {
    let mut ppu = PPU::new_empty_rom();
    ppu.write_to_scroll(5); // first write: X
    ppu.write_to_address(0x21); // second write: low byte of the address
    assert_eq!(ppu.scroll.scroll_x, 5);
    assert_eq!(ppu.address.get(), 0x0021);
    ppu.write_to_address(0x23); // first write again: high byte
    ppu.write_to_scroll(9); // second write: Y
    assert_eq!(ppu.address.get(), 0x2321);
    assert_eq!(ppu.scroll.scroll_y, 9);
    ppu.write_to_scroll(1); // first: X
    ppu.read_from_status(); // clears the latch
    ppu.write_to_scroll(2); // first again: X
    assert_eq!((ppu.scroll.scroll_x, ppu.scroll.scroll_y), (2, 9));
}

#[test]
fn view_accessors() {
    let mut ppu = PPU::new_empty_rom();
    ppu.write_vram(0x0305, 0x66);
    assert_eq!(ppu.vram_at(0x0305), 0x66);
    ppu.set_vblank_status(true);
    assert_eq!(ppu.status_bits() & 0x80, 0x80);
    ppu.read_from_status();
    assert_eq!(ppu.status_bits() & 0x80, 0);
    ppu.write_to_address(0x23);
    ppu.write_to_address(0x05);
    ppu.read_from_data();
    assert_eq!(ppu.read_from_data(), 0x66);
}

#[test]
fn control_register_fields() {
    let mut ctrl = ControlRegister::new();
    ctrl.update(0b1011_1110);
    assert_eq!(ctrl.nametable_addr(), 0x2800);
    assert_eq!(ctrl.vram_add_increment(), 32);
    assert_eq!(ctrl.sprite_pattern_addr(), 0x1000);
    assert_eq!(ctrl.background_pattern_addr(), 0x1000);
    assert_eq!(ctrl.sprite_size(), 16);
    assert_eq!(ctrl.master_slave_select(), 0);
    assert!(ctrl.generate_nmi());
    ctrl.update(0b0000_0011);
    assert_eq!(ctrl.nametable_addr(), 0x2C00);
    assert_eq!(ctrl.vram_add_increment(), 1);
    assert_eq!(ctrl.sprite_size(), 8);
}

#[test]
fn mask_register_fields() {
    let mut mask = MaskRegister::new();
    mask.update(0b1010_1001);
    assert!(mask.is_greyscale());
    assert!(!mask.leftmost_8pxl_background());
    assert!(!mask.leftmost_8pxl_sprite());
    assert!(mask.show_background());
    assert!(!mask.show_sprites());
    assert_eq!(mask.emphasize(), vec![Colour::Red, Colour::Blue]);
}
