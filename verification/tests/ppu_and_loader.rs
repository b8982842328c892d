//! The PPU register window, the dot clock events, the iNES loader and
//! the colour helpers.

use nes_core::cartridge::{Cartridge, ScreenMirroring};
use nes_core::errors::EmuError;
use nes_core::hardware::Hardware;
use nes_core::ppu::Ppu;
use nes_core::utils::Color;

fn rom_bytes(prg_count: u8, chr_count: u8, flags6: u8) -> Vec<u8> {
    let mut rom = Vec::new();
    rom.extend_from_slice(&[0x4E, 0x45, 0x53, 0x1A, prg_count, chr_count, flags6, 0, 0, 0, 0, 0,
        0, 0, 0, 0]);
    rom.extend(std::iter::repeat(0u8).take(prg_count as usize * 0x4000));
    rom.extend(std::iter::repeat(0u8).take(chr_count as usize * 0x2000));
    rom
}

#[test]
fn loader_rejects_bad_magic() {
    let mut rom = rom_bytes(1, 0, 0);
    rom[0] = 0x4D;
    let mut cart = Cartridge::new();
    assert_eq!(cart.load_ines_rom(&rom), Err(EmuError::InvalidMagic));
}

#[test]
fn loader_rejects_unsupported_mappers() {
    let mut rom = rom_bytes(1, 0, 0);
    rom[6] = 0x10;
    let mut cart = Cartridge::new();
    assert_eq!(cart.load_ines_rom(&rom), Err(EmuError::UnsupportedMapper));
}

#[test]
fn loader_rejects_short_files() {
    let mut rom = rom_bytes(1, 0, 0);
    rom.truncate(100);
    let mut cart = Cartridge::new();
    assert_eq!(cart.load_ines_rom(&rom), Err(EmuError::TruncatedFile));
    rom.truncate(10);
    assert_eq!(cart.load_ines_rom(&rom), Err(EmuError::TruncatedFile));
}

#[test]
fn loader_reads_mirroring_and_chr_kind() {
    let mut cart = Cartridge::new();
    cart.load_ines_rom(&rom_bytes(1, 1, 0x01)).unwrap();
    assert!(matches!(cart.mirroring, ScreenMirroring::Vertical));
    assert!(!cart.mapper.chr_is_ram);
    cart.load_ines_rom(&rom_bytes(1, 0, 0x08)).unwrap();
    assert!(matches!(cart.mirroring, ScreenMirroring::FourScreen));
    assert!(cart.mapper.chr_is_ram);
    assert_eq!(cart.mapper.chr.len(), 0x2000);
    cart.load_ines_rom(&rom_bytes(2, 0, 0x00)).unwrap();
    assert!(matches!(cart.mirroring, ScreenMirroring::Horizontal));
    assert_eq!(cart.mapper.prg_rom.len(), 0x8000);
}

#[test]
fn loader_skips_a_trainer_block() {
    let mut rom = Vec::new();
    rom.extend_from_slice(&[0x4E, 0x45, 0x53, 0x1A, 1, 0, 0x04, 0, 0, 0, 0, 0, 0, 0, 0, 0]);
    rom.extend(std::iter::repeat(0xFFu8).take(512));
    let mut prg = vec![0u8; 0x4000];
    prg[0] = 0x77;
    rom.extend_from_slice(&prg);
    let mut cart = Cartridge::new();
    cart.load_ines_rom(&rom).unwrap();
    assert_eq!(cart.mapper.prg_rom[0], 0x77);
}

#[test]
fn mapper_out_of_range_is_reported() {
    let hw = Hardware::new();
    assert_eq!(hw.bus.cpu_read(0x5000), Err(EmuError::MapperOutOfRange(0x5000)));
    assert_eq!(hw.bus.cpu_read(0x8000), Err(EmuError::MapperOutOfRange(0x8000)));
}

#[test]
fn control_write_with_vblank_up_raises_the_interrupt() {
    let mut hw = Hardware::new();
    hw.bus.ppu.status = 0x80;
    assert!(!hw.bus.ppu.get_nmi_pending());
    hw.bus.write(0x2000, 0x80);
    assert!(hw.bus.ppu.get_nmi_pending());
}

#[test]
fn data_port_writes_four_nametable_bytes() {
    let mut ppu = Ppu::new();
    let mut cart = Cartridge::new();
    ppu.write_register(0x2006, 0x20, &mut cart);
    ppu.write_register(0x2006, 0x00, &mut cart);
    for v in [0x11u8, 0x22, 0x33, 0x44] {
        ppu.write_register(0x2007, v, &mut cart);
    }
    assert_eq!(ppu.vram_addr, 0x2004);
    assert_eq!(&ppu.nametable[0..4], &[0x11, 0x22, 0x33, 0x44]);
}

#[test]
fn data_port_increment_of_thirty_two() {
    let mut ppu = Ppu::new();
    let mut cart = Cartridge::new();
    ppu.write_register(0x2000, 0x04, &mut cart);
    ppu.write_register(0x2006, 0x20, &mut cart);
    ppu.write_register(0x2006, 0x00, &mut cart);
    ppu.write_register(0x2007, 0x55, &mut cart);
    assert_eq!(ppu.vram_addr, 0x2020);
}

#[test]
fn status_read_clears_vblank_and_the_write_toggle() {
    let mut ppu = Ppu::new();
    let cart = Cartridge::new();
    ppu.status = 0xE0;
    ppu.w = true;
    let value = ppu.read_register(0x2002, &cart);
    assert_eq!(value, 0xE0);
    assert_eq!(ppu.status, 0x60);
    assert!(!ppu.w);
}

#[test]
fn data_port_reads_are_buffered() {
    let mut ppu = Ppu::new();
    let mut cart = Cartridge::new();
    ppu.write_register(0x2006, 0x20, &mut cart);
    ppu.write_register(0x2006, 0x10, &mut cart);
    ppu.write_register(0x2007, 0xAB, &mut cart);
    ppu.write_register(0x2006, 0x20, &mut cart);
    ppu.write_register(0x2006, 0x10, &mut cart);
    let first = ppu.read_register(0x2007, &cart);
    let second = ppu.read_register(0x2007, &cart);
    assert_eq!(first, 0x00);
    assert_eq!(second, 0xAB);
}

#[test]
fn palette_writes_fold_the_mirrored_entries() {
    let mut ppu = Ppu::new();
    let mut cart = Cartridge::new();
    ppu.write_register(0x2006, 0x3F, &mut cart);
    ppu.write_register(0x2006, 0x10, &mut cart);
    ppu.write_register(0x2007, 0x2A, &mut cart);
    assert_eq!(ppu.palette[0], 0x2A);
    assert_eq!(ppu.get_palette()[0], 0x2A);
}

#[test]
fn vblank_begins_at_scanline_241_dot_1() {
    let mut ppu = Ppu::new();
    let cart = Cartridge::new();
    ppu.scanline = 241;
    ppu.cycle = 0;
    ppu.control = 0x80;
    ppu.tick(&cart);
    assert_eq!(ppu.status & 0x80, 0x80);
    assert!(ppu.frame_complete);
    assert!(ppu.get_nmi_pending());
    let mut quiet = Ppu::new();
    quiet.scanline = 241;
    quiet.cycle = 0;
    quiet.tick(&cart);
    assert_eq!(quiet.status & 0x80, 0x80);
    assert!(!quiet.get_nmi_pending());
}

#[test]
fn prerender_clears_the_status_bits() {
    let mut ppu = Ppu::new();
    let cart = Cartridge::new();
    ppu.scanline = 261;
    ppu.cycle = 0;
    ppu.status = 0xE0;
    ppu.tick(&cart);
    assert_eq!(ppu.status, 0x00);
}

#[test]
fn chr_ram_round_trips_through_the_tile_reader() {
    let mut hw = Hardware::new();
    hw.load_rom(&rom_bytes(1, 0, 0)).unwrap();
    hw.bus.ppu_write(0x0010, 0xFF);
    let tile = hw.bus.read_tile(1);
    assert_eq!(tile[0], 0xFF);
    let rgb = hw.bus.tile_to_rgb(&tile);
    // the first row decodes as colour 1: the darker grey
    assert_eq!(&rgb[0..4], &[75, 75, 75, 255]);
    // the second row stays colour 0: black
    assert_eq!(&rgb[32..36], &[0, 0, 0, 255]);
}

#[test]
fn chr_image_renders_a_tile_row() {
    let mut hw = Hardware::new();
    hw.load_rom(&rom_bytes(1, 0, 0)).unwrap();
    // tile 17 of table 0: both planes set -> colour 3, white
    hw.bus.ppu_write(17 * 16, 0xFF);
    hw.bus.ppu_write(17 * 16 + 8, 0xFF);
    let image = hw.get_chr_image(0);
    assert_eq!(image.len(), 128 * 128 * 4);
    // tile 17 sits at tile row 1, tile column 1: pixel (8, 8)
    let base = (8 * 128 + 8) * 4;
    assert_eq!(&image[base..base + 4], &[255, 255, 255, 255]);
    // its second pixel row is empty: black
    let below = (9 * 128 + 8) * 4;
    assert_eq!(&image[below..below + 4], &[0, 0, 0, 255]);
}

#[test]
fn color_roundtrip() {
    let c = Color::new(1, 2, 3, 4);
    assert_eq!(c.to_rgba(), [1, 2, 3, 4]);
    assert_eq!(Color::from_rgba([1, 2, 3, 4]), c);
}

#[test]
fn palette_rgba_resolves_the_fixed_colors() {
    let mut hw = Hardware::new();
    hw.bus.ppu.set_palette(0, 0x20);
    let colors = hw.get_palette();
    assert_eq!(colors.len(), 32);
    assert_eq!(colors[0], Color::new(236, 238, 236, 255));
    assert_eq!(hw.bus.ppu.get_nes_color(0x0D), Color::new(0, 0, 0, 255));
}

#[test]
fn cartridge_reset_zeroes_the_writable_stores() {
    let mut cart = Cartridge::new();
    cart.load_ines_rom(&rom_bytes(1, 0, 0)).unwrap();
    cart.mapper.cpu_write(0x6000, 0x99);
    assert_eq!(cart.mapper.cpu_read(0x6000), Some(0x99));
    cart.mapper.ppu_write(0x0000, 0x77);
    assert_eq!(cart.mapper.ppu_read(0x0000), Some(0x77));
    cart.reset();
    assert_eq!(cart.mapper.cpu_read(0x6000), Some(0x00));
    assert_eq!(cart.mapper.ppu_read(0x0000), Some(0x00));
}

#[test]
fn prg_rom_ignores_writes() {
    let mut cart = Cartridge::new();
    cart.load_ines_rom(&rom_bytes(1, 1, 0)).unwrap();
    assert!(!cart.mapper.cpu_write(0x8000, 0x12));
    assert_eq!(cart.mapper.cpu_read(0x8000), Some(0x00));
    assert!(!cart.mapper.ppu_write(0x0000, 0x12));
    assert_eq!(cart.mapper.ppu_read(0x0000), Some(0x00));
}
