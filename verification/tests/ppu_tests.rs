use nes_emulator::nes::mappers::{get_mapper, Cartridge, Mapper};
use nes_emulator::nes::ppu::addressing::{nametable_addr, palette_index, PPUMemoryMap};
use nes_emulator::nes::ppu::oam::{TempSpriteInfo, OAM};
use nes_emulator::nes::ppu::rendering::{reverse_bits, IMG_SIZE};
use nes_emulator::nes::ppu::pattern_table::pattern_tables_to_bytes;
use nes_emulator::nes::ppu::PPU;
use nes_emulator::ppu::addressing::PPUMemoryMap as BankedMemory;
use nes_emulator::ppu::PPUReg;
use nes_emulator::nes_parser::{
    ConsoleType, NES2Header, NESData, NametableArrangement, TimingMode,
};

fn nrom(chr: Vec<u8>, arrangement: NametableArrangement) -> Cartridge {
    let header = NES2Header {
        nametable_arrangement: arrangement,
        nvm_present: false,
        trainer: false,
        alt_nametable_layout: false,
        console_type: ConsoleType::NES,
        mapper: 0,
        submapper: 0,
        prg_rom_size: 1,
        chr_rom_size: 1,
        prg_ram_size: 0,
        prg_nvram_size: 0,
        chr_ram_size: 0,
        chr_nvram_size: 0,
        timing_mode: TimingMode::NTSC,
        default_expansion_device: 0,
        misc_roms: 0,
    };
    get_mapper(NESData { prg_rom: vec![0u8; 16384], chr_rom: chr, header })
}

fn colors() -> Vec<[u8; 3]> {
    (0..64u8).map(|i| [i + 1, i + 2, i + 3]).collect()
}

const FRAME: usize = 341 * 262;

#[test]
fn ppu_power_on_registers() {
    let ppu = PPU::new(&colors());
    assert_eq!(ppu.read(0), 0);
    assert_eq!(ppu.read(2), 0x80);
    assert!(!ppu.image_ready());
    assert!(!ppu.pending_nmi());
    assert_eq!(ppu.get_image_bytes().len(), IMG_SIZE);
}

#[test]
fn ppu_register_reads_back_what_was_written() {
    let mut ppu = PPU::new(&colors());
    for r in 0..8u8 {
        ppu.write(r, 0x10 + r);
    }
    for r in 0..8u8 {
        assert_eq!(ppu.read(r), 0x10 + r);
    }
}

#[test]
fn blank_frame_is_drawn_in_the_backdrop_colour() {
    let mut ppu = PPU::new(&colors());
    let mut cart = nrom(vec![0u8; 8192], NametableArrangement::Vertical);
    for _ in 0..FRAME {
        ppu.tick(&mut cart);
    }
    let img = ppu.get_image_bytes();
    // Palette entry 0 is 0, so every pixel shows colour 0; the fourth byte
    // of each pixel is left alone.
    assert_eq!(&img[0..4], &[1, 2, 3, 0]);
    let last = IMG_SIZE - 4;
    assert_eq!(&img[last..], &[1, 2, 3, 0]);
}

#[test]
fn vertical_blank_sets_flag_and_nmi() {
    let mut ppu = PPU::new(&colors());
    let mut cart = nrom(vec![0u8; 8192], NametableArrangement::Vertical);
    ppu.write(0, 0x80); // NMI on vertical blank
    ppu.write(2, 0x00);
    // Up to scanline 241, cycle 1.
    for _ in 0..(241 * 341 + 1) {
        ppu.tick(&mut cart);
    }
    assert!(!ppu.image_ready());
    assert!(!ppu.pending_nmi());
    ppu.tick(&mut cart);
    assert!(ppu.image_ready());
    assert!(ppu.pending_nmi());
    assert_eq!(ppu.read(2) & 0x80, 0x80);
    ppu.clear_nmi();
    assert!(!ppu.pending_nmi());
    // The pre-render line clears it again.
    for _ in 0..(20 * 341) {
        ppu.tick(&mut cart);
    }
    assert!(!ppu.image_ready());
    assert_eq!(ppu.read(2) & 0x80, 0);
    // NMI fires on the rising edge only: the next frame does not raise it.
    for _ in 0..FRAME {
        ppu.tick(&mut cart);
    }
    assert!(!ppu.pending_nmi());
}

#[test]
fn rendering_a_frame_with_background_and_sprites_on() {
    let mut ppu = PPU::new(&colors());
    let mut cart = nrom(vec![0xFFu8; 8192], NametableArrangement::Horizontal);
    ppu.write(1, 0x18);
    for _ in 0..(2 * FRAME) {
        ppu.tick(&mut cart);
    }
    assert!(ppu.get_image_bytes().len() == IMG_SIZE);
    assert_eq!(&ppu.get_image_bytes()[0..3], &[1, 2, 3]);
}

#[test]
fn sprite_overflow_with_nine_sprites_on_a_line() {
    let mut ppu = PPU::new(&colors());
    ppu.write(2, 0);
    // Every sprite at y = 0: all 64 meet scanline 1.
    ppu.oam_dma(&[0u8; 256]);
    ppu.evaluate_sprites(1);
    assert_eq!(ppu.read(2), 0x20);
}

#[test]
fn no_overflow_with_few_sprites() {
    let mut ppu = PPU::new(&colors());
    ppu.write(2, 0);
    let mut oam = [0xF0u8; 256];
    oam[0] = 0;
    ppu.oam_dma(&oam);
    ppu.evaluate_sprites(1);
    assert_eq!(ppu.read(2), 0);
}

#[test]
fn reverse_bits_mirrors_a_byte() {
    assert_eq!(reverse_bits(0b0000_0001), 0b1000_0000);
    assert_eq!(reverse_bits(0b1100_1010), 0b0101_0011);
    for b in 0..=255u8 {
        assert_eq!(reverse_bits(b), b.reverse_bits());
        assert_eq!(reverse_bits(reverse_bits(b)), b);
    }
}

#[test]
fn palette_mirrors() {
    assert_eq!(palette_index(0x3F00), 0);
    assert_eq!(palette_index(0x3F10), 0);
    assert_eq!(palette_index(0x3F14), 4);
    assert_eq!(palette_index(0x3F11), 0x11);
    assert_eq!(palette_index(0x3F3C), 0x0C);
}

#[test]
fn nametable_mirroring() {
    assert_eq!(nametable_addr(NametableArrangement::Vertical, 0x2400), 0);
    assert_eq!(nametable_addr(NametableArrangement::Vertical, 0x2800), 0x400);
    assert_eq!(nametable_addr(NametableArrangement::Horizontal, 0x2400), 0x400);
    assert_eq!(nametable_addr(NametableArrangement::Horizontal, 0x2805), 5);
    assert_eq!(nametable_addr(NametableArrangement::OneScreen(1), 0x2C10), 0x410);
}

#[test]
fn ppu_memory_read_after_write() {
    let mut mem = PPUMemoryMap::new();
    let mut cart = nrom((0..=255u8).cycle().take(8192).collect(), NametableArrangement::Horizontal);
    mem.write(&mut cart, 0x2005, 0x42);
    assert_eq!(mem.read(&mut cart, 0x2005), 0x42);
    assert_eq!(mem.read(&mut cart, 0x2805), 0x42);
    assert_eq!(mem.read(&mut cart, 0x3005), 0x42);
    mem.write(&mut cart, 0x3F10, 0x21);
    assert_eq!(mem.read(&mut cart, 0x3F00), 0x21);
    assert_eq!(mem.read(&mut cart, 0x0013), 0x13);
    assert_eq!(cart.ppu_read(0x0013), 0x13);
}

#[test]
fn oam_sprite_evaluation() {
    let mut oam = OAM::new();
    let mut data = [0xF0u8; 256];
    // Sprite 0 at y = 10, tile 5, flipped vertically, x = 20.
    data[0] = 10;
    data[1] = 5;
    data[2] = 0x80;
    data[3] = 20;
    oam.from_dma(0, &data);
    let (found, overflow) = oam.evaluate_sprites(12, 8);
    assert_eq!(found, 1);
    assert!(!overflow);
    let s = oam.secondary(0);
    assert!(s == TempSpriteInfo { y_pos: 5, tile_index: 5, attributes: 0x80, x_pos: 20, is_sprite_0: true });
    oam.clear_secondary_oam();
    assert!(oam.secondary(0) == TempSpriteInfo::blank());
}

#[test]
fn pattern_table_picture() {
    let mut chr = vec![0u8; 0x1000];
    // Tile 0, row 0: first plane bit 7, second plane bits 7 and 6.
    chr[0] = 0x80;
    chr[8] = 0xC0;
    // Tile 1, row 0: first plane bit 0.
    chr[16] = 0x01;
    // Tile 16 (second tile row), row 2: both planes bit 7.
    chr[16 * 16 + 2] = 0x80;
    chr[16 * 16 + 2 + 8] = 0x80;
    let (bytes, width, height) = pattern_tables_to_bytes(&chr);
    assert_eq!((width, height), (128, 128));
    assert_eq!(bytes.len(), 0x1000 * 8 * 3);
    assert_eq!(&bytes[0..3], &[255, 255, 255]);
    assert_eq!(&bytes[3..6], &[80, 80, 80]);
    assert_eq!(&bytes[6..9], &[0, 0, 0]);
    assert_eq!(&bytes[45..48], &[160, 160, 160]);
    let idx = 128 * 10;
    assert_eq!(&bytes[3 * idx..3 * idx + 3], &[255, 255, 255]);
    // Past the one table's picture everything stays 0.
    assert!(bytes[3 * 128 * 128..].iter().all(|&b| b == 0));
}

#[test]
fn pattern_tables_side_by_side() {
    let mut chr = vec![0u8; 0x2000];
    chr[0x1000] = 0x80; // table 1, tile 0, row 0, column 0: pixel 2
    let (bytes, width, _) = pattern_tables_to_bytes(&chr);
    assert_eq!(width, 256);
    assert_eq!(&bytes[3 * 128..3 * 128 + 3], &[160, 160, 160]);
    assert_eq!(&bytes[0..3], &[0, 0, 0]);
    let (empty, w0, _) = pattern_tables_to_bytes(&[]);
    assert_eq!(w0, 0);
    assert!(empty.iter().all(|&b| b == 0));
}

#[test]
fn chr_bank_is_recorded_but_reads_take_the_address() {
    let mut chr = vec![0u8; 0x4000];
    chr[0] = 0x11;
    chr[0x2000] = 0x22;
    let mut mem = BankedMemory::new(&chr, NametableArrangement::Vertical);
    assert_eq!(mem.read(0), 0x11);
    mem.set_chr_bank(1);
    assert_eq!(mem.read(0), 0x11);
    assert_eq!(mem.read(0x1FFF), 0);
}

#[test]
fn register_numbers() {
    assert_eq!(PPUReg::Ctrl.index(), 0);
    assert_eq!(PPUReg::Status.index(), 2);
    assert_eq!(PPUReg::Data.index(), 7);
    assert_eq!(PPUReg::OamDma.index(), 8);
}
