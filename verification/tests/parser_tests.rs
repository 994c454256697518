use nes_emulator::nes_parser::{
    parse_nes_header, parse_rom, ConsoleType, NametableArrangement, RomError, TimingMode,
};

fn image(prg_banks: u8, chr_banks: u8, flags6: u8, flags7: u8) -> Vec<u8> {
    let mut v = vec![0x4E, 0x45, 0x53, 0x1A, prg_banks, chr_banks, flags6, flags7];
    v.extend_from_slice(&[0u8; 8]);
    for i in 0..(prg_banks as usize * 16384) {
        v.push((i % 251) as u8);
    }
    for i in 0..(chr_banks as usize * 8192) {
        v.push((i % 7) as u8);
    }
    v
}

#[test]
fn parses_ines_image() {
    let bytes = image(1, 1, 0x11, 0x00);
    let data = parse_rom(&bytes).unwrap();
    assert_eq!(data.header.prg_rom_size, 1);
    assert_eq!(data.header.chr_rom_size, 1);
    assert_eq!(data.header.mapper, 1);
    assert!(data.header.nametable_arrangement == NametableArrangement::Horizontal);
    assert!(data.header.console_type == ConsoleType::NES);
    assert!(data.header.timing_mode == TimingMode::NTSC);
    assert_eq!(data.prg_rom.len(), 16384);
    assert_eq!(data.chr_rom.len(), 8192);
    assert_eq!(data.prg_rom[0], bytes[16]);
    assert_eq!(data.prg_rom[300], (300 % 251) as u8);
    assert_eq!(data.chr_rom[9], (9 % 7) as u8);
}

#[test]
fn vertical_mirroring_when_bit0_clear() {
    let bytes = image(1, 0, 0x00, 0x00);
    let data = parse_rom(&bytes).unwrap();
    assert!(data.header.nametable_arrangement == NametableArrangement::Vertical);
    assert_eq!(data.chr_rom.len(), 0);
}

#[test]
fn refuses_missing_magic() {
    let mut bytes = image(1, 1, 0, 0);
    bytes[3] = 0x1B;
    let r = parse_rom(&bytes);
    assert!(matches!(r, Err(RomError::UnrecognizedFormat)));
    assert_eq!(RomError::UnrecognizedFormat.message(), "unrecognized ROM format");
}

#[test]
fn refuses_truncated_image() {
    let mut bytes = image(2, 1, 0, 0);
    bytes.truncate(16 + 16384);
    assert!(matches!(parse_rom(&bytes), Err(RomError::UnrecognizedFormat)));
    let mut bytes = image(1, 1, 0, 0);
    bytes.pop();
    assert!(matches!(parse_rom(&bytes), Err(RomError::UnrecognizedFormat)));
}

#[test]
fn nes2_header_fields() {
    let mut h = [0u8; 16];
    h[0..4].copy_from_slice(&[0x4E, 0x45, 0x53, 0x1A]);
    h[4] = 2;
    h[5] = 1;
    h[6] = 0x4D; // mapper low nibble 4, alt layout, trainer, horizontal
    h[7] = 0x08 | 0x20 | 0x01; // NES 2.0, mapper nibble 2, Vs. System
    h[8] = 0x31; // submapper 3, low nibble 1
    h[9] = 0x21; // prg high nibble 1, chr high nibble 2
    h[10] = 0x27; // prg ram shift 7, nvram shift 2
    h[11] = 0x05;
    h[12] = 0x01;
    h[14] = 0x02;
    h[15] = 0x85;
    let header = parse_nes_header(&h);
    // The low nibble of byte 8 gives bits 8-11 of the 12-bit mapper number.
    assert_eq!(header.mapper, 0x124);
    assert_eq!(header.submapper, 3);
    assert_eq!(header.prg_rom_size, 0x102);
    assert_eq!(header.chr_rom_size, 0x201);
    assert!(header.trainer);
    assert!(header.alt_nametable_layout);
    assert!(!header.nvm_present);
    assert!(header.console_type == ConsoleType::VsSystem);
    assert_eq!(header.prg_ram_size, 64 << 7);
    assert_eq!(header.prg_nvram_size, 64 << 2);
    assert_eq!(header.chr_ram_size, 64 << 5);
    assert_eq!(header.chr_nvram_size, 64 << 2);
    assert!(header.timing_mode == TimingMode::PAL);
    assert_eq!(header.misc_roms, 2);
    assert_eq!(header.default_expansion_device, 5);
}

#[test]
fn ines_header_ignores_nes2_fields() {
    let mut h = [0u8; 16];
    h[0..4].copy_from_slice(&[0x4E, 0x45, 0x53, 0x1A]);
    h[6] = 0x10;
    h[7] = 0x20;
    h[8] = 9;
    h[12] = 3;
    let header = parse_nes_header(&h);
    assert_eq!(header.mapper, 0x21);
    assert_eq!(header.prg_ram_size, 9);
    assert!(header.timing_mode == TimingMode::NTSC);
    assert_eq!(header.chr_ram_size, 0);
}
