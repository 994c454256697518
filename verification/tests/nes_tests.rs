use nes_emulator::addressing::AddressingMode;
use nes_emulator::nes::mappers::mapper_0::NROM;
use nes_emulator::nes::{can_power_on, NES};
use nes_emulator::nes_parser::{
    ConsoleType, NES2Header, NESData, NametableArrangement, TimingMode,
};

fn header(prg_banks: u16, chr_banks: u16, mapper: u16) -> NES2Header {
    NES2Header {
        nametable_arrangement: NametableArrangement::Vertical,
        nvm_present: false,
        trainer: false,
        alt_nametable_layout: false,
        console_type: ConsoleType::NES,
        mapper,
        submapper: 0,
        prg_rom_size: prg_banks,
        chr_rom_size: chr_banks,
        prg_ram_size: 0,
        prg_nvram_size: 0,
        chr_ram_size: 0,
        chr_nvram_size: 0,
        timing_mode: TimingMode::NTSC,
        default_expansion_device: 0,
        misc_roms: 0,
    }
}

/// A 16 KiB NROM cartridge with `program` at 0x8000 and the reset vector
/// pointing there.
fn cartridge(program: &[u8]) -> NESData {
    let mut prg = vec![0u8; 16384];
    prg[..program.len()].copy_from_slice(program);
    prg[0x3FFC] = 0x00;
    prg[0x3FFD] = 0x80;
    NESData { prg_rom: prg, chr_rom: vec![0u8; 8192], header: header(1, 1, 0) }
}

fn colors() -> Vec<[u8; 3]> {
    (0..64u8).map(|i| [i, i, i]).collect()
}

fn acc(nes: &mut NES) -> u8 {
    nes.resolve_value_from_addressmode(AddressingMode::Accumulator, None).0
}

#[test]
fn reset_vector_loads_the_program_counter() {
    let mut nes = NES::new(cartridge(&[]), &colors());
    assert_eq!(nes.read_u16(0xFFFC), 0x8000);
    // With one bank, 0xC000-0xFFFF mirrors 0x8000-0xBFFF.
    assert_eq!(nes.read(0xBFFD), 0x80);
    assert_eq!(nes.cycles(), 0);
}

#[test]
fn work_ram_mirrors_every_2k() {
    let mut nes = NES::new(cartridge(&[]), &colors());
    nes.write_addr(0x0002, 7);
    assert_eq!(nes.read(0x0002), 7);
    assert_eq!(nes.read(0x0802), 7);
    assert_eq!(nes.read(0x1802), 7);
    nes.write_addr(0x1FFF, 9);
    assert_eq!(nes.read(0x07FF), 9);
}

#[test]
fn ppu_registers_repeat_every_8_bytes() {
    let mut nes = NES::new(cartridge(&[]), &colors());
    nes.write_addr(0x2000, 0x80);
    assert_eq!(nes.read(0x2000), 0x80);
    assert_eq!(nes.read(0x2008), 0x80);
    assert_eq!(nes.read(0x3FF8), 0x80);
    // Status starts with vertical blank set.
    assert_eq!(nes.read(0x2002), 0x80);
}

#[test]
fn apu_and_unmapped_read_zero() {
    let mut nes = NES::new(cartridge(&[]), &colors());
    nes.write_addr(0x4000, 0xFF);
    assert_eq!(nes.read(0x4000), 0);
    assert_eq!(nes.read(0x4018), 0);
}

#[test]
fn controller_shifts_out_one_button_per_read() {
    let mut nes = NES::new(cartridge(&[]), &colors());
    nes.set_controller_state(0b1000_0101);
    let bits: Vec<u8> = (0..8).map(|_| nes.read(0x4016)).collect();
    assert_eq!(bits, vec![1, 0, 1, 0, 0, 0, 0, 1]);
    assert_eq!(nes.read(0x4016), 0);
}

#[test]
fn controller_strobe_holds_the_first_button() {
    let mut nes = NES::new(cartridge(&[]), &colors());
    nes.set_controller_state(0b0000_0011);
    nes.write_addr(0x4016, 1);
    assert_eq!(nes.read(0x4016), 1);
    assert_eq!(nes.read(0x4016), 1);
    nes.write_addr(0x4016, 0);
    assert_eq!(nes.read(0x4016), 1);
    assert_eq!(nes.read(0x4016), 1);
    assert_eq!(nes.read(0x4016), 0);
}

#[test]
fn runs_a_short_program() {
    let program = [
        0x69, 0x05, // ADC #$05
        0x69, 0xFB, // ADC #$FB: 0x100, A = 0 with carry
        0x06, 0x10, // ASL $10
        0x65, 0x10, // ADC $10
        0x0A, // ASL A
        0xD0, 0x02, // BNE +2 (taken)
        0x69, 0x10, 0x69, 0x10, // skipped
        0x69, 0x01, // ADC #$01
        0x6D, 0x34, 0x00, // ADC $0000: only the last operand byte counts
    ];
    let mut nes = NES::new(cartridge(&program), &colors());
    nes.write_addr(0x0010, 0x41);
    nes.write_addr(0x0000, 9);

    nes.tick();
    assert_eq!(acc(&mut nes), 5);
    assert_eq!(nes.cycles(), 2);

    nes.tick();
    assert_eq!(acc(&mut nes), 0);

    nes.tick();
    assert_eq!(nes.read(0x0010), 0x82);
    assert_eq!(nes.cycles(), 5);

    // Carry from the ADC above was cleared by the ASL ($41 has bit 7 clear).
    nes.tick();
    assert_eq!(acc(&mut nes), 0x82);
    assert_eq!(nes.cycles(), 3);

    nes.tick();
    assert_eq!(acc(&mut nes), 0x04);

    // The branch is taken: one extra cycle, same page.
    nes.tick();
    assert_eq!(nes.cycles(), 3);

    // 4 + 1 + carry out of the ASL A
    nes.tick();
    assert_eq!(acc(&mut nes), 6);

    nes.tick();
    assert_eq!(acc(&mut nes), 15);
    assert_eq!(nes.cycles(), 4);
}

#[test]
fn resolves_indexed_and_indirect_operands() {
    let mut nes = NES::new(cartridge(&[]), &colors());
    assert_eq!(nes.resolve_address(AddressingMode::ZeroPage, 0x44), Some((0x44, false)));
    assert_eq!(nes.resolve_address(AddressingMode::Absolute, 0x1234), Some((0x1234, false)));
    assert_eq!(nes.resolve_address(AddressingMode::AbsoluteX, 0x12FF), Some((0x12FF, false)));
    assert_eq!(nes.resolve_address(AddressingMode::Immediate, 0x12), None);
    // (Indirect),Y with Y = 0: the pointer at $20/$21.
    nes.write_addr(0x20, 0x34);
    nes.write_addr(0x21, 0x12);
    assert_eq!(nes.resolve_address(AddressingMode::IndirectY, 0x20), Some((0x1234, false)));
    // (Indirect,X) with X = 0 reads the same pointer.
    assert_eq!(nes.resolve_address(AddressingMode::IndirectX, 0x20), Some((0x1234, false)));
    nes.write_addr(0x1234, 0x5A);
    assert_eq!(nes.resolve_value_from_addressmode(AddressingMode::IndirectY, Some(0x20)), (0x5A, false));
    assert_eq!(nes.resolve_value_from_addressmode(AddressingMode::Immediate, Some(0x77)), (0x77, false));
}

#[test]
fn image_starts_blank() {
    let mut nes = NES::new(cartridge(&[]), &colors());
    assert!(!nes.image_ready());
    let img = nes.get_image_bytes();
    assert_eq!(img.len(), 256 * 240 * 4);
    assert!(img.iter().all(|&b| b == 0));
}

#[test]
fn power_on_needs_supported_mapper_and_reset_vector() {
    assert!(can_power_on(&cartridge(&[])));
    let mut data = cartridge(&[]);
    data.header.mapper = 2;
    assert!(!can_power_on(&data));
    let short = NESData { prg_rom: vec![0u8; 0x3FFD], chr_rom: vec![], header: header(1, 0, 0) };
    assert!(!can_power_on(&short));
    let two_banks_short = NESData { prg_rom: vec![0u8; 0x4000], chr_rom: vec![], header: header(2, 0, 0) };
    assert!(!can_power_on(&two_banks_short));
    let mmc1_small = NESData { prg_rom: vec![0u8; 0x4000], chr_rom: vec![], header: header(1, 0, 1) };
    assert!(!can_power_on(&mmc1_small));
    let mmc1 = NESData { prg_rom: vec![0u8; 0x8000], chr_rom: vec![], header: header(2, 0, 1) };
    assert!(can_power_on(&mmc1));
}

#[test]
fn mmc1_reset_vector_is_in_the_last_bank() {
    let mut prg = vec![0u8; 0x10000];
    // PRG mode 3 fixes the last 32 KiB at 0x8000.
    prg[0xFFFC] = 0x34;
    prg[0xFFFD] = 0x92;
    let data = NESData { prg_rom: prg, chr_rom: vec![0u8; 8192], header: header(4, 1, 1) };
    let mut nes = NES::new(data, &colors());
    assert_eq!(nes.read_u16(0xFFFC), 0x9234);
    assert!(nes.can_read(0x8000));
    assert!(nes.can_read(0x0000));
}

#[test]
fn tick_check_refuses_unimplemented_opcodes() {
    // ADC #1 runs; opcode 0x00 decodes to nothing.
    let mut nes = NES::new(cartridge(&[0x69, 0x01]), &colors());
    assert!(nes.can_tick());
    let mut nes = NES::new(cartridge(&[0x00]), &colors());
    assert!(!nes.can_tick());
    // BMI with NEGATIVE clear falls through in its base two cycles.
    let mut nes = NES::new(cartridge(&[0x30, 0x00]), &colors());
    assert!(nes.can_tick());
    nes.tick();
    assert_eq!(nes.cycles(), 2);
    // ASL $14 reaches the zero page, not the DMA port.
    let mut nes = NES::new(cartridge(&[0x06, 0x14]), &colors());
    assert!(nes.can_tick());
    nes.tick();
    assert_eq!(nes.cycles(), 5);
}

#[test]
fn tick_check_leaves_the_console_alone() {
    let mut nes = NES::new(cartridge(&[0x69, 0x01]), &colors());
    assert!(nes.can_tick());
    assert!(nes.can_tick());
    assert_eq!(nes.cycles(), 0);
    assert_eq!(acc(&mut nes), 0);
    nes.tick();
    assert_eq!(acc(&mut nes), 1);
    assert_eq!(nes.cycles(), 2);
}

#[test]
fn code_at_the_controller_port_does_not_decode() {
    let mut prg = vec![0u8; 16384];
    prg[0x3FFC] = 0x16;
    prg[0x3FFD] = 0x40;
    let data = NESData { prg_rom: prg, chr_rom: vec![0u8; 8192], header: header(1, 1, 0) };
    let mut nes = NES::new(data, &colors());
    assert!(!nes.can_tick());
}

#[test]
fn cartridge_read_checks() {
    let small = NROM::new(NESData { prg_rom: vec![0u8; 0x100], chr_rom: vec![], header: header(1, 0, 0) });
    assert!(small.cpu_can_read(0x80FF));
    assert!(!small.cpu_can_read(0x8100));
    assert!(small.cpu_can_read(0x4020));
}
