use nes_emulator::addressing::{address_crosses_page, AddressingMode};
use nes_emulator::cpu::{CPUFlags, CPU};
use nes_emulator::instruction::Instruction;
use nes_emulator::nes::nes::{shift_op, ShiftKind};
use nes_emulator::opcodes::InstructionData;

#[test]
fn cpu_power_on_state() {
    let cpu = CPU::new();
    assert_eq!(cpu.acc, 0);
    assert_eq!(cpu.x, 0);
    assert_eq!(cpu.y, 0);
    assert_eq!(cpu.pc, 0);
    assert_eq!(cpu.s, 0xFD);
    assert_eq!(cpu.flags.bits(), CPUFlags::IRQ);
    assert!(cpu.get_flag(CPUFlags::IRQ));
    assert!(!cpu.get_flag(CPUFlags::CARRY));
}

#[test]
fn set_flag_reads_back_and_leaves_others() {
    let mut cpu = CPU::new();
    cpu.set_flag(CPUFlags::CARRY, true);
    assert!(cpu.get_flag(CPUFlags::CARRY));
    assert!(cpu.get_flag(CPUFlags::IRQ));
    assert_eq!(cpu.flag_as_u8(CPUFlags::CARRY), 1);
    cpu.set_flag(CPUFlags::CARRY, false);
    assert!(!cpu.get_flag(CPUFlags::CARRY));
    assert_eq!(cpu.flag_as_u8(CPUFlags::CARRY), 0);
    assert!(cpu.get_flag(CPUFlags::IRQ));
}

#[test]
fn set_zn_sets_zero_and_negative() {
    let mut cpu = CPU::new();
    cpu.set_zn(0);
    assert!(cpu.get_flag(CPUFlags::ZERO));
    assert!(!cpu.get_flag(CPUFlags::NEGATIVE));
    cpu.set_zn(0x80);
    assert!(!cpu.get_flag(CPUFlags::ZERO));
    assert!(cpu.get_flag(CPUFlags::NEGATIVE));
    cpu.set_zn(0x7F);
    assert!(!cpu.get_flag(CPUFlags::ZERO));
    assert!(!cpu.get_flag(CPUFlags::NEGATIVE));
}

#[test]
fn flags_set_and_clear_masks() {
    let mut f = CPUFlags::empty();
    assert_eq!(f.bits(), 0);
    f.set(CPUFlags::OVERFLOW, true);
    assert!(f.contains(CPUFlags::OVERFLOW));
    assert_eq!(f.bits(), 0x40);
    f.set(CPUFlags::OVERFLOW, false);
    assert_eq!(f.bits(), 0);
    assert_eq!(CPUFlags::from_bits(0xC3).bits(), 0xC3);
}

#[test]
fn page_crossing() {
    assert!(!address_crosses_page(0x1200, 0x12FF));
    assert!(address_crosses_page(0x12FF, 0x1300));
    assert!(address_crosses_page(0xFFFF, 0x0000));
    assert!(!address_crosses_page(0x0000, 0x0000));
}

#[test]
fn shifts_and_rotates() {
    assert_eq!(shift_op(ShiftKind::ASL, 0x81, false), (0x02, true));
    assert_eq!(shift_op(ShiftKind::LSR, 0x81, false), (0x40, true));
    assert_eq!(shift_op(ShiftKind::ROL, 0x81, true), (0x03, true));
    assert_eq!(shift_op(ShiftKind::ROR, 0x80, true), (0xC0, false));
    assert_eq!(shift_op(ShiftKind::ROR, 0x01, false), (0x00, true));
}

#[test]
fn rotate_left_then_right_restores_the_byte() {
    for v in 0..=255u8 {
        for c in [false, true] {
            let (r, c2) = shift_op(ShiftKind::ROL, v, c);
            assert_eq!(shift_op(ShiftKind::ROR, r, c2), (v, c));
        }
    }
}

#[test]
fn mnemonics() {
    assert_eq!(Instruction::ADC.mnemonic(), "adc");
    assert_eq!(Instruction::ERR.mnemonic(), "???");
    assert_eq!(Instruction::TXS.mnemonic(), "txs");
}

#[test]
fn instruction_table_entries() {
    let table = InstructionData::make_instruction_table();
    assert_eq!(table.len(), 256);
    let adc = table[0x69];
    assert!(adc.instruction == Instruction::ADC);
    assert!(adc.address_mode == AddressingMode::Immediate);
    assert_eq!(adc.bytes, 2);
    assert_eq!(adc.cycles, 2);
    let asl = table[0x1E];
    assert!(asl.instruction == Instruction::ASL);
    assert!(asl.address_mode == AddressingMode::AbsoluteX);
    assert_eq!((asl.bytes, asl.cycles), (3, 7));
    assert!(table[0x30].instruction == Instruction::BMI);
    assert!(table[0x30].address_mode == AddressingMode::Relative);
    assert_eq!((table[0x30].bytes, table[0x30].cycles), (2, 2));
    assert!(table[0x00].instruction == Instruction::ERR);
    assert_eq!(table[0x00].bytes, 0);
}
