use vstd::prelude::*;

use crate::addressing::AddressingMode;
use crate::instruction::Instruction;

verus! {

/// How an opcode decodes: its addressing mode, the operation, the length of
/// the instruction in bytes and its base cycle count.
#[derive(Copy, Clone, Debug)]
pub struct InstructionData {
    pub address_mode: AddressingMode,
    pub instruction: Instruction,
    pub bytes: u8,
    pub cycles: u8,
}

/// The decoding of an opcode that names no instruction.
pub open spec fn invalid_entry() -> InstructionData {
    InstructionData { bytes: 0, cycles: 0, instruction: Instruction::ERR, address_mode: AddressingMode::Implied }
}

/// The decoding of each opcode the table knows; every other opcode is invalid.
/// Opcode 0x30 is BMI, the 6502's branch on minus.
pub open spec fn table_entry(op: int) -> InstructionData {
    if op == 0x69 {
        InstructionData { address_mode: AddressingMode::Immediate, instruction: Instruction::ADC, bytes: 2, cycles: 2 }
    } else if op == 0x65 {
        InstructionData { address_mode: AddressingMode::ZeroPage, instruction: Instruction::ADC, bytes: 2, cycles: 3 }
    } else if op == 0x75 {
        InstructionData { address_mode: AddressingMode::ZeroPageX, instruction: Instruction::ADC, bytes: 2, cycles: 4 }
    } else if op == 0x6D {
        InstructionData { address_mode: AddressingMode::Absolute, instruction: Instruction::ADC, bytes: 3, cycles: 4 }
    } else if op == 0x7D {
        InstructionData { address_mode: AddressingMode::AbsoluteX, instruction: Instruction::ADC, bytes: 3, cycles: 4 }
    } else if op == 0x79 {
        InstructionData { address_mode: AddressingMode::AbsoluteY, instruction: Instruction::ADC, bytes: 3, cycles: 4 }
    } else if op == 0x61 {
        InstructionData { address_mode: AddressingMode::IndirectX, instruction: Instruction::ADC, bytes: 2, cycles: 6 }
    } else if op == 0x71 {
        InstructionData { address_mode: AddressingMode::IndirectY, instruction: Instruction::ADC, bytes: 2, cycles: 5 }
    } else if op == 0x29 {
        InstructionData { address_mode: AddressingMode::Immediate, instruction: Instruction::AND, bytes: 2, cycles: 2 }
    } else if op == 0x25 {
        InstructionData { address_mode: AddressingMode::ZeroPage, instruction: Instruction::AND, bytes: 2, cycles: 3 }
    } else if op == 0x35 {
        InstructionData { address_mode: AddressingMode::ZeroPageX, instruction: Instruction::AND, bytes: 2, cycles: 4 }
    } else if op == 0x2D {
        InstructionData { address_mode: AddressingMode::Absolute, instruction: Instruction::AND, bytes: 3, cycles: 4 }
    } else if op == 0x3D {
        InstructionData { address_mode: AddressingMode::AbsoluteX, instruction: Instruction::AND, bytes: 3, cycles: 4 }
    } else if op == 0x39 {
        InstructionData { address_mode: AddressingMode::AbsoluteY, instruction: Instruction::AND, bytes: 3, cycles: 4 }
    } else if op == 0x21 {
        InstructionData { address_mode: AddressingMode::IndirectX, instruction: Instruction::AND, bytes: 2, cycles: 6 }
    } else if op == 0x31 {
        InstructionData { address_mode: AddressingMode::IndirectY, instruction: Instruction::AND, bytes: 2, cycles: 5 }
    } else if op == 0x0A {
        InstructionData { address_mode: AddressingMode::Accumulator, instruction: Instruction::ASL, bytes: 1, cycles: 2 }
    } else if op == 0x06 {
        InstructionData { address_mode: AddressingMode::ZeroPage, instruction: Instruction::ASL, bytes: 2, cycles: 5 }
    } else if op == 0x16 {
        InstructionData { address_mode: AddressingMode::ZeroPageX, instruction: Instruction::ASL, bytes: 2, cycles: 6 }
    } else if op == 0x0E {
        InstructionData { address_mode: AddressingMode::Absolute, instruction: Instruction::ASL, bytes: 3, cycles: 6 }
    } else if op == 0x1E {
        InstructionData { address_mode: AddressingMode::AbsoluteX, instruction: Instruction::ASL, bytes: 3, cycles: 7 }
    } else if op == 0x90 {
        InstructionData { address_mode: AddressingMode::Relative, instruction: Instruction::BCC, bytes: 2, cycles: 2 }
    } else if op == 0x24 {
        InstructionData { address_mode: AddressingMode::ZeroPage, instruction: Instruction::BIT, bytes: 2, cycles: 3 }
    } else if op == 0x2C {
        InstructionData { address_mode: AddressingMode::Absolute, instruction: Instruction::BIT, bytes: 3, cycles: 4 }
    } else if op == 0x30 {
        InstructionData { address_mode: AddressingMode::Relative, instruction: Instruction::BMI, bytes: 2, cycles: 2 }
    } else if op == 0xD0 {
        InstructionData { address_mode: AddressingMode::Relative, instruction: Instruction::BNE, bytes: 2, cycles: 2 }
    } else {
        invalid_entry()
    }
}

impl InstructionData {
    fn invalid() -> (r: InstructionData)
        ensures
            r == invalid_entry(),
    {
        InstructionData {
            bytes: 0,
            cycles: 0,
            instruction: Instruction::ERR,
            address_mode: AddressingMode::Implied,
        }
    }

    /// The decoding table of all 256 opcodes.
    pub fn make_instruction_table() -> (data: Vec<InstructionData>)
        ensures
            data@.len() == 256,
            forall|i: int| 0 <= i < 256 ==> #[trigger] data@[i] == table_entry(i),
    {
        let mut data: Vec<InstructionData> = Vec::new();
        let mut k: usize = 0;
        while k < 256
            invariant
                k <= 256,
                data@.len() == k,
                forall|i: int| 0 <= i < k ==> #[trigger] data@[i] == invalid_entry(),
            decreases 256 - k,
        {
            data.push(InstructionData::invalid());
            k = k + 1;
        }

        data.set(0x69, InstructionData { address_mode: AddressingMode::Immediate, instruction: Instruction::ADC, bytes: 2, cycles: 2 });
        data.set(0x65, InstructionData { address_mode: AddressingMode::ZeroPage, instruction: Instruction::ADC, bytes: 2, cycles: 3 });
        data.set(0x75, InstructionData { address_mode: AddressingMode::ZeroPageX, instruction: Instruction::ADC, bytes: 2, cycles: 4 });
        data.set(0x6D, InstructionData { address_mode: AddressingMode::Absolute, instruction: Instruction::ADC, bytes: 3, cycles: 4 });
        data.set(0x7D, InstructionData { address_mode: AddressingMode::AbsoluteX, instruction: Instruction::ADC, bytes: 3, cycles: 4 });
        data.set(0x79, InstructionData { address_mode: AddressingMode::AbsoluteY, instruction: Instruction::ADC, bytes: 3, cycles: 4 });
        data.set(0x61, InstructionData { address_mode: AddressingMode::IndirectX, instruction: Instruction::ADC, bytes: 2, cycles: 6 });
        data.set(0x71, InstructionData { address_mode: AddressingMode::IndirectY, instruction: Instruction::ADC, bytes: 2, cycles: 5 });
        data.set(0x29, InstructionData { address_mode: AddressingMode::Immediate, instruction: Instruction::AND, bytes: 2, cycles: 2 });
        data.set(0x25, InstructionData { address_mode: AddressingMode::ZeroPage, instruction: Instruction::AND, bytes: 2, cycles: 3 });
        data.set(0x35, InstructionData { address_mode: AddressingMode::ZeroPageX, instruction: Instruction::AND, bytes: 2, cycles: 4 });
        data.set(0x2D, InstructionData { address_mode: AddressingMode::Absolute, instruction: Instruction::AND, bytes: 3, cycles: 4 });
        data.set(0x3D, InstructionData { address_mode: AddressingMode::AbsoluteX, instruction: Instruction::AND, bytes: 3, cycles: 4 });
        data.set(0x39, InstructionData { address_mode: AddressingMode::AbsoluteY, instruction: Instruction::AND, bytes: 3, cycles: 4 });
        data.set(0x21, InstructionData { address_mode: AddressingMode::IndirectX, instruction: Instruction::AND, bytes: 2, cycles: 6 });
        data.set(0x31, InstructionData { address_mode: AddressingMode::IndirectY, instruction: Instruction::AND, bytes: 2, cycles: 5 });
        data.set(0x0A, InstructionData { address_mode: AddressingMode::Accumulator, instruction: Instruction::ASL, bytes: 1, cycles: 2 });
        data.set(0x06, InstructionData { address_mode: AddressingMode::ZeroPage, instruction: Instruction::ASL, bytes: 2, cycles: 5 });
        data.set(0x16, InstructionData { address_mode: AddressingMode::ZeroPageX, instruction: Instruction::ASL, bytes: 2, cycles: 6 });
        data.set(0x0E, InstructionData { address_mode: AddressingMode::Absolute, instruction: Instruction::ASL, bytes: 3, cycles: 6 });
        data.set(0x1E, InstructionData { address_mode: AddressingMode::AbsoluteX, instruction: Instruction::ASL, bytes: 3, cycles: 7 });
        data.set(0x90, InstructionData { address_mode: AddressingMode::Relative, instruction: Instruction::BCC, bytes: 2, cycles: 2 });
        data.set(0x24, InstructionData { address_mode: AddressingMode::ZeroPage, instruction: Instruction::BIT, bytes: 2, cycles: 3 });
        data.set(0x2C, InstructionData { address_mode: AddressingMode::Absolute, instruction: Instruction::BIT, bytes: 3, cycles: 4 });
        data.set(0x30, InstructionData { address_mode: AddressingMode::Relative, instruction: Instruction::BMI, bytes: 2, cycles: 2 });
        data.set(0xD0, InstructionData { address_mode: AddressingMode::Relative, instruction: Instruction::BNE, bytes: 2, cycles: 2 });
        assert forall|i: int| 0 <= i < 256 implies #[trigger] data@[i] == table_entry(i) by {
        }
        data
    }
}

} // verus!
