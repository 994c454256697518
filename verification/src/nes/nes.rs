use vstd::prelude::*;

use crate::addressing::{address_crosses_page, page_of, AddressingMode};
use crate::bits::{lemma_byte, lemma_join, lemma_signed_overflow, lemma_word};
use crate::cpu::{CPUFlags, CPU};
use crate::instruction::Instruction;
use crate::nes::{NESModel, NES};
use crate::opcodes::InstructionData;

verus! {

broadcast use crate::nes::group_nes_memory;

/// The four shift and rotate operations.
#[derive(Copy, Clone, PartialEq, Eq, Structural, Debug)]
pub enum ShiftKind {
    ASL,
    LSR,
    ROL,
    ROR,
}

/// The three bitwise operations on the accumulator.
#[derive(Copy, Clone, PartialEq, Eq, Structural, Debug)]
pub enum BitOp {
    And,
    Or,
    Xor,
}

/// The three data registers.
#[derive(Copy, Clone, PartialEq, Eq, Structural, Debug)]
pub enum Reg {
    A,
    X,
    Y,
}

/// A shift or rotate of `v` with carry in `c`: the result and the carry out.
/// Shifting left moves bit 7 into the carry, shifting right bit 0; a rotate
/// fills the vacated bit from the carry in.
pub open spec fn shift_result(kind: ShiftKind, v: u8, c: bool) -> (u8, bool) {
    let cin: int = if c { 1 } else { 0 };
    match kind {
        ShiftKind::ASL => (((v as int * 2) % 256) as u8, v >= 128),
        ShiftKind::LSR => ((v as int / 2) as u8, v % 2 == 1),
        ShiftKind::ROL => (((v as int * 2) % 256 + cin) as u8, v >= 128),
        ShiftKind::ROR => ((v as int / 2 + 128 * cin) as u8, v % 2 == 1),
    }
}

pub fn shift_op(kind: ShiftKind, v: u8, c: bool) -> (r: (u8, bool))
    ensures
        r == shift_result(kind, v, c),
{
    let cb: u8 = if c { 1 } else { 0 };
    proof {
        lemma_byte(v);
    }
    match kind {
        ShiftKind::ASL => {
            (v << 1, (v & 0x80) != 0)
        },
        ShiftKind::LSR => {
            (v >> 1, (v & 0x01) != 0)
        },
        ShiftKind::ROL => {
            assert(cb <= 1 ==> (v << 1u8) | cb == ((v as int * 2) % 256 + cb) as u8 && ((v & 0x80) != 0) == (
            v >= 128)) by (bit_vector);
            ((v << 1) | cb, (v & 0x80) != 0)
        },
        ShiftKind::ROR => {
            assert(cb <= 1 ==> (v >> 1u8) | (cb << 7u8) == (v / 2 + 128 * cb) as u8 && ((v & 0x01) != 0) == (
            v % 2 == 1)) by (bit_vector);
            ((v >> 1) | (cb << 7), (v & 0x01) != 0)
        },
    }
}

pub open spec fn bit_result(op: BitOp, a: u8, m: u8) -> u8 {
    match op {
        BitOp::And => a & m,
        BitOp::Or => a | m,
        BitOp::Xor => a ^ m,
    }
}

pub open spec fn reg_value(cpu: CPU, r: Reg) -> u8 {
    match r {
        Reg::A => cpu.acc,
        Reg::X => cpu.x,
        Reg::Y => cpu.y,
    }
}

pub open spec fn with_reg(cpu: CPU, r: Reg, v: u8) -> CPU {
    match r {
        Reg::A => CPU { acc: v, ..cpu },
        Reg::X => CPU { x: v, ..cpu },
        Reg::Y => CPU { y: v, ..cpu },
    }
}

/// The stack lives in page 1.
pub open spec fn stack_addr(s: u8) -> u16 {
    (0x100 + s as int) as u16
}

pub open spec fn wrap8(v: int) -> u8 {
    (v % 256) as u8
}

pub open spec fn wrap16(v: int) -> u16 {
    (v % 65536) as u16
}

/// An 8-bit add with carry in: the sum's low byte, the carry out, and
/// whether the signed sum overflowed (both inputs of one sign, the result of
/// the other).
pub open spec fn add_result(a: u8, m: u8, c: bool) -> (u8, bool, bool) {
    let sum = a + m + if c { 1int } else { 0int };
    let r = (sum % 256) as u8;
    (r, sum > 255, (a >= 128) == (m >= 128) && (r >= 128) != (a >= 128))
}

/// A byte one up or one down, wrapping.
pub open spec fn step_byte(v: u8, inc: bool) -> u8 {
    if inc { wrap8(v + 1) } else { wrap8(v + 255) }
}

/// The flags set from a status byte pulled off the stack: CARRY, ZERO, IRQ,
/// DECIMAL, OVERFLOW and NEGATIVE from bits 0, 1, 2, 3, 6 and 7.
pub open spec fn restore_flags(cpu: CPU, bits: u8) -> CPU {
    cpu.with_flag(CPUFlags::CARRY, bits & 0x01 != 0).with_flag(CPUFlags::ZERO, bits & 0x02 != 0)
        .with_flag(CPUFlags::IRQ, bits & 0x04 != 0).with_flag(CPUFlags::DECIMAL, bits & 0x08 != 0)
        .with_flag(CPUFlags::OVERFLOW, bits & 0x40 != 0).with_flag(CPUFlags::NEGATIVE, bits & 0x80 != 0)
}

/// The instructions that touch the registers alone: flag sets and clears,
/// transfers, increments and decrements of X and Y, and NOP.
pub open spec fn register_op(cpu: CPU, i: Instruction) -> CPU {
    match i {
        Instruction::CLC => cpu.with_flag(CPUFlags::CARRY, false),
        Instruction::CLD => cpu.with_flag(CPUFlags::DECIMAL, false),
        Instruction::CLI => cpu.with_flag(CPUFlags::IRQ, false),
        Instruction::CLV => cpu.with_flag(CPUFlags::OVERFLOW, false),
        Instruction::SEC => cpu.with_flag(CPUFlags::CARRY, true),
        Instruction::SED => cpu.with_flag(CPUFlags::DECIMAL, true),
        Instruction::SEI => cpu.with_flag(CPUFlags::IRQ, true),
        Instruction::DEX => CPU { x: step_byte(cpu.x, false), ..cpu }.with_zn(step_byte(cpu.x, false)),
        Instruction::DEY => CPU { y: step_byte(cpu.y, false), ..cpu }.with_zn(step_byte(cpu.y, false)),
        Instruction::INX => CPU { x: step_byte(cpu.x, true), ..cpu }.with_zn(step_byte(cpu.x, true)),
        Instruction::INY => CPU { y: step_byte(cpu.y, true), ..cpu }.with_zn(step_byte(cpu.y, true)),
        Instruction::TSX => CPU { x: cpu.s, ..cpu }.with_zn(cpu.s),
        Instruction::TXS => CPU { s: cpu.x, ..cpu },
        Instruction::TAX => CPU { x: cpu.acc, ..cpu }.with_zn(cpu.acc),
        Instruction::TXA => CPU { acc: cpu.x, ..cpu }.with_zn(cpu.x),
        Instruction::TAY => CPU { y: cpu.acc, ..cpu }.with_zn(cpu.acc),
        Instruction::TYA => CPU { acc: cpu.y, ..cpu }.with_zn(cpu.y),
        _ => cpu,
    }
}

/// Whether `register_op` covers `i`.
pub open spec fn is_register_op(i: Instruction) -> bool {
    match i {
        Instruction::CLC | Instruction::CLD | Instruction::CLI | Instruction::CLV | Instruction::SEC
        | Instruction::SED | Instruction::SEI | Instruction::DEX | Instruction::DEY | Instruction::INX
        | Instruction::INY | Instruction::TSX | Instruction::TXS | Instruction::TAX | Instruction::TXA
        | Instruction::TAY | Instruction::TYA | Instruction::NOP => true,
        _ => false,
    }
}

impl NESModel {
    pub open spec fn with_cpu(self, cpu: CPU) -> NESModel {
        NESModel { cpu, ..self }
    }

    /// A push: the byte stored at the stack pointer, which then moves down.
    pub open spec fn push_state(self, value: u8) -> NESModel {
        let s = self.after_write(stack_addr(self.cpu.s), value);
        s.with_cpu(CPU { s: wrap8(self.cpu.s - 1 + 256), ..s.cpu })
    }

    /// A pull moves the stack pointer up and reads the byte there.
    pub open spec fn pull_value(self) -> u8 {
        self.read_value(stack_addr(wrap8(self.cpu.s + 1)))
    }

    /// ... and sets ZERO and NEGATIVE from it.
    pub open spec fn pull_state(self) -> NESModel {
        let sp = wrap8(self.cpu.s + 1);
        let v = self.pull_value();
        self.with_cpu(CPU { s: sp, ..self.cpu }.with_zn(v))
    }

    /// A taken branch needs its offset byte.
    pub open spec fn branch_defined(self, condition: bool, arg: Option<u16>) -> bool {
        condition ==> arg is Some
    }

    /// A taken branch moves the program counter by the signed offset from
    /// the instruction's end (the instruction length is added once more by
    /// the caller) and costs a cycle, two when it lands in another page.
    pub open spec fn branch_state(self, condition: bool, arg: Option<u16>) -> NESModel {
        if condition {
            let offset = ((arg->0) as u8) as i8;
            let target = wrap16(self.cpu.pc + 2 + offset + 65536);
            let crossed = page_of(self.cpu.pc) != page_of(target);
            NESModel {
                cpu: CPU { pc: target, ..self.cpu },
                cycles: (self.cycles + 1 + if crossed { 1int } else { 0int }) as usize,
                ..self
            }
        } else {
            self
        }
    }

    /// CMP, CPX, CPY: CARRY when the register is at least the operand, ZERO
    /// when equal, NEGATIVE from bit 7 of the operand; a page crossing costs a
    /// cycle.
    pub open spec fn compare_state(self, mode: AddressingMode, arg: Option<u16>, register: u8) -> NESModel {
        let (value, crossed) = self.value_result(mode, arg);
        let s = self.value_state(mode, arg);
        NESModel {
            cpu: s.cpu.with_flag(CPUFlags::CARRY, register >= value).with_flag(CPUFlags::ZERO, register == value)
                .with_flag(CPUFlags::NEGATIVE, value >= 128),
            cycles: (s.cycles + if crossed { 1int } else { 0int }) as usize,
            ..s
        }
    }

    /// AND, ORA, EOR: the accumulator combined with the operand.
    pub open spec fn bitop_state(self, mode: AddressingMode, arg: Option<u16>, op: BitOp) -> NESModel {
        let (value, crossed) = self.value_result(mode, arg);
        let s = self.value_state(mode, arg);
        let r = bit_result(op, s.cpu.acc, value);
        NESModel {
            cpu: CPU { acc: r, ..s.cpu }.with_zn(r),
            cycles: (s.cycles + if crossed { 1int } else { 0int }) as usize,
            ..s
        }
    }

    /// The state after a shift's flags are set, before its result is stored.
    pub open spec fn shift_flags_state(self, mode: AddressingMode, arg: Option<u16>, kind: ShiftKind) -> NESModel {
        let (value, _) = self.value_result(mode, arg);
        let s = self.value_state(mode, arg);
        let (result, carry) = shift_result(kind, value, s.cpu.flag(CPUFlags::CARRY));
        s.with_cpu(s.cpu.with_flag(CPUFlags::CARRY, carry).with_zn(result))
    }

    pub open spec fn shift_value(self, mode: AddressingMode, arg: Option<u16>, kind: ShiftKind) -> u8 {
        let (value, _) = self.value_result(mode, arg);
        let s = self.value_state(mode, arg);
        shift_result(kind, value, s.cpu.flag(CPUFlags::CARRY)).0
    }

    /// A shift does not fail: its operand can be fetched and, outside
    /// accumulator mode, its address resolved again and written.
    pub open spec fn shift_defined(self, mode: AddressingMode, arg: Option<u16>, kind: ShiftKind) -> bool {
        let s = self.shift_flags_state(mode, arg, kind);
        &&& self.value_defined(mode, arg)
        &&& mode != AddressingMode::Accumulator ==> {
            &&& arg is Some
            &&& s.address_defined(mode, arg->0)
            &&& s.address_result(mode, arg->0) is Some
            &&& s.address_state(mode, arg->0).writable(
                (s.address_result(mode, arg->0)->0).0,
                self.shift_value(mode, arg, kind),
            )
        }
    }

    /// ASL, LSR, ROL, ROR: the operand shifted, CARRY from the bit shifted
    /// out, ZERO and NEGATIVE from the result, which goes back to the
    /// accumulator or to the operand's address.
    pub open spec fn shift_state(self, mode: AddressingMode, arg: Option<u16>, kind: ShiftKind) -> NESModel {
        let s = self.shift_flags_state(mode, arg, kind);
        let result = self.shift_value(mode, arg, kind);
        if mode == AddressingMode::Accumulator {
            s.with_cpu(CPU { acc: result, ..s.cpu })
        } else {
            let t = s.address_state(mode, arg->0);
            t.after_write((s.address_result(mode, arg->0)->0).0, result)
        }
    }

    /// The operand names a memory address: it is present, it resolves, and the
    /// mode is one that addresses memory.
    pub open spec fn operand_defined(self, mode: AddressingMode, arg: Option<u16>) -> bool {
        &&& arg is Some
        &&& self.address_defined(mode, arg->0)
        &&& self.address_result(mode, arg->0) is Some
    }

    /// The effective address of a memory operand.
    pub open spec fn operand_addr(self, mode: AddressingMode, arg: Option<u16>) -> u16 {
        (self.address_result(mode, arg->0)->0).0
    }

    /// The console once a memory operand is resolved.
    pub open spec fn operand_state(self, mode: AddressingMode, arg: Option<u16>) -> NESModel {
        self.address_state(mode, arg->0)
    }

    /// ADC: the accumulator plus the operand plus CARRY, with CARRY out,
    /// OVERFLOW on a signed overflow, ZERO and NEGATIVE from the result; a page
    /// crossing costs a cycle.
    pub open spec fn adc_state(self, mode: AddressingMode, arg: Option<u16>) -> NESModel {
        let (value, crossed) = self.value_result(mode, arg);
        let s = self.value_state(mode, arg);
        s.add_state(value, crossed)
    }

    /// SBC: the accumulator minus the operand minus the borrow, which is ADC
    /// of the operand's complement.
    pub open spec fn sbc_state(self, mode: AddressingMode, arg: Option<u16>) -> NESModel {
        let (value, crossed) = self.value_result(mode, arg);
        let s = self.value_state(mode, arg);
        s.add_state((255 - value) as u8, crossed)
    }

    pub open spec fn add_state(self, value: u8, crossed: bool) -> NESModel {
        let (r, carry, overflow) = add_result(self.cpu.acc, value, self.cpu.flag(CPUFlags::CARRY));
        NESModel {
            cpu: CPU {
                acc: r,
                ..self.cpu.with_flag(CPUFlags::CARRY, carry).with_flag(CPUFlags::OVERFLOW, overflow).with_zn(r)
            },
            cycles: (self.cycles + if crossed { 1int } else { 0int }) as usize,
            ..self
        }
    }

    /// INC and DEC need a memory operand that can be read and written back.
    pub open spec fn incdec_defined(self, mode: AddressingMode, arg: Option<u16>, inc: bool) -> bool {
        let t = self.operand_state(mode, arg);
        let a = self.operand_addr(mode, arg);
        &&& self.operand_defined(mode, arg)
        &&& t.readable(a)
        &&& t.after_read(a).writable(a, step_byte(t.read_value(a), inc))
    }

    /// INC, DEC: the byte at the operand one up or down (wrapping), stored
    /// back; ZERO and NEGATIVE from it.
    pub open spec fn incdec_state(self, mode: AddressingMode, arg: Option<u16>, inc: bool) -> NESModel {
        let t = self.operand_state(mode, arg);
        let a = self.operand_addr(mode, arg);
        let r = step_byte(t.read_value(a), inc);
        let u = t.after_read(a).after_write(a, r);
        u.with_cpu(u.cpu.with_zn(r))
    }

    pub open spec fn load_defined(self, mode: AddressingMode, arg: Option<u16>) -> bool {
        self.operand_defined(mode, arg) && self.operand_state(mode, arg).readable(self.operand_addr(mode, arg))
    }

    /// LDA, LDX, LDY: the register takes the byte at the operand; ZERO and
    /// NEGATIVE from it.
    pub open spec fn load_state(self, mode: AddressingMode, arg: Option<u16>, r: Reg) -> NESModel {
        let t = self.operand_state(mode, arg);
        let a = self.operand_addr(mode, arg);
        let v = t.read_value(a);
        let u = t.after_read(a);
        u.with_cpu(with_reg(u.cpu, r, v).with_zn(v))
    }

    pub open spec fn store_defined(self, mode: AddressingMode, arg: Option<u16>, r: Reg) -> bool {
        let t = self.operand_state(mode, arg);
        self.operand_defined(mode, arg) && t.writable(self.operand_addr(mode, arg), reg_value(t.cpu, r))
    }

    /// STA, STX, STY: the register stored at the operand.
    pub open spec fn store_state(self, mode: AddressingMode, arg: Option<u16>, r: Reg) -> NESModel {
        let t = self.operand_state(mode, arg);
        t.after_write(self.operand_addr(mode, arg), reg_value(t.cpu, r))
    }

    pub open spec fn jmp_defined(self, mode: AddressingMode, arg: Option<u16>) -> bool {
        let t = self.operand_state(mode, arg);
        let a = self.operand_addr(mode, arg);
        &&& self.operand_defined(mode, arg)
        &&& t.readable(a)
        &&& t.after_read(a).readable(wrap16(a + 1))
    }

    /// JMP reads the high byte of the target at the operand and the low byte
    /// after it, and builds the 16-bit program counter from them.
    pub open spec fn jmp_state(self, mode: AddressingMode, arg: Option<u16>) -> NESModel {
        let t = self.operand_state(mode, arg);
        let a = self.operand_addr(mode, arg);
        let hi = t.read_value(a);
        let lo = t.after_read(a).read_value(wrap16(a + 1));
        let u = t.after_read(a).after_read(wrap16(a + 1));
        u.with_cpu(CPU { pc: (hi as int * 256 + lo as int) as u16, ..u.cpu })
    }

    /// The console after JSP pushes the address of its last byte, high byte
    /// first.
    pub open spec fn jsp_pushed(self) -> NESModel {
        let ret = self.cpu.pc + 2;
        self.push_state((ret / 256) as u8).push_state((ret % 256) as u8)
    }

    /// JSP needs its operand, a program counter at most 0xFFFD, and the word
    /// at the operand readable.
    pub open spec fn jsp_defined(self, arg: Option<u16>) -> bool {
        let s = self.jsp_pushed();
        let a = arg->0;
        &&& arg is Some
        &&& self.cpu.pc + 2 <= 0xFFFF
        &&& s.readable(a)
        &&& s.after_read(a).readable(wrap16(a + 1))
    }

    /// JSP: pushes the return address, then reads the target at the operand,
    /// high byte first, as JMP does.
    pub open spec fn jsp_state(self, arg: Option<u16>) -> NESModel {
        let s = self.jsp_pushed();
        let a = arg->0;
        let hi = s.read_value(a);
        let lo = s.after_read(a).read_value(wrap16(a + 1));
        let u = s.after_read(a).after_read(wrap16(a + 1));
        u.with_cpu(CPU { pc: (hi as int * 256 + lo as int) as u16, ..u.cpu })
    }

    /// RTS pulls the low byte and then the high byte of the return address
    /// (each pull sets ZERO and NEGATIVE); the program counter becomes that
    /// address plus one (wrapping).
    pub open spec fn rts_state(self) -> NESModel {
        let lo = self.pull_value();
        let hi = self.pull_state().pull_value();
        let s = self.pull_state().pull_state();
        s.with_cpu(CPU { pc: wrap16(hi as int * 256 + lo as int + 1), ..s.cpu })
    }

    /// BRK pushes the address two bytes on, high byte first, then the status
    /// with bits 4 and 5 set, and moves the program counter to 0xFFFE.
    pub open spec fn brk_state(self) -> NESModel {
        let ret = wrap16(self.cpu.pc + 2);
        let s = self.push_state((ret / 256) as u8).push_state((ret % 256) as u8).push_state(
            self.cpu.flags.bits | 0x30,
        );
        s.with_cpu(CPU { pc: 0xFFFE, ..s.cpu })
    }

    /// RTI pulls the status, then the high and the low byte of the program
    /// counter; the flags are restored from the status pulled.
    pub open spec fn rti_state(self) -> NESModel {
        let flags = self.pull_value();
        let hi = self.pull_state().pull_value();
        let lo = self.pull_state().pull_state().pull_value();
        let s = self.pull_state().pull_state().pull_state();
        s.with_cpu(restore_flags(CPU { pc: (hi as int * 256 + lo as int) as u16, ..s.cpu }, flags))
    }

    /// PHP pushes the status masked by bit 4 and by bit 5, which is always 0.
    pub open spec fn php_state(self) -> NESModel {
        self.push_state(0)
    }

    /// PLP pulls the status and restores the flags from it.
    pub open spec fn plp_state(self) -> NESModel {
        let sp = wrap8(self.cpu.s + 1);
        let bits = self.read_value(stack_addr(sp));
        self.with_cpu(restore_flags(CPU { s: sp, ..self.cpu }, bits))
    }

    /// PLA: the accumulator takes the byte pulled.
    pub open spec fn pla_state(self) -> NESModel {
        let s = self.pull_state();
        s.with_cpu(CPU { acc: self.pull_value(), ..s.cpu })
    }

    /// An instruction decoded as `d` with operand `arg` runs without failing.
    /// BCS and the undecodable ERR are not implemented.
    #[verifier::opaque]
    pub open spec fn exec_defined(self, d: InstructionData, arg: Option<u16>) -> bool {
        let mode = d.address_mode;
        let cpu = self.cpu;
        match d.instruction {
            Instruction::ADC => self.value_defined(mode, arg),
            Instruction::SBC => self.value_defined(mode, arg),
            Instruction::ASL => self.shift_defined(mode, arg, ShiftKind::ASL),
            Instruction::LSR => self.shift_defined(mode, arg, ShiftKind::LSR),
            Instruction::ROL => self.shift_defined(mode, arg, ShiftKind::ROL),
            Instruction::ROR => self.shift_defined(mode, arg, ShiftKind::ROR),
            Instruction::BCC => self.branch_defined(cpu.flag(CPUFlags::CARRY), arg),
            Instruction::BEQ => self.branch_defined(cpu.flag(CPUFlags::ZERO), arg),
            Instruction::BMI => self.branch_defined(cpu.flag(CPUFlags::NEGATIVE), arg),
            Instruction::BNE => self.branch_defined(!cpu.flag(CPUFlags::ZERO), arg),
            Instruction::BPL => self.branch_defined(!cpu.flag(CPUFlags::NEGATIVE), arg),
            Instruction::BVC => self.branch_defined(!cpu.flag(CPUFlags::OVERFLOW), arg),
            Instruction::BVS => self.branch_defined(cpu.flag(CPUFlags::OVERFLOW), arg),
            Instruction::CMP => self.value_defined(mode, arg),
            Instruction::CPX => self.value_defined(mode, arg),
            Instruction::CPY => self.value_defined(mode, arg),
            Instruction::DEC => self.incdec_defined(mode, arg, false),
            Instruction::INC => self.incdec_defined(mode, arg, true),
            Instruction::LDA => self.load_defined(mode, arg),
            Instruction::LDX => self.load_defined(mode, arg),
            Instruction::LDY => self.load_defined(mode, arg),
            Instruction::STA => self.store_defined(mode, arg, Reg::A),
            Instruction::STX => self.store_defined(mode, arg, Reg::X),
            Instruction::STY => self.store_defined(mode, arg, Reg::Y),
            Instruction::JMP => self.jmp_defined(mode, arg),
            Instruction::JSP => self.jsp_defined(arg),
            Instruction::AND => self.value_defined(mode, arg),
            Instruction::ORA => self.value_defined(mode, arg),
            Instruction::EOR => self.value_defined(mode, arg),
            Instruction::BIT => self.value_defined(mode, arg),
            Instruction::BCS => false,
            Instruction::ERR => false,
            _ => true,
        }
    }

    /// The console after the instruction decoded as `d` runs with operand
    /// `arg`, before the program counter moves past it.
    #[verifier::opaque]
    pub open spec fn exec_state(self, d: InstructionData, arg: Option<u16>) -> NESModel {
        let mode = d.address_mode;
        let cpu = self.cpu;
        match d.instruction {
            Instruction::ADC => self.adc_state(mode, arg),
            Instruction::SBC => self.sbc_state(mode, arg),
            Instruction::ASL => self.shift_state(mode, arg, ShiftKind::ASL),
            Instruction::LSR => self.shift_state(mode, arg, ShiftKind::LSR),
            Instruction::ROL => self.shift_state(mode, arg, ShiftKind::ROL),
            Instruction::ROR => self.shift_state(mode, arg, ShiftKind::ROR),
            Instruction::BCC => self.branch_state(cpu.flag(CPUFlags::CARRY), arg),
            Instruction::BEQ => self.branch_state(cpu.flag(CPUFlags::ZERO), arg),
            Instruction::BMI => self.branch_state(cpu.flag(CPUFlags::NEGATIVE), arg),
            Instruction::BNE => self.branch_state(!cpu.flag(CPUFlags::ZERO), arg),
            Instruction::BPL => self.branch_state(!cpu.flag(CPUFlags::NEGATIVE), arg),
            Instruction::BVC => self.branch_state(!cpu.flag(CPUFlags::OVERFLOW), arg),
            Instruction::BVS => self.branch_state(cpu.flag(CPUFlags::OVERFLOW), arg),
            Instruction::CMP => self.compare_state(mode, arg, cpu.acc),
            Instruction::CPX => self.compare_state(mode, arg, cpu.x),
            Instruction::CPY => self.compare_state(mode, arg, cpu.y),
            Instruction::DEC => self.incdec_state(mode, arg, false),
            Instruction::INC => self.incdec_state(mode, arg, true),
            Instruction::LDA => self.load_state(mode, arg, Reg::A),
            Instruction::LDX => self.load_state(mode, arg, Reg::X),
            Instruction::LDY => self.load_state(mode, arg, Reg::Y),
            Instruction::STA => self.store_state(mode, arg, Reg::A),
            Instruction::STX => self.store_state(mode, arg, Reg::X),
            Instruction::STY => self.store_state(mode, arg, Reg::Y),
            Instruction::JMP => self.jmp_state(mode, arg),
            Instruction::JSP => self.jsp_state(arg),
            Instruction::RTS => self.rts_state(),
            Instruction::BRK => self.brk_state(),
            Instruction::RTI => self.rti_state(),
            Instruction::PHA => self.push_state(cpu.acc),
            Instruction::PLA => self.pla_state(),
            Instruction::PHP => self.php_state(),
            Instruction::PLP => self.plp_state(),
            Instruction::AND => self.bitop_state(mode, arg, BitOp::And),
            Instruction::ORA => self.bitop_state(mode, arg, BitOp::Or),
            Instruction::EOR => self.bitop_state(mode, arg, BitOp::Xor),
            Instruction::BIT => self.bit_state(mode, arg),
            _ => self.with_cpu(register_op(cpu, d.instruction)),
        }
    }

    /// The operand bytes after the opcode can be read.
    pub open spec fn fetch_defined(self, bytes: u8) -> bool {
        let pc1 = wrap16(self.cpu.pc + 1);
        let pc2 = wrap16(self.cpu.pc + 2);
        if bytes == 2 {
            self.readable(pc1)
        } else if bytes == 3 {
            self.readable(pc1) && self.after_read(pc1).readable(pc2)
        } else {
            true
        }
    }

    /// The operand of an instruction `bytes` long: none for one byte; the
    /// byte after the opcode for two. For three, both bytes after the opcode
    /// are read, but the first, shifted right by 8 as a 16-bit value, adds
    /// nothing: the operand is the last byte.
    pub open spec fn fetch_arg(self, bytes: u8) -> Option<u16> {
        let pc1 = wrap16(self.cpu.pc + 1);
        let pc2 = wrap16(self.cpu.pc + 2);
        if bytes == 2 {
            Some(self.read_value(pc1) as u16)
        } else if bytes == 3 {
            Some(self.after_read(pc1).read_value(pc2) as u16)
        } else {
            None
        }
    }

    pub open spec fn fetch_state(self, bytes: u8) -> NESModel {
        let pc1 = wrap16(self.cpu.pc + 1);
        let pc2 = wrap16(self.cpu.pc + 2);
        if bytes == 2 {
            self.after_read(pc1)
        } else if bytes == 3 {
            self.after_read(pc1).after_read(pc2)
        } else {
            self
        }
    }

    /// How the opcode at the program counter decodes.
    pub open spec fn decoded(self) -> InstructionData {
        self.table[self.read_value(self.cpu.pc) as int]
    }

    /// The console once the opcode is read and the cycle count set to the
    /// instruction's base count.
    pub open spec fn decode_state(self) -> NESModel {
        NESModel { cycles: self.decoded().cycles as usize, ..self.after_read(self.cpu.pc) }
    }

    /// One instruction can run: its opcode is readable, its length is 1 to 3
    /// bytes, its operand is readable, and it runs without failing.
    pub open spec fn step_defined(self) -> bool {
        let d = self.decoded();
        let s = self.decode_state();
        &&& self.readable(self.cpu.pc)
        &&& 1 <= d.bytes <= 3
        &&& s.fetch_defined(d.bytes)
        &&& s.fetch_state(d.bytes).exec_defined(d, s.fetch_arg(d.bytes))
    }

    /// The console after one instruction: decoded, its operand fetched, run,
    /// and the program counter moved on by its length (wrapping).
    pub open spec fn step_state(self) -> NESModel {
        let d = self.decoded();
        let s = self.decode_state();
        let t = s.fetch_state(d.bytes).exec_state(d, s.fetch_arg(d.bytes));
        t.with_cpu(CPU { pc: wrap16(t.cpu.pc + d.bytes), ..t.cpu })
    }

    /// BIT: OVERFLOW from bit 6 of the operand, ZERO and NEGATIVE from the
    /// operand itself.
    pub open spec fn bit_state(self, mode: AddressingMode, arg: Option<u16>) -> NESModel {
        let (value, _) = self.value_result(mode, arg);
        let s = self.value_state(mode, arg);
        s.with_cpu(s.cpu.with_flag(CPUFlags::OVERFLOW, value & 0x40 != 0).with_zn(value))
    }
}

/// Work RAM answers a read with the last byte written to the same place:
/// the 2 KiB repeat four times below 0x2000, and a write elsewhere in it
/// leaves a byte alone.
pub proof fn lemma_ram_read_after_write(m: NESModel, addr: u16, other: u16, value: u8)
    requires
        m.wf(),
        addr < 0x2000,
        other < 0x2000,
    ensures
        m.after_write(addr, value).read_value(other) == if addr as int % 2048 == other as int % 2048 {
            value
        } else {
            m.read_value(other)
        },
{
}

/// The console after the CPU writes each (address, value) of `ws` in turn.
pub open spec fn after_writes(m: NESModel, ws: Seq<(u16, u8)>) -> NESModel
    decreases ws.len(),
{
    if ws.len() == 0 {
        m
    } else {
        after_writes(m, ws.drop_last()).after_write(ws.last().0, ws.last().1)
    }
}

/// Whether a CPU write to `a` lands on the work-RAM byte that a read of `b`
/// gives.
pub open spec fn ram_alias(a: u16, b: u16) -> bool {
    a < 0x2000 && a as int % 2048 == b as int % 2048
}

/// A CPU write changes work RAM only when it goes there.
proof fn lemma_after_write_ram(m: NESModel, addr: u16, v: u8)
    ensures
        m.after_write(addr, v).ram == if addr < 0x2000 {
            m.ram.update(addr as int % 2048, v)
        } else {
            m.ram
        },
{
    reveal(NESModel::after_write);
}

proof fn lemma_writes_keep_ram_len(m: NESModel, ws: Seq<(u16, u8)>)
    requires
        m.ram.len() == 2048,
    ensures
        after_writes(m, ws).ram.len() == 2048,
    decreases ws.len(),
{
    if ws.len() > 0 {
        lemma_writes_keep_ram_len(m, ws.drop_last());
        lemma_after_write_ram(after_writes(m, ws.drop_last()), ws.last().0, ws.last().1);
    }
}

/// Over any sequence of CPU writes, a read of work RAM gives the value of the
/// last write that landed on the same byte (the 2 KiB repeat four times below
/// 0x2000), and the read changes nothing.
pub proof fn lemma_ram_last_write(m: NESModel, ws: Seq<(u16, u8)>, b: u16, k: int)
    requires
        m.ram.len() == 2048,
        b < 0x2000,
        0 <= k < ws.len(),
        ram_alias(ws[k].0, b),
        forall|j: int| k < j < ws.len() ==> !ram_alias(#[trigger] ws[j].0, b),
    ensures
        after_writes(m, ws).read_value(b) == ws[k].1,
        after_writes(m, ws).after_read(b) == after_writes(m, ws),
    decreases ws.len(),
{
    let rest = ws.drop_last();
    let p = after_writes(m, rest);
    lemma_writes_keep_ram_len(m, rest);
    lemma_after_write_ram(p, ws.last().0, ws.last().1);
    if k < ws.len() - 1 {
        assert forall|j: int| k < j < rest.len() implies !ram_alias(#[trigger] rest[j].0, b) by {
            assert(rest[j] == ws[j]);
        }
        lemma_ram_last_write(m, rest, b, k);
        assert(!ram_alias(ws[ws.len() - 1].0, b));
        assert(p.read_value(b) == p.ram[b as int % 2048]);
    }
}

/// Over a sequence of CPU writes none of which lands on the work-RAM byte
/// that `b` reads, the read gives what it gave before.
pub proof fn lemma_ram_untouched(m: NESModel, ws: Seq<(u16, u8)>, b: u16)
    requires
        m.ram.len() == 2048,
        b < 0x2000,
        forall|j: int| 0 <= j < ws.len() ==> !ram_alias(#[trigger] ws[j].0, b),
    ensures
        after_writes(m, ws).read_value(b) == m.read_value(b),
    decreases ws.len(),
{
    if ws.len() > 0 {
        let rest = ws.drop_last();
        assert forall|j: int| 0 <= j < rest.len() implies !ram_alias(#[trigger] rest[j].0, b) by {
            assert(rest[j] == ws[j]);
        }
        lemma_ram_untouched(m, rest, b);
        lemma_writes_keep_ram_len(m, rest);
        lemma_after_write_ram(after_writes(m, rest), ws.last().0, ws.last().1);
        assert(!ram_alias(ws[ws.len() - 1].0, b));
    }
}

/// A pull gives back the byte the last push stored, and leaves the stack
/// pointer where it was before the push.
pub proof fn lemma_push_then_pull(m: NESModel, value: u8)
    requires
        m.wf(),
    ensures
        m.push_state(value).pull_value() == value,
        m.push_state(value).pull_state().cpu.s == m.cpu.s,
{
}

/// In work RAM a word is stored low byte first.
pub proof fn lemma_word_little_endian(m: NESModel, addr: u16)
    requires
        m.wf(),
        addr < 0x1FFF,
    ensures
        m.read_u16_value(addr) as int == m.ram[addr as int % 2048] + 256 * m.ram[(addr as int + 1) % 2048],
        m.after_read_u16(addr) == m,
{
}

/// ZERO and NEGATIVE after setting them from `v`: ZERO exactly when `v` is 0,
/// NEGATIVE exactly when bit 7 of `v` is set.
pub proof fn lemma_zn_flags(cpu: CPU, v: u8)
    ensures
        cpu.with_zn(v).flag(CPUFlags::ZERO) == (v == 0),
        cpu.with_zn(v).flag(CPUFlags::NEGATIVE) == (v >= 128),
{
    let b = cpu.flags.bits;
    crate::cpu::lemma_flag_bits(b, CPUFlags::ZERO, CPUFlags::NEGATIVE, v == 0);
    let b1 = CPUFlags::with(b, CPUFlags::ZERO, v == 0);
    crate::cpu::lemma_flag_bits(b1, CPUFlags::NEGATIVE, CPUFlags::ZERO, v >= 128);
}

/// AND, ORA and EOR: the accumulator becomes the old accumulator combined
/// with the operand, and the flags follow that result, not the operand: ZERO
/// exactly when the new accumulator is 0, NEGATIVE exactly when its bit 7 is
/// set.
pub proof fn lemma_bitop_flags(m: NESModel, d: InstructionData, arg: Option<u16>)
    requires
        d.instruction == Instruction::AND || d.instruction == Instruction::ORA || d.instruction
            == Instruction::EOR,
    ensures
        ({
            let s = m.exec_state(d, arg);
            let v = m.value_result(d.address_mode, arg).0;
            &&& d.instruction == Instruction::AND ==> s.cpu.acc == m.cpu.acc & v
            &&& d.instruction == Instruction::ORA ==> s.cpu.acc == m.cpu.acc | v
            &&& d.instruction == Instruction::EOR ==> s.cpu.acc == m.cpu.acc ^ v
            &&& s.cpu.flag(CPUFlags::ZERO) == (s.cpu.acc == 0)
            &&& s.cpu.flag(CPUFlags::NEGATIVE) == (s.cpu.acc >= 128)
        }),
{
    reveal(NESModel::exec_state);
    let mode = d.address_mode;
    let t = m.value_state(mode, arg);
    assert(t.cpu == m.cpu);
    let op = if d.instruction == Instruction::AND {
        BitOp::And
    } else if d.instruction == Instruction::ORA {
        BitOp::Or
    } else {
        BitOp::Xor
    };
    let r = bit_result(op, t.cpu.acc, m.value_result(mode, arg).0);
    lemma_zn_flags(CPU { acc: r, ..t.cpu }, r);
}

/// A byte read as a signed (two's complement) number.
pub open spec fn signed(v: u8) -> int {
    if v >= 128 { v - 256 } else { v as int }
}

/// The flags after an add: CARRY, OVERFLOW set as given, ZERO and NEGATIVE
/// from the result.
proof fn lemma_add_flags(cpu: CPU, carry: bool, ov: bool, r: u8)
    ensures
        ({
            let f = cpu.with_flag(CPUFlags::CARRY, carry).with_flag(CPUFlags::OVERFLOW, ov).with_zn(r);
            &&& f.flag(CPUFlags::CARRY) == carry
            &&& f.flag(CPUFlags::OVERFLOW) == ov
            &&& f.flag(CPUFlags::ZERO) == (r == 0)
            &&& f.flag(CPUFlags::NEGATIVE) == (r >= 128)
        }),
{
    let b0 = cpu.flags.bits;
    let b1 = CPUFlags::with(b0, CPUFlags::CARRY, carry);
    let b2 = CPUFlags::with(b1, CPUFlags::OVERFLOW, ov);
    let b3 = CPUFlags::with(b2, CPUFlags::ZERO, r == 0);
    crate::cpu::lemma_flag_bits(b0, CPUFlags::CARRY, CPUFlags::OVERFLOW, carry);
    crate::cpu::lemma_flag_bits(b1, CPUFlags::OVERFLOW, CPUFlags::CARRY, ov);
    crate::cpu::lemma_flag_bits(b2, CPUFlags::ZERO, CPUFlags::CARRY, r == 0);
    crate::cpu::lemma_flag_bits(b2, CPUFlags::ZERO, CPUFlags::OVERFLOW, r == 0);
    crate::cpu::lemma_flag_bits(b3, CPUFlags::NEGATIVE, CPUFlags::CARRY, r >= 128);
    crate::cpu::lemma_flag_bits(b3, CPUFlags::NEGATIVE, CPUFlags::OVERFLOW, r >= 128);
    lemma_zn_flags(cpu.with_flag(CPUFlags::CARRY, carry).with_flag(CPUFlags::OVERFLOW, ov), r);
}

/// ADC and SBC: the accumulator becomes the old one plus the operand plus
/// CARRY (for SBC: minus the operand minus the borrow, the complement of
/// CARRY), modulo 256; CARRY is set exactly when the unsigned sum passes 255
/// (for SBC: when no borrow is needed); OVERFLOW exactly when the signed
/// result leaves -128..127; ZERO and NEGATIVE follow the new accumulator.
pub proof fn lemma_add_subtract(m: NESModel, d: InstructionData, arg: Option<u16>)
    requires
        d.instruction == Instruction::ADC || d.instruction == Instruction::SBC,
    ensures
        ({
            let s = m.exec_state(d, arg);
            let v = m.value_result(d.address_mode, arg).0;
            let a = m.cpu.acc;
            let cin: int = if m.cpu.flag(CPUFlags::CARRY) { 1 } else { 0 };
            &&& d.instruction == Instruction::ADC ==> {
                &&& s.cpu.acc as int == (a + v + cin) % 256
                &&& s.cpu.flag(CPUFlags::CARRY) == (a + v + cin > 255)
                &&& s.cpu.flag(CPUFlags::OVERFLOW) == !(-128 <= signed(a) + signed(v) + cin <= 127)
            }
            &&& d.instruction == Instruction::SBC ==> {
                &&& s.cpu.acc as int == (a - v - (1 - cin)) % 256
                &&& s.cpu.flag(CPUFlags::CARRY) == (a >= v + (1 - cin))
                &&& s.cpu.flag(CPUFlags::OVERFLOW) == !(-128 <= signed(a) - signed(v) - (1 - cin) <= 127)
            }
            &&& s.cpu.flag(CPUFlags::ZERO) == (s.cpu.acc == 0)
            &&& s.cpu.flag(CPUFlags::NEGATIVE) == (s.cpu.acc >= 128)
        }),
{
    let mode = d.address_mode;
    let t = m.value_state(mode, arg);
    let v = m.value_result(mode, arg).0;
    let c = m.cpu.flag(CPUFlags::CARRY);
    let w: u8 = if d.instruction == Instruction::ADC { v } else { (255 - v) as u8 };
    lemma_exec_add(m, d, arg);
    let (r, carry, ov) = add_result(m.cpu.acc, w, c);
    lemma_add_result(m.cpu.acc, w, c);
    lemma_subtract_arith(m.cpu.acc, v, c);
    lemma_add_flags(m.cpu, carry, ov, r);
}

/// ADC and SBC run as `add_state` of the operand (SBC: of its complement).
proof fn lemma_exec_add(m: NESModel, d: InstructionData, arg: Option<u16>)
    requires
        d.instruction == Instruction::ADC || d.instruction == Instruction::SBC,
    ensures
        ({
            let mode = d.address_mode;
            let t = m.value_state(mode, arg);
            let (v, crossed) = m.value_result(mode, arg);
            let w: u8 = if d.instruction == Instruction::ADC { v } else { (255 - v) as u8 };
            &&& t.cpu == m.cpu
            &&& m.exec_state(d, arg) == t.add_state(w, crossed)
        }),
{
    reveal(NESModel::exec_state);
}

/// Adding the complement of `v` and the carry is subtracting `v` and the
/// borrow, modulo 256.
proof fn lemma_subtract_arith(a: u8, v: u8, c: bool)
    ensures
        ({
            let cin: int = if c { 1 } else { 0 };
            let w = (255 - v) as u8;
            &&& (a + w + cin) % 256 == (a - v - (1 - cin)) % 256
            &&& (a + w + cin > 255) == (a >= v + (1 - cin))
            &&& signed(w) == -signed(v) - 1
        }),
{
    let cin: int = if c { 1 } else { 0 };
    let w = (255 - v) as u8;
    assert(a + w + cin == (a - v - (1 - cin)) + 256);
}

/// `add_result` in plain arithmetic.
proof fn lemma_add_result(a: u8, w: u8, c: bool)
    ensures
        ({
            let cin: int = if c { 1 } else { 0 };
            let (r, carry, ov) = add_result(a, w, c);
            &&& r as int == (a + w + cin) % 256
            &&& carry == (a + w + cin > 255)
            &&& ov == !(-128 <= signed(a) + signed(w) + cin <= 127)
        }),
{
}

/// LDA, LDX, LDY: the register takes the byte at the effective address, the
/// other two registers keep their values, and ZERO and NEGATIVE follow the
/// byte loaded.
pub proof fn lemma_load(m: NESModel, d: InstructionData, arg: Option<u16>)
    requires
        d.instruction == Instruction::LDA || d.instruction == Instruction::LDX || d.instruction
            == Instruction::LDY,
    ensures
        ({
            let mode = d.address_mode;
            let s = m.exec_state(d, arg);
            let v = m.operand_state(mode, arg).read_value(m.operand_addr(mode, arg));
            let loaded = if d.instruction == Instruction::LDA {
                s.cpu.acc
            } else if d.instruction == Instruction::LDX {
                s.cpu.x
            } else {
                s.cpu.y
            };
            &&& loaded == v
            &&& d.instruction != Instruction::LDA ==> s.cpu.acc == m.cpu.acc
            &&& d.instruction != Instruction::LDX ==> s.cpu.x == m.cpu.x
            &&& d.instruction != Instruction::LDY ==> s.cpu.y == m.cpu.y
            &&& s.cpu.flag(CPUFlags::ZERO) == (v == 0)
            &&& s.cpu.flag(CPUFlags::NEGATIVE) == (v >= 128)
        }),
{
    reveal(NESModel::exec_state);
    let mode = d.address_mode;
    let t = m.operand_state(mode, arg);
    let a = m.operand_addr(mode, arg);
    let v = t.read_value(a);
    let u = t.after_read(a);
    assert(u.cpu == m.cpu);
    let r = if d.instruction == Instruction::LDA { Reg::A } else if d.instruction == Instruction::LDX {
        Reg::X
    } else {
        Reg::Y
    };
    lemma_zn_flags(with_reg(u.cpu, r, v), v);
}

/// INC and DEC: the byte at the effective address is stored back one up or
/// one down (wrapping at 0 and 255), and ZERO and NEGATIVE follow the new
/// byte.
pub proof fn lemma_incdec(m: NESModel, d: InstructionData, arg: Option<u16>)
    requires
        d.instruction == Instruction::INC || d.instruction == Instruction::DEC,
    ensures
        ({
            let mode = d.address_mode;
            let t = m.operand_state(mode, arg);
            let a = m.operand_addr(mode, arg);
            let old_byte = t.read_value(a);
            let new_byte: int = if d.instruction == Instruction::INC {
                (old_byte + 1) % 256
            } else {
                (old_byte + 255) % 256
            };
            let s = m.exec_state(d, arg);
            &&& s == ({
                let u = t.after_read(a).after_write(a, new_byte as u8);
                u.with_cpu(u.cpu.with_zn(new_byte as u8))
            })
            &&& s.cpu.flag(CPUFlags::ZERO) == (new_byte == 0)
            &&& s.cpu.flag(CPUFlags::NEGATIVE) == (new_byte >= 128)
        }),
{
    reveal(NESModel::exec_state);
    let mode = d.address_mode;
    let t = m.operand_state(mode, arg);
    let a = m.operand_addr(mode, arg);
    let inc = d.instruction == Instruction::INC;
    let r = step_byte(t.read_value(a), inc);
    let u = t.after_read(a).after_write(a, r);
    lemma_zn_flags(u.cpu, r);
}

/// CMP, CPX, CPY: CARRY is set exactly when the register is at least the
/// operand and ZERO exactly when they are equal; no register changes.
pub proof fn lemma_compare(m: NESModel, d: InstructionData, arg: Option<u16>)
    requires
        d.instruction == Instruction::CMP || d.instruction == Instruction::CPX || d.instruction
            == Instruction::CPY,
    ensures
        ({
            let s = m.exec_state(d, arg);
            let v = m.value_result(d.address_mode, arg).0;
            let reg = if d.instruction == Instruction::CMP {
                m.cpu.acc
            } else if d.instruction == Instruction::CPX {
                m.cpu.x
            } else {
                m.cpu.y
            };
            &&& s.cpu.flag(CPUFlags::CARRY) == (reg >= v)
            &&& s.cpu.flag(CPUFlags::ZERO) == (reg == v)
            &&& s.cpu.acc == m.cpu.acc && s.cpu.x == m.cpu.x && s.cpu.y == m.cpu.y
        }),
{
    reveal(NESModel::exec_state);
    let mode = d.address_mode;
    let t = m.value_state(mode, arg);
    assert(t.cpu == m.cpu);
    let v = m.value_result(mode, arg).0;
    let reg = if d.instruction == Instruction::CMP {
        m.cpu.acc
    } else if d.instruction == Instruction::CPX {
        m.cpu.x
    } else {
        m.cpu.y
    };
    let b0 = t.cpu.flags.bits;
    let b1 = CPUFlags::with(b0, CPUFlags::CARRY, reg >= v);
    let b2 = CPUFlags::with(b1, CPUFlags::ZERO, reg == v);
    crate::cpu::lemma_flag_bits(b0, CPUFlags::CARRY, CPUFlags::ZERO, reg >= v);
    crate::cpu::lemma_flag_bits(b1, CPUFlags::ZERO, CPUFlags::CARRY, reg == v);
    crate::cpu::lemma_flag_bits(b2, CPUFlags::NEGATIVE, CPUFlags::CARRY, v >= 128);
    crate::cpu::lemma_flag_bits(b2, CPUFlags::NEGATIVE, CPUFlags::ZERO, v >= 128);
}

/// The branches: each tests one flag (BCC and BCS CARRY, BEQ and BNE ZERO,
/// BMI and BPL NEGATIVE, BVC and BVS OVERFLOW). A branch not taken changes
/// nothing. A taken one moves the program counter to the instruction's
/// address plus 2 plus the operand read as a signed byte (wrapping at 16
/// bits), and costs one cycle more, or two when that lands in another page;
/// no register or flag changes.
pub proof fn lemma_branch(m: NESModel, d: InstructionData, arg: Option<u16>)
    requires
        d.instruction == Instruction::BCC || d.instruction == Instruction::BEQ || d.instruction
            == Instruction::BMI || d.instruction == Instruction::BNE || d.instruction == Instruction::BPL
            || d.instruction == Instruction::BVC || d.instruction == Instruction::BVS,
        arg is Some,
    ensures
        ({
            let s = m.exec_state(d, arg);
            let cond = if d.instruction == Instruction::BCC {
                m.cpu.flag(CPUFlags::CARRY)
            } else if d.instruction == Instruction::BEQ {
                m.cpu.flag(CPUFlags::ZERO)
            } else if d.instruction == Instruction::BMI {
                m.cpu.flag(CPUFlags::NEGATIVE)
            } else if d.instruction == Instruction::BNE {
                !m.cpu.flag(CPUFlags::ZERO)
            } else if d.instruction == Instruction::BPL {
                !m.cpu.flag(CPUFlags::NEGATIVE)
            } else if d.instruction == Instruction::BVC {
                !m.cpu.flag(CPUFlags::OVERFLOW)
            } else {
                m.cpu.flag(CPUFlags::OVERFLOW)
            };
            let target = (m.cpu.pc + 2 + signed((arg->0) as u8)) % 65536;
            &&& !cond ==> s == m
            &&& cond ==> s.cpu == (CPU { pc: target as u16, ..m.cpu })
            &&& (cond && m.cycles <= 0xFFFF) ==> s.cycles == m.cycles + 1 + if m.cpu.pc as int / 256 != target
                / 256 { 1int } else { 0int }
            &&& cond ==> s.ram == m.ram
        }),
{
    let cond = if d.instruction == Instruction::BCC {
        m.cpu.flag(CPUFlags::CARRY)
    } else if d.instruction == Instruction::BEQ {
        m.cpu.flag(CPUFlags::ZERO)
    } else if d.instruction == Instruction::BMI {
        m.cpu.flag(CPUFlags::NEGATIVE)
    } else if d.instruction == Instruction::BNE {
        !m.cpu.flag(CPUFlags::ZERO)
    } else if d.instruction == Instruction::BPL {
        !m.cpu.flag(CPUFlags::NEGATIVE)
    } else if d.instruction == Instruction::BVC {
        !m.cpu.flag(CPUFlags::OVERFLOW)
    } else {
        m.cpu.flag(CPUFlags::OVERFLOW)
    };
    lemma_exec_branch(m, d, arg);
    assert(m.exec_state(d, arg) == m.branch_state(cond, arg));
    let b = (arg->0) as u8;
    crate::bits::lemma_signed_byte(b);
    let x = m.cpu.pc + 2 + signed(b);
    assert((x + 65536) % 65536 == x % 65536);
    assert((b as i8) as int == signed(b));
}

/// A branch runs as `branch_state` of the flag it tests.
proof fn lemma_exec_branch(m: NESModel, d: InstructionData, arg: Option<u16>)
    requires
        d.instruction == Instruction::BCC || d.instruction == Instruction::BEQ || d.instruction
            == Instruction::BMI || d.instruction == Instruction::BNE || d.instruction == Instruction::BPL
            || d.instruction == Instruction::BVC || d.instruction == Instruction::BVS,
    ensures
        ({
            let cond = if d.instruction == Instruction::BCC {
                m.cpu.flag(CPUFlags::CARRY)
            } else if d.instruction == Instruction::BEQ {
                m.cpu.flag(CPUFlags::ZERO)
            } else if d.instruction == Instruction::BMI {
                m.cpu.flag(CPUFlags::NEGATIVE)
            } else if d.instruction == Instruction::BNE {
                !m.cpu.flag(CPUFlags::ZERO)
            } else if d.instruction == Instruction::BPL {
                !m.cpu.flag(CPUFlags::NEGATIVE)
            } else if d.instruction == Instruction::BVC {
                !m.cpu.flag(CPUFlags::OVERFLOW)
            } else {
                m.cpu.flag(CPUFlags::OVERFLOW)
            };
            m.exec_state(d, arg) == m.branch_state(cond, arg)
        }),
{
    reveal(NESModel::exec_state);
}

/// Rotating left and then right through the carry restores the byte and the
/// carry.
pub proof fn lemma_rotate_round_trip(v: u8, c: bool)
    ensures
        ({
            let (r, c2) = shift_result(ShiftKind::ROL, v, c);
            shift_result(ShiftKind::ROR, r, c2) == (v, c)
        }),
{
}

impl NES {
    /// Push `value` onto the stack.
    #[verifier::spinoff_prover]
    #[verifier::rlimit(40)]
    fn stack_push(&mut self, value: u8)
        requires
            old(self)@.wf(),
        ensures
            final(self)@.wf(),
            final(self)@ == old(self)@.push_state(value),
    {
        self.write_addr(0x100 + self.cpu.s as u16, value);
        self.cpu.s = self.cpu.s.wrapping_sub(1);
    }

    #[verifier::spinoff_prover]
    #[verifier::rlimit(40)]
    fn stack_pull(&mut self) -> (r: u8)
        requires
            old(self)@.wf(),
        ensures
            final(self)@.wf(),
            r == old(self)@.pull_value(),
            final(self)@ == old(self)@.pull_state(),
    {
        self.cpu.s = self.cpu.s.wrapping_add(1);
        let result = self.read(0x100 + self.cpu.s as u16);
        self.cpu.set_zn(result);
        return result;
    }

    /// Wrapper for branch instructions: when `condition` holds, jump by the
    /// signed offset, at a cost of one extra cycle, or two if it crosses a
    /// page.
    #[verifier::spinoff_prover]
    #[verifier::rlimit(40)]
    fn branch_if(&mut self, condition: bool, addr: Option<u16>)
        requires
            old(self)@.wf(),
            old(self)@.cycles <= 0xFFFF,
            old(self)@.branch_defined(condition, addr),
        ensures
            final(self)@.wf(),
            final(self)@ == old(self)@.branch_state(condition, addr),
    {
        if condition {
            let offset = addr.unwrap() as u8 as i8;
            let rel = offset as i16 as u16;
            assert(rel as int == (offset as int + 65536) % 65536) by (bit_vector)
                requires
                    rel == offset as i16 as u16,
            ;
            let target = self.cpu.pc.wrapping_add(2).wrapping_add(rel);
            assert(target as int == (self.cpu.pc as int + 2 + offset as int + 65536) % 65536);

            let crossed_page = address_crosses_page(self.cpu.pc, target);
            self.cpu.pc = target;

            self.cycles = self.cycles + 1 + if crossed_page { 1 } else { 0 };
        }
    }

    #[verifier::spinoff_prover]
    #[verifier::rlimit(40)]
    fn compare_reg(&mut self, mode: AddressingMode, addr: Option<u16>, register: u8)
        requires
            old(self)@.wf(),
            old(self)@.cycles <= 0xFFFF,
            old(self)@.value_defined(mode, addr),
        ensures
            final(self)@.wf(),
            final(self)@ == old(self)@.compare_state(mode, addr, register),
    {
        let (value, page_crossed) = self.resolve_value_from_addressmode(mode, addr);
        self.cpu.set_flag(CPUFlags::CARRY, register >= value);
        self.cpu.set_flag(CPUFlags::ZERO, register == value);
        proof {
            lemma_byte(value);
        }
        self.cpu.set_flag(CPUFlags::NEGATIVE, (value & 0x80) != 0);

        if page_crossed {
            self.cycles = self.cycles + 1;
        }
    }

    /// Used by AND, ORA and EOR.
    #[verifier::spinoff_prover]
    #[verifier::rlimit(40)]
    fn bit_operation(&mut self, mode: AddressingMode, arg: Option<u16>, op: BitOp)
        requires
            old(self)@.wf(),
            old(self)@.cycles <= 0xFFFF,
            old(self)@.value_defined(mode, arg),
        ensures
            final(self)@.wf(),
            final(self)@ == old(self)@.bitop_state(mode, arg, op),
    {
        let (memory, page_crossed) = self.resolve_value_from_addressmode(mode, arg);

        self.cpu.acc = match op {
            BitOp::And => self.cpu.acc & memory,
            BitOp::Or => self.cpu.acc | memory,
            BitOp::Xor => self.cpu.acc ^ memory,
        };
        let a = self.cpu.acc;
        self.cpu.set_zn(a);

        if page_crossed {
            self.cycles = self.cycles + 1;
        }
    }

    #[verifier::spinoff_prover]
    #[verifier::rlimit(40)]
    fn shift_rmw(&mut self, mode: AddressingMode, addr: Option<u16>, kind: ShiftKind)
        requires
            old(self)@.wf(),
            old(self)@.shift_defined(mode, addr, kind),
        ensures
            final(self)@.wf(),
            final(self)@ == old(self)@.shift_state(mode, addr, kind),
    {
        let (value, _) = self.resolve_value_from_addressmode(mode, addr);
        let (result, carry) = shift_op(kind, value, self.cpu.get_flag(CPUFlags::CARRY));
        self.cpu.set_flag(CPUFlags::CARRY, carry);
        self.cpu.set_zn(result);
        match mode {
            AddressingMode::Accumulator => {
                self.cpu.acc = result;
            },
            _ => {
                let (address, _) = self.resolve_address(mode, addr.unwrap()).unwrap();
                self.write_addr(address, result);
            },
        }
    }

    #[verifier::spinoff_prover]
    #[verifier::rlimit(40)]
    fn add_with_carry(&mut self, mode: AddressingMode, arg: Option<u16>)
        requires
            old(self)@.wf(),
            old(self)@.cycles <= 0xFFFF,
            old(self)@.value_defined(mode, arg),
        ensures
            final(self)@.wf(),
            final(self)@ == old(self)@.adc_state(mode, arg),
    {
        let (memory, page_crossed) = self.resolve_value_from_addressmode(mode, arg);
        let a = self.cpu.acc;
        let c = self.cpu.flag_as_u8(CPUFlags::CARRY);
        // A = A + memory + C; the sum is formed in 16 bits so that bit 8 is
        // the carry out.
        let sum: u16 = a as u16 + memory as u16 + c as u16;
        let result = sum as u8;
        proof {
            lemma_word(sum);
        }
        self.cpu.set_flag(CPUFlags::CARRY, sum > 0xFF);
        let overflow = ((result ^ a) & (result ^ memory) & 0x80) != 0;
        proof {
            lemma_signed_overflow(a, memory, result);
        }
        self.cpu.set_flag(CPUFlags::OVERFLOW, overflow);
        self.cpu.set_zn(result);
        self.cpu.acc = result;
        if page_crossed {
            self.cycles = self.cycles + 1;
        }
    }

    #[verifier::spinoff_prover]
    #[verifier::rlimit(40)]
    fn subtract_with_carry(&mut self, mode: AddressingMode, arg: Option<u16>)
        requires
            old(self)@.wf(),
            old(self)@.cycles <= 0xFFFF,
            old(self)@.value_defined(mode, arg),
        ensures
            final(self)@.wf(),
            final(self)@ == old(self)@.sbc_state(mode, arg),
    {
        // A = A - memory - ~C, or A = A + ~memory + C
        let (memory, page_crossed) = self.resolve_value_from_addressmode(mode, arg);
        let a = self.cpu.acc;
        let inv = !memory;
        proof {
            lemma_byte(memory);
        }
        // First, treat as u16 to detect overflow
        let result: u16 = a as u16 + (inv as u16) + (self.cpu.flag_as_u8(CPUFlags::CARRY) as u16);
        self.cpu.set_flag(CPUFlags::CARRY, result > 0xFF);
        // Then, cap to u8
        let r = result as u8;
        let overflow = ((r ^ a) & (r ^ inv) & 0x80) != 0;
        proof {
            lemma_word(result);
            lemma_signed_overflow(a, inv, r);
        }
        self.cpu.set_flag(CPUFlags::OVERFLOW, overflow);
        self.cpu.set_zn(r);
        self.cpu.acc = r;
        if page_crossed {
            self.cycles = self.cycles + 1;
        }
    }

    /// INC and DEC.
    #[verifier::spinoff_prover]
    #[verifier::rlimit(40)]
    fn step_memory(&mut self, mode: AddressingMode, arg: Option<u16>, inc: bool)
        requires
            old(self)@.wf(),
            old(self)@.incdec_defined(mode, arg, inc),
        ensures
            final(self)@.wf(),
            final(self)@ == old(self)@.incdec_state(mode, arg, inc),
    {
        let (addr, _) = self.resolve_address(mode, arg.unwrap()).unwrap();
        let v = self.read(addr);
        let result = if inc { v.wrapping_add(1) } else { v.wrapping_sub(1) };
        self.write_addr(addr, result);
        self.cpu.set_zn(result);
    }

    #[verifier::spinoff_prover]
    #[verifier::rlimit(40)]
    fn load(&mut self, mode: AddressingMode, arg: Option<u16>, r: Reg)
        requires
            old(self)@.wf(),
            old(self)@.load_defined(mode, arg),
        ensures
            final(self)@.wf(),
            final(self)@ == old(self)@.load_state(mode, arg, r),
    {
        let (addr, _) = self.resolve_address(mode, arg.unwrap()).unwrap();
        let v = self.read(addr);
        match r {
            Reg::A => {
                self.cpu.acc = v;
            },
            Reg::X => {
                self.cpu.x = v;
            },
            Reg::Y => {
                self.cpu.y = v;
            },
        }
        self.cpu.set_zn(v);
    }

    #[verifier::spinoff_prover]
    #[verifier::rlimit(40)]
    fn store(&mut self, mode: AddressingMode, arg: Option<u16>, r: Reg)
        requires
            old(self)@.wf(),
            old(self)@.store_defined(mode, arg, r),
        ensures
            final(self)@.wf(),
            final(self)@ == old(self)@.store_state(mode, arg, r),
    {
        let (addr, _) = self.resolve_address(mode, arg.unwrap()).unwrap();
        let v = match r {
            Reg::A => self.cpu.acc,
            Reg::X => self.cpu.x,
            Reg::Y => self.cpu.y,
        };
        self.write_addr(addr, v);
    }

    #[verifier::spinoff_prover]
    #[verifier::rlimit(40)]
    fn jump(&mut self, mode: AddressingMode, arg: Option<u16>)
        requires
            old(self)@.wf(),
            old(self)@.jmp_defined(mode, arg),
        ensures
            final(self)@.wf(),
            final(self)@ == old(self)@.jmp_state(mode, arg),
    {
        // Begin to construct 16-bit value to be stored in PC.
        // Denote the two component bytes as highbyte and lowbyte
        let (highbyte_address, _) = self.resolve_address(mode, arg.unwrap()).unwrap();
        let high_byte = self.read(highbyte_address);

        // Emulate NES CPU bug. When addressing a 16-bit value (spanning two
        // byte memory addresses) that crosses a page, the low byte is read
        // from the 0th address of the first page. (Indirect operands do not
        // resolve to an address here, so this arm is not taken.)
        let lowbyte_address = if mode == AddressingMode::Indirect && address_crosses_page(
            highbyte_address,
            highbyte_address.wrapping_add(1),
        ) {
            highbyte_address & 0xFF00
        } else {
            highbyte_address.wrapping_add(1)
        };

        let low_byte = self.read(lowbyte_address);
        let pc = ((high_byte as u16) << 8) | (low_byte as u16);
        proof {
            lemma_join(0, high_byte as u16, low_byte as u16);
        }
        self.cpu.pc = pc;
    }

    /// JSP: jump to subroutine.
    #[verifier::spinoff_prover]
    #[verifier::rlimit(40)]
    fn jump_subroutine(&mut self, arg: Option<u16>)
        requires
            old(self)@.wf(),
            old(self)@.jsp_defined(arg),
        ensures
            final(self)@.wf(),
            final(self)@ == old(self)@.jsp_state(arg),
    {
        let ret = self.cpu.pc + 2;
        self.stack_push((ret >> 8) as u8);  // Push high byte
        proof {
            lemma_word(ret);
        }
        self.stack_push(ret as u8);  // Push low byte

        let addr = arg.unwrap();
        let high = self.read(addr) as u16;
        let low = self.read(addr.wrapping_add(1)) as u16;
        let pc = (high << 8) | low;
        proof {
            lemma_join(0, high, low);
        }
        self.cpu.pc = pc;
    }

    /// RTS: return from subroutine.
    #[verifier::spinoff_prover]
    #[verifier::rlimit(40)]
    fn return_subroutine(&mut self)
        requires
            old(self)@.wf(),
        ensures
            final(self)@.wf(),
            final(self)@ == old(self)@.rts_state(),
    {
        let low = self.stack_pull();
        let high = self.stack_pull();
        let joined = ((high as u16) << 8) | (low as u16);
        proof {
            lemma_join(0, high as u16, low as u16);
        }
        self.cpu.pc = joined.wrapping_add(1);
    }

    /// BRK: push the return address and the status, then go to 0xFFFE.
    #[verifier::spinoff_prover]
    #[verifier::rlimit(40)]
    fn force_break(&mut self)
        requires
            old(self)@.wf(),
        ensures
            final(self)@.wf(),
            final(self)@ == old(self)@.brk_state(),
    {
        let value = self.cpu.pc.wrapping_add(2);
        proof {
            lemma_word(value);
        }
        self.stack_push((value >> 8) as u8);  // push high byte
        self.stack_push(value as u8);  // push low byte
        let bits = self.cpu.flags.bits();
        proof {
            lemma_byte(bits);
        }
        self.stack_push(bits | 0x20 | 0x10);
        self.cpu.pc = 0xFFFE;
    }

    /// RTI: return from interrupt.
    #[verifier::spinoff_prover]
    #[verifier::rlimit(40)]
    fn return_interrupt(&mut self)
        requires
            old(self)@.wf(),
        ensures
            final(self)@.wf(),
            final(self)@ == old(self)@.rti_state(),
    {
        let flags = self.stack_pull();
        let high = self.stack_pull() as u16;
        let low = self.stack_pull() as u16;
        let pc = (high << 8) | low;
        proof {
            lemma_join(0, high, low);
        }
        self.cpu.pc = pc;
        self.restore_status(flags);
    }

    /// Sets CARRY, ZERO, IRQ, DECIMAL, OVERFLOW and NEGATIVE from a status
    /// byte.
    fn restore_status(&mut self, flags: u8)
        ensures
            final(self)@ == old(self)@.with_cpu(restore_flags(old(self)@.cpu, flags)),
    {
        self.cpu.set_flag(CPUFlags::CARRY, (flags & 0x01) != 0);
        self.cpu.set_flag(CPUFlags::ZERO, (flags & 0x02) != 0);
        self.cpu.set_flag(CPUFlags::IRQ, (flags & 0x04) != 0);
        self.cpu.set_flag(CPUFlags::DECIMAL, (flags & 0x08) != 0);
        self.cpu.set_flag(CPUFlags::OVERFLOW, (flags & 0x40) != 0);
        self.cpu.set_flag(CPUFlags::NEGATIVE, (flags & 0x80) != 0);
    }

    /// PHP.
    #[verifier::spinoff_prover]
    #[verifier::rlimit(40)]
    fn push_status(&mut self)
        requires
            old(self)@.wf(),
        ensures
            final(self)@.wf(),
            final(self)@ == old(self)@.php_state(),
    {
        let bits = self.cpu.flags.bits();
        let v = bits & 0x10 & 0x20;
        proof {
            lemma_byte(bits);
        }
        self.write_addr(0x100 + (self.cpu.s as u16), v);
        self.cpu.s = self.cpu.s.wrapping_sub(1);
    }

    /// PLP.
    #[verifier::spinoff_prover]
    #[verifier::rlimit(40)]
    fn pull_status(&mut self)
        requires
            old(self)@.wf(),
        ensures
            final(self)@.wf(),
            final(self)@ == old(self)@.plp_state(),
    {
        self.cpu.s = self.cpu.s.wrapping_add(1);
        let bits = self.read(0x100 + (self.cpu.s as u16));
        self.restore_status(bits);
    }

    /// BIT.
    #[verifier::spinoff_prover]
    #[verifier::rlimit(40)]
    fn bit_test(&mut self, mode: AddressingMode, arg: Option<u16>)
        requires
            old(self)@.wf(),
            old(self)@.value_defined(mode, arg),
        ensures
            final(self)@.wf(),
            final(self)@ == old(self)@.bit_state(mode, arg),
    {
        let (value, _) = self.resolve_value_from_addressmode(mode, arg);
        self.cpu.set_flag(CPUFlags::OVERFLOW, (value & 0x40) != 0);
        self.cpu.set_zn(value);
    }

    /// Runs the instruction decoded as `d` with operand `arg`.
    #[verifier::spinoff_prover]
    #[verifier::rlimit(50)]
    fn execute(&mut self, d: InstructionData, arg: Option<u16>)
        requires
            old(self)@.wf(),
            old(self)@.cycles <= 0xFF,
            old(self)@.exec_defined(d, arg),
        ensures
            final(self)@.wf(),
            final(self)@ == old(self)@.exec_state(d, arg),
    {
        reveal(NESModel::exec_defined);
        reveal(NESModel::exec_state);
        let addr_mode = d.address_mode;
        match d.instruction {
            Instruction::ADC => self.add_with_carry(addr_mode, arg),
            Instruction::SBC => self.subtract_with_carry(addr_mode, arg),
            Instruction::ASL => self.shift_rmw(addr_mode, arg, ShiftKind::ASL),
            Instruction::LSR => self.shift_rmw(addr_mode, arg, ShiftKind::LSR),
            Instruction::ROL => self.shift_rmw(addr_mode, arg, ShiftKind::ROL),
            Instruction::ROR => self.shift_rmw(addr_mode, arg, ShiftKind::ROR),
            Instruction::BCC => {
                let c = self.cpu.get_flag(CPUFlags::CARRY);
                self.branch_if(c, arg);
            },
            Instruction::BEQ => {
                let c = self.cpu.get_flag(CPUFlags::ZERO);
                self.branch_if(c, arg);
            },
            Instruction::BMI => {
                let c = self.cpu.get_flag(CPUFlags::NEGATIVE);
                self.branch_if(c, arg);
            },
            Instruction::BNE => {
                let c = !self.cpu.get_flag(CPUFlags::ZERO);
                self.branch_if(c, arg);
            },
            Instruction::BPL => {
                let c = !self.cpu.get_flag(CPUFlags::NEGATIVE);
                self.branch_if(c, arg);
            },
            Instruction::BVC => {
                let c = !self.cpu.get_flag(CPUFlags::OVERFLOW);
                self.branch_if(c, arg);
            },
            Instruction::BVS => {
                let c = self.cpu.get_flag(CPUFlags::OVERFLOW);
                self.branch_if(c, arg);
            },
            Instruction::CMP => {
                let r = self.cpu.acc;
                self.compare_reg(addr_mode, arg, r);
            },
            Instruction::CPX => {
                let r = self.cpu.x;
                self.compare_reg(addr_mode, arg, r);
            },
            Instruction::CPY => {
                let r = self.cpu.y;
                self.compare_reg(addr_mode, arg, r);
            },
            Instruction::DEC => self.step_memory(addr_mode, arg, false),
            Instruction::INC => self.step_memory(addr_mode, arg, true),
            Instruction::LDA => self.load(addr_mode, arg, Reg::A),
            Instruction::LDX => self.load(addr_mode, arg, Reg::X),
            Instruction::LDY => self.load(addr_mode, arg, Reg::Y),
            Instruction::STA => self.store(addr_mode, arg, Reg::A),
            Instruction::STX => self.store(addr_mode, arg, Reg::X),
            Instruction::STY => self.store(addr_mode, arg, Reg::Y),
            Instruction::JMP => self.jump(addr_mode, arg),
            Instruction::JSP => self.jump_subroutine(arg),
            Instruction::RTS => self.return_subroutine(),
            Instruction::BRK => self.force_break(),
            Instruction::RTI => self.return_interrupt(),
            Instruction::PHA => {
                let a = self.cpu.acc;
                self.stack_push(a);
            },
            Instruction::PLA => {
                self.cpu.acc = self.stack_pull();
            },
            Instruction::PHP => self.push_status(),
            Instruction::PLP => self.pull_status(),
            Instruction::AND => self.bit_operation(addr_mode, arg, BitOp::And),
            Instruction::ORA => self.bit_operation(addr_mode, arg, BitOp::Or),
            Instruction::EOR => self.bit_operation(addr_mode, arg, BitOp::Xor),
            Instruction::BIT => self.bit_test(addr_mode, arg),
            _ => self.register_instruction(d.instruction),
        }
    }

    /// Runs one instruction: reads the opcode at the program counter, decodes
    /// it, sets the cycle count to its base count, fetches its operand, runs
    /// it and advances the program counter past it.
    #[verifier::spinoff_prover]
    #[verifier::rlimit(40)]
    pub fn tick(&mut self)
        requires
            old(self)@.wf(),
            old(self)@.step_defined(),
        ensures
            final(self)@.wf(),
            final(self)@ == old(self)@.step_state(),
    {
        let pc = self.cpu.pc;
        let opcode = self.read(pc);
        let instruction_data = self.instruction_data[opcode as usize];
        self.cycles = instruction_data.cycles as usize;

        let arg: Option<u16> = match instruction_data.bytes {
            1 => None,
            2 => Some(self.read(self.cpu.pc.wrapping_add(1)) as u16),
            _ => {
                let first = self.read(self.cpu.pc.wrapping_add(1)) as u16;
                let second = self.read(self.cpu.pc.wrapping_add(2)) as u16;
                proof {
                    lemma_join(0, first, second);
                }
                Some((first >> 8) + second)
            },
        };

        // execute instruction...
        self.execute(instruction_data, arg);

        // advance program counter
        self.cpu.pc = self.cpu.pc.wrapping_add(instruction_data.bytes as u16);
    }

    /// The instructions that touch the registers alone.
    fn register_instruction(&mut self, i: Instruction)
        requires
            is_register_op(i),
        ensures
            final(self)@ == old(self)@.with_cpu(register_op(old(self)@.cpu, i)),
    {
        match i {
            Instruction::CLC => {
                self.cpu.set_flag(CPUFlags::CARRY, false);
            },
            Instruction::CLD => {
                self.cpu.set_flag(CPUFlags::DECIMAL, false);
            },
            Instruction::CLI => {
                self.cpu.set_flag(CPUFlags::IRQ, false);
            },
            Instruction::CLV => {
                self.cpu.set_flag(CPUFlags::OVERFLOW, false);
            },
            Instruction::SEC => {
                self.cpu.set_flag(CPUFlags::CARRY, true);
            },
            Instruction::SED => {
                self.cpu.set_flag(CPUFlags::DECIMAL, true);
            },
            Instruction::SEI => {
                self.cpu.set_flag(CPUFlags::IRQ, true);
            },
            Instruction::DEX => {
                self.cpu.x = self.cpu.x.wrapping_sub(1);
                let v = self.cpu.x;
                self.cpu.set_zn(v);
            },
            Instruction::DEY => {
                self.cpu.y = self.cpu.y.wrapping_sub(1);
                let v = self.cpu.y;
                self.cpu.set_zn(v);
            },
            Instruction::INX => {
                self.cpu.x = self.cpu.x.wrapping_add(1);
                let v = self.cpu.x;
                self.cpu.set_zn(v);
            },
            Instruction::INY => {
                self.cpu.y = self.cpu.y.wrapping_add(1);
                let v = self.cpu.y;
                self.cpu.set_zn(v);
            },
            Instruction::TSX => {
                self.cpu.x = self.cpu.s;
                let v = self.cpu.x;
                self.cpu.set_zn(v);
            },
            Instruction::TXS => {
                self.cpu.s = self.cpu.x;
            },
            Instruction::TAX => {
                self.cpu.x = self.cpu.acc;
                let v = self.cpu.x;
                self.cpu.set_zn(v);
            },
            Instruction::TXA => {
                self.cpu.acc = self.cpu.x;
                let v = self.cpu.x;
                self.cpu.set_zn(v);
            },
            Instruction::TAY => {
                self.cpu.y = self.cpu.acc;
                let v = self.cpu.y;
                self.cpu.set_zn(v);
            },
            Instruction::TYA => {
                self.cpu.acc = self.cpu.y;
                let v = self.cpu.y;
                self.cpu.set_zn(v);
            },
            _ => {},
        }
    }
}

} // verus!
