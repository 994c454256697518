//! Decides, without changing the console, whether the next instruction can
//! run: what a caller tests before `NES::tick`.

use vstd::prelude::*;

use crate::addressing::AddressingMode;
use crate::cpu::CPUFlags;
use crate::instruction::Instruction;
use crate::nes::nes::{shift_op, shift_result, Reg, ShiftKind};
use crate::nes::{target_of, NESModel, Target, NES};
use crate::opcodes::InstructionData;

verus! {

broadcast use crate::nes::group_nes_memory;

/// Whether a write can fail depends on the cartridge alone.
proof fn lemma_writable_cart(m1: NESModel, m2: NESModel, addr: u16, value: u8)
    requires
        m1.cart == m2.cart,
    ensures
        m1.writable(addr, value) == m2.writable(addr, value),
{
    reveal(NESModel::writable);
    assert(m1.dma_ok(value) == m2.dma_ok(value)) by {
        assert forall|i: int|
            #![trigger m1.readable((value as int * 256 + i) as u16)]
            #![trigger m2.readable((value as int * 256 + i) as u16)]
            0 <= i < 256 implies m1.readable((value as int * 256 + i) as u16) == m2.readable(
                (value as int * 256 + i) as u16,
            ) by {}
    }
}

impl NES {
    /// Whether a CPU read of `addr` reaches data that is there.
    pub fn can_read(&self, addr: u16) -> (r: bool)
        requires
            self@.wf(),
        ensures
            r == self@.readable(addr),
    {
        if addr >= 0x4020 {
            self.mapper.cpu_can_read(addr)
        } else {
            true
        }
    }

    /// Whether every byte of CPU page `page` can be read, as an OAM DMA from
    /// that page needs.
    fn dma_source_ok(&self, page: u8) -> (r: bool)
        requires
            self@.wf(),
        ensures
            r == self@.dma_ok(page),
    {
        let base: u16 = (page as u16) * 256;
        let mut i: u16 = 0;
        while i < 256
            invariant
                i <= 256,
                base as int == page as int * 256,
                self@.wf(),
                forall|j: int| 0 <= j < i ==> #[trigger] self@.readable((page as int * 256 + j) as u16),
            decreases 256 - i,
        {
            let ok = self.can_read(base + i);
            if !ok {
                assert(!self@.readable((page as int * 256 + i as int) as u16));
                return false;
            }
            i = i + 1;
        }
        true
    }

    /// Whether a CPU write of `value` to `addr` can happen.
    fn can_write(&self, addr: u16, value: u8) -> (r: bool)
        requires
            self@.wf(),
        ensures
            r == self@.writable(addr, value),
    {
        reveal(NESModel::writable);
        if addr == 0x4014 {
            self.dma_source_ok(value)
        } else {
            true
        }
    }

    /// The effective address of a one-byte operand in `mode` (`None` for the
    /// modes that name no address). Resolving such an operand reads only the
    /// zero page, so nothing changes.
    fn operand_target(&mut self, mode: AddressingMode, a: u16) -> (r: Option<u16>)
        requires
            old(self)@.wf(),
            a <= 255,
        ensures
            final(self)@ == old(self)@,
            old(self)@.address_defined(mode, a),
            old(self)@.address_state(mode, a) == old(self)@,
            r == match old(self)@.address_result(mode, a) {
                Some(res) => Some(res.0),
                None => None::<u16>,
            },
    {
        let ghost m = self@;
        assert(m.address_state(mode, a) == m);
        match self.resolve_address(mode, a) {
            Some((e, _)) => Some(e),
            None => None,
        }
    }

    /// Whether the operand of a value-reading instruction can be fetched.
    fn value_ok(&mut self, mode: AddressingMode, arg: Option<u16>) -> (r: bool)
        requires
            old(self)@.wf(),
            arg matches Some(a) ==> a <= 255,
        ensures
            final(self)@ == old(self)@,
            r == old(self)@.value_defined(mode, arg),
    {
        match mode {
            AddressingMode::Accumulator => true,
            AddressingMode::Immediate => arg.is_some(),
            _ => match arg {
                Some(a) => match self.operand_target(mode, a) {
                    Some(e) => self.can_read(e),
                    None => false,
                },
                None => false,
            },
        }
    }

    /// Whether a shift or rotate of kind `kind` can run.
    fn shift_ok(&mut self, mode: AddressingMode, arg: Option<u16>, kind: ShiftKind) -> (r: bool)
        requires
            old(self)@.wf(),
            arg matches Some(a) ==> a <= 255,
        ensures
            final(self)@ == old(self)@,
            r == old(self)@.shift_defined(mode, arg, kind),
    {
        if !self.value_ok(mode, arg) {
            return false;
        }
        match mode {
            AddressingMode::Accumulator => true,
            _ => {
                let a = arg.unwrap();
                match self.operand_target(mode, a) {
                    Some(e) => {
                        proof {
                            self.lemma_shift_target(mode, a, e, kind);
                        }
                        if e == 0x4014 {
                            let carry = self.cpu.get_flag(CPUFlags::CARRY);
                            let (result, _) = shift_op(kind, 0, carry);
                            self.can_write(e, result)
                        } else {
                            proof {
                                assert(target_of(e) != Target::OAMDMA);
                            }
                            true
                        }
                    },
                    None => false,
                }
            },
        }
    }

    /// For a shift in memory the byte goes back where it came from: whether
    /// it can is whether that write can happen. The DMA port reads as 0.
    proof fn lemma_shift_target(&self, mode: AddressingMode, a: u16, e: u16, kind: ShiftKind)
        requires
            self@.wf(),
            a <= 255,
            self@.value_defined(mode, Some(a)),
            mode != AddressingMode::Accumulator,
            self@.address_result(mode, a) matches Some(res) && res.0 == e,
            self@.address_state(mode, a) == self@,
        ensures
            self@.shift_defined(mode, Some(a), kind) == self@.writable(e, self@.shift_value(mode, Some(a), kind)),
            e == 0x4014 ==> self@.shift_value(mode, Some(a), kind) == shift_result(
                kind,
                0,
                self@.cpu.flag(CPUFlags::CARRY),
            ).0,
    {
        let m = self@;
        let s = m.shift_flags_state(mode, Some(a), kind);
        assert(s.ram == m.ram && s.cpu.x == m.cpu.x && s.cpu.y == m.cpu.y && s.cart == m.cart);
        assert(s.address_defined(mode, a));
        assert(s.address_result(mode, a) == m.address_result(mode, a));
        assert(s.address_state(mode, a) == s);
        lemma_writable_cart(s, m, e, m.shift_value(mode, Some(a), kind));
        if e == 0x4014 {
            reveal(NESModel::read_value);
        }
    }

    /// Whether INC (`inc`) or DEC can run.
    fn incdec_ok(&mut self, mode: AddressingMode, arg: Option<u16>, inc: bool) -> (r: bool)
        requires
            old(self)@.wf(),
            arg matches Some(a) ==> a <= 255,
        ensures
            final(self)@ == old(self)@,
            r == old(self)@.incdec_defined(mode, arg, inc),
    {
        let a = match arg {
            Some(a) => a,
            None => {
                return false;
            },
        };
        let e = match self.operand_target(mode, a) {
            Some(e) => e,
            None => {
                return false;
            },
        };
        if !self.can_read(e) {
            return false;
        }
        if e == 0x4014 {
            proof {
                reveal(NESModel::read_value);
            }
            let result: u8 = if inc { 1 } else { 255 };
            self.can_write(e, result)
        } else {
            proof {
                assert(target_of(e) != Target::OAMDMA);
            }
            true
        }
    }

    /// Whether LDA, LDX or LDY can run.
    fn load_ok(&mut self, mode: AddressingMode, arg: Option<u16>) -> (r: bool)
        requires
            old(self)@.wf(),
            arg matches Some(a) ==> a <= 255,
        ensures
            final(self)@ == old(self)@,
            r == old(self)@.load_defined(mode, arg),
    {
        let a = match arg {
            Some(a) => a,
            None => {
                return false;
            },
        };
        match self.operand_target(mode, a) {
            Some(e) => self.can_read(e),
            None => false,
        }
    }

    /// Whether STA, STX or STY, storing register `r`, can run.
    fn store_ok(&mut self, mode: AddressingMode, arg: Option<u16>, rg: Reg) -> (r: bool)
        requires
            old(self)@.wf(),
            arg matches Some(a) ==> a <= 255,
        ensures
            final(self)@ == old(self)@,
            r == old(self)@.store_defined(mode, arg, rg),
    {
        let a = match arg {
            Some(a) => a,
            None => {
                return false;
            },
        };
        match self.operand_target(mode, a) {
            Some(e) => {
                let v = match rg {
                    Reg::A => self.cpu.acc,
                    Reg::X => self.cpu.x,
                    Reg::Y => self.cpu.y,
                };
                self.can_write(e, v)
            },
            None => false,
        }
    }

    /// Whether JMP can run.
    fn jmp_ok(&mut self, mode: AddressingMode, arg: Option<u16>) -> (r: bool)
        requires
            old(self)@.wf(),
            arg matches Some(a) ==> a <= 255,
        ensures
            final(self)@ == old(self)@,
            r == old(self)@.jmp_defined(mode, arg),
    {
        let a = match arg {
            Some(a) => a,
            None => {
                return false;
            },
        };
        match self.operand_target(mode, a) {
            Some(e) => self.can_read(e) && self.can_read(e.wrapping_add(1)),
            None => false,
        }
    }

    /// Whether the instruction decoded as `d`, with operand `arg`, runs
    /// without failing.
    #[verifier::rlimit(40)]
    fn exec_ok(&mut self, d: InstructionData, arg: Option<u16>) -> (r: bool)
        requires
            old(self)@.wf(),
            arg matches Some(a) ==> a <= 255,
        ensures
            final(self)@ == old(self)@,
            r == old(self)@.exec_defined(d, arg),
    {
        reveal(NESModel::exec_defined);
        let ghost m = self@;
        let mode = d.address_mode;
        match d.instruction {
            Instruction::BCS => false,
            Instruction::ERR => false,
            Instruction::ADC | Instruction::SBC | Instruction::CMP | Instruction::CPX | Instruction::CPY
            | Instruction::AND | Instruction::ORA | Instruction::EOR | Instruction::BIT => self.value_ok(mode, arg),
            Instruction::ASL => self.shift_ok(mode, arg, ShiftKind::ASL),
            Instruction::LSR => self.shift_ok(mode, arg, ShiftKind::LSR),
            Instruction::ROL => self.shift_ok(mode, arg, ShiftKind::ROL),
            Instruction::ROR => self.shift_ok(mode, arg, ShiftKind::ROR),
            Instruction::BCC => !self.cpu.get_flag(CPUFlags::CARRY) || arg.is_some(),
            Instruction::BEQ => !self.cpu.get_flag(CPUFlags::ZERO) || arg.is_some(),
            Instruction::BMI => !self.cpu.get_flag(CPUFlags::NEGATIVE) || arg.is_some(),
            Instruction::BNE => self.cpu.get_flag(CPUFlags::ZERO) || arg.is_some(),
            Instruction::BPL => self.cpu.get_flag(CPUFlags::NEGATIVE) || arg.is_some(),
            Instruction::BVC => self.cpu.get_flag(CPUFlags::OVERFLOW) || arg.is_some(),
            Instruction::BVS => !self.cpu.get_flag(CPUFlags::OVERFLOW) || arg.is_some(),
            Instruction::DEC => self.incdec_ok(mode, arg, false),
            Instruction::INC => self.incdec_ok(mode, arg, true),
            Instruction::LDA | Instruction::LDX | Instruction::LDY => self.load_ok(mode, arg),
            Instruction::STA => self.store_ok(mode, arg, Reg::A),
            Instruction::STX => self.store_ok(mode, arg, Reg::X),
            Instruction::STY => self.store_ok(mode, arg, Reg::Y),
            Instruction::JMP => self.jmp_ok(mode, arg),
            Instruction::JSP => {
                match arg {
                    Some(a) => {
                        proof {
                            lemma_jsp_readable(m, a);
                        }
                        self.cpu.pc <= 0xFFFD && self.can_read(a) && self.can_read(a.wrapping_add(1))
                    },
                    None => false,
                }
            },
            _ => true,
        }
    }

    /// Reads the next instruction and its operand as `tick` does, and decides
    /// whether it runs. Only the controller latch and the cycle count change.
    #[verifier::rlimit(40)]
    fn step_ok(&mut self) -> (r: bool)
        requires
            old(self)@.wf(),
        ensures
            final(self)@.wf(),
            r == old(self)@.step_defined(),
            final(self)@ == (NESModel {
                controller: final(self)@.controller,
                cycles: final(self)@.cycles,
                ..old(self)@
            }),
    {
        let ghost m = self@;
        let pc = self.cpu.pc;
        if !self.can_read(pc) {
            return false;
        }
        let opcode = self.read(pc);
        let d = self.instruction_data[opcode as usize];
        if d.bytes < 1 || d.bytes > 3 {
            return false;
        }
        self.cycles = d.cycles as usize;
        let ghost s = self@;
        assert(d == m.decoded());
        assert(s == m.decode_state());
        let pc1 = pc.wrapping_add(1);
        let pc2 = pc.wrapping_add(2);
        assert(pc1 == crate::nes::nes::wrap16(s.cpu.pc + 1));
        assert(pc2 == crate::nes::nes::wrap16(s.cpu.pc + 2));
        let arg: Option<u16> = if d.bytes == 1 {
            None
        } else if d.bytes == 2 {
            if !self.can_read(pc1) {
                return false;
            }
            Some(self.read(pc1) as u16)
        } else {
            if !self.can_read(pc1) {
                return false;
            }
            let _first = self.read(pc1);
            if !self.can_read(pc2) {
                return false;
            }
            Some(self.read(pc2) as u16)
        };
        assert(s.fetch_defined(d.bytes));
        assert(self@ == s.fetch_state(d.bytes));
        assert(arg == s.fetch_arg(d.bytes));
        self.exec_ok(d, arg)
    }

    /// Whether `tick` can run the next instruction: exactly when one step is
    /// defined. The console is left as it was.
    pub fn can_tick(&mut self) -> (r: bool)
        requires
            old(self)@.wf(),
        ensures
            final(self)@ == old(self)@,
            r == old(self)@.step_defined(),
    {
        let latch = self.input_controller;
        let cycles = self.cycles;
        let r = self.step_ok();
        self.input_controller = latch;
        self.cycles = cycles;
        r
    }
}

/// JSP's pushes go to the stack in work RAM, so they leave readability as it
/// was.
proof fn lemma_jsp_readable(m: NESModel, a: u16)
    requires
        m.wf(),
    ensures
        m.jsp_pushed().readable(a) == m.readable(a),
        m.jsp_pushed().after_read(a).readable(((a as int + 1) % 65536) as u16) == m.readable(
            ((a as int + 1) % 65536) as u16,
        ),
{
}

} // verus!
