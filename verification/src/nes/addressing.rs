use vstd::prelude::*;
use crate::bits::{lemma_join, lemma_word};

pub use crate::addressing::{address_crosses_page, page_of, AddressingMode};
use crate::nes::{NESModel, NES};

verus! {

impl NESModel {
    /// The zero-page pointer an (Indirect,X) operand names.
    pub open spec fn indirect_x_ptr(self, address: u16) -> u16 {
        ((address as int % 256 + self.cpu.x as int) % 256) as u16
    }

    /// (Indirect,X): the 16-bit pointer stored in the zero page at the
    /// operand plus X (wrapping within the zero page).
    pub open spec fn indirect_x_result(self, address: u16) -> (u16, bool) {
        let ptr = self.indirect_x_ptr(address);
        let lo = self.read_value(ptr);
        let hi = self.after_read(ptr).read_value(((ptr as int + 1) % 256) as u16);
        ((hi as int * 256 + lo as int) as u16, false)
    }

    /// The second pointer byte of an (Indirect),Y operand.
    pub open spec fn indirect_y_hi_addr(address: u16) -> u16 {
        (((address as int + 1) % 65536) % 256) as u16
    }

    /// (Indirect),Y: the 16-bit pointer stored at the operand, plus Y.
    pub open spec fn indirect_y_result(self, address: u16) -> (u16, bool) {
        let lo = self.read_value(address);
        let hi = self.after_read(address).read_value(Self::indirect_y_hi_addr(address));
        let ptr = hi as int * 256 + lo as int;
        let eff = ((ptr + self.cpu.y as int) % 65536) as u16;
        (eff, page_of(ptr as u16) != page_of(eff))
    }

    /// Resolving an operand does not fail: zero-page indexing stays within 16
    /// bits, and the pointer bytes an indirect mode reads are readable.
    pub open spec fn address_defined(self, mode: AddressingMode, address: u16) -> bool {
        match mode {
            AddressingMode::ZeroPageX => address as int + self.cpu.x as int <= 0xFFFF,
            AddressingMode::ZeroPageY => address as int + self.cpu.y as int <= 0xFFFF,
            AddressingMode::IndirectX => {
                let ptr = self.indirect_x_ptr(address);
                self.readable(ptr) && self.after_read(ptr).readable(((ptr as int + 1) % 256) as u16)
            },
            AddressingMode::IndirectY => {
                self.readable(address) && self.after_read(address).readable(Self::indirect_y_hi_addr(address))
            },
            _ => true,
        }
    }

    /// The effective address an operand names and whether indexing crossed a
    /// page; `None` for the modes that name no memory address.
    pub open spec fn address_result(self, mode: AddressingMode, address: u16) -> Option<(u16, bool)> {
        match mode {
            AddressingMode::ZeroPage => Some((address, false)),
            AddressingMode::ZeroPageX => Some((((address as int + self.cpu.x as int) % 256) as u16, false)),
            AddressingMode::ZeroPageY => Some((((address as int + self.cpu.y as int) % 256) as u16, false)),
            AddressingMode::Absolute => Some((address, false)),
            AddressingMode::AbsoluteX => {
                let eff = ((address as int + self.cpu.x as int) % 65536) as u16;
                Some((eff, page_of(address) != page_of(eff)))
            },
            AddressingMode::AbsoluteY => {
                let eff = ((address as int + self.cpu.y as int) % 65536) as u16;
                Some((eff, page_of(address) != page_of(eff)))
            },
            AddressingMode::IndirectX => Some(self.indirect_x_result(address)),
            AddressingMode::IndirectY => Some(self.indirect_y_result(address)),
            _ => None,
        }
    }

    /// The console after resolving an operand: the indirect modes read their
    /// pointer bytes.
    pub open spec fn address_state(self, mode: AddressingMode, address: u16) -> NESModel {
        match mode {
            AddressingMode::IndirectX => {
                let ptr = self.indirect_x_ptr(address);
                self.after_read(ptr).after_read(((ptr as int + 1) % 256) as u16)
            },
            AddressingMode::IndirectY => {
                self.after_read(address).after_read(Self::indirect_y_hi_addr(address))
            },
            _ => self,
        }
    }

    /// Fetching an operand value does not fail: Immediate needs an operand;
    /// the memory modes need one, an address, and a readable byte there.
    pub open spec fn value_defined(self, mode: AddressingMode, arg: Option<u16>) -> bool {
        match mode {
            AddressingMode::Accumulator => true,
            AddressingMode::Immediate => arg is Some,
            _ => {
                let resolved = self.address_result(mode, arg->0);
                &&& arg is Some
                &&& self.address_defined(mode, arg->0)
                &&& resolved is Some
                &&& self.address_state(mode, arg->0).readable((resolved->0).0)
            },
        }
    }

    /// The operand value and whether fetching it crossed a page.
    pub open spec fn value_result(self, mode: AddressingMode, arg: Option<u16>) -> (u8, bool) {
        match mode {
            AddressingMode::Accumulator => (self.cpu.acc, false),
            AddressingMode::Immediate => (arg->0 as u8, false),
            _ => {
                let (addr, crossed) = self.address_result(mode, arg->0)->0;
                (self.address_state(mode, arg->0).read_value(addr), crossed)
            },
        }
    }

    pub open spec fn value_state(self, mode: AddressingMode, arg: Option<u16>) -> NESModel {
        match mode {
            AddressingMode::Accumulator => self,
            AddressingMode::Immediate => self,
            _ => {
                let (addr, crossed) = self.address_result(mode, arg->0)->0;
                self.address_state(mode, arg->0).after_read(addr)
            },
        }
    }
}

impl NES {
    #[verifier::spinoff_prover]
    #[verifier::rlimit(40)]
    fn indirect_x(&mut self, address: u16) -> (r: (u16, bool))
        requires
            old(self)@.wf(),
            old(self)@.readable(old(self)@.indirect_x_ptr(address)),
            old(self)@.after_read(old(self)@.indirect_x_ptr(address)).readable(
                ((old(self)@.indirect_x_ptr(address) as int + 1) % 256) as u16),
        ensures
            final(self)@.wf(),
            r == old(self)@.indirect_x_result(address),
            final(self)@ == old(self)@.address_state(AddressingMode::IndirectX, address),
    {
        let a8 = address as u8;
        proof {
            lemma_word(address);
        }
        let ptr = a8.wrapping_add(self.cpu.x) as u16;
        let arg1 = self.read(ptr) as u16;
        let next = ptr + 1;
        proof {
            lemma_word(next);
        }
        let arg2 = self.read(next & 0xFF) as u16;
        proof {
            lemma_join(0, arg2, arg1);
        }
        (arg1 | (arg2 << 8), false)
    }

    #[verifier::spinoff_prover]
    #[verifier::rlimit(40)]
    fn indirect_y(&mut self, address: u16) -> (r: (u16, bool))
        requires
            old(self)@.wf(),
            old(self)@.readable(address),
            old(self)@.after_read(address).readable(NESModel::indirect_y_hi_addr(address)),
        ensures
            final(self)@.wf(),
            r == old(self)@.indirect_y_result(address),
            final(self)@ == old(self)@.after_read(address).after_read(NESModel::indirect_y_hi_addr(address)),
    {
        let y = self.cpu.y;
        let lo = self.read(address) as u16;
        let next = address.wrapping_add(1);
        assert(next as int == (address as int + 1) % 65536);
        let hi = self.read(next % 256) as u16;
        let ptr = (hi << 8) | lo;
        proof {
            lemma_join(0, hi, lo);
        }
        let eff = ptr.wrapping_add(y as u16);
        assert(eff as int == (ptr as int + y as int) % 65536);
        (eff, address_crosses_page(ptr, eff))
    }

    /// The effective address of an operand in `mode` and whether indexing
    /// crossed a page.
    #[verifier::rlimit(40)]
    pub fn resolve_address(&mut self, mode: AddressingMode, address: u16) -> (r: Option<(u16, bool)>)
        requires
            old(self)@.wf(),
            old(self)@.address_defined(mode, address),
        ensures
            final(self)@.wf(),
            r == old(self)@.address_result(mode, address),
            final(self)@ == old(self)@.address_state(mode, address),
    {
        match mode {
            AddressingMode::ZeroPage => {
                return Some((address, false))
            },
            AddressingMode::ZeroPageX => {
                return Some(((address + (self.cpu.x as u16)) % 256, false))
            },
            AddressingMode::ZeroPageY => {
                return Some(((address + (self.cpu.y as u16)) % 256, false))
            },
            AddressingMode::Absolute => {
                return Some((address, false))
            },
            AddressingMode::AbsoluteX => {
                let eff = address.wrapping_add(self.cpu.x as u16);
                return Some((eff, address_crosses_page(address, eff)));
            },
            AddressingMode::AbsoluteY => {
                let eff = address.wrapping_add(self.cpu.y as u16);
                return Some((eff, address_crosses_page(address, eff)));
            },
            AddressingMode::IndirectX => Some(self.indirect_x(address)),
            AddressingMode::IndirectY => Some(self.indirect_y(address)),
            _ => {
                return None;
            },
        }
    }

    /// The operand value of an instruction in `mode` with operand `arg`, and
    /// whether fetching it crossed a page.
    #[verifier::spinoff_prover]
    #[verifier::rlimit(40)]
    pub fn resolve_value_from_addressmode(&mut self, mode: AddressingMode, arg: Option<u16>) -> (r: (u8, bool))
        requires
            old(self)@.wf(),
            old(self)@.value_defined(mode, arg),
        ensures
            final(self)@.wf(),
            r == old(self)@.value_result(mode, arg),
            final(self)@ == old(self)@.value_state(mode, arg),
    {
        match mode {
            AddressingMode::Accumulator => (self.cpu.acc, false),
            AddressingMode::Immediate => (arg.unwrap() as u8, false),
            _ => {
                let arg = arg.unwrap();
                let (addr, extra_cycle) = self.resolve_address(mode, arg).unwrap();
                (self.read(addr), extra_cycle)
            },
        }
    }
}

} // verus!
