use vstd::prelude::*;
use crate::bits::{lemma_join, lemma_word};

use crate::nes::mappers::Mapper;
use crate::nes::{target_of, NESModel, Target, NES};

verus! {

impl NES {
    fn resolve_mmap(&self, addr: u16) -> (t: Target)
        ensures
            t == target_of(addr),
    {
        if addr < 0x2000 {
            proof {
                lemma_word(addr);
            }
            Target::RAM(addr & 0x07FF)
        } else if addr < 0x4000 {
            assert((addr as u8) % 8 == addr % 8) by (bit_vector);
            Target::PPU((addr as u8) % 8)
        } else if addr <= 0x4013 || addr == 0x4015 || addr == 0x4017 {
            Target::APU(addr)
        } else if addr == 0x4016 {
            Target::Controller
        } else if addr == 0x4014 {
            Target::OAMDMA
        } else if addr >= 0x4020 {
            Target::Mapper(addr)
        } else {
            Target::Unspecified
        }
    }

    /// The byte at `addr`, without the side effect a read of the controller
    /// port has.
    #[verifier::spinoff_prover]
    #[verifier::rlimit(40)]
    pub(crate) fn peek(&mut self, addr: u16) -> (r: u8)
        requires
            old(self)@.wf(),
            old(self)@.readable(addr),
        ensures
            r == old(self)@.read_value(addr),
            final(self)@ == old(self)@,
    {
        reveal(NESModel::readable);
        reveal(NESModel::read_value);
        let target = self.resolve_mmap(addr);
        match target {
            Target::APU(a) => 0,
            Target::RAM(a) => self.ram.index(a),
            Target::PPU(r) => self.ppu.read(r),
            Target::Mapper(a) => self.mapper.cpu_read(a),
            Target::Controller => self.input_controller.peek(),
            Target::OAMDMA => 0,
            Target::Unspecified => 0,
        }
    }

    /// Copies the 256 bytes of CPU page `value` into sprite memory.
    #[verifier::spinoff_prover]
    #[verifier::rlimit(40)]
    fn oam_dma(&mut self, value: u8)
        requires
            old(self)@.wf(),
            old(self)@.dma_ok(value),
        ensures
            final(self)@.wf(),
            final(self)@ == old(self)@.after_write(0x4014, value),
    {
        reveal(NESModel::after_write);
        let mut buf: Vec<u8> = Vec::new();
        let page: u16 = (value as u16) * 256;
        let mut i: u16 = 0;
        while i < 256
            invariant
                i <= 256,
                page as int == value as int * 256,
                self@ == old(self)@,
                old(self)@.wf(),
                old(self)@.dma_ok(value),
                buf@ == old(self)@.dma_bytes(value).subrange(0, i as int),
            decreases 256 - i,
        {
            assert(old(self)@.readable((value as int * 256 + i as int) as u16));
            let b = self.peek(page + i);
            buf.push(b);
            i = i + 1;
            assert(buf@ =~= old(self)@.dma_bytes(value).subrange(0, i as int));
        }
        assert(buf@ =~= old(self)@.dma_bytes(value));
        self.ppu.oam_dma(buf.as_slice());
    }

    /// Stores `value` at CPU address `addr`, wherever the memory map sends it.
    #[verifier::spinoff_prover]
    #[verifier::rlimit(40)]
    pub fn write_addr(&mut self, addr: u16, value: u8)
        requires
            old(self)@.wf(),
            old(self)@.writable(addr, value),
        ensures
            final(self)@.wf(),
            final(self)@ == old(self)@.after_write(addr, value),
    {
        reveal(NESModel::after_write);
        reveal(NESModel::writable);
        let target = self.resolve_mmap(addr);
        match target {
            Target::APU(a) => {
                self.apu.write(a, value);
            },
            Target::RAM(a) => {
                self.ram.set(a, value);
            },
            Target::PPU(r) => {
                self.ppu.write(r, value);
            },
            Target::Mapper(a) => {
                self.mapper.cpu_write(a, value);
            },
            Target::Controller => {
                self.input_controller.write(value);
            },
            Target::OAMDMA => {
                self.oam_dma(value);
            },
            Target::Unspecified => {},
        }
    }

    /// The byte at CPU address `addr`, wherever the memory map sends it.
    #[verifier::spinoff_prover]
    #[verifier::rlimit(40)]
    pub fn read(&mut self, addr: u16) -> (r: u8)
        requires
            old(self)@.wf(),
            old(self)@.readable(addr),
        ensures
            final(self)@.wf(),
            r == old(self)@.read_value(addr),
            final(self)@ == old(self)@.after_read(addr),
    {
        reveal(NESModel::readable);
        reveal(NESModel::read_value);
        reveal(NESModel::after_read);
        let target = self.resolve_mmap(addr);

        let ret = match target {
            Target::APU(a) => self.apu.read(a),
            Target::RAM(a) => self.ram.index(a),
            Target::PPU(r) => self.ppu.read(r),
            Target::Mapper(a) => self.mapper.cpu_read(a),
            Target::Controller => self.input_controller.read(0),
            Target::OAMDMA => 0,
            Target::Unspecified => 0,
        };

        ret
    }

    /// The little-endian word at `addr`.
    #[verifier::spinoff_prover]
    #[verifier::rlimit(40)]
    pub fn read_u16(&mut self, addr: u16) -> (r: u16)
        requires
            old(self)@.wf(),
            old(self)@.readable_u16(addr),
        ensures
            final(self)@.wf(),
            r == old(self)@.read_u16_value(addr),
            final(self)@ == old(self)@.after_read_u16(addr),
    {
        // Note little-endian format!
        let low = self.read(addr) as u16;
        let high = self.read(addr.wrapping_add(1)) as u16;
        proof {
            lemma_join(0, high, low);
        }
        return (high << 8) | low;
    }
}

} // verus!
