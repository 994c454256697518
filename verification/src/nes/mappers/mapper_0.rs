use vstd::prelude::*;
use crate::bits::lemma_word;

use crate::nes::mappers::Mapper;
use crate::nes_parser::{NESData, NametableArrangement};

verus! {

/// What an NROM cartridge holds.
pub ghost struct NROMModel {
    pub prg: Seq<u8>,
    pub chr: Seq<u8>,
    pub nametable: NametableArrangement,
    pub n_prg_banks: u8,
}

impl NROMModel {
    pub open spec fn wf(self) -> bool {
        self.nametable.valid()
    }

    /// Where in program ROM a CPU address at 0x8000 or above lands: with one
    /// 16 KiB bank, 0xC000-0xFFFF mirrors 0x8000-0xBFFF.
    pub open spec fn prg_index(self, addr: u16) -> int {
        if self.n_prg_banks > 1 { addr as int % 0x8000 } else { addr as int % 0x4000 }
    }

    pub open spec fn cpu_readable(self, addr: u16) -> bool {
        addr >= 0x8000 ==> self.prg_index(addr) < self.prg.len()
    }

    pub open spec fn cpu_value(self, addr: u16) -> u8 {
        if addr >= 0x8000 { self.prg[self.prg_index(addr)] } else { 0 }
    }

    pub open spec fn ppu_readable(self, addr: u16) -> bool {
        addr as int % 0x2000 < self.chr.len()
    }

    pub open spec fn ppu_value(self, addr: u16) -> u8 {
        self.chr[addr as int % 0x2000]
    }
}

/// Mapper 0: 16 or 32 KiB of program ROM at 0x8000, 8 KiB of character ROM,
/// no bank switching.
pub struct NROM {
    prg_rom: Vec<u8>,
    chr_rom: Vec<u8>,
    nametable: NametableArrangement,
    n_prg_banks: u8,
}

impl View for NROM {
    type V = NROMModel;

    closed spec fn view(&self) -> NROMModel {
        NROMModel {
            prg: self.prg_rom@,
            chr: self.chr_rom@,
            nametable: self.nametable,
            n_prg_banks: self.n_prg_banks,
        }
    }
}

impl NROM {
    /// The cartridge `new` builds from `data`.
    pub open spec fn model_of(data: NESData) -> NROMModel {
        NROMModel {
            prg: data.prg_rom@,
            chr: data.chr_rom@,
            nametable: data.header.nametable_arrangement,
            n_prg_banks: data.header.prg_rom_size as u8,
        }
    }

    /// Whether a CPU read of `addr` lands inside program ROM.
    pub fn cpu_can_read(&self, addr: u16) -> (r: bool)
        ensures
            r == self@.cpu_readable(addr),
    {
        if addr >= 0x8000 {
            let mask: u16 = if self.n_prg_banks > 1 { 0x7FFF } else { 0x3FFF };
            proof {
                lemma_word(addr);
            }
            ((addr & mask) as usize) < self.prg_rom.len()
        } else {
            true
        }
    }

    pub fn new(data: NESData) -> (m: NROM)
        ensures
            m@ == NROM::model_of(data),
    {
        NROM {
            prg_rom: data.prg_rom,
            chr_rom: data.chr_rom,
            n_prg_banks: data.header.prg_rom_size as u8,
            nametable: data.header.nametable_arrangement,
        }
    }
}

impl Mapper for NROM {
    open spec fn mapper_wf(&self) -> bool {
        self@.wf()
    }

    open spec fn cpu_readable(&self, addr: u16) -> bool {
        self@.cpu_readable(addr)
    }

    open spec fn ppu_readable(&self, addr: u16) -> bool {
        self@.ppu_readable(addr)
    }

    open spec fn ppu_writable(&self, addr: u16) -> bool {
        true
    }

    /// The cartridge has no registers: writes are ignored.
    fn cpu_write(&mut self, addr: u16, value: u8)
        ensures
            final(self)@ == old(self)@,
    {
    }

    fn cpu_read(&mut self, addr: u16) -> (r: u8)
        ensures
            r == old(self)@.cpu_value(addr),
            final(self)@ == old(self)@,
    {
        if addr >= 0x8000 {
            let mask: u16 = if self.n_prg_banks > 1 { 0x7FFF } else { 0x3FFF };
            proof {
                lemma_word(addr);
            }
            self.prg_rom[(addr & mask) as usize]
        } else {
            0
        }
    }

    /// Character ROM is read-only: writes are ignored.
    fn ppu_write(&mut self, addr: u16, value: u8)
        ensures
            final(self)@ == old(self)@,
    {
    }

    fn ppu_read(&mut self, addr: u16) -> (r: u8)
        ensures
            r == old(self)@.ppu_value(addr),
            final(self)@ == old(self)@,
    {
        proof {
            lemma_word(addr);
        }
        return self.chr_rom[(addr & 0x1FFF) as usize];
    }

    fn nametable_arrangement(&self) -> (r: NametableArrangement)
        ensures
            r == self@.nametable,
    {
        self.nametable
    }
}

/// With a single 16 KiB bank the upper half of the program space mirrors the
/// lower half.
pub proof fn lemma_nrom_mirrors_single_bank(m: NROMModel, addr: u16)
    requires
        m.n_prg_banks <= 1,
        0x8000 <= addr < 0xC000,
    ensures
        m.cpu_value(addr) == m.cpu_value((addr + 0x4000) as u16),
{
}

} // verus!
