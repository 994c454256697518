use vstd::prelude::*;

use crate::nes_parser::NametableArrangement;

verus! {

/// Which of the two physical nametables logical nametable `table` (0-3) shows.
pub open spec fn physical_table(arrangement: NametableArrangement, table: int) -> int {
    match arrangement {
        NametableArrangement::Vertical => table / 2,
        NametableArrangement::Horizontal => table % 2,
        NametableArrangement::OneScreen(n) => n as int,
    }
}

/// Where in the 2 KiB of nametable RAM the PPU address `addr` lands: the
/// logical nametable is given by address bits 10-11, the offset into it by
/// bits 0-9.
pub open spec fn nametable_index(arrangement: NametableArrangement, addr: u16) -> int {
    physical_table(arrangement, (addr as int / 1024) % 4) * 1024 + addr as int % 1024
}

pub proof fn lemma_nametable_bits(addr: u16)
    by (bit_vector)
    ensures
        ((addr >> 10u16) & 3u16) as int == (addr as int / 1024) % 4,
        (addr & 0x03FFu16) as int == addr as int % 1024,
        (((addr >> 10u16) & 3u16) & 2u16) >> 1u16 == ((addr >> 10u16) & 3u16) / 2,
        ((addr >> 10u16) & 3u16) >> 1u16 & 1u16 == ((addr >> 10u16) & 3u16) / 2,
        ((addr >> 10u16) & 3u16) & 1u16 == ((addr >> 10u16) & 3u16) % 2,
        addr & 0x3FFFu16 == addr % 0x4000,
        (addr & 0x001Fu16) as int == addr as int % 32,
{
}

/// The number of 8 KiB character banks in `len` bytes, at least one.
pub open spec fn chr_banks(len: int) -> int {
    if len / 0x2000 > 1 { len / 0x2000 } else { 1 }
}

/// What a `PPUMemoryMap` holds: character data, the selected bank, the
/// nametable arrangement, 2 KiB of nametable RAM and 32 bytes of palette RAM.
pub ghost struct PPUMemoryModel {
    pub chr: Seq<u8>,
    pub bank: int,
    pub arrangement: NametableArrangement,
    pub vram: Seq<u8>,
    pub palette: Seq<u8>,
}

impl PPUMemoryModel {
    pub open spec fn wf(self) -> bool {
        &&& self.vram.len() == 2048
        &&& self.palette.len() == 32
        &&& self.arrangement.valid()
        &&& 0 <= self.bank < chr_banks(self.chr.len() as int)
    }

    /// The byte a read of `addr` gives back (see `read` for the addresses it
    /// is defined on). Pattern-table addresses read the character data at the
    /// address itself: the selected bank is recorded, and `chr_offset` maps an
    /// address through it, but reads do not go through it.
    pub open spec fn value_at(self, addr: u16) -> u8 {
        if addr < 0x2000 {
            self.chr[addr as int]
        } else if addr < 0x3F00 {
            self.vram[nametable_index(self.arrangement, addr)]
        } else {
            self.palette[addr as int % 32]
        }
    }

    /// The map after `data` is stored at PPU address `addr`, taken modulo
    /// 0x4000: pattern-table addresses are read-only here, 0x2000-0x3EFF land
    /// in nametable RAM, 0x3F00-0x3FFF in palette RAM (modulo 32).
    pub open spec fn after_write(self, addr: u16, data: u8) -> PPUMemoryModel {
        let a = (addr as int % 0x4000) as u16;
        if a < 0x2000 {
            self
        } else if a < 0x3F00 {
            PPUMemoryModel { vram: self.vram.update(nametable_index(self.arrangement, a), data), ..self }
        } else {
            PPUMemoryModel { palette: self.palette.update(a as int % 32, data), ..self }
        }
    }
}

/// The PPU address space of a cartridge with switchable 8 KiB character banks:
/// pattern tables, nametable RAM and palette RAM.
pub struct PPUMemoryMap {
    chr_data: Vec<u8>,
    chr_bank: usize,
    nametable_arrangement: NametableArrangement,
    vram: Vec<u8>,
    pallette_ram: Vec<u8>,
}

impl View for PPUMemoryMap {
    type V = PPUMemoryModel;

    closed spec fn view(&self) -> PPUMemoryModel {
        PPUMemoryModel {
            chr: self.chr_data@,
            bank: self.chr_bank as int,
            arrangement: self.nametable_arrangement,
            vram: self.vram@,
            palette: self.pallette_ram@,
        }
    }
}

impl PPUMemoryMap {
    /// A map over a copy of `chr_data`, bank 0 selected, nametable and
    /// palette RAM zero.
    pub fn new(chr_data: &[u8], nametable_arrangement: NametableArrangement) -> (m: PPUMemoryMap)
        requires
            nametable_arrangement.valid(),
        ensures
            m@.wf(),
            m@.chr == chr_data@,
            m@.bank == 0,
            m@.arrangement == nametable_arrangement,
            m@.vram == Seq::new(2048, |i: int| 0u8),
            m@.palette == Seq::new(32, |i: int| 0u8),
    {
        let mut v: Vec<u8> = Vec::new();
        let mut i: usize = 0;
        while i < chr_data.len()
            invariant
                i <= chr_data@.len(),
                v@ == chr_data@.subrange(0, i as int),
            decreases chr_data@.len() - i,
        {
            v.push(chr_data[i]);
            i = i + 1;
            assert(v@ =~= chr_data@.subrange(0, i as int));
        }
        assert(v@ =~= chr_data@);
        let m = PPUMemoryMap {
            chr_data: v,
            chr_bank: 0,
            nametable_arrangement,
            vram: vec![0u8; 2048],
            pallette_ram: vec![0u8; 32],
        };
        assert(m.vram@ =~= Seq::new(2048, |i: int| 0u8));
        assert(m.pallette_ram@ =~= Seq::new(32, |i: int| 0u8));
        m
    }

    /// Select the active 8KB CHR-ROM bank. The bank is taken modulo the number
    /// of banks present so an out-of-range write can never index out of bounds.
    pub fn set_chr_bank(&mut self, bank: usize)
        requires
            old(self)@.wf(),
        ensures
            final(self)@.wf(),
            final(self)@ == (PPUMemoryModel { bank: bank as int % chr_banks(old(self)@.chr.len() as int), ..old(self)@ }),
    {
        let n = self.chr_data.len() / 0x2000;
        let banks = if n > 1 { n } else { 1 };
        self.chr_bank = bank % banks;
    }

    /// Map a $0000-$1FFF pattern-table address through the selected CHR bank.
    #[allow(dead_code)]
    fn chr_offset(&self, addr: u16) -> (r: usize)
        requires
            self@.wf(),
            self.chr_data@.len() > 0,
            addr < 0x2000,
        ensures
            r as int == (self.chr_bank * 0x2000 + addr as int) % self.chr_data@.len() as int,
            (r as int) < self.chr_data@.len(),
    {
        let n = self.chr_data.len();
        proof {
            let len = n as int;
            let b = self.chr_bank as int;
            if b > 0 {
                assert(len / 0x2000 > 1);
                assert(b < len / 0x2000);
                assert(b * 0x2000 + 0x2000 <= len) by (nonlinear_arith)
                    requires
                        b < len / 0x2000,
                        b >= 0,
                        len >= 0,
                ;
            }
            assert(b * 0x2000 + addr < len + 0x2000);
            assert(b * 0x2000 + addr <= usize::MAX);
        }
        (self.chr_bank * 0x2000 + addr as usize) % n
    }

    /// Stores `data` at PPU address `addr` (taken modulo 0x4000); the pattern
    /// tables are read-only here.
    pub fn write(&mut self, addr: u16, data: u8)
        requires
            old(self)@.wf(),
        ensures
            final(self)@.wf(),
            final(self)@ == old(self)@.after_write(addr, data),
    {
        proof { lemma_nametable_bits(addr); }
        let ghost before = self@;
        let addr = addr & 0x3FFF;
        proof { lemma_nametable_bits(addr); }
        if addr < 0x2000 {
        } else if addr <= 0x2FFF {
            let i = self.nametable_addr(addr);
            self.vram.set(i as usize, data);
        } else if addr <= 0x3EFF {
            // Address space typically(?) mirrors the above address space
            let mirrored = addr & !0x1000u16;
            proof {
                lemma_nametable_bits(mirrored);
                assert(mirrored == addr - 0x1000) by (bit_vector)
                    requires
                        mirrored == addr & !0x1000u16,
                        0x3000 <= addr <= 0x3EFF,
                ;
            }
            let i = self.nametable_addr(mirrored);
            self.vram.set(i as usize, data);
        } else {
            self.pallette_ram.set((addr & 0x001F) as usize, data);
        }
        assert(self@ =~= before.after_write(addr, data));
    }

    /// The byte at PPU address `addr`.
    pub fn read(&self, addr: u16) -> (r: u8)
        requires
            self@.wf(),
            addr < 0x4000,
            addr < 0x2000 ==> (addr as int) < self@.chr.len(),
        ensures
            r == self@.value_at(addr),
    {
        proof { lemma_nametable_bits(addr); }
        if addr < 0x2000 {
            self.chr_data[addr as usize]
        } else if addr <= 0x3EFF {
            let i = self.nametable_addr(addr);
            self.vram[i as usize]
        } else {
            self.pallette_ram[(addr & 0x001F) as usize]
        }
    }

    fn nametable_addr(&self, addr: u16) -> (r: u16)
        requires
            self.nametable_arrangement.valid(),
        ensures
            r as int == nametable_index(self.nametable_arrangement, addr),
            r < 2048,
    {
        proof { lemma_nametable_bits(addr); }
        let table = (addr >> 10) & 3;
        let offset = addr & 0x03FF;

        let physical: u16 = match self.nametable_arrangement {
            NametableArrangement::Vertical => (table >> 1) & 1,
            NametableArrangement::Horizontal => table & 1,
            NametableArrangement::OneScreen(n) => n as u16,
        };

        physical * 0x0400 + offset
    }
}

/// A nametable index always lies inside the 2 KiB of nametable RAM.
pub proof fn lemma_nametable_index_bounds(arrangement: NametableArrangement, addr: u16)
    requires
        arrangement.valid(),
    ensures
        0 <= nametable_index(arrangement, addr) < 2048,
{
}

/// The four logical nametables fold onto the two physical ones: under
/// vertical arrangement 0x2000/0x2400 and 0x2800/0x2C00 share storage, under
/// horizontal arrangement 0x2000/0x2800 and 0x2400/0x2C00 do.
pub proof fn lemma_nametable_mirroring(addr: u16)
    requires
        0x2000 <= addr < 0x2400,
    ensures
        nametable_index(NametableArrangement::Vertical, addr)
            == nametable_index(NametableArrangement::Vertical, (addr + 0x400) as u16),
        nametable_index(NametableArrangement::Vertical, (addr + 0x800) as u16)
            == nametable_index(NametableArrangement::Vertical, (addr + 0xC00) as u16),
        nametable_index(NametableArrangement::Horizontal, addr)
            == nametable_index(NametableArrangement::Horizontal, (addr + 0x800) as u16),
        nametable_index(NametableArrangement::Horizontal, (addr + 0x400) as u16)
            == nametable_index(NametableArrangement::Horizontal, (addr + 0xC00) as u16),
{
}


/// What a read gives back of a write: a byte stored at a nametable or palette
/// address reads back from that address, and stores to pattern-table
/// addresses change nothing.
pub proof fn lemma_memory_map_read_after_write(m: PPUMemoryModel, addr: u16, data: u8)
    requires
        m.wf(),
        addr < 0x4000,
    ensures
        addr >= 0x2000 ==> m.after_write(addr, data).value_at(addr) == data,
        addr < 0x2000 ==> m.after_write(addr, data) == m,
        m.after_write(addr, data).wf(),
{
}

} // verus!
