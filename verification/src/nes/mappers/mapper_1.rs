use vstd::prelude::*;
use crate::bits::{lemma_byte, lemma_word};

use crate::nes::mappers::Mapper;
use crate::nes_parser::{NESData, NametableArrangement};

verus! {

/// What an MMC1 cartridge holds: its ROM (or character RAM), the serial shift
/// register and the four bank registers (control, CHR bank 0, CHR bank 1,
/// PRG bank).
pub ghost struct MMC1Model {
    pub chr: Seq<u8>,
    pub prg: Seq<u8>,
    pub sr: u8,
    pub pb: Seq<u8>,
    pub uses_chr_ram: bool,
}

impl MMC1Model {
    pub open spec fn wf(self) -> bool {
        self.pb.len() == 4
    }

    /// A write with bit 7 set resets the shift register and forces the last
    /// PRG bank mode; otherwise bit 0 is shifted in, and the fifth write copies
    /// the five collected bits into the bank register selected by address
    /// bits 13-14.
    pub open spec fn after_cpu_write(self, addr: u16, value: u8) -> MMC1Model {
        let bit = value & 1;
        if addr < 0x8000 {
            self
        } else if value & 0x80 != 0 {
            MMC1Model { pb: self.pb.update(0, self.pb[0] | 0x0C), sr: 0x10, ..self }
        } else if self.sr & 1 == 0 {
            MMC1Model { sr: ((self.sr >> 1u8) | (bit << 4u8)) & !0x20u8, ..self }
        } else {
            MMC1Model {
                pb: self.pb.update(((addr >> 13u16) & 3) as int, (self.sr >> 1u8) | (bit << 4u8)),
                sr: 0x10,
                ..self
            }
        }
    }

    /// Control register bits 0-1 choose the mirroring.
    pub open spec fn arrangement(self) -> NametableArrangement {
        let m = self.pb[0] & 3;
        if m == 0 {
            NametableArrangement::OneScreen(0)
        } else if m == 1 {
            NametableArrangement::OneScreen(1)
        } else if m == 2 {
            NametableArrangement::Horizontal
        } else {
            NametableArrangement::Vertical
        }
    }

    /// Where in program ROM a CPU address at 0x8000 or above lands. Control
    /// bits 2-3 choose the PRG bank mode: 32 KiB switching (0, 1), fixed first
    /// bank with switchable upper half (2), switchable lower half with the
    /// last 32 KiB of ROM fixed at 0xC000 (3).
    pub open spec fn prg_index(self, addr: u16) -> int {
        let a = (addr & 0x7FFF) as u32;
        let mode = (self.pb[0] >> 2u8) & 3;
        let bank = (self.pb[3] & 0xF) as u32;
        if mode <= 1 {
            (a | ((bank >> 1u32) << 15u32)) as int
        } else if mode == 2 {
            if a < 0x4000 { a as int } else { (a | (bank << 14u32)) as int }
        } else {
            if a < 0x4000 { (a | (bank << 14u32)) as int } else { self.prg.len() - 32768 + a }
        }
    }

    pub open spec fn cpu_readable(self, addr: u16) -> bool {
        addr >= 0x8000 ==> {
            &&& self.prg.len() <= u32::MAX
            &&& self.prg.len() >= 32768 || ((self.pb[0] >> 2u8) & 3) != 3 || (addr & 0x7FFF) < 0x4000
            &&& 0 <= self.prg_index(addr) < self.prg.len()
        }
    }

    pub open spec fn cpu_value(self, addr: u16) -> u8 {
        if addr < 0x8000 { 0 } else { self.prg[self.prg_index(addr)] }
    }

    /// Where in character memory a PPU address lands. With character RAM
    /// there is no banking; otherwise control bit 4 chooses one 8 KiB bank
    /// (CHR bank 0 with its low bit ignored) or two 4 KiB banks (CHR bank 0
    /// for 0x0000-0x0FFF, CHR bank 1 for 0x1000-0x1FFF).
    pub open spec fn chr_index(self, addr: u16) -> int {
        if self.uses_chr_ram {
            addr as int % 0x2000
        } else {
            let four_kb = (self.pb[0] & 0x10) >> 4u8;
            let idx: int = if four_kb != 0 { (((addr & 0x1000) >> 12u16) + 1) as int } else { 1 };
            let bank = (self.pb[idx] & 0x1F) >> (four_kb ^ 1);
            (((bank as u32) << 12u32) | ((addr & 0x0FFF) as u32)) as int
        }
    }

    pub open spec fn ppu_readable(self, addr: u16) -> bool {
        self.chr_index(addr) < self.chr.len()
    }

    pub open spec fn ppu_value(self, addr: u16) -> u8 {
        self.chr[self.chr_index(addr)]
    }

    pub open spec fn ppu_writable(self, addr: u16) -> bool {
        self.uses_chr_ram ==> addr as int % 0x2000 < self.chr.len()
    }

    /// Character RAM takes writes; character ROM ignores them.
    pub open spec fn after_ppu_write(self, addr: u16, data: u8) -> MMC1Model {
        if self.uses_chr_ram {
            MMC1Model { chr: self.chr.update(addr as int % 0x2000, data), ..self }
        } else {
            self
        }
    }
}

/// Mapper 1: switchable program and character banks, configured through a
/// serial shift register written one bit at a time.
pub struct MMC1 {
    chr_rom: Vec<u8>,
    prg_rom: Vec<u8>,
    sr: u8,
    pb: [u8; 4],
    uses_chr_ram: bool,
}

impl View for MMC1 {
    type V = MMC1Model;

    closed spec fn view(&self) -> MMC1Model {
        MMC1Model {
            chr: self.chr_rom@,
            prg: self.prg_rom@,
            sr: self.sr,
            pb: self.pb@,
            uses_chr_ram: self.uses_chr_ram,
        }
    }
}

impl MMC1 {
    /// The cartridge `new` builds from `data`: character RAM of the size the
    /// header announces in place of character ROM when it announces any, the
    /// shift register empty and the control register in PRG mode 3.
    pub open spec fn model_of(data: NESData) -> MMC1Model {
        MMC1Model {
            chr: if data.header.chr_ram_size > 0 {
                Seq::new(data.header.chr_ram_size as nat, |i: int| 0u8)
            } else {
                data.chr_rom@
            },
            prg: data.prg_rom@,
            sr: 0x10,
            pb: seq![0x0Cu8, 0, 0, 0],
            uses_chr_ram: data.header.chr_ram_size > 0,
        }
    }

    /// Whether a CPU read of `addr` lands inside program ROM.
    pub fn cpu_can_read(&self, addr: u16) -> (r: bool)
        requires
            self@.wf(),
        ensures
            r == self@.cpu_readable(addr),
    {
        if addr < 0x8000 {
            return true;
        }
        if self.prg_rom.len() > 0xFFFF_FFFF {
            return false;
        }
        let a = (addr & 0x7FFF) as u32;
        let p0 = self.pb[0];
        let bank_mode = (p0 >> 2) & 0x3;
        let bank = self.pb[3] & 0xF;
        proof {
            lemma_byte(p0);
            lemma_word(addr);
        }
        let len = self.prg_rom.len() as u32;
        if bank_mode == 3 && a >= 0x4000 && len < 32768 {
            return false;
        }
        let index: u32 = if bank_mode <= 1 {
            a | (((bank as u32) >> 1) << 15)
        } else if bank_mode == 2 {
            if a < 0x4000 { a } else { a | ((bank as u32) << 14) }
        } else {
            if a < 0x4000 { a | ((bank as u32) << 14) } else { (len - 32768) + a }
        };
        index < len
    }

    pub fn new(data: NESData) -> (m: MMC1)
        ensures
            m@ == MMC1::model_of(data),
    {
        // Deduce if using CHR_RAM or CHR_ROM
        let chr_rom = if data.header.chr_ram_size > 0 {
            let v = vec![0u8; data.header.chr_ram_size as usize];
            assert(v@ =~= Seq::new(data.header.chr_ram_size as nat, |i: int| 0u8));
            v
        } else {
            data.chr_rom
        };

        let mut pb = [0u8; 4];
        pb[0] = 0x0C;

        let m = MMC1 {
            chr_rom,
            prg_rom: data.prg_rom,
            sr: 0x10,
            pb: pb,
            uses_chr_ram: data.header.chr_ram_size > 0,
        };
        assert(m@.pb =~= seq![0x0Cu8, 0, 0, 0]);
        m
    }
}

impl Mapper for MMC1 {
    open spec fn mapper_wf(&self) -> bool {
        self@.wf()
    }

    open spec fn cpu_readable(&self, addr: u16) -> bool {
        self@.cpu_readable(addr)
    }

    open spec fn ppu_readable(&self, addr: u16) -> bool {
        self@.ppu_readable(addr)
    }

    open spec fn ppu_writable(&self, addr: u16) -> bool {
        self@.ppu_writable(addr)
    }

    fn cpu_write(&mut self, addr: u16, value: u8)
        ensures
            final(self)@ == old(self)@.after_cpu_write(addr, value),
    {
        if addr < 0x8000 {
            return;
        }

        let bit = (value & 1) as u8;
        let clear = (value & 0x80) != 0;

        if clear {
            let c = self.pb[0] | 0x0C;
            self.pb[0] = c;
            self.sr = 0x10;
        } else {
            // SR is not full, fill it with the 0th bit
            if self.sr & 1 == 0 {
                self.sr = (self.sr >> 1) | (bit << 4);
                // Shift register only holds 5 bits, so we must clear bit 5
                self.sr = self.sr & !0x20u8;
            } else {
                // SR is full, copy bit 0 + SR to bank register
                // Only B13 and B14 of address is relevant
                let k = (addr >> 13) & 0x3;
                proof {
                    lemma_word(addr);
                }
                let pb_idx = k as usize;
                let val = (self.sr >> 1) | (bit << 4);
                self.pb[pb_idx] = val;
                // Reset SR
                self.sr = 0x10;
            }
        }
    }

    fn nametable_arrangement(&self) -> (r: NametableArrangement)
        ensures
            r == self@.arrangement(),
    {
        let m = self.pb[0] & 0x3;
        if m == 0 {
            NametableArrangement::OneScreen(0)
        } else if m == 1 {
            NametableArrangement::OneScreen(1)
        } else if m == 2 {
            NametableArrangement::Horizontal
        } else {
            NametableArrangement::Vertical
        }
    }

    fn cpu_read(&mut self, addr: u16) -> (r: u8)
        ensures
            r == old(self)@.cpu_value(addr),
            final(self)@ == old(self)@,
    {
        if addr < 0x8000 {
            return 0;
        }
        let addr = (addr & 0x7FFF) as u32;
        let bank_mode = (self.pb[0] >> 2) & 0x3;
        let bank = self.pb[3] & 0xF;
        let p0 = self.pb[0];
        proof {
            lemma_byte(p0);
        }
        assert(bank_mode == (self@.pb[0] >> 2u8) & 3);
        assert(self@.prg.len() <= u32::MAX);
        assert(bank_mode == 3 && addr >= 0x4000 ==> self.prg_rom.len() >= 32768);

        let index: u32 = if bank_mode <= 1 {
            // 32kB banking mode
            addr | (((bank as u32) >> 1) << 15)
        } else if bank_mode == 2 {
            // Fix 8000-BFFF, rest is 16kb banks
            if addr < 0x4000 { addr } else { addr | ((bank as u32) << 14) }
        } else {
            // Fix C000-FFFF to last 32kb bank, rest is 16kb banks
            if addr < 0x4000 { addr | ((bank as u32) << 14) } else { (self.prg_rom.len() as u32 - 32768) + addr }
        };

        self.prg_rom[index as usize]
    }

    fn ppu_read(&mut self, addr: u16) -> (r: u8)
        ensures
            r == old(self)@.ppu_value(addr),
            final(self)@ == old(self)@,
    {
        if self.uses_chr_ram {
            // No banking if using CHR RAM
            proof {
                lemma_word(addr);
            }
            return self.chr_rom[(addr & 0x1FFF) as usize];
        }
        // Bank mode  0: 8kB, 1: 4kB
        // Ignore low bit in 8kB mode
        let p0 = self.pb[0];
        let bank_mode_8kb = (p0 & 0x10) >> 4;
        proof {
            lemma_byte(p0);
        }
        let hi = (addr & 0x1000) >> 12;
        proof {
            lemma_word(addr);
        }

        // Upper or lower address space maps to pb reg 1 or 2
        // Reg 2 is ignored in 8kb Mode
        let idx = if bank_mode_8kb != 0 { hi + 1 } else { 1 };

        // Bank, mask out low bit depending on bank mode
        let bank = (self.pb[idx as usize] & 0x1F) >> (bank_mode_8kb ^ 1);

        let a = (((bank as u32) << 12) | (addr as u32 & 0x0FFF)) as usize;
        let ret = self.chr_rom[a];
        ret
    }

    fn ppu_write(&mut self, addr: u16, data: u8)
        ensures
            final(self)@ == old(self)@.after_ppu_write(addr, data),
    {
        if self.uses_chr_ram {
            proof {
                lemma_word(addr);
            }
            self.chr_rom.set((addr & 0x1FFF) as usize, data);
        }
    }
}

/// Serial loading: starting from an empty shift register, four writes without
/// bit 7 shift their bit 0 in and a fifth copies the five bits, first write
/// lowest, into the bank register that the fifth write's address selects.
pub proof fn lemma_mmc1_serial_load(m: MMC1Model, addr: u16, b0: u8, b1: u8, b2: u8, b3: u8, b4: u8)
    requires
        m.wf(),
        m.sr == 0x10,
        addr >= 0x8000,
        b0 <= 1 && b1 <= 1 && b2 <= 1 && b3 <= 1 && b4 <= 1,
    ensures
        ({
            let m5 = m.after_cpu_write(addr, b0).after_cpu_write(addr, b1).after_cpu_write(addr, b2)
                .after_cpu_write(addr, b3).after_cpu_write(addr, b4);
            &&& m5.pb[((addr >> 13u16) & 3) as int] == b0 + 2 * b1 + 4 * b2 + 8 * b3 + 16 * b4
            &&& m5.sr == 0x10
        }),
{
    let s0: u8 = 0x10;
    let s1 = ((s0 >> 1u8) | ((b0 & 1) << 4u8)) & !0x20u8;
    let s2 = ((s1 >> 1u8) | ((b1 & 1) << 4u8)) & !0x20u8;
    let s3 = ((s2 >> 1u8) | ((b2 & 1) << 4u8)) & !0x20u8;
    let s4 = ((s3 >> 1u8) | ((b3 & 1) << 4u8)) & !0x20u8;
    assert(b0 <= 1 && b1 <= 1 && b2 <= 1 && b3 <= 1 && b4 <= 1 ==> {
        let s1 = ((0x10u8 >> 1u8) | ((b0 & 1) << 4u8)) & !0x20u8;
        let s2 = ((s1 >> 1u8) | ((b1 & 1) << 4u8)) & !0x20u8;
        let s3 = ((s2 >> 1u8) | ((b2 & 1) << 4u8)) & !0x20u8;
        let s4 = ((s3 >> 1u8) | ((b3 & 1) << 4u8)) & !0x20u8;
        &&& s1 & 1 == 0 && s2 & 1 == 0 && s3 & 1 == 0 && s4 & 1 == 1
        &&& (s4 >> 1u8) | ((b4 & 1) << 4u8) == b0 + 2 * b1 + 4 * b2 + 8 * b3 + 16 * b4
    }) by (bit_vector);
    assert(b0 <= 1 && b1 <= 1 && b2 <= 1 && b3 <= 1 && b4 <= 1 ==> b0 & 0x80 == 0 && b1 & 0x80 == 0
        && b2 & 0x80 == 0 && b3 & 0x80 == 0 && b4 & 0x80 == 0 && b0 & 1 == b0 && b1 & 1 == b1
        && b2 & 1 == b2 && b3 & 1 == b3 && b4 & 1 == b4) by (bit_vector);
    lemma_word(addr);
    lemma_byte(0x10u8);
    let m1 = m.after_cpu_write(addr, b0);
    assert(m1.sr == s1 && m1.pb == m.pb);
    let m2 = m1.after_cpu_write(addr, b1);
    assert(m2.sr == s2 && m2.pb == m.pb);
    let m3 = m2.after_cpu_write(addr, b2);
    assert(m3.sr == s3 && m3.pb == m.pb);
    let m4 = m3.after_cpu_write(addr, b3);
    assert(m4.sr == s4 && m4.pb == m.pb);
    let m5 = m4.after_cpu_write(addr, b4);
    assert(m5.sr == 0x10);
}

/// The CPU's view of program ROM in each PRG bank mode, with `bank` the PRG
/// bank register's low four bits and `mode` control bits 2-3. In modes 0 and
/// 1 0x8000-0xFFFF shows the 32 KiB bank `bank / 2`; in mode 2 0x8000-0xBFFF
/// shows the first 16 KiB; in mode 3 0x8000-0xBFFF shows the 16 KiB bank
/// `bank` and 0xC000-0xFFFF the last 16 KiB of the ROM.
pub proof fn lemma_mmc1_prg_windows(m: MMC1Model, addr: u16)
    requires
        m.wf(),
        addr >= 0x8000,
    ensures
        ({
            let o = addr - 0x8000;
            let mode = (m.pb[0] as int / 4) % 4;
            let bank = m.pb[3] as int % 16;
            &&& mode <= 1 ==> m.cpu_value(addr) == m.prg[(bank / 2) * 0x8000 + o]
            &&& (mode == 2 && o < 0x4000) ==> m.cpu_value(addr) == m.prg[o]
            &&& (mode == 3 && o < 0x4000) ==> m.cpu_value(addr) == m.prg[bank * 0x4000 + o]
            &&& (mode == 3 && o >= 0x4000) ==> m.cpu_value(addr) == m.prg[m.prg.len() - 0x4000 + (o - 0x4000)]
        }),
{
    let p0 = m.pb[0];
    let p3 = m.pb[3];
    crate::bits::lemma_byte_fields(p0);
    crate::bits::lemma_byte_fields(p3);
    lemma_byte(p3);
    lemma_word(addr);
    let a = (addr & 0x7FFF) as u32;
    let b = (p3 & 0xF) as u32;
    crate::bits::lemma_bank_offset(a, b);
}

} // verus!
