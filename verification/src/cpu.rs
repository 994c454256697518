use vstd::prelude::*;
use crate::bits::lemma_byte;

verus! {

/// The 6502 status register: one bit per flag.
#[derive(Copy, Clone, Debug)]
pub struct CPUFlags {
    pub bits: u8,
}

impl CPUFlags {
    pub const CARRY: u8 = 1;
    pub const ZERO: u8 = 2;
    pub const IRQ: u8 = 4;
    pub const DECIMAL: u8 = 8;
    pub const BREAK: u8 = 16;
    pub const OVERFLOW: u8 = 64;
    pub const NEGATIVE: u8 = 128;

    /// Every mask of `mask` is set in `bits`.
    pub open spec fn has(bits: u8, mask: u8) -> bool {
        bits & mask == mask
    }

    pub open spec fn with(bits: u8, mask: u8, cond: bool) -> u8 {
        if cond { bits | mask } else { bits & !mask }
    }

    pub fn empty() -> (r: CPUFlags)
        ensures r.bits == 0,
    {
        CPUFlags { bits: 0 }
    }

    pub fn from_bits(bits: u8) -> (r: CPUFlags)
        ensures r.bits == bits,
    {
        CPUFlags { bits }
    }

    pub fn bits(&self) -> (r: u8)
        ensures r == self.bits,
    {
        self.bits
    }

    /// Whether all the bits of `mask` are set.
    pub fn contains(&self, mask: u8) -> (r: bool)
        ensures r == Self::has(self.bits, mask),
    {
        self.bits & mask == mask
    }

    /// Sets the bits of `mask` when `cond` holds, clears them otherwise.
    pub fn set(&mut self, mask: u8, cond: bool)
        ensures final(self).bits == Self::with(old(self).bits, mask, cond),
    {
        if cond {
            self.bits = self.bits | mask;
        } else {
            self.bits = self.bits & !mask;
        }
    }
}

/// Bit facts about setting and testing the single-bit masks of a flag byte.
pub proof fn lemma_flag_bits(bits: u8, mask: u8, other: u8, cond: bool)
    by (bit_vector)
    requires
        mask == 1 || mask == 2 || mask == 4 || mask == 8 || mask == 16 || mask == 32
            || mask == 64 || mask == 128,
        other == 1 || other == 2 || other == 4 || other == 8 || other == 16 || other == 32
            || other == 64 || other == 128,
    ensures
        CPUFlags::has(CPUFlags::with(bits, mask, cond), mask) == cond,
        other != mask ==> CPUFlags::has(CPUFlags::with(bits, mask, cond), other)
            == CPUFlags::has(bits, other),
{
}

/// The 6502 register file.
pub struct CPU {
    pub acc: u8,
    pub x: u8,
    pub y: u8,
    pub pc: u16,
    pub s: u8,
    pub p: u8,
    pub flags: CPUFlags,
}

impl CPU {
    /// Whether the flag `mask` is set.
    pub open spec fn flag(&self, mask: u8) -> bool {
        CPUFlags::has(self.flags.bits, mask)
    }

    /// The register file with flag `mask` set to `cond`, all else as it was.
    pub open spec fn with_flag(self, mask: u8, cond: bool) -> CPU {
        CPU { flags: CPUFlags { bits: CPUFlags::with(self.flags.bits, mask, cond) }, ..self }
    }

    /// The register file with ZERO and NEGATIVE set from `value`.
    pub open spec fn with_zn(self, value: u8) -> CPU {
        self.with_flag(CPUFlags::ZERO, value == 0).with_flag(CPUFlags::NEGATIVE, value >= 128)
    }

    /// Power-on state: registers cleared, stack pointer at 0xFD and interrupts
    /// disabled; the program counter is loaded from the reset vector later.
    pub fn new() -> (r: CPU)
        ensures
            r.acc == 0 && r.x == 0 && r.y == 0 && r.pc == 0 && r.p == 0,
            r.s == 0xFD,
            r.flags.bits == CPUFlags::IRQ,
    {
        CPU { acc: 0, x: 0, y: 0, pc: 0, p: 0, s: 0xFD, flags: CPUFlags { bits: CPUFlags::IRQ } }
    }

    /// 1 when the flag is set, 0 otherwise.
    pub fn flag_as_u8(&self, status: u8) -> (r: u8)
        ensures r == (if self.flag(status) { 1u8 } else { 0u8 }),
    {
        if self.flags.contains(status) { 1 } else { 0 }
    }

    pub fn get_flag(&self, status: u8) -> (r: bool)
        ensures r == self.flag(status),
    {
        self.flags.contains(status)
    }

    pub fn set_flag(&mut self, status: u8, cond: bool)
        ensures *final(self) == old(self).with_flag(status, cond),
    {
        self.flags.set(status, cond);
    }

    /// Based on result, set ZERO and NEGATIVE flags.
    pub fn set_zn(&mut self, value: u8)
        ensures *final(self) == old(self).with_zn(value),
    {
        self.set_flag(CPUFlags::ZERO, value == 0);
        proof {
            lemma_byte(value);
        }
        self.set_flag(CPUFlags::NEGATIVE, (value & 0x80) != 0);
    }
}

} // verus!
