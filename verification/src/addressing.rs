use vstd::prelude::*;

verus! {

/// How to interpret the bytes following an instruction. Different address
/// modes might address the CPU, memory, or treat the bytes as a raw value.
#[derive(Copy, Clone, PartialEq, Eq, Structural, Debug)]
pub enum AddressingMode {
    Immediate,
    Implied,
    ZeroPage,
    ZeroPageX,
    ZeroPageY,
    Absolute,
    AbsoluteX,
    AbsoluteY,
    /// Used by JMP.
    Indirect,
    IndirectX,
    IndirectY,
    Accumulator,
    Relative,
}

/// The 256-byte page an address lies in.
pub open spec fn page_of(addr: u16) -> int {
    addr as int / 256
}

/// True when adding an index moved the effective address into a different
/// 256-byte page (i.e. the high byte changed). Used to charge the extra cycle
/// for AbsoluteX/AbsoluteY/IndirectY reads.
pub fn address_crosses_page(base: u16, effective: u16) -> (r: bool)
    ensures
        r == (page_of(base) != page_of(effective)),
{
    let r = (base & 0xFF00) != (effective & 0xFF00);
    assert(((base & 0xFF00) != (effective & 0xFF00)) == (base / 256 != effective / 256))
        by (bit_vector);
    r
}

} // verus!
