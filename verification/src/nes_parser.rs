use vstd::prelude::*;
use crate::bits::lemma_byte;

verus! {

/// The video timing a cartridge was made for.
#[derive(Copy, Clone, PartialEq, Eq, Structural, Debug)]
pub enum TimingMode {
    NTSC,
    PAL,
    MultipleRegion,
    Dendy,
}

/// The console a cartridge was made for.
#[derive(Copy, Clone, PartialEq, Eq, Structural, Debug)]
pub enum ConsoleType {
    NES,
    VsSystem,
    Playchoice10,
    Extended,
}

/// How the two physical nametables are mirrored over the four logical ones.
#[derive(Copy, Clone, PartialEq, Eq, Structural, Debug)]
pub enum NametableArrangement {
    Vertical,
    Horizontal,
    /// All four logical nametables show the one physical table given (0 or 1).
    OneScreen(u8),
}

impl NametableArrangement {
    /// A single-screen arrangement names physical table 0 or 1.
    pub open spec fn valid(self) -> bool {
        match self {
            NametableArrangement::OneScreen(n) => n <= 1,
            _ => true,
        }
    }
}

/// The fields of an iNES / NES 2.0 header.
#[derive(Copy, Clone, Debug)]
pub struct NES2Header {
    pub nametable_arrangement: NametableArrangement,
    pub nvm_present: bool,
    pub trainer: bool,
    pub alt_nametable_layout: bool,
    pub console_type: ConsoleType,
    pub mapper: u16,
    pub submapper: u8,
    /// In units of 16 KiB.
    pub prg_rom_size: u16,
    /// In units of 8 KiB.
    pub chr_rom_size: u16,
    pub prg_ram_size: u16,
    pub prg_nvram_size: u16,
    pub chr_ram_size: u16,
    pub chr_nvram_size: u16,
    pub timing_mode: TimingMode,
    pub default_expansion_device: u8,
    pub misc_roms: u8,
}

/// A cartridge: its header and its program and character ROM.
pub struct NESData {
    pub prg_rom: Vec<u8>,
    pub chr_rom: Vec<u8>,
    pub header: NES2Header,
}

/// Why a ROM image was refused.
#[derive(Copy, Clone, PartialEq, Eq, Structural, Debug)]
pub enum RomError {
    UnrecognizedFormat,
}

impl RomError {
    /// The message the error is reported with.
    pub fn message(&self) -> (s: &'static str)
        ensures
            s@ == "unrecognized ROM format"@,
    {
        "unrecognized ROM format"
    }
}

/// The file starts with the four bytes `N`, `E`, `S`, 0x1A.
pub open spec fn has_magic(b: Seq<u8>) -> bool {
    &&& b.len() >= 4
    &&& b[0] == 0x4E && b[1] == 0x45 && b[2] == 0x53 && b[3] == 0x1A
}

pub open spec fn bit_of(byte: u8, bit: u8) -> bool {
    byte & (1u8 << bit) != 0
}

/// Flags 7 mark the NES 2.0 variant of the format.
pub open spec fn is_nes2(b: Seq<u8>) -> bool {
    ((b[7] >> 2u8) & 0x02u8) == 2
}

/// A size stored as a shift count: 0 for none, else 64 shifted left by it.
pub open spec fn shift_size(shift: u8) -> u16 {
    if shift == 0 { 0 } else { 64u16 << shift }
}

pub open spec fn console_of(b: Seq<u8>) -> ConsoleType {
    let c = b[7] & 0x03u8;
    if c == 0 { ConsoleType::NES }
    else if c == 1 { ConsoleType::VsSystem }
    else if c == 2 { ConsoleType::Playchoice10 }
    else { ConsoleType::Extended }
}

pub open spec fn timing_of(b: Seq<u8>) -> TimingMode {
    let t = b[12] & 0x03u8;
    if t == 0 { TimingMode::NTSC }
    else if t == 1 { TimingMode::PAL }
    else if t == 2 { TimingMode::MultipleRegion }
    else { TimingMode::Dendy }
}

/// The mapper number: iNES gives 8 bits (the high nibbles of bytes 6 and
/// 7); NES 2.0 gives 12, the low nibble of byte 8 supplying bits 8-11.
pub open spec fn mapper_of(b: Seq<u8>) -> u16 {
    if is_nes2(b) {
        ((b[6] as u16) >> 4u16) | ((b[7] as u16) & 0xF0u16) | (((b[8] as u16) & 0x0Fu16) << 8u16)
    } else {
        ((b[6] as u16) >> 4u16) | ((b[7] as u16) & 0xF0u16)
    }
}

/// The header the first 16 bytes of `b` describe.
pub open spec fn header_of(b: Seq<u8>) -> NES2Header {
    let nes2 = is_nes2(b);
    NES2Header {
        nametable_arrangement: if bit_of(b[6], 0) { NametableArrangement::Horizontal } else {
            NametableArrangement::Vertical
        },
        nvm_present: bit_of(b[6], 1),
        trainer: bit_of(b[6], 2),
        alt_nametable_layout: bit_of(b[6], 3),
        console_type: console_of(b),
        mapper: mapper_of(b),
        submapper: (b[8] & 0xF0u8) >> 4u8,
        prg_rom_size: (b[4] as u16) | (((b[9] as u16) & 0x0Fu16) << 8u16),
        chr_rom_size: (b[5] as u16) | (((b[9] as u16) & 0xF0u16) << 4u16),
        prg_ram_size: if nes2 { shift_size(b[10] & 0x0Fu8) } else { b[8] as u16 },
        prg_nvram_size: if nes2 { shift_size((b[10] & 0xF0u8) >> 4u8) } else { 0 },
        chr_ram_size: if nes2 { shift_size(b[11] & 0x0Fu8) } else { 0 },
        chr_nvram_size: if nes2 { shift_size((b[10] & 0xF0u8) >> 4u8) } else { 0 },
        timing_mode: if nes2 { timing_of(b) } else { TimingMode::NTSC },
        default_expansion_device: if nes2 { b[15] & 0x7Fu8 } else { 0 },
        misc_roms: if nes2 { b[14] & 0x03u8 } else { 0 },
    }
}

/// Bytes of program ROM the header announces.
pub open spec fn prg_len(b: Seq<u8>) -> int {
    header_of(b).prg_rom_size as int * 16384
}

/// Bytes of character ROM the header announces.
pub open spec fn chr_len(b: Seq<u8>) -> int {
    header_of(b).chr_rom_size as int * 8192
}

/// The inputs on which reading a ROM image does not fail outright: four bytes
/// at least to hold the magic number, a full header behind it, and an iNES
/// header that names one of the three console types it defines.
pub open spec fn parse_defined(b: Seq<u8>) -> bool {
    &&& b.len() >= 4
    &&& has_magic(b) ==> b.len() >= 16 && (is_nes2(b) || b[7] & 0x03u8 != 3)
}

/// The image holds the magic number and all the ROM its header announces.
pub open spec fn parse_accepts(b: Seq<u8>) -> bool {
    has_magic(b) && 16 + prg_len(b) + chr_len(b) <= b.len()
}

fn bit_to_bool(byte: u8, bit: u8) -> (r: bool)
    requires
        bit < 8,
    ensures
        r == bit_of(byte, bit),
{
    (byte & (1u8 << bit)) != 0
}

fn parse_shift_format(shift_count: u8) -> (r: u16)
    requires
        shift_count < 16,
    ensures
        r == shift_size(shift_count),
{
    if shift_count == 0 {
        return 0;
    }
    64u16 << shift_count
}

fn copy_range(bytes: &[u8], start: usize, len: usize) -> (r: Vec<u8>)
    requires
        start + len <= bytes@.len(),
    ensures
        r@ == bytes@.subrange(start as int, start + len),
{
    let mut v: Vec<u8> = Vec::new();
    let mut i: usize = 0;
    while i < len
        invariant
            i <= len,
            start + len <= bytes@.len(),
            bytes@.len() == bytes.len(),
            v@ == bytes@.subrange(start as int, start + i),
        decreases len - i,
    {
        v.push(bytes[start + i]);
        i = i + 1;
        assert(v@ =~= bytes@.subrange(start as int, start + i));
    }
    v
}

/// Decodes the header at the start of an iNES / NES 2.0 image.
pub fn parse_nes_header(bytes: &[u8]) -> (h: NES2Header)
    requires
        bytes@.len() >= 16,
        is_nes2(bytes@) || bytes@[7] & 0x03u8 != 3,
    ensures
        h == header_of(bytes@),
{
    let is_nes2 = ((bytes[7] >> 2) & 0x02) == 2;

    // Following definitions are common for iNES and NES2.0
    let prg_rom_size = (bytes[4] as u16) | (((bytes[9] as u16) & 0x0F) << 8);
    let chr_rom_size = (bytes[5] as u16) | (((bytes[9] as u16) & 0xF0) << 4);
    let nametable_arrangement = if bit_to_bool(bytes[6], 0) {
        NametableArrangement::Horizontal
    } else {
        NametableArrangement::Vertical
    };
    let nvm_present = bit_to_bool(bytes[6], 1);
    let trainer = bit_to_bool(bytes[6], 2);
    let alt_nametable_layout = bit_to_bool(bytes[6], 3);

    // NES2 supports 12-bit mapper number, whereas iNES supports only 8-bit
    let mapper: u16 = if is_nes2 {
        ((bytes[6] as u16) >> 4) | ((bytes[7] as u16) & 0xF0) | (((bytes[8] as u16) & 0x0F) << 8)
    } else {
        ((bytes[6] as u16) >> 4) | ((bytes[7] as u16) & 0xF0)
    };

    let console_bits = bytes[7] & 0x03;
    let console_type = if console_bits == 0 {
        ConsoleType::NES
    } else if console_bits == 1 {
        ConsoleType::VsSystem
    } else if console_bits == 2 {
        ConsoleType::Playchoice10
    } else {
        ConsoleType::Extended
    };

    let timing_bits = bytes[12] & 0x03;
    let timing_mode = if timing_bits == 0 {
        TimingMode::NTSC
    } else if timing_bits == 1 {
        TimingMode::PAL
    } else if timing_bits == 2 {
        TimingMode::MultipleRegion
    } else {
        TimingMode::Dendy
    };

    proof {
        let b10 = bytes@[10];
        let b11 = bytes@[11];
        lemma_byte(b10);
        lemma_byte(b11);
    }
    let prg_ram_size = if is_nes2 { parse_shift_format(bytes[10] & 0x0F) } else { bytes[8] as u16 };

    // Note that bytes 9 and 10 in iNES are not supported.
    NES2Header {
        alt_nametable_layout,
        chr_rom_size,
        nametable_arrangement,
        nvm_present,
        prg_rom_size,
        trainer,
        mapper,
        submapper: (bytes[8] & 0xF0) >> 4,
        console_type,
        prg_ram_size,
        prg_nvram_size: if is_nes2 { parse_shift_format((bytes[10] & 0xF0) >> 4) } else { 0 },
        chr_ram_size: if is_nes2 { parse_shift_format(bytes[11] & 0x0F) } else { 0 },
        chr_nvram_size: if is_nes2 { parse_shift_format((bytes[10] & 0xF0) >> 4) } else { 0 },
        timing_mode: if is_nes2 { timing_mode } else { TimingMode::NTSC },
        default_expansion_device: if is_nes2 { bytes[15] & 0x7F } else { 0 },
        misc_roms: if is_nes2 { bytes[14] & 0x03 } else { 0 },
    }
}

/// Splits an iNES / NES 2.0 image into its header, program ROM and character
/// ROM. The program ROM follows the 16-byte header, the character ROM follows
/// the program ROM.
pub fn parse_rom(bytes: &[u8]) -> (r: Result<NESData, RomError>)
    requires
        parse_defined(bytes@),
    ensures
        r is Ok <==> parse_accepts(bytes@),
        r is Err ==> r == Err::<NESData, RomError>(RomError::UnrecognizedFormat),
        r matches Ok(d) ==> {
            &&& d.header == header_of(bytes@)
            &&& d.prg_rom@ == bytes@.subrange(16, 16 + prg_len(bytes@))
            &&& d.chr_rom@ == bytes@.subrange(16 + prg_len(bytes@), 16 + prg_len(bytes@) + chr_len(bytes@))
        },
{
    if bytes[0] != 0x4E || bytes[1] != 0x45 || bytes[2] != 0x53 || bytes[3] != 0x1A {
        return Err(RomError::UnrecognizedFormat);
    }
    let nes_header = parse_nes_header(bytes);

    let offset: usize = 16; // Length of header

    // ROM Size is in units of 16kB
    proof {
        let b4 = bytes@[4];
        let b5 = bytes@[5];
        let b9 = bytes@[9];
        assert((b4 as u16) | (((b9 as u16) & 0x0F) << 8) < 4096 && (b5 as u16) | (((b9 as u16) & 0xF0) << 4) < 4096)
            by (bit_vector);
    }
    let prg_rom_size: usize = (nes_header.prg_rom_size as usize) * 16384;
    if prg_rom_size > bytes.len() - offset {
        return Err(RomError::UnrecognizedFormat);
    }
    let prg_rom_data = copy_range(bytes, offset, prg_rom_size);
    let offset = offset + prg_rom_size;

    // Units of 8kB
    let chr_rom_size: usize = (nes_header.chr_rom_size as usize) * 8192;
    if chr_rom_size > bytes.len() - offset {
        return Err(RomError::UnrecognizedFormat);
    }
    let chr_rom_data = copy_range(bytes, offset, chr_rom_size);

    Ok(NESData { header: nes_header, prg_rom: prg_rom_data, chr_rom: chr_rom_data })
}

} // verus!
