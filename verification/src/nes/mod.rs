//! The console: CPU, PPU, APU, work RAM, the controller port and the
//! cartridge, joined by the CPU's memory map.

pub mod addressing;
pub mod apu;
pub mod input_controller;
pub mod mappers;
pub mod memory;
pub mod nes;
pub mod ppu;
pub mod ram;
pub mod step_check;

use vstd::prelude::*;

use crate::cpu::{CPU, CPUFlags};
use crate::nes::apu::APU;
use crate::nes::input_controller::InputController;
use crate::nes::mappers::{cartridge_of, get_mapper, Cartridge, CartridgeModel};
use crate::nes::ppu::{PPUModel, PPU};
use crate::nes::ram::RAM;
use crate::bits::lemma_word;
use crate::nes_parser::{NESData, NametableArrangement};
use crate::opcodes::{table_entry, InstructionData};
use crate::ppu::addressing::nametable_index;

verus! {

/// Which part of the console a CPU address reaches.
#[derive(Copy, Clone, PartialEq, Eq, Structural, Debug)]
pub enum Target {
    /// Work RAM, at the given offset (the 2 KiB repeat four times below 0x2000).
    RAM(u16),
    /// A PPU register (the eight repeat every 8 bytes up to 0x3FFF).
    PPU(u8),
    APU(u16),
    Mapper(u16),
    Controller,
    Unspecified,
    OAMDMA,
}

/// Takes in a general 16-bit address, and decides which component is
/// addressed.
pub open spec fn target_of(addr: u16) -> Target {
    if addr < 0x2000 {
        Target::RAM((addr as int % 2048) as u16)
    } else if addr < 0x4000 {
        Target::PPU((addr as int % 8) as u8)
    } else if addr <= 0x4013 || addr == 0x4015 || addr == 0x4017 {
        Target::APU(addr)
    } else if addr == 0x4016 {
        Target::Controller
    } else if addr == 0x4014 {
        Target::OAMDMA
    } else if addr >= 0x4020 {
        Target::Mapper(addr)
    } else {
        Target::Unspecified
    }
}

/// Everything the console holds.
pub ghost struct NESModel {
    pub cpu: CPU,
    pub ppu: PPUModel,
    pub apu: APU,
    pub ram: Seq<u8>,
    pub controller: InputController,
    pub table: Seq<InstructionData>,
    pub cycles: usize,
    pub cart: CartridgeModel,
}

impl NESModel {
    pub open spec fn wf(self) -> bool {
        &&& self.ppu.wf()
        &&& self.apu.wf()
        &&& self.ram.len() == 2048
        &&& self.table.len() == 256
        &&& self.cart.wf()
    }

    /// A read of `addr` reaches data that is there.
    #[verifier::opaque]
    pub open spec fn readable(self, addr: u16) -> bool {
        match target_of(addr) {
            Target::Mapper(a) => self.cart.cpu_readable(a),
            _ => true,
        }
    }

    /// The byte a CPU read of `addr` returns. The APU, the DMA port and the
    /// unmapped 0x4018-0x401F read as 0.
    #[verifier::opaque]
    pub open spec fn read_value(self, addr: u16) -> u8 {
        match target_of(addr) {
            Target::RAM(a) => self.ram[a as int],
            Target::PPU(r) => self.ppu.reg(r),
            Target::APU(_) => 0,
            Target::Mapper(a) => self.cart.cpu_value(a),
            Target::Controller => self.controller.read_value(),
            Target::OAMDMA => 0,
            Target::Unspecified => 0,
        }
    }

    /// The console after a CPU read of `addr`: only a controller read has an
    /// effect, shifting the button latch.
    #[verifier::opaque]
    pub open spec fn after_read(self, addr: u16) -> NESModel {
        if target_of(addr) == Target::Controller {
            NESModel { controller: self.controller.after_read(), ..self }
        } else {
            self
        }
    }

    /// The 256 bytes an OAM DMA from page `value` copies.
    pub open spec fn dma_bytes(self, value: u8) -> Seq<u8> {
        Seq::new(256, |i: int| self.read_value((value as int * 256 + i) as u16))
    }

    pub open spec fn dma_ok(self, value: u8) -> bool {
        forall|i: int| 0 <= i < 256 ==> #[trigger] self.readable((value as int * 256 + i) as u16)
    }

    /// A write of `value` to `addr` does not fail: an OAM DMA needs its whole
    /// source page readable.
    #[verifier::opaque]
    pub open spec fn writable(self, addr: u16, value: u8) -> bool {
        target_of(addr) == Target::OAMDMA ==> self.dma_ok(value)
    }

    /// The console after the CPU writes `value` to `addr`.
    #[verifier::opaque]
    pub open spec fn after_write(self, addr: u16, value: u8) -> NESModel {
        match target_of(addr) {
            Target::RAM(a) => NESModel { ram: self.ram.update(a as int, value), ..self },
            Target::PPU(r) => NESModel { ppu: self.ppu.with_reg(r, value), ..self },
            Target::APU(a) => NESModel { apu: self.apu.after_write(a, value), ..self },
            Target::Mapper(a) => NESModel { cart: self.cart.after_cpu_write(a, value), ..self },
            Target::Controller => NESModel { controller: self.controller.after_write(value), ..self },
            Target::OAMDMA => NESModel {
                ppu: PPUModel {
                    oam: self.ppu.oam.after_dma(self.ppu.oam_addr, self.dma_bytes(value)),
                    ..self.ppu
                },
                ..self
            },
            Target::Unspecified => self,
        }
    }

    /// Both bytes of a little-endian word at `addr` can be read.
    pub open spec fn readable_u16(self, addr: u16) -> bool {
        self.readable(addr) && self.after_read(addr).readable(((addr as int + 1) % 65536) as u16)
    }

    /// The little-endian word at `addr`: low byte first, the high byte at the
    /// next address (wrapping at 0xFFFF).
    pub open spec fn read_u16_value(self, addr: u16) -> u16 {
        let lo = self.read_value(addr);
        let hi = self.after_read(addr).read_value(((addr as int + 1) % 65536) as u16);
        (hi as int * 256 + lo as int) as u16
    }

    pub open spec fn after_read_u16(self, addr: u16) -> NESModel {
        self.after_read(addr).after_read(((addr as int + 1) % 65536) as u16)
    }
}

/// A read changes nothing but the controller.
pub broadcast proof fn lemma_after_read_frame(m: NESModel, addr: u16)
    ensures
        #[trigger] m.after_read(addr) == (NESModel { controller: m.after_read(addr).controller, ..m }),
{
    reveal(NESModel::after_read);
}

/// Whether a read can fail depends on the cartridge alone.
pub broadcast proof fn lemma_readable_cart(m: NESModel, addr: u16)
    ensures
        #[trigger] m.readable(addr) == (target_of(addr) is Mapper ==> m.cart.cpu_readable(addr)),
{
    reveal(NESModel::readable);
}

/// Only a read of the controller port has a side effect.
pub broadcast proof fn lemma_after_read_noop(m: NESModel, addr: u16)
    requires
        target_of(addr) != Target::Controller,
    ensures
        #[trigger] m.after_read(addr) == m,
{
    reveal(NESModel::after_read);
}

/// Only a write to the DMA port can fail.
pub broadcast proof fn lemma_writable_non_dma(m: NESModel, addr: u16, value: u8)
    requires
        target_of(addr) != Target::OAMDMA,
    ensures
        #[trigger] m.writable(addr, value),
{
    reveal(NESModel::writable);
}

/// A write to work RAM stores the byte at its offset and changes nothing else.
pub broadcast proof fn lemma_write_ram(m: NESModel, addr: u16, value: u8)
    requires
        addr < 0x2000,
    ensures
        #[trigger] m.after_write(addr, value) == (NESModel { ram: m.ram.update(addr as int % 2048, value), ..m }),
{
    reveal(NESModel::after_write);
}

/// A read of work RAM returns the byte at its offset.
pub broadcast proof fn lemma_read_ram(m: NESModel, addr: u16)
    requires
        addr < 0x2000,
    ensures
        #[trigger] m.read_value(addr) == m.ram[addr as int % 2048],
{
    reveal(NESModel::read_value);
}

/// Writes change only the CPU-independent parts of the console.
pub broadcast proof fn lemma_after_write_cpu(m: NESModel, addr: u16, value: u8)
    ensures
        #[trigger] m.after_write(addr, value).cpu == m.cpu,
        m.after_write(addr, value).cycles == m.cycles,
        m.after_write(addr, value).table == m.table,
{
    reveal(NESModel::after_write);
}

pub broadcast group group_nes_memory {
    lemma_after_read_frame,
    lemma_readable_cart,
    lemma_after_read_noop,
    lemma_writable_non_dma,
    lemma_write_ram,
    lemma_read_ram,
    lemma_after_write_cpu,
}

/// The state a console starts in with `nes_data` inserted, before the reset
/// vector is loaded.
pub open spec fn power_on(nes_data: NESData, ppu: PPUModel, apu: APU, controller: InputController) -> NESModel {
    NESModel {
        cpu: CPU { acc: 0, x: 0, y: 0, pc: 0, p: 0, s: 0xFD, flags: CPUFlags { bits: CPUFlags::IRQ } },
        ppu,
        apu,
        ram: Seq::new(2048, |i: int| 0u8),
        controller,
        table: Seq::new(256, |i: int| table_entry(i)),
        cycles: 0,
        cart: cartridge_of(nes_data),
    }
}

/// Whether `NES::new` can power on with `nes_data`: a mapper it supports, a
/// known nametable arrangement, and the reset vector inside program ROM.
pub fn can_power_on(nes_data: &NESData) -> (r: bool)
    ensures
        r == (nes_data.header.mapper <= 1 && nes_data.header.nametable_arrangement.valid()
            && cartridge_of(*nes_data).cpu_readable(0xFFFC) && cartridge_of(*nes_data).cpu_readable(0xFFFD)),
{
    let arrangement_ok = match nes_data.header.nametable_arrangement {
        NametableArrangement::OneScreen(n) => n <= 1,
        _ => true,
    };
    if nes_data.header.mapper > 1 || !arrangement_ok {
        return false;
    }
    let len = nes_data.prg_rom.len();
    proof {
        lemma_word(0xFFFCu16);
        lemma_word(0xFFFDu16);
    }
    if nes_data.header.mapper == 0 {
        // One 16 KiB bank shows at 0xC000 as well; with more, 0x8000-0xFFFF
        // is the first 32 KiB.
        if (nes_data.header.prg_rom_size as u8) > 1 {
            len > 0x7FFD
        } else {
            len > 0x3FFD
        }
    } else {
        // MMC1 powers on in PRG mode 3: the last 32 KiB are fixed at 0x8000.
        assert((0x0Cu8 >> 2u8) & 3 == 3) by (bit_vector);
        len >= 32768 && len <= 0xFFFF_FFFF
    }
}

pub struct NES {
    cpu: CPU,
    ppu: PPU,
    apu: APU,
    ram: RAM,
    input_controller: InputController,
    instruction_data: Vec<InstructionData>,
    cycles: usize,
    mapper: Cartridge,
}

impl View for NES {
    type V = NESModel;

    closed spec fn view(&self) -> NESModel {
        NESModel {
            cpu: self.cpu,
            ppu: self.ppu@,
            apu: self.apu,
            ram: self.ram@,
            controller: self.input_controller,
            table: self.instruction_data@,
            cycles: self.cycles,
            cart: self.mapper@,
        }
    }
}

impl NES {
    /// Inserts a cartridge and powers on: every part in its power-on state,
    /// then the program counter loaded from the reset vector at 0xFFFC.
    #[verifier::spinoff_prover]
    #[verifier::rlimit(40)]
    pub fn new(nes_data: NESData, color_data: &[[u8; 3]]) -> (nes: NES)
        requires
            nes_data.header.mapper <= 1,
            nes_data.header.nametable_arrangement.valid(),
            cartridge_of(nes_data).cpu_readable(0xFFFC),
            cartridge_of(nes_data).cpu_readable(0xFFFD),
        ensures
            nes@.wf(),
            ({
                let s0 = power_on(nes_data, PPUModel::power_on(color_data@), APU::power_on(), nes@.controller);
                nes@ == NESModel {
                    cpu: CPU { pc: s0.read_u16_value(0xFFFC), ..s0.cpu },
                    ..s0
                }
            }),
            !nes@.controller.strobing() && nes@.controller.latch() == 0,
    {
        broadcast use group_nes_memory;
        let ghost data = nes_data;
        let mut nes = Self {
            cpu: CPU::new(),
            ppu: PPU::new(color_data),
            apu: APU::new(),
            ram: RAM::new(),
            input_controller: InputController::new(),
            instruction_data: InstructionData::make_instruction_table(),
            cycles: 0,
            mapper: get_mapper(nes_data),
        };
        assert(nes.instruction_data@ =~= Seq::new(256, |i: int| table_entry(i)));
        let pc = nes.read_u16(0xFFFC);
        nes.cpu.pc = pc;
        return nes;
    }

    /// The picture the PPU has drawn, as RGBA bytes.
    #[verifier::spinoff_prover]
    #[verifier::rlimit(40)]
    pub fn get_image_bytes(&mut self) -> (r: &Vec<u8>)
        ensures
            r@ == old(self)@.ppu.image,
            final(self)@ == old(self)@,
    {
        self.ppu.get_image_bytes()
    }

    pub fn image_ready(&self) -> (r: bool)
        ensures
            r == self@.ppu.image_ready,
    {
        return self.ppu.image_ready();
    }

    /// Latches the buttons currently held.
    #[verifier::spinoff_prover]
    #[verifier::rlimit(40)]
    pub fn set_controller_state(&mut self, state: u8)
        ensures
            final(self)@ == (NESModel { controller: old(self)@.controller.with_state(state), ..old(self)@ }),
    {
        self.input_controller.set_controller_state(state);
    }

    /// The cycles the last instruction took.
    pub fn cycles(&self) -> (r: usize)
        ensures
            r == self@.cycles,
    {
        self.cycles
    }
}

} // verus!
