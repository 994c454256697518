//! Cartridge mappers: how the CPU and PPU address spaces reach the program
//! and character ROM of a cartridge.

pub mod mapper_0;
pub mod mapper_1;

use vstd::prelude::*;

use crate::nes::mappers::mapper_0::{NROMModel, NROM};
use crate::nes::mappers::mapper_1::{MMC1Model, MMC1};
use crate::nes_parser::{NESData, NametableArrangement};

verus! {

/// The interface a cartridge offers the CPU and the PPU.
pub trait Mapper: Sized {
    /// The mapper's own invariant.
    spec fn mapper_wf(&self) -> bool;

    /// A CPU read of `addr` lands inside the cartridge's data.
    spec fn cpu_readable(&self, addr: u16) -> bool;

    /// A PPU read of `addr` lands inside the cartridge's data.
    spec fn ppu_readable(&self, addr: u16) -> bool;

    /// A PPU write of `addr` lands inside the cartridge's data.
    spec fn ppu_writable(&self, addr: u16) -> bool;

    fn cpu_write(&mut self, addr: u16, value: u8)
        requires
            old(self).mapper_wf(),
        ensures
            final(self).mapper_wf(),
    ;

    fn cpu_read(&mut self, addr: u16) -> u8
        requires
            old(self).mapper_wf(),
            old(self).cpu_readable(addr),
    ;

    fn ppu_write(&mut self, addr: u16, value: u8)
        requires
            old(self).mapper_wf(),
            old(self).ppu_writable(addr),
        ensures
            final(self).mapper_wf(),
    ;

    fn ppu_read(&mut self, addr: u16) -> u8
        requires
            old(self).mapper_wf(),
            old(self).ppu_readable(addr),
    ;

    fn nametable_arrangement(&self) -> (r: NametableArrangement)
        requires
            self.mapper_wf(),
        ensures
            r.valid(),
    ;
}

/// What a cartridge holds, by mapper.
pub ghost enum CartridgeModel {
    NROM(NROMModel),
    MMC1(MMC1Model),
}

impl CartridgeModel {
    pub open spec fn wf(self) -> bool {
        match self {
            CartridgeModel::NROM(m) => m.wf(),
            CartridgeModel::MMC1(m) => m.wf(),
        }
    }

    pub open spec fn cpu_readable(self, addr: u16) -> bool {
        match self {
            CartridgeModel::NROM(m) => m.cpu_readable(addr),
            CartridgeModel::MMC1(m) => m.cpu_readable(addr),
        }
    }

    pub open spec fn cpu_value(self, addr: u16) -> u8 {
        match self {
            CartridgeModel::NROM(m) => m.cpu_value(addr),
            CartridgeModel::MMC1(m) => m.cpu_value(addr),
        }
    }

    pub open spec fn after_cpu_write(self, addr: u16, value: u8) -> CartridgeModel {
        match self {
            CartridgeModel::NROM(m) => CartridgeModel::NROM(m),
            CartridgeModel::MMC1(m) => CartridgeModel::MMC1(m.after_cpu_write(addr, value)),
        }
    }

    pub open spec fn ppu_readable(self, addr: u16) -> bool {
        match self {
            CartridgeModel::NROM(m) => m.ppu_readable(addr),
            CartridgeModel::MMC1(m) => m.ppu_readable(addr),
        }
    }

    pub open spec fn ppu_value(self, addr: u16) -> u8 {
        match self {
            CartridgeModel::NROM(m) => m.ppu_value(addr),
            CartridgeModel::MMC1(m) => m.ppu_value(addr),
        }
    }

    pub open spec fn ppu_writable(self, addr: u16) -> bool {
        match self {
            CartridgeModel::NROM(m) => true,
            CartridgeModel::MMC1(m) => m.ppu_writable(addr),
        }
    }

    pub open spec fn after_ppu_write(self, addr: u16, value: u8) -> CartridgeModel {
        match self {
            CartridgeModel::NROM(m) => CartridgeModel::NROM(m),
            CartridgeModel::MMC1(m) => CartridgeModel::MMC1(m.after_ppu_write(addr, value)),
        }
    }

    pub open spec fn arrangement(self) -> NametableArrangement {
        match self {
            CartridgeModel::NROM(m) => m.nametable,
            CartridgeModel::MMC1(m) => m.arrangement(),
        }
    }
}

/// The cartridge a ROM image describes, behind the mapper its header names.
pub enum Cartridge {
    NROM(NROM),
    MMC1(MMC1),
}

impl View for Cartridge {
    type V = CartridgeModel;

    open spec fn view(&self) -> CartridgeModel {
        match self {
            Cartridge::NROM(m) => CartridgeModel::NROM(m@),
            Cartridge::MMC1(m) => CartridgeModel::MMC1(m@),
        }
    }
}

impl Mapper for Cartridge {
    open spec fn mapper_wf(&self) -> bool {
        self@.wf()
    }

    open spec fn cpu_readable(&self, addr: u16) -> bool {
        self@.cpu_readable(addr)
    }

    open spec fn ppu_readable(&self, addr: u16) -> bool {
        self@.ppu_readable(addr)
    }

    open spec fn ppu_writable(&self, addr: u16) -> bool {
        self@.ppu_writable(addr)
    }

    fn cpu_write(&mut self, addr: u16, value: u8)
        ensures
            final(self)@ == old(self)@.after_cpu_write(addr, value),
    {
        match self {
            Cartridge::NROM(m) => m.cpu_write(addr, value),
            Cartridge::MMC1(m) => m.cpu_write(addr, value),
        }
    }

    fn cpu_read(&mut self, addr: u16) -> (r: u8)
        ensures
            r == old(self)@.cpu_value(addr),
            final(self)@ == old(self)@,
    {
        match self {
            Cartridge::NROM(m) => m.cpu_read(addr),
            Cartridge::MMC1(m) => m.cpu_read(addr),
        }
    }

    fn ppu_write(&mut self, addr: u16, value: u8)
        ensures
            final(self)@ == old(self)@.after_ppu_write(addr, value),
    {
        match self {
            Cartridge::NROM(m) => m.ppu_write(addr, value),
            Cartridge::MMC1(m) => m.ppu_write(addr, value),
        }
    }

    fn ppu_read(&mut self, addr: u16) -> (r: u8)
        ensures
            r == old(self)@.ppu_value(addr),
            final(self)@ == old(self)@,
    {
        match self {
            Cartridge::NROM(m) => m.ppu_read(addr),
            Cartridge::MMC1(m) => m.ppu_read(addr),
        }
    }

    fn nametable_arrangement(&self) -> (r: NametableArrangement)
        ensures
            r == self@.arrangement(),
    {
        match self {
            Cartridge::NROM(m) => m.nametable_arrangement(),
            Cartridge::MMC1(m) => m.nametable_arrangement(),
        }
    }
}

impl Cartridge {
    /// Whether a CPU read of `addr` lands inside the cartridge's data.
    pub fn cpu_can_read(&self, addr: u16) -> (r: bool)
        requires
            self@.wf(),
        ensures
            r == self@.cpu_readable(addr),
    {
        match self {
            Cartridge::NROM(m) => m.cpu_can_read(addr),
            Cartridge::MMC1(m) => m.cpu_can_read(addr),
        }
    }
}

/// The cartridge a ROM image describes: NROM for mapper 0, MMC1 for mapper 1.
pub open spec fn cartridge_of(nes_data: NESData) -> CartridgeModel {
    if nes_data.header.mapper == 0 {
        CartridgeModel::NROM(NROM::model_of(nes_data))
    } else {
        CartridgeModel::MMC1(MMC1::model_of(nes_data))
    }
}

/// Builds the mapper the header names; only mappers 0 and 1 are supported.
pub fn get_mapper(nes_data: NESData) -> (m: Cartridge)
    requires
        nes_data.header.mapper <= 1,
        nes_data.header.nametable_arrangement.valid(),
    ensures
        m@ == cartridge_of(nes_data),
        m@.wf(),
{
    if nes_data.header.mapper == 0 {
        Cartridge::NROM(NROM::new(nes_data))
    } else {
        Cartridge::MMC1(MMC1::new(nes_data))
    }
}

} // verus!
