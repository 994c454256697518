//! A NES emulator core: the 6502 CPU, the picture and audio processing units,
//! cartridge mappers and the iNES / NES 2.0 header format, each stated against
//! a mathematical model of its state.

pub mod addressing;
pub mod bits;
pub mod cpu;
pub mod instruction;
pub mod opcodes;
pub mod inputs;
pub mod memory;
pub mod rom;
pub mod nes_parser;
pub mod ppu;
pub mod nes;
pub mod sound;
