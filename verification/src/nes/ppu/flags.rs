use vstd::prelude::*;

verus! {

/// The indices of the eight CPU-visible PPU registers.
#[derive(Debug, Clone, Copy)]
pub struct PPUReg;

impl PPUReg {
    pub const CTRL: u8 = 0;
    pub const MASK: u8 = 1;
    pub const STATUS: u8 = 2;
    pub const OAMADDR: u8 = 3;
    pub const OAMDATA: u8 = 4;
    pub const SCROLL: u8 = 5;
    pub const ADDR: u8 = 6;
    pub const DATA: u8 = 7;
}

/// The bits of PPUCTRL.
#[derive(Debug, Clone, Copy)]
pub struct PPUCTRL;

impl PPUCTRL {
    pub const BASE_NAMETABLE_ADDR: u8 = 3;
    pub const VRAM_INCREMENT: u8 = 4;
    pub const SPRITE_PATTERN_ADDR: u8 = 8;
    pub const BG_PATTERN_ADDR: u8 = 16;
    pub const SPRITE_SIZE: u8 = 32;
    pub const MASTER_SLAVE_SEL: u8 = 64;
    pub const VBLANK_NMI_EN: u8 = 128;
}

/// The bits of PPUMASK.
#[derive(Debug, Clone, Copy)]
pub struct PPUMask;

impl PPUMask {
    pub const GREYSCALE: u8 = 1;
    pub const SHOW_BG_LEFTMOST: u8 = 2;
    pub const SHOW_SPRITES_LEFTMOST: u8 = 4;
    pub const BACKGROUND_RENDER_EN: u8 = 8;
    pub const SPRITE_RENDER_EN: u8 = 16;
    pub const EMPH_RED: u8 = 32;
    pub const EMPH_GREEN: u8 = 64;
    pub const EMPH_BLUE: u8 = 128;
}

/// The bits of PPUSTATUS.
#[derive(Debug, Clone, Copy)]
pub struct PPUStatus;

impl PPUStatus {
    pub const SPRITE_OVERFLOW: u8 = 32;
    pub const SPRITE0_HIT: u8 = 64;
    pub const VBLANK: u8 = 128;
}

} // verus!
