//! The picture processing unit: its registers, nametable and palette memory,
//! sprite memory and the background and sprite pipelines that draw the
//! picture one pixel per cycle.

pub mod addressing;
pub mod flags;
pub mod oam;
pub mod pattern_table;
pub mod rendering;

use vstd::prelude::*;

use crate::nes::ppu::addressing::{PPUMemModel, PPUMemoryMap};
use crate::nes::ppu::oam::{blank_secondary, OAMModel, OAM};
use crate::nes::ppu::rendering::IMG_SIZE;
use crate::ppu::sprite_buffer_memory::BufferSprite;

verus! {

/// Everything a `PPU` holds.
pub ghost struct PPUModel {
    pub ctrl: u8,
    pub mask: u8,
    pub status: u8,
    pub oam_addr: u8,
    pub oam_data: u8,
    pub scroll: u8,
    pub addr: u8,
    pub data: u8,
    pub v: u16,
    pub t: u16,
    pub x: u8,
    pub mem: PPUMemModel,
    pub oam: OAMModel,
    pub sprite_buffer: Seq<BufferSprite>,
    pub pattern_lb: u16,
    pub pattern_hb: u16,
    pub attribute_lb: u16,
    pub attribute_hb: u16,
    pub color: Seq<[u8; 3]>,
    pub image: Seq<u8>,
    pub scanline: usize,
    pub cycle: usize,
    pub nmi_lineout: bool,
    pub pending_nmi: bool,
    pub image_ready: bool,
}

impl PPUModel {
    /// Memory has its sizes, the image its 256x240 RGBA pixels, the fine x
    /// scroll selects one of 8 pixels, v is a 15-bit address and the beam is
    /// on one of 262 scanlines of 341 cycles.
    pub open spec fn wf(self) -> bool {
        &&& self.mem.wf()
        &&& self.oam.wf()
        &&& self.sprite_buffer.len() == 8
        &&& self.image.len() == IMG_SIZE
        &&& self.x < 8
        &&& self.v <= 0x7FFF
        &&& self.scanline <= 261
        &&& self.cycle <= 340
    }

    /// The PPU at power-on: registers zero but STATUS, which starts with
    /// vertical blank set; memory, sprite slots, shift registers and picture
    /// zero; secondary OAM cleared; the beam at the top left; `color` as the
    /// colour table.
    pub open spec fn power_on(color: Seq<[u8; 3]>) -> PPUModel {
        PPUModel {
            ctrl: 0,
            mask: 0,
            status: 0x80,
            oam_addr: 0,
            oam_data: 0,
            scroll: 0,
            addr: 0,
            data: 0,
            v: 0,
            t: 0,
            x: 0,
            mem: PPUMemModel { vram: Seq::new(2048, |i: int| 0u8), palette: Seq::new(32, |i: int| 0u8) },
            oam: OAMModel { sprites: Seq::new(256, |i: int| 0u8), secondary: blank_secondary() },
            sprite_buffer: Seq::new(
                8,
                |i: int|
                    BufferSprite { pattern_hi: 0, pattern_lo: 0, pallette: 0, priority: 0, x: 0, is_sprite_0: false },
            ),
            pattern_lb: 0,
            pattern_hb: 0,
            attribute_lb: 0,
            attribute_hb: 0,
            color,
            image: Seq::new(IMG_SIZE as nat, |i: int| 0u8),
            scanline: 0,
            cycle: 0,
            nmi_lineout: false,
            pending_nmi: false,
            image_ready: false,
        }
    }

    /// The value of register `i`.
    pub open spec fn reg(self, i: u8) -> u8 {
        if i == 0 { self.ctrl }
        else if i == 1 { self.mask }
        else if i == 2 { self.status }
        else if i == 3 { self.oam_addr }
        else if i == 4 { self.oam_data }
        else if i == 5 { self.scroll }
        else if i == 6 { self.addr }
        else { self.data }
    }

    /// The PPU after `data` is written to register `i`: the register takes
    /// the value, nothing else changes.
    pub open spec fn with_reg(self, i: u8, data: u8) -> PPUModel {
        if i == 0 { PPUModel { ctrl: data, ..self } }
        else if i == 1 { PPUModel { mask: data, ..self } }
        else if i == 2 { PPUModel { status: data, ..self } }
        else if i == 3 { PPUModel { oam_addr: data, ..self } }
        else if i == 4 { PPUModel { oam_data: data, ..self } }
        else if i == 5 { PPUModel { scroll: data, ..self } }
        else if i == 6 { PPUModel { addr: data, ..self } }
        else { PPUModel { data: data, ..self } }
    }
}

pub struct PPU {
    ctrl: u8,
    mask: u8,
    status: u8,
    oam_addr: u8,
    oam_data: u8,
    scroll: u8,
    addr: u8,
    data: u8,
    v: u16,
    t: u16,
    x: u8,
    addressor: PPUMemoryMap,
    oam: OAM,
    sprite_buffer_data: [BufferSprite; 8],
    pattern_data_lb: u16,
    pattern_data_hb: u16,
    attribute_data_lb: u16,
    attribute_data_hb: u16,
    color_data: Vec<[u8; 3]>,
    image_out: Vec<u8>,
    scanline: usize,
    cycle: usize,
    nmi_lineout: bool,
    pending_nmi: bool,
    image_ready: bool,
}

impl View for PPU {
    type V = PPUModel;

    closed spec fn view(&self) -> PPUModel {
        PPUModel {
            ctrl: self.ctrl,
            mask: self.mask,
            status: self.status,
            oam_addr: self.oam_addr,
            oam_data: self.oam_data,
            scroll: self.scroll,
            addr: self.addr,
            data: self.data,
            v: self.v,
            t: self.t,
            x: self.x,
            mem: self.addressor@,
            oam: self.oam@,
            sprite_buffer: self.sprite_buffer_data@,
            pattern_lb: self.pattern_data_lb,
            pattern_hb: self.pattern_data_hb,
            attribute_lb: self.attribute_data_lb,
            attribute_hb: self.attribute_data_hb,
            color: self.color_data@,
            image: self.image_out@,
            scanline: self.scanline,
            cycle: self.cycle,
            nmi_lineout: self.nmi_lineout,
            pending_nmi: self.pending_nmi,
            image_ready: self.image_ready,
        }
    }
}

impl PPU {
    /// Power-on state: registers zero but STATUS, which starts with vertical
    /// blank set; memory and image zero; the beam at the top left; the colour
    /// table a copy of `color_data`.
    pub fn new(color_data: &[[u8; 3]]) -> (p: PPU)
        ensures
            p@ == PPUModel::power_on(color_data@),
            p@.wf(),
            p@.color == color_data@,
            p@.status == 0x80,
            p@.ctrl == 0 && p@.mask == 0 && p@.oam_addr == 0 && p@.oam_data == 0,
            p@.scroll == 0 && p@.addr == 0 && p@.data == 0,
            p@.v == 0 && p@.t == 0 && p@.x == 0,
            p@.scanline == 0 && p@.cycle == 0,
            !p@.nmi_lineout && !p@.pending_nmi && !p@.image_ready,
            p@.image == Seq::new(IMG_SIZE as nat, |i: int| 0u8),
            p@.mem.vram == Seq::new(2048, |i: int| 0u8),
            p@.mem.palette == Seq::new(32, |i: int| 0u8),
            p@.oam.sprites == Seq::new(256, |i: int| 0u8),
    {
        let mut colors: Vec<[u8; 3]> = Vec::new();
        let mut i: usize = 0;
        while i < color_data.len()
            invariant
                i <= color_data@.len(),
                colors@ == color_data@.subrange(0, i as int),
            decreases color_data@.len() - i,
        {
            colors.push(color_data[i]);
            i = i + 1;
            assert(colors@ =~= color_data@.subrange(0, i as int));
        }
        assert(colors@ =~= color_data@);
        let image = vec![0u8; IMG_SIZE];
        assert(image@ =~= Seq::new(IMG_SIZE as nat, |i: int| 0u8));
        let p = PPU {
            ctrl: 0,
            mask: 0,
            status: 0x80,
            oam_addr: 0,
            oam_data: 0,
            scroll: 0,
            addr: 0,
            data: 0,
            v: 0,
            t: 0,
            x: 0,
            addressor: PPUMemoryMap::new(),
            oam: OAM::new(),
            sprite_buffer_data: [BufferSprite::new(); 8],
            pattern_data_lb: 0,
            pattern_data_hb: 0,
            attribute_data_lb: 0,
            attribute_data_hb: 0,
            color_data: colors,
            image_out: image,
            scanline: 0,
            cycle: 0,
            nmi_lineout: false,
            pending_nmi: false,
            image_ready: false,
        };
        assert(p@.sprite_buffer =~= PPUModel::power_on(color_data@).sprite_buffer);
        p
    }

    /// Stores `data` in register `addr` (0 CTRL, 1 MASK, 2 STATUS, 3 OAMADDR,
    /// 4 OAMDATA, 5 SCROLL, 6 ADDR, 7 DATA).
    pub fn write(&mut self, addr: u8, data: u8)
        requires
            addr < 8,
        ensures
            final(self)@ == old(self)@.with_reg(addr, data),
    {
        if addr == 0 {
            self.ctrl = data;
        } else if addr == 1 {
            self.mask = data;
        } else if addr == 2 {
            self.status = data;
        } else if addr == 3 {
            self.oam_addr = data;
        } else if addr == 4 {
            self.oam_data = data;
        } else if addr == 5 {
            self.scroll = data;
        } else if addr == 6 {
            self.addr = data;
        } else {
            self.data = data;
        }
    }

    /// The value of register `addr`.
    pub fn read(&self, addr: u8) -> (r: u8)
        requires
            addr < 8,
        ensures
            r == self@.reg(addr),
    {
        if addr == 0 {
            self.ctrl
        } else if addr == 1 {
            self.mask
        } else if addr == 2 {
            self.status
        } else if addr == 3 {
            self.oam_addr
        } else if addr == 4 {
            self.oam_data
        } else if addr == 5 {
            self.scroll
        } else if addr == 6 {
            self.addr
        } else {
            self.data
        }
    }

    /// Copies 256 bytes into sprite memory starting at OAMADDR.
    pub fn oam_dma(&mut self, values: &[u8])
        requires
            old(self)@.wf(),
            values@.len() >= 256,
        ensures
            final(self)@ == (PPUModel { oam: old(self)@.oam.after_dma(old(self)@.oam_addr, values@), ..old(self)@ }),
    {
        self.oam.from_dma(self.oam_addr, values);
    }

    /// The picture, 256x240 pixels of four bytes (red, green, blue, unused).
    pub fn get_image_bytes(&self) -> (r: &Vec<u8>)
        ensures
            r@ == self@.image,
    {
        &self.image_out
    }

    /// Whether a whole picture has been drawn since the last pre-render line.
    pub fn image_ready(&self) -> (r: bool)
        ensures
            r == self@.image_ready,
    {
        self.image_ready
    }

    pub fn pending_nmi(&self) -> (r: bool)
        ensures
            r == self@.pending_nmi,
    {
        self.pending_nmi
    }

    pub fn clear_nmi(&mut self)
        ensures
            final(self)@ == (PPUModel { pending_nmi: false, ..old(self)@ }),
    {
        self.pending_nmi = false;
    }
}

/// A register reads back what was last written to it; the others keep their
/// values.
pub proof fn lemma_ppu_register_read_after_write(p: PPUModel, i: u8, j: u8, data: u8)
    requires
        i < 8,
        j < 8,
    ensures
        p.with_reg(i, data).reg(i) == data,
        j != i ==> p.with_reg(i, data).reg(j) == p.reg(j),
{
}

} // verus!
