//! A register-file model of the picture processing unit: the eight CPU-visible
//! registers, the vertical-blank flag and the NMI request line.

pub mod addressing;
pub mod flags;
pub mod sprite_buffer_memory;

use vstd::prelude::*;
use crate::bits::lemma_byte;

verus! {

/// The PPU's registers as the CPU numbers them, and the sprite-DMA port.
#[derive(Copy, Clone, Debug, PartialEq, Eq, Structural)]
pub enum PPUReg {
    Ctrl,
    Mask,
    Status,
    OamAddr,
    OamData,
    Scroll,
    Addr,
    Data,
    OamDma,
}

impl PPUReg {
    /// The register's number: Ctrl 0, Mask 1, up to Data 7 and OamDma 8.
    pub open spec fn number(self) -> u8 {
        match self {
            PPUReg::Ctrl => 0,
            PPUReg::Mask => 1,
            PPUReg::Status => 2,
            PPUReg::OamAddr => 3,
            PPUReg::OamData => 4,
            PPUReg::Scroll => 5,
            PPUReg::Addr => 6,
            PPUReg::Data => 7,
            PPUReg::OamDma => 8,
        }
    }

    pub fn index(self) -> (r: u8)
        ensures
            r == self.number(),
    {
        match self {
            PPUReg::Ctrl => 0,
            PPUReg::Mask => 1,
            PPUReg::Status => 2,
            PPUReg::OamAddr => 3,
            PPUReg::OamData => 4,
            PPUReg::Scroll => 5,
            PPUReg::Addr => 6,
            PPUReg::Data => 7,
            PPUReg::OamDma => 8,
        }
    }
}

pub struct PPU {
    ctrl: u8,
    mask: u8,
    status: u8,
    oam_addr: u8,
    oam_data: u8,
    scroll: u8,
    addr: u8,
    data: u8,
    oam_dma: u8,
    pending_nmi: bool,
}

impl PPU {
    /// The value of register `i` (0 CTRL, 1 MASK, 2 STATUS, 3 OAMADDR,
    /// 4 OAMDATA, 5 SCROLL, 6 ADDR, 7 DATA).
    pub closed spec fn reg(&self, i: int) -> u8 {
        if i == 0 { self.ctrl }
        else if i == 1 { self.mask }
        else if i == 2 { self.status }
        else if i == 3 { self.oam_addr }
        else if i == 4 { self.oam_data }
        else if i == 5 { self.scroll }
        else if i == 6 { self.addr }
        else { self.data }
    }

    pub closed spec fn nmi_requested(&self) -> bool {
        self.pending_nmi
    }

    /// All registers zero but STATUS, which powers up with vertical blank set.
    pub fn new() -> (p: PPU)
        ensures
            forall|i: int| 0 <= i < 8 ==> #[trigger] p.reg(i) == (if i == 2 { 0x80u8 } else { 0u8 }),
            !p.nmi_requested(),
    {
        PPU {
            data: 0,
            mask: 0,
            status: 0x80,
            oam_addr: 0,
            oam_data: 0,
            addr: 0,
            oam_dma: 0,
            ctrl: 0,
            scroll: 0,
            pending_nmi: false,
        }
    }

    /// Stores `data` in register `addr`.
    pub fn write(&mut self, addr: u8, data: u8)
        requires
            addr < 8,
        ensures
            final(self).reg(addr as int) == data,
            forall|i: int| 0 <= i < 8 && i != addr ==> #[trigger] final(self).reg(i) == old(self).reg(i),
            final(self).nmi_requested() == old(self).nmi_requested(),
    {
        if addr == 0 {
            self.ctrl = data;
        } else if addr == 1 {
            self.mask = data;
        } else if addr == 2 {
            self.status = data;
        } else if addr == 3 {
            self.oam_addr = data;
        } else if addr == 4 {
            self.oam_data = data;
        } else if addr == 5 {
            self.scroll = data;
        } else if addr == 6 {
            self.addr = data;
        } else {
            self.data = data;
        }
    }

    /// The value of register `addr`.
    pub fn read(&self, addr: u8) -> (r: u8)
        requires
            addr < 8,
        ensures
            r == self.reg(addr as int),
    {
        if addr == 0 {
            self.ctrl
        } else if addr == 1 {
            self.mask
        } else if addr == 2 {
            self.status
        } else if addr == 3 {
            self.oam_addr
        } else if addr == 4 {
            self.oam_data
        } else if addr == 5 {
            self.scroll
        } else if addr == 6 {
            self.addr
        } else {
            self.data
        }
    }

    pub fn pending_nmi(&self) -> (r: bool)
        ensures
            r == self.nmi_requested(),
    {
        self.pending_nmi
    }

    pub fn clear_nmi(&mut self)
        ensures
            !final(self).nmi_requested(),
            forall|i: int| 0 <= i < 8 ==> #[trigger] final(self).reg(i) == old(self).reg(i),
    {
        self.pending_nmi = false;
    }

    /// Enters vertical blank: sets the STATUS vblank bit and, when CTRL enables
    /// it, requests an NMI.
    pub fn tick(&mut self)
        ensures
            final(self).reg(2) == old(self).reg(2) | 0x80,
            forall|i: int| 0 <= i < 8 && i != 2 ==> #[trigger] final(self).reg(i) == old(self).reg(i),
            final(self).nmi_requested() == (old(self).nmi_requested() || old(self).reg(0) & 0x80 != 0),
    {
        self.status = self.status | 0x80;

        if self.vblank_nmi_enable() {
            self.pending_nmi = true;
        }
    }

    /// The nametable CTRL selects, at 0x2000 + 0x400 * n.
    fn base_nametable_addr(&self) -> (r: u16)
        ensures
            r == 0x2000 + 0x400 * (self.ctrl & 3) as int,
    {
        let c = self.ctrl;
        let n = c & 0x03;
        proof {
            lemma_byte(c);
        }
        if n == 0 {
            0x2000
        } else if n == 1 {
            0x2400
        } else if n == 2 {
            0x2800
        } else {
            0x2C00
        }
    }

    fn vram_address_mode_down(&self) -> (r: bool)
        ensures
            r == (self.status & 4 != 0),
    {
        (self.status & 4) != 0
    }

    fn sprite_pattern_table_address(&self) -> (r: u16)
        ensures
            r == (if self.status & 8 != 0 { 0x1000u16 } else { 0u16 }),
    {
        if (self.status & 8) != 0 { 0x1000 } else { 0 }
    }

    fn background_pattern_address(&self) -> (r: u16)
        ensures
            r == (if self.status & 16 != 0 { 0x1000u16 } else { 0u16 }),
    {
        if (self.status & 16) != 0 { 0x1000 } else { 0 }
    }

    fn sprite_size(&self) -> (r: (usize, usize))
        ensures
            r == (if self.status & 32 != 0 { (8usize, 8usize) } else { (8usize, 16usize) }),
    {
        if (self.status & 32) != 0 { (8, 8) } else { (8, 16) }
    }

    fn master_slave_select(&self) -> (r: bool)
        ensures
            r == (self.status & 64 != 0),
    {
        (self.status & 64) != 0
    }

    fn vblank_nmi_enable(&self) -> (r: bool)
        ensures
            r == (self.ctrl & 0x80 != 0),
    {
        (self.ctrl & 0x80) != 0
    }
}

/// A register reads back what was last written to it.
pub proof fn lemma_register_read_after_write(before: PPU, after: PPU, addr: u8, data: u8, other: int)
    requires
        addr < 8,
        after.reg(addr as int) == data,
        forall|i: int| 0 <= i < 8 && i != addr ==> #[trigger] after.reg(i) == before.reg(i),
        0 <= other < 8,
    ensures
        after.reg(addr as int) == data,
        other != addr ==> after.reg(other) == before.reg(other),
{
}

/// `after` is `before` once `write(w.0, w.1)` has run.
pub open spec fn write_step(before: PPU, after: PPU, w: (u8, u8)) -> bool {
    &&& w.0 < 8
    &&& after.reg(w.0 as int) == w.1
    &&& forall|i: int| 0 <= i < 8 && i != w.0 ==> #[trigger] after.reg(i) == before.reg(i)
}

/// Over any run of writes (`states[j + 1]` is `states[j]` after write `ws[j]`),
/// a register reads the value of the last write to it; writes to the other
/// registers in between leave it alone.
pub proof fn lemma_register_last_write(states: Seq<PPU>, ws: Seq<(u8, u8)>, r: int, k: int, n: int)
    requires
        states.len() == ws.len() + 1,
        forall|j: int| 0 <= j < ws.len() ==> write_step(#[trigger] states[j], states[j + 1], ws[j]),
        0 <= r < 8,
        0 <= k < n <= ws.len(),
        ws[k].0 == r,
        forall|j: int| k < j < ws.len() ==> #[trigger] ws[j].0 != r,
    ensures
        states[n].reg(r) == ws[k].1,
    decreases n - k,
{
    assert(write_step(states[n - 1], states[n], ws[n - 1]));
    if n > k + 1 {
        lemma_register_last_write(states, ws, r, k, n - 1);
        assert(ws[n - 1].0 != r);
    }
}

} // verus!
