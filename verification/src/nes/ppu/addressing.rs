use vstd::prelude::*;
use crate::bits::lemma_word;

use crate::nes::mappers::{Cartridge, CartridgeModel, Mapper};
use crate::nes_parser::NametableArrangement;
use crate::ppu::addressing::{lemma_nametable_bits, nametable_index};

verus! {

/// The palette RAM slot a $3F00-$3FFF address selects (0-0x1F), folding the
/// hardware mirrors: $3F10/$3F14/$3F18/$3F1C alias $3F00/$3F04/$3F08/$3F0C.
/// SMB1 sets the sky backdrop by writing it to $3F10, relying on this mirror.
pub open spec fn palette_slot(addr: u16) -> int {
    let i = addr as int % 32;
    if i >= 16 && i % 4 == 0 { i - 16 } else { i }
}

pub fn palette_index(addr: u16) -> (r: usize)
    ensures
        r as int == palette_slot(addr),
        r < 32,
{
    let mut i = (addr & 0x001F) as usize;
    let i8 = (addr & 0x001F) as u8;
    proof {
        lemma_word(addr);
    }
    assert(((i8 & 0x13) == 0x10) == (i8 >= 16 && i8 % 4 == 0)) by (bit_vector)
        requires
            i8 < 32,
    ;
    if i8 & 0x13 == 0x10 {
        i = i - 0x10;
    }
    i
}

/// Nametable are arranged by 2x2, starting at address 0x2000 and ending at
/// address 0x2FFF, so the start of each table is at 0x2000, 0x2400, 0x2800,
/// 0x2C00. The table index 0-3 is given by A11, A10; the offset by A0-A9.
pub fn nametable_addr(nametable_arrangement: NametableArrangement, addr: u16) -> (r: u16)
    requires
        nametable_arrangement.valid(),
    ensures
        r as int == nametable_index(nametable_arrangement, addr),
        r < 2048,
{
    proof { lemma_nametable_bits(addr); }
    let table = (addr >> 10) & 3;
    let offset = addr & 0x03FF;

    let physical: u16 = match nametable_arrangement {
        // Horizontal mirroring: 0x2400 -> 0x2000, 0x2C00 -> 0x2800
        NametableArrangement::Vertical => (table & 2) >> 1,
        // Vertical mirroring 0x2800 -> 0x2000, 0x2C00 -> 0x2400
        NametableArrangement::Horizontal => table & 1,
        // Single screen
        NametableArrangement::OneScreen(n) => n as u16,
    };
    physical * 0x0400 + offset
}

/// Nametable and palette RAM.
pub ghost struct PPUMemModel {
    pub vram: Seq<u8>,
    pub palette: Seq<u8>,
}

impl PPUMemModel {
    pub open spec fn wf(self) -> bool {
        self.vram.len() == 2048 && self.palette.len() == 32
    }

    /// A read of `addr` reaches cartridge data the cartridge has.
    pub open spec fn readable(self, cart: CartridgeModel, addr: u16) -> bool {
        &&& addr < 0x4000
        &&& addr < 0x2000 ==> cart.ppu_readable(addr)
    }

    /// The byte at PPU address `addr` (below 0x4000): pattern tables from the
    /// cartridge, then nametable RAM (0x3000-0x3EFF mirroring 0x2000-0x2EFF),
    /// then palette RAM.
    pub open spec fn value(self, cart: CartridgeModel, addr: u16) -> u8 {
        if addr < 0x2000 {
            cart.ppu_value(addr)
        } else if addr < 0x3F00 {
            self.vram[nametable_index(cart.arrangement(), addr)]
        } else {
            self.palette[palette_slot(addr)]
        }
    }

    pub open spec fn writable(self, cart: CartridgeModel, addr: u16) -> bool {
        (addr as int % 0x4000) < 0x2000 ==> cart.ppu_writable((addr as int % 0x4000) as u16)
    }

    /// The memory after `data` is stored at `addr`, taken modulo 0x4000.
    pub open spec fn after_write(self, cart: CartridgeModel, addr: u16, data: u8) -> PPUMemModel {
        let a = (addr as int % 0x4000) as u16;
        if a < 0x2000 {
            self
        } else if a < 0x3F00 {
            PPUMemModel { vram: self.vram.update(nametable_index(cart.arrangement(), a), data), ..self }
        } else {
            PPUMemModel { palette: self.palette.update(palette_slot(a), data), ..self }
        }
    }

    /// The cartridge after the same write: pattern-table writes go to it.
    pub open spec fn cart_after_write(self, cart: CartridgeModel, addr: u16, data: u8) -> CartridgeModel {
        let a = (addr as int % 0x4000) as u16;
        if a < 0x2000 { cart.after_ppu_write(a, data) } else { cart }
    }
}

/// The PPU's own memory: 2 KiB of nametable RAM and 32 bytes of palette RAM.
/// Pattern tables are reached through the cartridge's mapper.
pub struct PPUMemoryMap {
    vram: Vec<u8>,
    pallette_ram: Vec<u8>,
}

impl View for PPUMemoryMap {
    type V = PPUMemModel;

    closed spec fn view(&self) -> PPUMemModel {
        PPUMemModel { vram: self.vram@, palette: self.pallette_ram@ }
    }
}

impl PPUMemoryMap {
    pub fn new() -> (m: PPUMemoryMap)
        ensures
            m@.wf(),
            m@.vram == Seq::new(2048, |i: int| 0u8),
            m@.palette == Seq::new(32, |i: int| 0u8),
    {
        let m = PPUMemoryMap { vram: vec![0u8; 2048], pallette_ram: vec![0u8; 32] };
        assert(m@.vram =~= Seq::new(2048, |i: int| 0u8));
        assert(m@.palette =~= Seq::new(32, |i: int| 0u8));
        m
    }

    pub fn write(&mut self, mapper: &mut Cartridge, addr: u16, data: u8)
        requires
            old(self)@.wf(),
            old(mapper)@.wf(),
            old(self)@.writable(old(mapper)@, addr),
        ensures
            final(self)@.wf(),
            final(mapper)@.wf(),
            final(self)@ == old(self)@.after_write(old(mapper)@, addr, data),
            final(mapper)@ == old(self)@.cart_after_write(old(mapper)@, addr, data),
    {
        proof { lemma_nametable_bits(addr); }
        let ghost before = self@;
        let addr = addr & 0x3FFF;
        proof { lemma_nametable_bits(addr); }
        if addr < 0x2000 {
            mapper.ppu_write(addr, data);
        } else if addr <= 0x2FFF {
            let i = nametable_addr(mapper.nametable_arrangement(), addr);
            self.vram.set(i as usize, data);
        } else if addr <= 0x3EFF {
            // Address space typically(?) mirrors the above address space
            let mirrored = addr & !0x1000u16;
            proof {
                lemma_nametable_bits(mirrored);
                assert(mirrored == addr - 0x1000) by (bit_vector)
                    requires
                        mirrored == addr & !0x1000u16,
                        0x3000 <= addr <= 0x3EFF,
                ;
            }
            let i = nametable_addr(mapper.nametable_arrangement(), mirrored);
            self.vram.set(i as usize, data);
        } else {
            let i = palette_index(addr);
            self.pallette_ram.set(i, data);
        }
        assert(self@ =~= before.after_write(old(mapper)@, addr, data));
    }

    pub fn read(&self, mapper: &mut Cartridge, addr: u16) -> (r: u8)
        requires
            self@.wf(),
            old(mapper)@.wf(),
            self@.readable(old(mapper)@, addr),
        ensures
            r == self@.value(old(mapper)@, addr),
            final(mapper)@ == old(mapper)@,
    {
        if addr < 0x2000 {
            mapper.ppu_read(addr)
        } else if addr <= 0x3EFF {
            // 0x3000-0x3EFF mirrors 0x2000-0x2EFF
            let i = nametable_addr(mapper.nametable_arrangement(), addr);
            self.vram[i as usize]
        } else {
            self.pallette_ram[palette_index(addr)]
        }
    }
}

/// The sprite backdrop entries alias the background ones: a write to
/// $3F10/$3F14/$3F18/$3F1C reads back from $3F00/$3F04/$3F08/$3F0C, and the
/// other way round.
pub proof fn lemma_palette_mirrors(m: PPUMemModel, cart: CartridgeModel, k: u16, data: u8)
    requires
        m.wf(),
        k < 4,
    ensures
        m.after_write(cart, (0x3F10 + 4 * k) as u16, data).value(cart, (0x3F00 + 4 * k) as u16) == data,
        m.after_write(cart, (0x3F00 + 4 * k) as u16, data).value(cart, (0x3F10 + 4 * k) as u16) == data,
{
}

/// Palette reads alias in every state: $3F20-$3FFF repeat $3F00-$3F1F, and
/// the sprite backdrop entries $3F10/$3F14/$3F18/$3F1C read the background
/// ones $3F00/$3F04/$3F08/$3F0C, so whichever of two aliases was written last
/// gives what both read.
pub proof fn lemma_palette_aliases(m: PPUMemModel, cart: CartridgeModel, i: u16, k: u16)
    requires
        m.wf(),
        i < 0x100,
        k < 4,
    ensures
        m.value(cart, (0x3F00 + i) as u16) == m.value(cart, (0x3F00 + i % 32) as u16),
        m.value(cart, (0x3F00 + 4 * k) as u16) == m.value(cart, (0x3F10 + 4 * k) as u16),
{
}

/// What a read gives back of a write to nametable or palette RAM.
pub proof fn lemma_ppu_memory_read_after_write(m: PPUMemModel, cart: CartridgeModel, addr: u16, data: u8)
    requires
        m.wf(),
        cart.arrangement().valid(),
        0x2000 <= addr < 0x4000,
    ensures
        m.after_write(cart, addr, data).value(cart, addr) == data,
        m.after_write(cart, addr, data).wf(),
{
}

/// The memory after each write of `ws` in turn, each made with the
/// cartridge it names.
pub open spec fn mem_after_writes(m: PPUMemModel, ws: Seq<(CartridgeModel, u16, u8)>) -> PPUMemModel
    decreases ws.len(),
{
    if ws.len() == 0 {
        m
    } else {
        let w = ws.last();
        mem_after_writes(m, ws.drop_last()).after_write(w.0, w.1, w.2)
    }
}

/// Whether a write to `a` lands on the palette byte that a read of `b`
/// gives: both are in $3F00-$3FFF (the write taken modulo 0x4000) and select
/// the same slot, the backdrop mirrors folded.
pub open spec fn palette_alias(a: u16, b: u16) -> bool {
    let x = (a as int % 0x4000) as u16;
    x >= 0x3F00 && palette_slot(x) == palette_slot(b)
}

/// Over any sequence of writes, a palette read gives the value of the last
/// write that landed on its slot: through any of the $3F20-$3FFF mirrors or
/// through the backdrop aliases (a $3F10 write sets the $3F00 backdrop).
pub proof fn lemma_palette_last_write(
    m: PPUMemModel,
    ws: Seq<(CartridgeModel, u16, u8)>,
    cart: CartridgeModel,
    b: u16,
    k: int,
)
    requires
        m.palette.len() == 32,
        0x3F00 <= b < 0x4000,
        0 <= k < ws.len(),
        palette_alias(ws[k].1, b),
        forall|j: int| k < j < ws.len() ==> !palette_alias(#[trigger] ws[j].1, b),
    ensures
        mem_after_writes(m, ws).value(cart, b) == ws[k].2,
    decreases ws.len(),
{
    let rest = ws.drop_last();
    lemma_writes_keep_palette(m, rest);
    if k < ws.len() - 1 {
        assert forall|j: int| k < j < rest.len() implies !palette_alias(#[trigger] rest[j].1, b) by {
            assert(rest[j] == ws[j]);
        }
        lemma_palette_last_write(m, rest, cart, b, k);
        assert(!palette_alias(ws[ws.len() - 1].1, b));
    }
}

proof fn lemma_writes_keep_palette(m: PPUMemModel, ws: Seq<(CartridgeModel, u16, u8)>)
    requires
        m.palette.len() == 32,
    ensures
        mem_after_writes(m, ws).palette.len() == 32,
    decreases ws.len(),
{
    if ws.len() > 0 {
        lemma_writes_keep_palette(m, ws.drop_last());
    }
}

} // verus!
