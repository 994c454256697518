use vstd::prelude::*;

use vstd::arithmetic::div_mod::lemma_fundamental_div_mod_converse;

use crate::bits::{lemma_bit_pair, lemma_byte, lemma_join, lemma_word};
use crate::nes::mappers::{Cartridge, CartridgeModel};
use crate::nes::ppu::flags::{PPUCTRL, PPUMask, PPUStatus};
use crate::nes::ppu::oam::{blank_secondary, OAMModel, TempSpriteInfo};
use crate::nes::ppu::{PPUModel, PPU};
use crate::ppu::sprite_buffer_memory::BufferSprite;

verus! {

pub const IMG_WIDTH: usize = 256;

pub const IMG_HEIGHT: usize = 240;

pub const BYTES_PER_PIXEL: usize = 4;

pub const IMG_SIZE: usize = 245760;

/// The fields of the 15-bit VRAM address `v` (and of `t`): coarse x in bits
/// 0-4, coarse y in bits 5-9, the nametable in bits 10-11 and fine y in bits
/// 12-14.
pub open spec fn coarse_x(v: u16) -> int {
    v as int % 32
}

pub open spec fn coarse_y(v: u16) -> int {
    (v as int / 32) % 32
}

pub open spec fn nametable_sel(v: u16) -> int {
    (v as int / 1024) % 4
}

pub open spec fn fine_y(v: u16) -> int {
    (v as int / 4096) % 8
}

/// The VRAM address with the given fields.
pub open spec fn vram_addr(cx: int, cy: int, nt: int, fy: int) -> u16 {
    (cx + 32 * cy + 1024 * nt + 4096 * fy) as u16
}

/// The next tile to the right: coarse x goes up by one; past the 32nd
/// column it wraps to 0 and the horizontal nametable switches.
pub open spec fn horizontal_step(v: u16) -> u16 {
    let nt = nametable_sel(v);
    if coarse_x(v) == 31 {
        vram_addr(0, coarse_y(v), if nt % 2 == 0 { nt + 1 } else { nt - 1 }, fine_y(v))
    } else {
        vram_addr(coarse_x(v) + 1, coarse_y(v), nt, fine_y(v))
    }
}

/// The next pixel row: fine y goes up by one; past the 8th row it wraps to
/// 0 and coarse y goes up. Past row 29 coarse y wraps to 0 and the vertical
/// nametable switches; rows 30 and 31 (attribute memory) wrap to 0 with no
/// switch.
pub open spec fn vertical_step(v: u16) -> u16 {
    let nt = nametable_sel(v);
    let cy = coarse_y(v);
    if fine_y(v) < 7 {
        vram_addr(coarse_x(v), cy, nt, fine_y(v) + 1)
    } else if cy == 29 {
        vram_addr(coarse_x(v), 0, if nt >= 2 { nt - 2 } else { nt + 2 }, 0)
    } else if cy == 31 {
        vram_addr(coarse_x(v), 0, nt, 0)
    } else {
        vram_addr(coarse_x(v), cy + 1, nt, 0)
    }
}

/// Coarse x and the horizontal nametable bit copied from `t`.
pub open spec fn copy_horizontal(v: u16, t: u16) -> u16 {
    vram_addr(coarse_x(t), coarse_y(v), (nametable_sel(v) / 2) * 2 + nametable_sel(t) % 2, fine_y(v))
}

/// Coarse y, fine y and the vertical nametable bit copied from `t`.
pub open spec fn copy_vertical(v: u16, t: u16) -> u16 {
    vram_addr(coarse_x(v), coarse_y(t), (nametable_sel(t) / 2) * 2 + nametable_sel(v) % 2, fine_y(t))
}

/// The nametable byte naming the tile at `v`.
pub open spec fn tile_addr(v: u16) -> u16 {
    (0x2000 + 1024 * nametable_sel(v) + 32 * coarse_y(v) + coarse_x(v)) as u16
}

/// The attribute byte covering the tile at `v`: each covers 4x4 tiles, and
/// the 64 of a nametable follow its 960 tile bytes.
pub open spec fn attribute_addr(v: u16) -> u16 {
    (0x23C0 + 1024 * nametable_sel(v) + 8 * (coarse_y(v) / 4) + coarse_x(v) / 4) as u16
}

/// The two palette bits an attribute byte holds for the 2x2-tile quadrant
/// of the tile at `v`: bits 0-1 top left, 2-3 top right, 4-5 bottom left,
/// 6-7 bottom right.
pub open spec fn attribute_quadrant(byte: u8, v: u16) -> int {
    let bottom = (coarse_y(v) / 2) % 2 == 1;
    let right = (coarse_x(v) / 2) % 2 == 1;
    let d = if bottom && right { 64int } else if bottom { 16int } else if right { 4int } else { 1int };
    (byte as int / d) % 4
}

/// The background pattern table: 0x1000 when PPUCTRL selects it, else 0.
pub open spec fn bg_pattern_base(ctrl: u8) -> int {
    if ctrl & PPUCTRL::BG_PATTERN_ADDR != 0 { 0x1000 } else { 0 }
}

/// The low plane byte of row `fine_y(v)` of background tile `tile`; the high
/// plane lies 8 bytes on.
pub open spec fn bg_pattern_addr(ctrl: u8, tile: u8, v: u16) -> u16 {
    (bg_pattern_base(ctrl) + 16 * tile + fine_y(v)) as u16
}

/// A 16-bit shift register with its low byte replaced.
pub open spec fn with_low_byte(w: u16, b: int) -> u16 {
    (w as int / 256 * 256 + b) as u16
}

impl PPUModel {
    /// The tile number at `v`.
    pub open spec fn bg_tile(self, cart: CartridgeModel) -> u8 {
        self.mem.value(cart, tile_addr(self.v))
    }

    /// The pattern bytes of the next tile can be read.
    pub open spec fn bg_fetch_defined(self, cart: CartridgeModel) -> bool {
        let lo = bg_pattern_addr(self.ctrl, self.bg_tile(cart), self.v);
        self.mem.readable(cart, lo) && self.mem.readable(cart, (lo + 8) as u16)
    }

    /// The next tile loaded into the low bytes of the background shift
    /// registers: its two pattern planes, and its palette bits spread over
    /// all 8 pixels.
    pub open spec fn bg_fetch_state(self, cart: CartridgeModel) -> PPUModel {
        let lo = bg_pattern_addr(self.ctrl, self.bg_tile(cart), self.v);
        let a = attribute_quadrant(self.mem.value(cart, attribute_addr(self.v)), self.v);
        PPUModel {
            pattern_lb: with_low_byte(self.pattern_lb, self.mem.value(cart, lo) as int),
            pattern_hb: with_low_byte(self.pattern_hb, self.mem.value(cart, (lo + 8) as u16) as int),
            attribute_lb: with_low_byte(self.attribute_lb, if a % 2 == 1 { 255 } else { 0 }),
            attribute_hb: with_low_byte(self.attribute_hb, if a >= 2 { 255 } else { 0 }),
            ..self
        }
    }
}

/// A 16-bit shift register moved one place up.
pub open spec fn shl16(w: u16) -> u16 {
    (w as int * 2 % 65536) as u16
}

/// A sprite slot one pixel on: once its x counter has run down, its pattern
/// registers shift out the next pixel; until then the counter counts down.
pub open spec fn sprite_shifted(b: BufferSprite) -> BufferSprite {
    if b.x == 0 {
        BufferSprite {
            pattern_lo: (b.pattern_lo as int * 2 % 256) as u8,
            pattern_hi: (b.pattern_hi as int * 2 % 256) as u8,
            ..b
        }
    } else {
        BufferSprite { x: (b.x - 1) as u8, ..b }
    }
}

/// A byte with its bits in reverse order: bit i moves to bit 7 - i.
pub open spec fn reversed_byte(b: u8) -> u8 {
    ((b & 0x01) << 7u8) | ((b & 0x02) << 5u8) | ((b & 0x04) << 3u8) | ((b & 0x08) << 1u8) | ((b & 0x10)
        >> 1u8) | ((b & 0x20) >> 3u8) | ((b & 0x40) >> 5u8) | ((b & 0x80) >> 7u8)
}

pub fn reverse_bits(b: u8) -> (r: u8)
    ensures
        r == reversed_byte(b),
{
    let n = ((b & 0xF0) >> 4) | ((b & 0x0F) << 4);
    let n = ((n & 0xCC) >> 2) | ((n & 0x33) << 2);
    let n = ((n & 0xAA) >> 1) | ((n & 0x55) << 1);
    assert(n == reversed_byte(b)) by (bit_vector)
        requires
            n == ({
                let n1 = ((b & 0xF0) >> 4u8) | ((b & 0x0F) << 4u8);
                let n2 = ((n1 & 0xCC) >> 2u8) | ((n1 & 0x33) << 2u8);
                ((n2 & 0xAA) >> 1u8) | ((n2 & 0x55) << 1u8)
            }),
    ;
    n
}

/// The sprite pattern table: 0x1000 when PPUCTRL selects it, else 0.
pub open spec fn sprite_pattern_base(ctrl: u8) -> u16 {
    if ctrl & PPUCTRL::SPRITE_PATTERN_ADDR != 0 { 0x1000 } else { 0 }
}

/// The low plane byte of a secondary-OAM sprite's row (8x8 sprites): the
/// pattern table, the tile number in bits 4-11 and the row in the low bits,
/// joined with OR.
pub open spec fn sprite_pattern_addr(ctrl: u8, s: TempSpriteInfo) -> u16 {
    sprite_pattern_base(ctrl) | ((s.tile_index as u16) << 4u16) | (s.y_pos as u16)
}

/// The two plane bytes of a sprite row, mirrored when attribute bit 6 flips
/// the sprite horizontally.
pub open spec fn sprite_plane(b: u8, attributes: u8) -> u8 {
    if attributes & 0x40 != 0 { reversed_byte(b) } else { b }
}

impl PPUModel {
    /// Every slot of secondary OAM has its pattern row readable.
    pub open spec fn sprite_load_defined(self, cart: CartridgeModel) -> bool {
        forall|i: int|
            0 <= i < 8 ==> {
                let a = sprite_pattern_addr(self.ctrl, #[trigger] self.oam.secondary[i]);
                self.mem.readable(cart, a) && self.mem.readable(cart, a | 8)
            }
    }

    /// The sprite slot loaded from secondary-OAM entry `s`.
    pub open spec fn loaded_sprite(self, cart: CartridgeModel, s: TempSpriteInfo) -> BufferSprite {
        let a = sprite_pattern_addr(self.ctrl, s);
        BufferSprite {
            x: s.x_pos,
            pattern_lo: sprite_plane(self.mem.value(cart, a), s.attributes),
            pattern_hi: sprite_plane(self.mem.value(cart, a | 8), s.attributes),
            pallette: s.attributes & 0x03,
            priority: if s.attributes & 0x20 != 0 { 1 } else { 0 },
            is_sprite_0: s.is_sprite_0,
        }
    }

    pub open spec fn sprite_load_state(self, cart: CartridgeModel) -> PPUModel {
        PPUModel {
            sprite_buffer: Seq::new(8, |i: int| self.loaded_sprite(cart, self.oam.secondary[i])),
            ..self
        }
    }
}

/// The bit of a 16-bit shift register that fine x scroll `x` selects,
/// counting from bit 15.
pub open spec fn column_bit(w: u16, x: u8) -> int {
    if w & (0x8000u16 >> x) != 0 { 1 } else { 0 }
}

/// The 2-bit pixel a sprite slot shows now: bit 7 of each plane.
pub open spec fn sprite_pixel(b: BufferSprite) -> int {
    2 * (if b.pattern_hi >= 128 { 1int } else { 0int }) + (if b.pattern_lo >= 128 { 1int } else { 0int })
}

/// The sprite multiplexer over the first `k` slots, given the background
/// pixel `bg`: the pixel, priority and palette of the first slot whose
/// counter has run down and whose pixel is opaque (while none is, those of
/// each such slot in turn), and whether sprite 0 hit: it is such a slot with
/// an opaque pixel chosen by then over an opaque background.
pub open spec fn sprite_mux(bufs: Seq<BufferSprite>, k: int, bg: int) -> (int, bool, u8, bool)
    decreases k,
{
    if k <= 0 {
        (0, false, 0, false)
    } else {
        let (pix, prio, pal, hit) = sprite_mux(bufs, k - 1, bg);
        let b = bufs[k - 1];
        if b.x != 0 {
            (pix, prio, pal, hit)
        } else {
            let pix2 = if pix == 0 { sprite_pixel(b) } else { pix };
            let prio2 = if pix == 0 { b.priority != 0 } else { prio };
            let pal2 = if pix == 0 { b.pallette } else { pal };
            (pix2, prio2, pal2, hit || (b.is_sprite_0 && bg != 0 && pix2 != 0))
        }
    }
}

/// The palette entry a pixel shows: the backdrop when both background and
/// sprite are transparent; the sprite when only it is opaque, or both are
/// and the sprite has front priority; else the background.
pub open spec fn mux_palette_addr(bg: int, attr: int, spix: int, prio: bool, pal: u8) -> u16 {
    if bg == 0 && spix == 0 {
        0x3F00
    } else if spix != 0 && (bg == 0 || !prio) {
        0x3F10u16 | ((pal as u16) << 2u16) | (spix as u16)
    } else {
        (0x3F00 + 4 * attr + bg) as u16
    }
}

impl PPUModel {
    /// The background pixel (0 when background rendering is off).
    pub open spec fn bg_pixel(self) -> int {
        if self.mask & PPUMask::BACKGROUND_RENDER_EN != 0 {
            2 * column_bit(self.pattern_hb, self.x) + column_bit(self.pattern_lb, self.x)
        } else {
            0
        }
    }

    /// The background palette bits.
    pub open spec fn bg_attr(self) -> int {
        2 * column_bit(self.attribute_hb, self.x) + column_bit(self.attribute_lb, self.x)
    }

    /// The sprite multiplexer (no sprite when sprite rendering is off).
    pub open spec fn sprite_out(self) -> (int, bool, u8, bool) {
        if self.mask & PPUMask::SPRITE_RENDER_EN != 0 {
            sprite_mux(self.sprite_buffer, 8, self.bg_pixel())
        } else {
            (0, false, 0, false)
        }
    }

    pub open spec fn pixel_palette_addr(self) -> u16 {
        let (spix, prio, pal, _) = self.sprite_out();
        mux_palette_addr(self.bg_pixel(), self.bg_attr(), spix, prio, pal)
    }

    /// The colour number of the pixel: the palette entry, cut to its grey
    /// column (bits 4-5) in greyscale mode.
    pub open spec fn pixel_color_index(self, cart: CartridgeModel) -> int {
        let c = self.mem.value(cart, self.pixel_palette_addr());
        if self.mask & PPUMask::GREYSCALE != 0 { (c & 0x30) as int } else { c as int }
    }

    /// The pixel at (`xpos`, `ypos`) can be drawn: it is on screen and its
    /// colour number is in the colour table.
    pub open spec fn draw_defined(self, cart: CartridgeModel, xpos: int, ypos: int) -> bool {
        &&& 0 <= xpos < 256
        &&& 0 <= ypos < 240
        &&& self.pixel_color_index(cart) < self.color.len()
    }

    /// The pixel's colour stored in its first three image bytes, and the
    /// sprite 0 hit flag set when sprite 0 met the background.
    pub open spec fn draw_state(self, cart: CartridgeModel, xpos: int, ypos: int) -> PPUModel {
        let rgb = self.color[self.pixel_color_index(cart)];
        let p = 4 * (ypos * 256 + xpos);
        PPUModel {
            image: self.image.update(p, rgb[0]).update(p + 1, rgb[1]).update(p + 2, rgb[2]),
            status: if self.sprite_out().3 { self.status | PPUStatus::SPRITE0_HIT } else { self.status },
            ..self
        }
    }
}

/// The row of a sprite at `y` that `scanline` falls on, as a byte: the
/// scanline minus (y + 1), both wrapped, so that a sprite is drawn one line
/// below its y position. A row below 8 means the scanline crosses it.
pub open spec fn sprite_row(scanline: usize, y: u8) -> u8 {
    ((scanline as u16 as int - (y as int + 1) % 256) % 256) as u8
}

/// The secondary-OAM entry for sprite `n` when the scanline meets it at row
/// `row`: the row counted from the bottom when attribute bit 7 flips the
/// sprite vertically.
pub open spec fn found_sprite(sprites: Seq<u8>, n: int, row: u8) -> TempSpriteInfo {
    let flip_y = sprites[4 * n + 2] & 0x80 != 0;
    TempSpriteInfo {
        y_pos: if flip_y { (7 - row) as u8 } else { row },
        tile_index: sprites[4 * n + 1],
        attributes: sprites[4 * n + 2],
        x_pos: sprites[4 * n + 3],
        is_sprite_0: n == 0,
    }
}

/// The search for the sprites of a scanline, from sprite `n` with `found`
/// already copied into `sec`: each sprite that the scanline meets is copied
/// to the next slot, until the eighth is found or the 64 are done. Gives the
/// sprite after the last one looked at, the number found and the slots.
pub open spec fn sprite_search(
    sprites: Seq<u8>,
    scanline: usize,
    n: int,
    found: int,
    sec: Seq<TempSpriteInfo>,
) -> (int, int, Seq<TempSpriteInfo>)
    decreases 64 - n,
{
    if n >= 64 || n < 0 {
        (n, found, sec)
    } else {
        let row = sprite_row(scanline, sprites[4 * n]);
        let hit = row < 8;
        let sec2 = if hit { sec.update(found, found_sprite(sprites, n, row)) } else { sec };
        let found2 = if hit { found + 1 } else { found };
        if found2 >= 8 {
            (n + 1, found2, sec2)
        } else {
            sprite_search(sprites, scanline, n + 1, found2, sec2)
        }
    }
}

/// The overflow search after eight sprites are found, as the hardware walks
/// it: it reads byte `m` of sprite `n` as a y position; a scanline 0 to 7
/// lines below it sets the flag. On a miss it moves to the next sprite and
/// also to the next byte (the hardware bug), wrapping past byte 3 to byte 1
/// of the sprite after.
pub open spec fn overflow_search(sprites: Seq<u8>, scanline: usize, n: int, m: int) -> bool
    decreases 65 - n,
{
    if n >= 64 || n < 0 || m < 0 || m > 3 {
        false
    } else if (scanline as u16 as int - sprites[4 * n + m]) % 65536 < 8 {
        true
    } else if m + 1 > 3 {
        overflow_search(sprites, scanline, n + 2, (m + 1) % 3)
    } else {
        overflow_search(sprites, scanline, n + 1, m + 1)
    }
}

impl PPUModel {
    /// After sprite evaluation for `scanline`: secondary OAM holds the sprites
    /// found, and the overflow flag is set when the search after the eighth
    /// hits (it checks against the current scanline).
    pub open spec fn eval_state(self, scanline: usize) -> PPUModel {
        let (n, found, sec) = sprite_search(self.oam.sprites, scanline, 0, 0, blank_secondary());
        let overflow = overflow_search(self.oam.sprites, self.scanline, n, 0);
        PPUModel {
            oam: OAMModel { secondary: sec, ..self.oam },
            status: if overflow { self.status | PPUStatus::SPRITE_OVERFLOW } else { self.status },
            ..self
        }
    }
}

impl PPUModel {
    pub open spec fn rendering_enabled(self) -> bool {
        self.mask & PPUMask::SPRITE_RENDER_EN != 0 || self.mask & PPUMask::BACKGROUND_RENDER_EN != 0
    }

    /// The cycles at which the background pipeline runs: the 256 visible
    /// pixels and the prefetch of the next line's first two tiles.
    pub open spec fn in_fetch_window(self) -> bool {
        (1 <= self.cycle <= 256) || (321 <= self.cycle <= 336)
    }

    /// The visible scanlines and the pre-render scanline.
    pub open spec fn on_render_line(self) -> bool {
        self.scanline <= 239 || self.scanline == 261
    }

    /// Draws the pixel under the beam on a visible line.
    pub open spec fn draw_step(self, cart: CartridgeModel) -> PPUModel {
        if self.cycle <= 256 && self.scanline < 240 {
            self.draw_state(cart, self.cycle - 1, self.scanline as int)
        } else {
            self
        }
    }

    /// Shifts the sprite slots (during the visible pixels) and the
    /// background registers one pixel on.
    pub open spec fn shift_step(self) -> PPUModel {
        let s = if 1 <= self.cycle <= 256 {
            PPUModel { sprite_buffer: self.sprite_buffer.map_values(|b: BufferSprite| sprite_shifted(b)), ..self }
        } else {
            self
        };
        PPUModel {
            pattern_lb: shl16(s.pattern_lb),
            pattern_hb: shl16(s.pattern_hb),
            attribute_lb: shl16(s.attribute_lb),
            attribute_hb: shl16(s.attribute_hb),
            ..s
        }
    }

    /// Every 8th cycle the next tile is fetched and v moves one tile right.
    pub open spec fn tile_step(self, cart: CartridgeModel) -> PPUModel {
        if self.cycle % 8 == 0 {
            let a = self.bg_fetch_state(cart);
            PPUModel { v: horizontal_step(a.v), ..a }
        } else {
            self
        }
    }

    pub open spec fn fetch_phase_defined(self, cart: CartridgeModel) -> bool {
        &&& (self.cycle <= 256 && self.scanline < 240) ==> self.draw_defined(
            cart,
            self.cycle - 1,
            self.scanline as int,
        )
        &&& self.cycle % 8 == 0 ==> self.draw_step(cart).shift_step().bg_fetch_defined(cart)
    }

    /// One cycle of the pixel pipeline in the fetch window.
    pub open spec fn fetch_phase(self, cart: CartridgeModel) -> PPUModel {
        self.draw_step(cart).shift_step().tile_step(cart)
    }

    pub open spec fn cleared_step(self) -> PPUModel {
        if self.cycle == 0 {
            PPUModel { oam: OAMModel { secondary: blank_secondary(), ..self.oam }, ..self }
        } else {
            self
        }
    }

    pub open spec fn line_phase_defined(self, cart: CartridgeModel) -> bool {
        self.in_fetch_window() ==> self.cleared_step().fetch_phase_defined(cart)
    }

    /// One cycle of a visible or pre-render line: secondary OAM cleared at
    /// cycle 0; the pixel pipeline in the fetch window; v moved down a row at
    /// cycle 256 and its horizontal bits reloaded from t at 257; OAMADDR held
    /// at 0 over cycles 257-320.
    pub open spec fn line_phase(self, cart: CartridgeModel) -> PPUModel {
        let a = self.cleared_step();
        let b = if self.in_fetch_window() { a.fetch_phase(cart) } else { a };
        let c = if self.cycle == 256 { PPUModel { v: vertical_step(b.v), ..b } } else { b };
        let d = if self.cycle == 257 { PPUModel { v: copy_horizontal(c.v, c.t), ..c } } else { c };
        if 257 <= self.cycle <= 320 { PPUModel { oam_addr: 0, ..d } } else { d }
    }

    pub open spec fn vertical_reload_step(self) -> PPUModel {
        if self.scanline == 261 && 280 <= self.cycle <= 304 {
            PPUModel { v: copy_vertical(self.v, self.t), ..self }
        } else {
            self
        }
    }

    pub open spec fn line_step(self, cart: CartridgeModel) -> PPUModel {
        if self.on_render_line() { self.line_phase(cart) } else { self }
    }

    pub open spec fn render_defined(self, cart: CartridgeModel) -> bool {
        let a = self.vertical_reload_step();
        let b = a.line_step(cart);
        &&& self.on_render_line() ==> a.line_phase_defined(cart)
        &&& (self.scanline <= 239 && self.cycle == 256) ==> b.eval_state((self.scanline + 1) as usize).sprite_load_defined(cart)
    }

    /// One cycle with rendering on: v's vertical bits reloaded from t over
    /// cycles 280-304 of the pre-render line; the line work; and at cycle 256
    /// of a visible line the sprites of the next line found and loaded.
    pub open spec fn render_phase(self, cart: CartridgeModel) -> PPUModel {
        let a = self.vertical_reload_step();
        let b = a.line_step(cart);
        if self.scanline <= 239 && self.cycle == 256 {
            b.eval_state((self.scanline + 1) as usize).sprite_load_state(cart)
        } else {
            b
        }
    }

    /// Entering vertical blank at scanline 241, cycle 1: the VBLANK flag, an
    /// NMI on the rising edge when PPUCTRL enables it, and the picture ready.
    /// At the pre-render line's cycle 1 the flags and the picture are reset.
    pub open spec fn vblank_phase(self) -> PPUModel {
        let a = if self.scanline == 241 && self.cycle == 1 {
            let nmi = self.ctrl & PPUCTRL::VBLANK_NMI_EN != 0;
            PPUModel {
                status: self.status | PPUStatus::VBLANK,
                pending_nmi: if nmi && !self.nmi_lineout { true } else { self.pending_nmi },
                nmi_lineout: if nmi { true } else { self.nmi_lineout },
                image_ready: true,
                ..self
            }
        } else {
            self
        };
        if a.scanline == 261 && a.cycle == 1 {
            PPUModel {
                status: a.status & !(PPUStatus::VBLANK | PPUStatus::SPRITE0_HIT | PPUStatus::SPRITE_OVERFLOW),
                image_ready: false,
                ..a
            }
        } else {
            a
        }
    }

    /// The beam one dot on: 341 cycles a line, 262 lines a frame.
    pub open spec fn advance(self) -> PPUModel {
        if self.cycle + 1 > 340 {
            PPUModel {
                cycle: 0,
                scanline: if self.scanline + 1 > 261 { 0 } else { (self.scanline + 1) as usize },
                ..self
            }
        } else {
            PPUModel { cycle: (self.cycle + 1) as usize, ..self }
        }
    }

    /// One PPU cycle runs without failing: every pattern byte it reads is
    /// there and every pixel it draws has a colour.
    pub open spec fn tick_defined(self, cart: CartridgeModel) -> bool {
        if self.rendering_enabled() {
            self.render_defined(cart)
        } else if 1 <= self.cycle <= 256 && self.scanline < 240 {
            self.draw_defined(cart, self.cycle - 1, self.scanline as int)
        } else {
            true
        }
    }

    /// The PPU after one cycle. With rendering off, a visible pixel is still
    /// drawn (to wipe the screen).
    pub open spec fn tick_state(self, cart: CartridgeModel) -> PPUModel {
        let a = if self.rendering_enabled() {
            self.render_phase(cart)
        } else if 1 <= self.cycle <= 256 && self.scanline < 240 {
            self.draw_state(cart, self.cycle - 1, self.scanline as int)
        } else {
            self
        };
        a.vblank_phase().advance()
    }
}

/// Moving one tile right touches only the horizontal position: coarse y,
/// fine y and the vertical nametable bit stay; 32 steps come back to the
/// same coarse x in the other horizontal nametable.
pub proof fn lemma_horizontal_step_fields(v: u16)
    ensures
        coarse_y(horizontal_step(v)) == coarse_y(v),
        fine_y(horizontal_step(v)) == fine_y(v),
        nametable_sel(horizontal_step(v)) / 2 == nametable_sel(v) / 2,
        coarse_x(horizontal_step(v)) == (coarse_x(v) + 1) % 32,
        nametable_sel(horizontal_step(v)) % 2 == if coarse_x(v) == 31 {
            1 - nametable_sel(v) % 2
        } else {
            nametable_sel(v) % 2
        },
{
    let cx = coarse_x(v);
    let cy = coarse_y(v);
    let nt = nametable_sel(v);
    let fy = fine_y(v);
    let ncx = if cx == 31 { 0 } else { cx + 1 };
    let nnt = if cx == 31 { if nt % 2 == 0 { nt + 1 } else { nt - 1 } } else { nt };
    lemma_vram_fields(ncx, cy, nnt, fy);
}

/// Moving one pixel row down touches only the vertical position: coarse x
/// and the horizontal nametable bit stay.
pub proof fn lemma_vertical_step_fields(v: u16)
    ensures
        coarse_x(vertical_step(v)) == coarse_x(v),
        nametable_sel(vertical_step(v)) % 2 == nametable_sel(v) % 2,
        fine_y(vertical_step(v)) == (fine_y(v) + 1) % 8,
{
    let cx = coarse_x(v);
    let cy = coarse_y(v);
    let nt = nametable_sel(v);
    let fy = fine_y(v);
    if fy < 7 {
        lemma_vram_fields(cx, cy, nt, fy + 1);
    } else if cy == 29 {
        lemma_vram_fields(cx, 0, if nt >= 2 { nt - 2 } else { nt + 2 }, 0);
    } else if cy == 31 {
        lemma_vram_fields(cx, 0, nt, 0);
    } else {
        lemma_vram_fields(cx, cy + 1, nt, 0);
    }
}

/// A VRAM address reads back the fields it was built from.
proof fn lemma_vram_fields(cx: int, cy: int, nt: int, fy: int)
    requires
        0 <= cx < 32,
        0 <= cy < 32,
        0 <= nt < 4,
        0 <= fy < 8,
    ensures
        coarse_x(vram_addr(cx, cy, nt, fy)) == cx,
        coarse_y(vram_addr(cx, cy, nt, fy)) == cy,
        nametable_sel(vram_addr(cx, cy, nt, fy)) == nt,
        fine_y(vram_addr(cx, cy, nt, fy)) == fy,
{
    let a = cx + 32 * cy + 1024 * nt + 4096 * fy;
    lemma_fundamental_div_mod_converse(a, 32, cy + 32 * nt + 128 * fy, cx);
    lemma_fundamental_div_mod_converse(cy + 32 * nt + 128 * fy, 32, nt + 4 * fy, cy);
    lemma_fundamental_div_mod_converse(a, 1024, nt + 4 * fy, cx + 32 * cy);
    lemma_fundamental_div_mod_converse(nt + 4 * fy, 4, fy, nt);
    lemma_fundamental_div_mod_converse(a, 4096, fy, cx + 32 * cy + 1024 * nt);
    lemma_fundamental_div_mod_converse(fy, 8, 0, fy);
}

/// The search never fills more than the 8 slots of secondary OAM.
pub proof fn lemma_sprite_search_bounded(
    sprites: Seq<u8>,
    scanline: usize,
    n: int,
    found: int,
    sec: Seq<TempSpriteInfo>,
)
    requires
        0 <= found < 8,
        sec.len() == 8,
    ensures
        sprite_search(sprites, scanline, n, found, sec).1 <= 8,
        sprite_search(sprites, scanline, n, found, sec).2.len() == 8,
    decreases 64 - n,
{
    if n >= 64 || n < 0 {
    } else {
        let row = sprite_row(scanline, sprites[4 * n]);
        let hit = row < 8;
        let sec2 = if hit { sec.update(found, found_sprite(sprites, n, row)) } else { sec };
        let found2 = if hit { found + 1 } else { found };
        if found2 < 8 {
            lemma_sprite_search_bounded(sprites, scanline, n + 1, found2, sec2);
        }
    }
}

/// An NMI is raised on the rising edge of vertical blank only: once the
/// line is up, no later cycle raises a cleared NMI again.
pub proof fn lemma_nmi_rising_edge(p: PPUModel, cart: CartridgeModel)
    requires
        p.nmi_lineout,
        !p.pending_nmi,
    ensures
        p.tick_state(cart).nmi_lineout,
        !p.tick_state(cart).pending_nmi,
{
}

/// Mirroring a byte twice gives it back.
pub proof fn lemma_reverse_twice(b: u8)
    ensures
        reversed_byte(reversed_byte(b)) == b,
{
    let r = reversed_byte(b);
    assert(((r & 0x01) << 7u8) | ((r & 0x02) << 5u8) | ((r & 0x04) << 3u8) | ((r & 0x08) << 1u8) | ((r
        & 0x10) >> 1u8) | ((r & 0x20) >> 3u8) | ((r & 0x40) >> 5u8) | ((r & 0x80) >> 7u8) == b) by (bit_vector)
        requires
            r == ((b & 0x01) << 7u8) | ((b & 0x02) << 5u8) | ((b & 0x04) << 3u8) | ((b & 0x08) << 1u8) | ((b
                & 0x10) >> 1u8) | ((b & 0x20) >> 3u8) | ((b & 0x40) >> 5u8) | ((b & 0x80) >> 7u8),
    ;
}

impl PPU {
    /// X-increment. The PPU does this after every tile it fetches, including
    /// on the pre-render scanline.
    fn horizontal_increment(&mut self)
        ensures
            final(self)@ == (PPUModel { v: horizontal_step(old(self)@.v), ..old(self)@ }),
    {
        let v0 = self.v;
        proof {
            lemma_word(v0);
        }
        if (self.v & 0x001F) == 31 {
            self.v = self.v & !0x001F;
            self.v = self.v ^ 0x0400;
        } else {
            self.v = self.v + 1;
        }

        self.v = self.v & 0x7FFF;
        let v1 = self.v;
        assert(v1 == horizontal_step(v0)) by (bit_vector)
            requires
                v1 == (if v0 & 0x001F == 31 { ((v0 & !0x001Fu16) ^ 0x0400) & 0x7FFF } else { ((v0 + 1) as u16) & 0x7FFF }),
        ;
    }

    /// Y-increment. The PPU does this after every rendered scanline,
    /// including the pre-render scanline.
    #[verifier::spinoff_prover]
    #[verifier::rlimit(40)]
    fn vertical_increment(&mut self)
        ensures
            final(self)@ == (PPUModel { v: vertical_step(old(self)@.v), ..old(self)@ }),
    {
        let v0 = self.v;
        proof {
            lemma_word(v0);
        }
        if (self.v & 0x7000) != 0x7000 {
            self.v = self.v + 0x1000;
        } else {
            self.v = self.v & !0x7000;
            let w = self.v;
            let mut y = (w & 0x03E0) >> 5;
            proof {
                lemma_word(w);
            }
            if y == 29 {
                y = 0;
                self.v = self.v ^ 0x0800;
            } else if y == 31 {
                y = 0;
            } else {
                y = y + 1;
            }
            self.v = (self.v & !0x03E0) | (y << 5);
        }

        self.v = self.v & 0x7FFF;
        let v1 = self.v;
        assert(v1 == vertical_step(v0)) by (bit_vector)
            requires
                v1 == (if v0 & 0x7000 != 0x7000 {
                    ((v0 + 0x1000) as u16) & 0x7FFF
                } else {
                    let w = v0 & !0x7000u16;
                    let y = (w & 0x03E0) >> 5u16;
                    let w2 = if y == 29 { w ^ 0x0800 } else { w };
                    let y2: u16 = if y == 29 || y == 31 { 0 } else { (y + 1) as u16 };
                    ((w2 & !0x03E0u16) | (y2 << 5u16)) & 0x7FFF
                }),
        ;
    }

    /// Shift data in shift registers to get the next background pixel.
    fn update_background_shifters(&mut self)
        ensures
            final(self)@ == (PPUModel {
                pattern_lb: shl16(old(self)@.pattern_lb),
                pattern_hb: shl16(old(self)@.pattern_hb),
                attribute_lb: shl16(old(self)@.attribute_lb),
                attribute_hb: shl16(old(self)@.attribute_hb),
                ..old(self)@
            }),
    {
        proof {
            lemma_word(self.pattern_data_lb);
            lemma_word(self.pattern_data_hb);
            lemma_word(self.attribute_data_lb);
            lemma_word(self.attribute_data_hb);
        }
        self.pattern_data_lb = self.pattern_data_lb << 1;
        self.pattern_data_hb = self.pattern_data_hb << 1;
        self.attribute_data_lb = self.attribute_data_lb << 1;
        self.attribute_data_hb = self.attribute_data_hb << 1;
    }

    /// Shift each sprite slot one pixel on.
    #[verifier::spinoff_prover]
    #[verifier::rlimit(40)]
    fn update_sprite_buffers(&mut self)
        requires
            old(self)@.wf(),
        ensures
            final(self)@ == (PPUModel {
                sprite_buffer: old(self)@.sprite_buffer.map_values(|b: BufferSprite| sprite_shifted(b)),
                ..old(self)@
            }),
    {
        let ghost before = self@;
        let mut i: usize = 0;
        while i < 8
            invariant
                0 <= i <= 8,
                before.wf(),
                self@ == (PPUModel { sprite_buffer: self@.sprite_buffer, ..before }),
                self@.sprite_buffer.len() == 8,
                forall|j: int| 0 <= j < i ==> self@.sprite_buffer[j] == sprite_shifted(before.sprite_buffer[j]),
                forall|j: int| i <= j < 8 ==> self@.sprite_buffer[j] == before.sprite_buffer[j],
            decreases 8 - i,
        {
            let b = self.sprite_buffer_data[i];
            let (lo, hi) = (b.pattern_lo, b.pattern_hi);
            proof {
                lemma_byte(lo);
                lemma_byte(hi);
            }
            if b.x == 0 {
                // Sprite x aligned with current pixel, or beyond. When beyond,
                // the shifters only emit zeros.
                self.sprite_buffer_data[i] = BufferSprite { pattern_lo: b.pattern_lo << 1, pattern_hi: b.pattern_hi << 1, ..b };
            } else {
                // Wait for x-coordinate to align with current pixel
                self.sprite_buffer_data[i] = BufferSprite { x: b.x - 1, ..b };
            }
            i = i + 1;
        }
        assert(self@.sprite_buffer =~= before.sprite_buffer.map_values(|b: BufferSprite| sprite_shifted(b)));
    }

    /// Take data from secondary OAM, which holds the sprites of the next
    /// scanline, and load it into the sprite slots.
    #[verifier::spinoff_prover]
    #[verifier::rlimit(40)]
    fn load_sprite_data(&mut self, mapper: &mut Cartridge)
        requires
            old(self)@.wf(),
            old(mapper)@.wf(),
            old(self)@.sprite_load_defined(old(mapper)@),
        ensures
            final(self)@ == old(self)@.sprite_load_state(old(mapper)@),
            final(mapper)@ == old(mapper)@,
    {
        let ghost before = self@;
        let ghost cart = mapper@;
        let mut i: usize = 0;
        while i < 8
            invariant
                0 <= i <= 8,
                before.wf(),
                cart.wf(),
                mapper@ == cart,
                before.sprite_load_defined(cart),
                self@ == (PPUModel { sprite_buffer: self@.sprite_buffer, ..before }),
                self@.sprite_buffer.len() == 8,
                forall|j: int| 0 <= j < i ==> self@.sprite_buffer[j] == before.loaded_sprite(cart, before.oam.secondary[j]),
                forall|j: int| i <= j < 8 ==> self@.sprite_buffer[j] == before.sprite_buffer[j],
            decreases 8 - i,
        {
            let sprite = self.oam.secondary(i);

            let flip_x = (sprite.attributes & 0x40) != 0;
            let pallette_idx = sprite.attributes & 0x03;
            let priority: u8 = if (sprite.attributes & 0x20) != 0 { 1 } else { 0 };

            // 8x8 sprites: bit 3 of PPUCTRL selects the pattern table, and
            // y_pos is the row within the tile.
            let pattern_base: u16 = if (self.ctrl & PPUCTRL::SPRITE_PATTERN_ADDR) != 0 { 0x1000 } else { 0 };
            let pattern_address_lo = pattern_base | ((sprite.tile_index as u16) << 4) | (sprite.y_pos as u16);
            let pattern_address_hi = pattern_address_lo | 8;
            assert(before.oam.secondary[i as int] == sprite);

            let mut pattern_lo = self.addressor.read(mapper, pattern_address_lo);
            let mut pattern_hi = self.addressor.read(mapper, pattern_address_hi);

            if flip_x {
                pattern_lo = reverse_bits(pattern_lo);
                pattern_hi = reverse_bits(pattern_hi);
            }

            self.sprite_buffer_data[i] = BufferSprite {
                x: sprite.x_pos,
                pattern_lo: pattern_lo,
                pattern_hi: pattern_hi,
                pallette: pallette_idx,
                priority: priority,
                is_sprite_0: sprite.is_sprite_0,
            };
            i = i + 1;
        }
        assert(self@.sprite_buffer =~= before.sprite_load_state(cart).sprite_buffer);
    }

    /// Draw the pixel at (xpos, ypos).
    #[verifier::spinoff_prover]
    #[verifier::rlimit(40)]
    fn draw_tile(&mut self, mapper: &mut Cartridge, xpos: usize, ypos: usize)
        requires
            old(self)@.wf(),
            old(mapper)@.wf(),
            old(self)@.draw_defined(old(mapper)@, xpos as int, ypos as int),
        ensures
            final(self)@ == old(self)@.draw_state(old(mapper)@, xpos as int, ypos as int),
            final(mapper)@ == old(mapper)@,
    {
        let ghost before = self@;
        let x = self.x;
        let bit_mux = 0x8000u16 >> x;
        let (lb, hb, alb, ahb) = (self.pattern_data_lb, self.pattern_data_hb, self.attribute_data_lb, self.attribute_data_hb);

        let bg_pixel: u8 = if (self.mask & PPUMask::BACKGROUND_RENDER_EN) != 0 {
            let p0: u8 = if (lb & bit_mux) != 0 { 1 } else { 0 };
            let p1: u8 = if (hb & bit_mux) != 0 { 1 } else { 0 };
            proof {
                lemma_bit_pair(p1, p0);
            }
            (p1 << 1) | p0
        } else {
            0
        };

        let a0: u8 = if (alb & bit_mux) != 0 { 1 } else { 0 };
        let a1: u8 = if (ahb & bit_mux) != 0 { 1 } else { 0 };
        let attr = (a1 << 1) | a0;
        proof {
            lemma_bit_pair(a1, a0);
        }
        assert(bg_pixel == before.bg_pixel() && attr == before.bg_attr());

        let mut sprite_pix: u8 = 0;
        let mut sprite_priority = false;
        let mut sprite_pallette: u8 = 0;

        if (self.mask & PPUMask::SPRITE_RENDER_EN) != 0 {
            let mut i: usize = 0;
            while i < 8
                invariant
                    0 <= i <= 8,
                    before.wf(),
                    bg_pixel as int == before.bg_pixel(),
                    self@ == (PPUModel { status: self@.status, ..before }),
                    ({
                        let (pix, prio, pal, hit) = sprite_mux(before.sprite_buffer, i as int, bg_pixel as int);
                        &&& sprite_pix as int == pix
                        &&& sprite_priority == prio
                        &&& sprite_pallette == pal
                        &&& self@.status == if hit { before.status | PPUStatus::SPRITE0_HIT } else { before.status }
                    }),
                    sprite_pix <= 3,
                decreases 8 - i,
            {
                let b = self.sprite_buffer_data[i];
                assert(b == before.sprite_buffer[i as int]);
                proof {
                    reveal_with_fuel(sprite_mux, 2);
                }
                if b.x != 0 {
                    i = i + 1;
                    continue;
                }
                // First visible sprite in buffer memory gets priority
                if sprite_pix == 0 {
                    let (ph, pl) = (b.pattern_hi, b.pattern_lo);
                    let s1: u8 = if ph & 0x80 != 0 { 1 } else { 0 };
                    let s0: u8 = if pl & 0x80 != 0 { 1 } else { 0 };
                    proof {
                        lemma_byte(ph);
                        lemma_byte(pl);
                        lemma_bit_pair(s1, s0);
                    }
                    sprite_pix = (s1 << 1) | s0;
                    sprite_priority = b.priority != 0;
                    sprite_pallette = b.pallette;
                }
                // Set the sprite 0 hit flag if this sprite is sprite 0, and both
                // the background and sprite pixel is opaque (non-zero)
                if b.is_sprite_0 && bg_pixel != 0 && sprite_pix != 0 {
                    let st = self.status;
                    let ghost bs = before.status;
                    proof {
                        lemma_byte(bs);
                    }
                    self.status = st | PPUStatus::SPRITE0_HIT;
                }
                i = i + 1;
            }
        }
        assert(sprite_pix as int == before.sprite_out().0 && sprite_priority == before.sprite_out().1 && sprite_pallette
            == before.sprite_out().2);

        let (sp16, pl16) = (sprite_pix as u16, sprite_pallette as u16);
        assert(0x3F00 <= 0x3F10u16 | (pl16 << 2u16) | sp16 < 0x4000 && 0x3F00u16 | ((attr as u16) << 2u16) | (
        bg_pixel as u16) == 0x3F00 + 4 * attr + bg_pixel) by (bit_vector)
            requires
                sp16 <= 3,
                pl16 < 256,
                attr <= 3,
                bg_pixel <= 3,
        ;

        // MUX - determine if picking sprite, background, or backdrop (neither)
        let pallette_addr: u16 = if bg_pixel == 0 && sprite_pix == 0 {
            0x3F00
        } else if sprite_pix != 0 && (bg_pixel == 0 || !sprite_priority) {
            0x3F10 | ((sprite_pallette as u16) << 2) | (sprite_pix as u16)
        } else {
            0x3F00 | ((attr as u16) << 2) | (bg_pixel as u16)
        };
        assert(pallette_addr == before.pixel_palette_addr());

        let mut color_index = self.addressor.read(mapper, pallette_addr) as usize;

        if (self.mask & PPUMask::GREYSCALE) != 0 {
            let c8 = color_index as u8;
            assert((c8 & 0x30) as usize == (color_index & 0x30)) by (bit_vector)
                requires
                    color_index < 256,
                    c8 == color_index as u8,
            ;
            color_index = color_index & 0x30;
        }
        let rgb = self.color_data[color_index];

        let output_pixel = ypos * IMG_WIDTH + xpos;
        self.image_out.set(BYTES_PER_PIXEL * output_pixel + 0, rgb[0]);
        self.image_out.set(BYTES_PER_PIXEL * output_pixel + 1, rgb[1]);
        self.image_out.set(BYTES_PER_PIXEL * output_pixel + 2, rgb[2]);
    }

    /// One cycle of the pixel pipeline in the fetch window.
    #[verifier::spinoff_prover]
    #[verifier::rlimit(40)]
    fn fetch_step(&mut self, mapper: &mut Cartridge)
        requires
            old(self)@.wf(),
            old(mapper)@.wf(),
            old(self)@.in_fetch_window(),
            old(self)@.fetch_phase_defined(old(mapper)@),
        ensures
            final(self)@ == old(self)@.fetch_phase(old(mapper)@),
            final(self)@.wf(),
            final(mapper)@ == old(mapper)@,
    {
        if self.cycle <= 256 && self.scanline < 240 {
            self.draw_tile(mapper, self.cycle - 1, self.scanline);
        }
        if 1 <= self.cycle && self.cycle <= 256 {
            self.update_sprite_buffers();
        }
        self.update_background_shifters();
        if self.cycle % 8 == 0 {
            self.load_background_shifters(mapper);
            self.horizontal_increment();
        }
    }

    /// One cycle of a visible or pre-render line.
    #[verifier::spinoff_prover]
    #[verifier::rlimit(40)]
    fn render_line(&mut self, mapper: &mut Cartridge)
        requires
            old(self)@.wf(),
            old(mapper)@.wf(),
            old(self)@.line_phase_defined(old(mapper)@),
        ensures
            final(self)@ == old(self)@.line_phase(old(mapper)@),
            final(self)@.wf(),
            final(mapper)@ == old(mapper)@,
    {
        if self.cycle == 0 {
            self.oam.clear_secondary_oam();
        }

        if (1 <= self.cycle && self.cycle <= 256) || (321 <= self.cycle && self.cycle <= 336) {
            self.fetch_step(mapper);
        }

        if self.cycle == 256 {
            self.vertical_increment();
        }

        if self.cycle == 257 {
            // horiz(v) = horiz(t);
            let (v, t) = (self.v, self.t);
            let nv = (v & !0x041F) | (t & 0x041F);
            assert(nv == copy_horizontal(v, t)) by (bit_vector)
                requires
                    v <= 0x7FFF,
                    nv == (v & !0x041Fu16) | (t & 0x041F),
            ;
            self.v = nv;
        }

        // OAMADDR behavior
        if 257 <= self.cycle && self.cycle <= 320 {
            self.oam_addr = 0;
        }
    }

    /// One cycle with rendering on.
    #[verifier::spinoff_prover]
    #[verifier::rlimit(40)]
    fn render_step(&mut self, mapper: &mut Cartridge)
        requires
            old(self)@.wf(),
            old(mapper)@.wf(),
            old(self)@.render_defined(old(mapper)@),
        ensures
            final(self)@ == old(self)@.render_phase(old(mapper)@),
            final(self)@.wf(),
            final(mapper)@ == old(mapper)@,
    {
        if self.scanline == 261 && 280 <= self.cycle && self.cycle <= 304 {
            // vert(v) = vert(t);
            let (v, t) = (self.v, self.t);
            let nv = (v & !0x7BE0) | (t & 0x7BE0);
            assert(nv == copy_vertical(v, t)) by (bit_vector)
                requires
                    v <= 0x7FFF,
                    nv == (v & !0x7BE0u16) | (t & 0x7BE0),
            ;
            self.v = nv;
        }

        if self.scanline <= 239 || self.scanline == 261 {
            self.render_line(mapper);
        }

        if self.scanline <= 239 && self.cycle == 256 {
            self.evaluate_sprites(self.scanline + 1);
            self.load_sprite_data(mapper);
        }
    }

    /// Runs the PPU for one cycle (one pixel): the background and sprite
    /// pipelines, vertical blank and its NMI, and the beam position.
    #[verifier::spinoff_prover]
    #[verifier::rlimit(40)]
    pub fn tick(&mut self, mapper: &mut Cartridge)
        requires
            old(self)@.wf(),
            old(mapper)@.wf(),
            old(self)@.tick_defined(old(mapper)@),
        ensures
            final(self)@ == old(self)@.tick_state(old(mapper)@),
            final(self)@.wf(),
            final(mapper)@ == old(mapper)@,
    {
        if (self.mask & PPUMask::SPRITE_RENDER_EN) != 0 || (self.mask & PPUMask::BACKGROUND_RENDER_EN) != 0 {
            self.render_step(mapper);
        } else if 1 <= self.cycle && self.cycle <= 256 && self.scanline < 240 {
            // We must still render nothing even when rendering is disabled
            // to wipe out the screen.
            self.draw_tile(mapper, self.cycle - 1, self.scanline);
        }

        if self.scanline == 241 && self.cycle == 1 {
            // Set vblank flag
            self.status = self.status | PPUStatus::VBLANK;
            // Must have NMI enabled in PPUCTRL
            if (self.ctrl & PPUCTRL::VBLANK_NMI_EN) != 0 {
                // Only trigger NMI on rising edge of STATUS bit.
                if !self.nmi_lineout {
                    self.pending_nmi = true;
                }
                self.nmi_lineout = true;
            }
            self.image_ready = true;
        }

        if self.scanline == 261 && self.cycle == 1 {
            let st = self.status;
            proof {
                lemma_byte(st);
            }
            self.status = self.status & !PPUStatus::VBLANK;
            self.status = self.status & !PPUStatus::SPRITE0_HIT;
            self.status = self.status & !PPUStatus::SPRITE_OVERFLOW;
            self.image_ready = false;
        }

        self.cycle = self.cycle + 1;
        if self.cycle > 340 {
            self.cycle = 0;
            self.scanline = self.scanline + 1;
            if self.scanline > 261 {
                self.scanline = 0;
            }
        }
    }

    /// Fill secondary OAM with the sprites that `scanline` crosses and set
    /// the sprite overflow flag.
    #[verifier::rlimit(40)]
    #[verifier::spinoff_prover]
    pub fn evaluate_sprites(&mut self, scanline: usize)
        requires
            old(self)@.wf(),
        ensures
            final(self)@ == old(self)@.eval_state(scanline),
            final(self)@.wf(),
    {
        let ghost before = self@;
        self.oam.clear_secondary_oam();
        let ghost cleared = self@;
        let ghost sprites = before.oam.sprites;

        let mut found: usize = 0;
        let mut n: usize = 0;
        let mut m: usize = 0;

        while n < 64
            invariant_except_break
                found < 8,
                sprite_search(sprites, scanline, 0, 0, cleared.oam.secondary) == sprite_search(
                    sprites,
                    scanline,
                    n as int,
                    found as int,
                    self@.oam.secondary,
                ),
            invariant
                n <= 64,
                found <= 8,
                self@ == (PPUModel { oam: OAMModel { secondary: self@.oam.secondary, ..before.oam }, ..before }),
                self@.wf(),
                before.wf(),
                sprites == before.oam.sprites,
            ensures
                sprite_search(sprites, scanline, 0, 0, cleared.oam.secondary) == (
                    n as int,
                    found as int,
                    self@.oam.secondary,
                ),
            decreases 64 - n,
        {
            let y_pos = self.oam.sprite_byte(4 * n);
            // Difference of scanline and sprite y_pos, as a byte
            let y1 = y_pos.wrapping_add(1);
            let d16 = (scanline as u16).wrapping_sub(y1 as u16);
            let row = d16 as u8;
            proof {
                lemma_word(d16);
            }
            assert(row == sprite_row(scanline, y_pos));

            // Check if scanline intersects sprite
            if row < 8 {
                let attributes = self.oam.sprite_byte(4 * n + 2);
                let flip_y = (attributes & 0x80) != 0;
                let info = TempSpriteInfo {
                    // Flip y_pos bits if flip
                    y_pos: if flip_y { 7 - row } else { row },
                    tile_index: self.oam.sprite_byte(4 * n + 1),
                    attributes: attributes,
                    x_pos: self.oam.sprite_byte(4 * n + 3),
                    is_sprite_0: n == 0,
                };
                self.oam.set_secondary(found, info);
                found = found + 1;
            }
            n = n + 1;
            if found >= 8 {
                break;
            }
        }
        let ghost n_primary = n as int;

        // Now sprite memory is full. This step is intended to set the sprite
        // overflow flag. The routine is buggy and does not work as intended.
        let ghost mut hit = false;
        while n < 64
            invariant
                n <= 65,
                m <= 3,
                self@ == (PPUModel {
                    status: if hit { before.status | PPUStatus::SPRITE_OVERFLOW } else { before.status },
                    ..before.eval_state(scanline)
                }),
                sprite_search(sprites, scanline, 0, 0, cleared.oam.secondary).0 == n_primary,
                overflow_search(sprites, before.scanline, n_primary, 0) == (hit || overflow_search(sprites, before.scanline, n as int, m as int)),
                self@.wf(),
                before.wf(),
                sprites == before.oam.sprites,
            ensures
                n >= 64,
                self@ == (PPUModel {
                    status: if hit { before.status | PPUStatus::SPRITE_OVERFLOW } else { before.status },
                    ..before.eval_state(scanline)
                }),
                overflow_search(sprites, before.scanline, n_primary, 0) == (hit || overflow_search(sprites, before.scanline, n as int, m as int)),
                self@.wf(),
            decreases 2 * (65 - n) + if m == 0 { 1int } else { 0int },
        {
            let y_pos = self.oam.sprite_byte(4 * n + m);

            let d = (self.scanline as u16).wrapping_sub(y_pos as u16);
            if d < 8 {
                let st = self.status;
                let ghost bs = before.status;
                proof {
                    lemma_byte(bs);
                }
                self.status = st | PPUStatus::SPRITE_OVERFLOW;
                proof {
                    hit = true;
                }
                m = m + 3;
                if m > 3 {
                    n = n + 1;
                    m = m % 3;
                }
            } else {
                n = n + 1;
                m = m + 1;  // Bug here: m should not be incremented.
                if m > 3 {
                    n = n + 1;
                    m = m % 3;
                }
                if n >= 64 {
                    break;
                }
            }
        }
    }

    #[verifier::spinoff_prover]
    #[verifier::rlimit(40)]
    fn load_background_shifters(&mut self, mapper: &mut Cartridge)
        requires
            old(self)@.wf(),
            old(mapper)@.wf(),
            old(self)@.bg_fetch_defined(old(mapper)@),
        ensures
            final(self)@ == old(self)@.bg_fetch_state(old(mapper)@),
            final(mapper)@ == old(mapper)@,
    {
        let v = self.v;
        let tile_address = 0x2000 | (v & 0x0FFF);
        let attribute_address = 0x23C0 | (v & 0x0C00) | ((v >> 4) & 0x38) | ((v >> 2) & 0x07);
        let fy = (v >> 12) & 0x07;
        assert(tile_address == tile_addr(v) && 0x2000 <= tile_address < 0x3000 && attribute_address
            == attribute_addr(v) && 0x2000 <= attribute_address < 0x3000 && fy == fine_y(v))
            by (bit_vector)
            requires
                tile_address == 0x2000 | (v & 0x0FFF),
                attribute_address == 0x23C0 | (v & 0x0C00) | ((v >> 4u16) & 0x38) | ((v >> 2u16) & 0x07),
                fy == (v >> 12u16) & 0x07,
        ;

        // 0x1000 or 0x0000, depending on CTRL flag
        let pattern_base: u16 = if (self.ctrl & PPUCTRL::BG_PATTERN_ADDR) != 0 { 0x1000 } else { 0 };

        let tile = self.addressor.read(mapper, tile_address) as u16;

        let mut attribute = self.addressor.read(mapper, attribute_address);
        let byte = attribute;
        if (v >> 5) & 0x02 != 0 {
            attribute = attribute >> 4;
        }
        if v & 0x02 != 0 {
            attribute = attribute >> 2;
        }
        let attribute = attribute & 0x03;
        assert(attribute == attribute_quadrant(byte, v)) by (bit_vector)
            requires
                attribute == (if v & 0x02 != 0 {
                    (if (v >> 5u16) & 0x02 != 0 { byte >> 4u8 } else { byte }) >> 2u8
                } else {
                    (if (v >> 5u16) & 0x02 != 0 { byte >> 4u8 } else { byte })
                }) & 0x03,
        ;

        let pattern_low_addr = pattern_base | (tile << 4) | 0 | fy;
        let pattern_high_addr = pattern_low_addr | 8;
        assert(pattern_low_addr == pattern_base + 16 * tile + fy && pattern_high_addr
            == pattern_low_addr + 8) by (bit_vector)
            requires
                pattern_base == 0x1000 || pattern_base == 0,
                tile < 256,
                fy < 8,
                pattern_low_addr == pattern_base | (tile << 4u16) | 0 | fy,
                pattern_high_addr == pattern_low_addr | 8,
        ;

        let lb = self.pattern_data_lb;
        let low = self.addressor.read(mapper, pattern_low_addr) as u16;
        self.pattern_data_lb = (lb & 0xFF00) | low;
        let hb = self.pattern_data_hb;
        let high = self.addressor.read(mapper, pattern_high_addr) as u16;
        self.pattern_data_hb = (hb & 0xFF00) | high;

        let lo: u16 = if attribute & 0b01 != 0 { 0xFF } else { 0x00 };
        let hi: u16 = if attribute & 0b10 != 0 { 0xFF } else { 0x00 };
        proof {
            lemma_byte(attribute);
        }

        let alb = self.attribute_data_lb;
        let ahb = self.attribute_data_hb;
        self.attribute_data_lb = (alb & 0xFF00) | lo;
        self.attribute_data_hb = (ahb & 0xFF00) | hi;
        proof {
            lemma_join(lb, 0, low);
            lemma_join(hb, 0, high);
            lemma_join(alb, 0, lo);
            lemma_join(ahb, 0, hi);
        }
    }
}

} // verus!

verus! {

/// Two PPU states with the beam at the same place and the same picture-ready
/// flag.
pub open spec fn same_beam(a: PPUModel, b: PPUModel) -> bool {
    a.cycle == b.cycle && a.scanline == b.scanline && a.image_ready == b.image_ready
}

/// The work of one cycle before the vertical-blank logic leaves the beam and
/// the picture-ready flag alone.
proof fn lemma_work_keeps_beam(p: PPUModel, cart: CartridgeModel)
    ensures
        same_beam(p.render_phase(cart), p),
        same_beam(p.draw_state(cart, p.cycle - 1, p.scanline as int), p),
{
    let a = p.vertical_reload_step();
    assert(same_beam(a, p));
    let c = a.cleared_step();
    assert(same_beam(c, a));
    let d = c.draw_step(cart);
    assert(same_beam(d, c));
    let e = d.shift_step();
    assert(same_beam(e, d));
    let f = e.tile_step(cart);
    assert(same_beam(f, e));
    assert(same_beam(a.line_phase(cart), a));
    let b = a.line_step(cart);
    assert(same_beam(b, a));
    let g = b.eval_state((p.scanline + 1) as usize);
    assert(same_beam(g, b));
    assert(same_beam(g.sprite_load_state(cart), g));
}

/// A frame is 262 scanlines of 341 dots: each cycle moves the beam one dot
/// on, to the next scanline after dot 340 and back to scanline 0 after 261.
pub proof fn lemma_tick_beam(p: PPUModel, cart: CartridgeModel)
    requires
        p.cycle <= 340,
        p.scanline <= 261,
    ensures
        p.tick_state(cart).cycle == (p.cycle + 1) % 341,
        p.tick_state(cart).scanline == if p.cycle == 340 { (p.scanline + 1) % 262 } else { p.scanline as int },
        p.tick_state(cart).cycle <= 340,
        p.tick_state(cart).scanline <= 261,
{
    let a = lemma_work_result(p, cart);
    let v = a.vblank_phase();
    assert(v.cycle == a.cycle && v.scanline == a.scanline);
}

/// The state the work of one cycle leaves, before the vertical-blank logic
/// and the beam's move; the cycle is that state's vertical-blank step and
/// then the move.
proof fn lemma_work_result(p: PPUModel, cart: CartridgeModel) -> (a: PPUModel)
    ensures
        same_beam(a, p),
        p.tick_state(cart) == a.vblank_phase().advance(),
{
    lemma_work_keeps_beam(p, cart);
    if p.rendering_enabled() {
        p.render_phase(cart)
    } else if 1 <= p.cycle <= 256 && p.scanline < 240 {
        p.draw_state(cart, p.cycle - 1, p.scanline as int)
    } else {
        p
    }
}

/// Whether the beam at (`scanline`, `cycle`) lies after the start of
/// vertical blank (241, 1) and no later than the pre-render line's (261, 1).
pub open spec fn in_picture_ready_span(scanline: int, cycle: int) -> bool {
    &&& (scanline > 241 || (scanline == 241 && cycle > 1))
    &&& (scanline < 261 || (scanline == 261 && cycle <= 1))
}

/// The picture is ready exactly while the beam is between the start of
/// vertical blank and the pre-render line: the flag turns on at the tick at
/// (241, 1), off at the tick at (261, 1), and no other tick changes it.
pub proof fn lemma_tick_image_ready(p: PPUModel, cart: CartridgeModel)
    requires
        p.cycle <= 340,
        p.scanline <= 261,
        p.image_ready == in_picture_ready_span(p.scanline as int, p.cycle as int),
    ensures
        p.tick_state(cart).image_ready == in_picture_ready_span(
            p.tick_state(cart).scanline as int,
            p.tick_state(cart).cycle as int,
        ),
{
    let a = lemma_work_result(p, cart);
    lemma_tick_beam(p, cart);
    let v = a.vblank_phase();
    assert(v.cycle == a.cycle && v.scanline == a.scanline);
}

} // verus!
