use vstd::prelude::*;

verus! {

/// Also referred to as "Secondary OAM" in NesDev.
#[derive(Copy, Clone, Debug, PartialEq, Eq, Structural)]
pub struct TempSpriteInfo {
    pub y_pos: u8,
    pub tile_index: u8,
    pub attributes: u8,
    pub x_pos: u8,
    pub is_sprite_0: bool,
}

impl TempSpriteInfo {
    pub open spec fn blank_spec() -> TempSpriteInfo {
        TempSpriteInfo { y_pos: 0xFF, tile_index: 0xFF, attributes: 0xFF, x_pos: 0xFF, is_sprite_0: false }
    }

    /// Secondary RAM is cleared by setting all the values to 0xFF.
    pub fn blank() -> (r: TempSpriteInfo)
        ensures
            r == TempSpriteInfo::blank_spec(),
    {
        TempSpriteInfo { y_pos: 0xFF, tile_index: 0xFF, attributes: 0xFF, x_pos: 0xFF, is_sprite_0: false }
    }
}

/// Secondary OAM with every slot cleared.
pub open spec fn blank_secondary() -> Seq<TempSpriteInfo> {
    Seq::new(8, |i: int| TempSpriteInfo::blank_spec())
}

/// A sprite whose top row is `y_pos` covers `scanline` when the scanline lies
/// within `sprite_height` rows below it.
pub open spec fn covers(y_pos: u8, scanline: int, sprite_height: u8) -> bool {
    0 <= scanline - y_pos < sprite_height
}

/// The secondary-OAM entry for the sprite whose four bytes start at `n`: its
/// row within the sprite (counted from the bottom when attribute bit 7 flips
/// it vertically), tile, attributes and x position.
pub open spec fn sprite_entry(sprites: Seq<u8>, n: int, scanline: int, sprite_height: u8) -> TempSpriteInfo {
    let row = scanline - sprites[n];
    let flip_y = sprites[n + 2] & 0x80 != 0;
    TempSpriteInfo {
        y_pos: if flip_y { (sprite_height - 1 - row) as u8 } else { row as u8 },
        tile_index: sprites[n + 1],
        attributes: sprites[n + 2],
        x_pos: sprites[n + 3],
        is_sprite_0: n == 0,
    }
}

/// Sprite evaluation from byte `n` with `found` sprites already copied into
/// `sec`: each sprite in turn that covers the scanline is copied to the next
/// free slot, and the scan stops after the sprite that fills the eighth slot
/// or at the end of OAM. Gives the byte the scan stopped at, the number of
/// sprites found and the secondary OAM.
pub open spec fn primary_scan(
    sprites: Seq<u8>,
    scanline: int,
    sprite_height: u8,
    n: int,
    found: int,
    sec: Seq<TempSpriteInfo>,
) -> (int, int, Seq<TempSpriteInfo>)
    decreases 260 - n,
{
    if n >= 256 || n < 0 {
        (n, found, sec)
    } else {
        let hit = covers(sprites[n], scanline, sprite_height);
        let found2 = if hit { found + 1 } else { found };
        let sec2 = if hit { sec.update(found, sprite_entry(sprites, n, scanline, sprite_height)) } else { sec };
        if found2 >= 8 {
            (n + 4, found2, sec2)
        } else {
            primary_scan(sprites, scanline, sprite_height, n + 4, found2, sec2)
        }
    }
}

/// The sprite-overflow search as the hardware does it: from byte `n` on it
/// steps 5 bytes at a time (the diagonal walk of the real chip's bug) and
/// reports overflow at the first byte that, read as a y position, covers the
/// scanline.
pub open spec fn overflow_scan(sprites: Seq<u8>, scanline: int, sprite_height: u8, n: int) -> bool
    decreases 261 - n,
{
    if n >= 256 || n < 0 {
        false
    } else if covers(sprites[n], scanline, sprite_height) {
        true
    } else {
        overflow_scan(sprites, scanline, sprite_height, n + 5)
    }
}

/// What sprite memory holds: 64 sprites of four bytes (y, tile, attributes,
/// x) and the secondary OAM of up to 8 sprites for the next scanline.
pub ghost struct OAMModel {
    pub sprites: Seq<u8>,
    pub secondary: Seq<TempSpriteInfo>,
}

impl OAMModel {
    pub open spec fn wf(self) -> bool {
        self.sprites.len() == 256 && self.secondary.len() == 8
    }

    /// Sprite memory after a DMA copy of `values` starting at `offset`.
    pub open spec fn after_dma(self, offset: u8, values: Seq<u8>) -> OAMModel {
        OAMModel {
            sprites: Seq::new(256, |j: int| values[(j - offset as int + 256) % 256]),
            ..self
        }
    }
}

pub struct OAM {
    /// Sprite data, usually set through OAMDMA. Room for 64 sprites, 4 bytes
    /// per sprite: y position, tile index, attributes, x position.
    sprites: Vec<u8>,
    /// Secondary OAM storage. Room for 8 sprites per scanline.
    temp_sprite_info: Vec<TempSpriteInfo>,
}

impl View for OAM {
    type V = OAMModel;

    closed spec fn view(&self) -> OAMModel {
        OAMModel { sprites: self.sprites@, secondary: self.temp_sprite_info@ }
    }
}

impl OAM {
    pub fn new() -> (o: OAM)
        ensures
            o@.wf(),
            o@.sprites == Seq::new(256, |i: int| 0u8),
            o@.secondary == blank_secondary(),
    {
        let o = OAM { sprites: vec![0u8; 256], temp_sprite_info: vec![TempSpriteInfo::blank(); 8] };
        assert(o@.sprites =~= Seq::new(256, |i: int| 0u8));
        assert(o@.secondary =~= blank_secondary());
        o
    }

    /// The sprite byte at `i`.
    pub fn sprite_byte(&self, i: usize) -> (r: u8)
        requires
            self@.wf(),
            i < 256,
        ensures
            r == self@.sprites[i as int],
    {
        self.sprites[i]
    }

    /// Secondary-OAM entry `i`.
    pub fn secondary(&self, i: usize) -> (r: TempSpriteInfo)
        requires
            self@.wf(),
            i < 8,
        ensures
            r == self@.secondary[i as int],
    {
        self.temp_sprite_info[i]
    }

    /// Stores `info` in secondary-OAM slot `i`.
    pub fn set_secondary(&mut self, i: usize, info: TempSpriteInfo)
        requires
            old(self)@.wf(),
            i < 8,
        ensures
            final(self)@ == (OAMModel { secondary: old(self)@.secondary.update(i as int, info), ..old(self)@ }),
    {
        self.temp_sprite_info.set(i, info);
    }

    /// Copies the 256 bytes of `values` into sprite memory starting at
    /// `offset`, wrapping around the end.
    pub fn from_dma(&mut self, offset: u8, values: &[u8])
        requires
            old(self)@.wf(),
            values@.len() >= 256,
        ensures
            final(self)@ == old(self)@.after_dma(offset, values@),
            final(self)@.wf(),
    {
        let mut i: u16 = 0;
        while i < 256
            invariant
                i <= 256,
                values@.len() >= 256,
                self.sprites@.len() == 256,
                self.temp_sprite_info == old(self).temp_sprite_info,
                forall|j: int| 0 <= j < 256 ==> #[trigger] self.sprites@[j] == if (j - offset as int + 256) % 256 < i {
                    values@[(j - offset as int + 256) % 256]
                } else {
                    old(self).sprites@[j]
                },
            decreases 256 - i,
        {
            let k = offset.wrapping_add(i as u8);
            assert(k as int == (offset as int + i as int) % 256);
            self.sprites.set(k as usize, values[i as usize]);
            i = i + 1;
        }
        assert(self.sprites@ =~= old(self)@.after_dma(offset, values@).sprites);
        assert(self@ =~= old(self)@.after_dma(offset, values@));
    }

    pub fn clear_secondary_oam(&mut self)
        ensures
            final(self)@ == (OAMModel { secondary: blank_secondary(), ..old(self)@ }),
    {
        self.temp_sprite_info = vec![TempSpriteInfo::blank(); 8];
        assert(self.temp_sprite_info@ =~= blank_secondary());
    }

    /// Evaluate sprites to be shown on the given scanline. Requires the sprite
    /// height (either 8 or 16) determined by PPUCTRL bit 5. Returns the number
    /// of visible sprites and whether the sprite overflow flag should be set.
    pub fn evaluate_sprites(&mut self, scanline: usize, sprite_height: u8) -> (r: (u8, bool))
        requires
            old(self)@.wf(),
            forall|j: int| 0 <= j < 256 ==> (scanline as i16) as int - #[trigger] old(self)@.sprites[j] >= -0x8000,
        ensures
            ({
                let (n, found, sec) = primary_scan(old(self)@.sprites, (scanline as i16) as int, sprite_height, 0, 0,
                    old(self)@.secondary);
                &&& r.0 as int == found
                &&& final(self)@.secondary == sec
                &&& r.1 == (found >= 8 && overflow_scan(old(self)@.sprites, (scanline as i16) as int, sprite_height, n))
            }),
            r.0 <= 8,
            final(self)@.sprites == old(self)@.sprites,
            final(self)@.wf(),
    {
        let mut n: usize = 0;
        let mut found: usize = 0;
        let ghost sprites = self.sprites@;

        while n < 256
            invariant_except_break
                n % 4 == 0,
                n <= 256,
                found < 8,
                primary_scan(sprites, (scanline as i16) as int, sprite_height, 0, 0, old(self).temp_sprite_info@)
                    == primary_scan(sprites, (scanline as i16) as int, sprite_height, n as int, found as int,
                        self.temp_sprite_info@),
            invariant
                self.sprites@ == sprites,
                self.sprites@.len() == 256,
                self.temp_sprite_info@.len() == 8,
                self.sprites@ == old(self).sprites@,
                forall|j: int| 0 <= j < 256 ==> (scanline as i16) as int - #[trigger] sprites[j] >= -0x8000,
                found <= 8,
            ensures
                n <= 256,
                primary_scan(sprites, (scanline as i16) as int, sprite_height, 0, 0, old(self).temp_sprite_info@)
                    == (n as int, found as int, self.temp_sprite_info@),
            decreases 256 - n,
        {
            let y_pos = self.sprites[n];
            // 9-bit difference of scanline and sprite y_pos
            let diff = (scanline as i16) - (y_pos as i16);

            // Check if scanline intersects sprite
            if diff >= 0 && diff < sprite_height as i16 {
                let row = diff as u8;
                let flip_y = (self.sprites[n + 2] & 0x80) != 0;
                self.temp_sprite_info.set(found, TempSpriteInfo {
                    y_pos: if flip_y { sprite_height - 1 - row } else { row },
                    tile_index: self.sprites[n + 1],
                    attributes: self.sprites[n + 2],
                    x_pos: self.sprites[n + 3],
                    is_sprite_0: n == 0,
                });
                found = found + 1;
            }
            n = n + 4;
            if found >= 8 {
                break;
            }
        }

        let ghost n_primary = n as int;
        let found_all = found;
        if found < 8 {
            return (found as u8, false);
        }

        // Now sprite memory is full. This step is intended to set the sprite
        // overflow flag. The routine on the NES is buggy and does not work as
        // intended.
        while n < 256
            invariant
                self.sprites@ == sprites,
                self.sprites@.len() == 256,
                self.temp_sprite_info@.len() == 8,
                self.sprites@ == old(self).sprites@,
                forall|j: int| 0 <= j < 256 ==> (scanline as i16) as int - #[trigger] sprites[j] >= -0x8000,
                n <= 261,
                found_all == 8,
                primary_scan(sprites, (scanline as i16) as int, sprite_height, 0, 0, old(self).temp_sprite_info@)
                    == (n_primary, found_all as int, self.temp_sprite_info@),
                overflow_scan(sprites, (scanline as i16) as int, sprite_height, n_primary)
                    == overflow_scan(sprites, (scanline as i16) as int, sprite_height, n as int),
            decreases 261 - n,
        {
            let y_pos = self.sprites[n];

            let diff = (scanline as i16) - (y_pos as i16);
            if diff >= 0 && diff < sprite_height as i16 {
                return (found_all as u8, true);
            } else {
                n = n + 5;
            }
        }

        (found_all as u8, false)
    }
}

/// At most eight sprites are selected for a scanline.
pub proof fn lemma_primary_scan_bounded(
    sprites: Seq<u8>,
    scanline: int,
    sprite_height: u8,
    n: int,
    found: int,
    sec: Seq<TempSpriteInfo>,
)
    requires
        0 <= found < 8,
        sec.len() == 8,
    ensures
        ({
            let (n2, f2, s2) = primary_scan(sprites, scanline, sprite_height, n, found, sec);
            &&& found <= f2 <= 8
            &&& s2.len() == 8
            &&& (f2 < 8 ==> n2 >= 256 || n2 < 0)
        }),
    decreases 260 - n,
{
    if n < 256 && n >= 0 {
        let hit = covers(sprites[n], scanline, sprite_height);
        let found2 = if hit { found + 1 } else { found };
        let sec2 = if hit { sec.update(found, sprite_entry(sprites, n, scanline, sprite_height)) } else { sec };
        if found2 < 8 {
            lemma_primary_scan_bounded(sprites, scanline, sprite_height, n + 4, found2, sec2);
        }
    }
}

} // verus!
