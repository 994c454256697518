use vstd::prelude::*;

use vstd::arithmetic::div_mod::lemma_fundamental_div_mod_converse;

verus! {

/// The grey a 2-bit pattern pixel is shown in.
pub open spec fn shade(ci: int) -> u8 {
    if ci == 0 {
        0
    } else if ci == 1 {
        80
    } else if ci == 2 {
        160
    } else {
        255
    }
}

/// Bit `7 - col` of a plane byte: the pixel in column `col`.
pub open spec fn plane_bit(b: u8, col: int) -> int {
    ((b >> ((7 - col) as u8)) & 1) as int
}

/// The 2-bit pixel in column `col` of row `row` of tile `tile` of pattern
/// table `table`: bit 1 from the tile's first plane, bit 0 from its second
/// (8 bytes on).
pub open spec fn pattern_pixel(chr: Seq<u8>, table: int, tile: int, row: int, col: int) -> int {
    let a = 0x1000 * table + 16 * tile + row;
    2 * plane_bit(chr[a], col) + plane_bit(chr[a + 8], col)
}

/// The tile under picture pixel (x, y): each pattern table is 128 pixels
/// wide and holds 16x16 tiles of 8x8 pixels.
pub open spec fn pixel_tile(x: int, y: int) -> int {
    (y / 8) * 16 + (x % 128) / 8
}

pub open spec fn pixel_shade(chr: Seq<u8>, x: int, y: int) -> u8 {
    shade(pattern_pixel(chr, x / 128, pixel_tile(x, y), y % 8, x % 8))
}

/// Byte `k` of the picture of the pattern tables: the tables side by side,
/// `width` pixels a row, 128 rows, three equal bytes (red, green, blue) a
/// pixel, row by row; the bytes past the picture are 0.
pub open spec fn pattern_image_byte(chr: Seq<u8>, width: int, k: int) -> u8 {
    let p = k / 3;
    if 0 < width && p < width * 128 {
        pixel_shade(chr, p % width, p / width)
    } else {
        0
    }
}

/// Where pixel (x, y) comes in the order the picture is drawn: by pattern
/// table, then tile, then row, then column.
pub open spec fn draw_order(x: int, y: int) -> int {
    (x / 128) * 16384 + pixel_tile(x, y) * 64 + (y % 8) * 8 + x % 8
}

/// Byte `k` once every pixel before position `cur` is drawn.
pub open spec fn drawn_byte(chr: Seq<u8>, width: int, k: int, cur: int) -> u8 {
    let p = k / 3;
    if 0 < width && p < width * 128 && draw_order(p % width, p / width) < cur {
        pattern_image_byte(chr, width, k)
    } else {
        0
    }
}

/// The pixel drawn at position (pt, tile, ty, tx) has that place in the
/// drawing order.
proof fn lemma_draw_order_of(pt: int, tile: int, ty: int, tx: int)
    requires
        0 <= pt <= 1,
        0 <= tile < 256,
        0 <= ty < 8,
        0 <= tx < 8,
    ensures
        draw_order(pt * 128 + (tile % 16) * 8 + tx, (tile / 16) * 8 + ty) == pt * 16384 + tile * 64 + ty * 8 + tx,
{
    let x = pt * 128 + (tile % 16) * 8 + tx;
    let y = (tile / 16) * 8 + ty;
    lemma_fundamental_div_mod_converse(x, 128, pt, (tile % 16) * 8 + tx);
    lemma_fundamental_div_mod_converse((tile % 16) * 8 + tx, 8, tile % 16, tx);
    lemma_fundamental_div_mod_converse(x, 8, pt * 16 + tile % 16, tx);
    lemma_fundamental_div_mod_converse(y, 8, tile / 16, ty);
    lemma_fundamental_div_mod_converse(tile, 16, tile / 16, tile % 16);
}

/// Distinct pixels of the picture have distinct places in the drawing
/// order.
proof fn lemma_draw_order_unique(x: int, y: int, pt: int, tile: int, ty: int, tx: int)
    requires
        0 <= x < 256,
        0 <= y < 128,
        0 <= pt <= 1,
        0 <= tile < 256,
        0 <= ty < 8,
        0 <= tx < 8,
        draw_order(x, y) == pt * 16384 + tile * 64 + ty * 8 + tx,
    ensures
        x == pt * 128 + (tile % 16) * 8 + tx,
        y == (tile / 16) * 8 + ty,
{
    let a = x / 128;
    let b = pixel_tile(x, y);
    let c = y % 8;
    let d = x % 8;
    let o = pt * 16384 + tile * 64 + ty * 8 + tx;
    assert(0 <= b < 256);
    lemma_fundamental_div_mod_converse(o, 16384, a, b * 64 + c * 8 + d);
    lemma_fundamental_div_mod_converse(o, 16384, pt, tile * 64 + ty * 8 + tx);
    lemma_fundamental_div_mod_converse(b * 64 + c * 8 + d, 64, b, c * 8 + d);
    lemma_fundamental_div_mod_converse(b * 64 + c * 8 + d, 64, tile, ty * 8 + tx);
    lemma_fundamental_div_mod_converse(c * 8 + d, 8, c, d);
    lemma_fundamental_div_mod_converse(c * 8 + d, 8, ty, tx);
    lemma_fundamental_div_mod_converse(b, 16, y / 8, (x % 128) / 8);
    lemma_fundamental_div_mod_converse(tile, 16, tile / 16, tile % 16);
}

/// Drawing position (pt, tile, ty, tx) writes exactly the pixel whose place
/// in the drawing order it is.
proof fn lemma_draw_step(chr: Seq<u8>, n: int, pt: int, tile: int, ty: int, tx: int, k: int)
    requires
        1 <= n <= 2,
        0 <= pt < n,
        0 <= tile < 256,
        0 <= ty < 8,
        0 <= tx < 8,
        0 <= k,
    ensures
        ({
            let width = 128 * n;
            let x = pt * 128 + (tile % 16) * 8 + tx;
            let y = (tile / 16) * 8 + ty;
            let idx = width * y + x;
            let cur = pt * 16384 + tile * 64 + ty * 8 + tx;
            &&& 0 <= idx < width * 128
            &&& drawn_byte(chr, width, k, cur + 1) == if k / 3 == idx {
                pattern_image_byte(chr, width, k)
            } else {
                drawn_byte(chr, width, k, cur)
            }
            &&& k / 3 == idx ==> pattern_image_byte(chr, width, k) == shade(
                pattern_pixel(chr, pt, tile, ty, tx),
            )
        }),
{
    let width = 128 * n;
    let x = pt * 128 + (tile % 16) * 8 + tx;
    let y = (tile / 16) * 8 + ty;
    let idx = width * y + x;
    let cur = pt * 16384 + tile * 64 + ty * 8 + tx;
    assert(0 <= x < width);
    assert(0 <= y < 128);
    assert(0 <= idx < width * 128) by (nonlinear_arith)
        requires
            0 <= x < width,
            0 <= y < 128,
            idx == width * y + x,
    ;
    lemma_fundamental_div_mod_converse(idx, width, y, x);
    lemma_draw_order_of(pt, tile, ty, tx);
    let p = k / 3;
    if p == idx {
        lemma_fundamental_div_mod_converse(x, 128, pt, (tile % 16) * 8 + tx);
        lemma_fundamental_div_mod_converse((tile % 16) * 8 + tx, 8, tile % 16, tx);
        lemma_fundamental_div_mod_converse(y, 8, tile / 16, ty);
        lemma_fundamental_div_mod_converse(tile, 16, tile / 16, tile % 16);
        assert(pixel_tile(x, y) == tile);
    } else if p < width * 128 {
        let x2 = p % width;
        let y2 = p / width;
        vstd::arithmetic::div_mod::lemma_fundamental_div_mod(p, width);
        assert(0 <= y2 < 128) by (nonlinear_arith)
            requires
                p == width * y2 + x2,
                0 <= x2 < width,
                p < width * 128,
                0 <= p,
        ;
        if draw_order(x2, y2) == cur {
            lemma_draw_order_unique(x2, y2, pt, tile, ty, tx);
            assert(false);
        }
    }
}

// Returns the pattern table following the standard pattern table layout. The
// pattern tables are laid out next to each other horizontally, and each
// pattern table is a 16x16 grid of tiles. Each tile is a 8x8 grid of pixels.
// Each pixel is a 3-tuple of RGB values. The layout of the vector is
// row-first. Returns bytes, width, and height.
pub fn pattern_tables_to_bytes(chr_rom: &[u8]) -> (r: (Vec<u8>, usize, usize))
    requires
        chr_rom@.len() / 0x1000 <= 2,
    ensures
        r.1 == 128 * (chr_rom@.len() / 0x1000),
        r.2 == 128,
        r.0@.len() == 0x1000 * 8 * 3,
        forall|k: int| 0 <= k < r.0@.len() ==> #[trigger] r.0@[k] == pattern_image_byte(chr_rom@, r.1 as int, k),
{
    let pattern_table_length: usize = 0x1000;
    let num_pattern_tables = chr_rom.len() / pattern_table_length;
    let num_tiles: usize = pattern_table_length / 16;  // 16 bytes per 8x8 tile

    // Store RGB values per pixel (x3)
    // OR two bytes to get the proper pixel color index (/2)
    // Two pattern tables (x2)
    // Each byte represents a row of pixels (x8)
    let mut colors: Vec<u8> = vec![0u8; pattern_table_length * 8 * 3];

    let width: usize = 128 * num_pattern_tables;
    let height: usize = 128;
    let ghost chr = chr_rom@;
    let ghost n = num_pattern_tables as int;

    assert(forall|k: int| 0 <= k < colors@.len() ==> #[trigger] colors@[k] == drawn_byte(chr, width as int, k, 0)) by {
        assert forall|k: int| 0 <= k < colors@.len() implies #[trigger] colors@[k] == drawn_byte(chr, width as int, k, 0) by {
            let p = k / 3;
            if 0 < width && p < width * 128 {
                vstd::arithmetic::div_mod::lemma_fundamental_div_mod(p, width as int);
            }
        }
    }

    let mut pattern_table: usize = 0;
    while pattern_table < num_pattern_tables
        invariant
            chr == chr_rom@,
            n == num_pattern_tables,
            n == chr.len() / 0x1000,
            n <= 2,
            num_tiles == 256,
            width == 128 * n,
            pattern_table <= n,
            colors@.len() == 0x1000 * 8 * 3,
            forall|k: int|
                0 <= k < colors@.len() ==> #[trigger] colors@[k] == drawn_byte(chr, width as int, k, pattern_table * 16384),
        decreases num_pattern_tables - pattern_table,
    {
        let base_addr = 0x1000 * pattern_table;
        let mut tile: usize = 0;
        while tile < num_tiles
            invariant
                chr == chr_rom@,
                n == num_pattern_tables,
                n == chr.len() / 0x1000,
                n <= 2,
                num_tiles == 256,
                width == 128 * n,
                pattern_table < n,
                base_addr == 0x1000 * pattern_table,
                tile <= 256,
                colors@.len() == 0x1000 * 8 * 3,
                forall|k: int|
                    0 <= k < colors@.len() ==> #[trigger] colors@[k] == drawn_byte(
                        chr,
                        width as int,
                        k,
                        pattern_table * 16384 + tile * 64,
                    ),
            decreases num_tiles - tile,
        {
            let tile_base_x = pattern_table * 16 + (tile % 16);
            let tile_base_y = tile / 16;

            let mut tile_y: usize = 0;
            while tile_y < 8
                invariant
                    chr == chr_rom@,
                    n == num_pattern_tables,
                n == chr.len() / 0x1000,
                    n <= 2,
                    width == 128 * n,
                    pattern_table < n,
                    base_addr == 0x1000 * pattern_table,
                    tile < 256,
                    tile_base_x == pattern_table * 16 + (tile % 16),
                    tile_base_y == tile / 16,
                    tile_y <= 8,
                    colors@.len() == 0x1000 * 8 * 3,
                    forall|k: int|
                        0 <= k < colors@.len() ==> #[trigger] colors@[k] == drawn_byte(
                            chr,
                            width as int,
                            k,
                            pattern_table * 16384 + tile * 64 + tile_y * 8,
                        ),
                decreases 8 - tile_y,
            {
                assert(tile << 4 == tile * 16) by (bit_vector)
                    requires
                        tile < 256,
                ;
                let addr1 = base_addr + (tile << 4) + tile_y;
                let addr2 = base_addr + (tile << 4) + tile_y + 8;
                assert(addr2 < chr_rom@.len()) by {
                    vstd::arithmetic::div_mod::lemma_fundamental_div_mod(chr_rom@.len() as int, 0x1000);
                }

                let row1 = chr_rom[addr1];
                let row2 = chr_rom[addr2];

                let mut tile_x: usize = 0;
                while tile_x < 8
                    invariant
                        chr == chr_rom@,
                        n == num_pattern_tables,
                n == chr.len() / 0x1000,
                        1 <= n <= 2,
                        width == 128 * n,
                        pattern_table < n,
                        tile < 256,
                        tile_base_x == pattern_table * 16 + (tile % 16),
                        tile_base_y == tile / 16,
                        tile_y < 8,
                        tile_x <= 8,
                        row1 == chr[0x1000 * pattern_table + 16 * tile + tile_y],
                        row2 == chr[0x1000 * pattern_table + 16 * tile + tile_y + 8],
                        colors@.len() == 0x1000 * 8 * 3,
                        forall|k: int|
                            0 <= k < colors@.len() ==> #[trigger] colors@[k] == drawn_byte(
                                chr,
                                width as int,
                                k,
                                pattern_table * 16384 + tile * 64 + tile_y * 8 + tile_x,
                            ),
                    decreases 8 - tile_x,
                {
                    let color_idx_1 = (row1 >> (7 - tile_x) as u8) & 1;
                    let color_idx_2 = (row2 >> (7 - tile_x) as u8) & 1;
                    // Encode a row of a tile as a byte in the table. Each row
                    // is stored sequentially in the colors table to form a
                    // tile. Encode each pixel in RGB format
                    let ci = (color_idx_1 << 1) | color_idx_2;
                    assert(color_idx_1 <= 1 && color_idx_2 <= 1 && ci == 2 * color_idx_1 + color_idx_2) by (bit_vector)
                        requires
                            color_idx_1 == (row1 >> ((7 - tile_x) as u8)) & 1,
                            color_idx_2 == (row2 >> ((7 - tile_x) as u8)) & 1,
                            ci == (color_idx_1 << 1u8) | color_idx_2,
                    ;
                    let color: [u8; 3] = if ci == 0 {
                        [0, 0, 0]
                    } else if ci == 1 {
                        [80, 80, 80]
                    } else if ci == 2 {
                        [160, 160, 160]
                    } else {
                        [255, 255, 255]
                    };

                    let y = tile_base_y * 8 + tile_y;
                    let x = tile_base_x * 8 + tile_x;
                    assert(width * y + x < 0x1000 * 8) by (nonlinear_arith)
                        requires
                            width <= 256,
                            y < 128,
                            x < width,
                    ;
                    let idx = width * y + x;
                    let ghost before = colors@;
                    let ghost cur = pattern_table * 16384 + tile * 64 + tile_y * 8 + tile_x;
                    colors.set(3 * idx + 0, color[0]);
                    colors.set(3 * idx + 1, color[1]);
                    colors.set(3 * idx + 2, color[2]);
                    assert forall|k: int| 0 <= k < colors@.len() implies #[trigger] colors@[k] == drawn_byte(
                        chr,
                        width as int,
                        k,
                        cur + 1,
                    ) by {
                        lemma_draw_step(chr, n, pattern_table as int, tile as int, tile_y as int, tile_x as int, k);
                        assert(before[k] == drawn_byte(chr, width as int, k, cur));
                    }
                    tile_x = tile_x + 1;
                }
                tile_y = tile_y + 1;
            }
            tile = tile + 1;
        }
        pattern_table = pattern_table + 1;
    }

    assert forall|k: int| 0 <= k < colors@.len() implies #[trigger] colors@[k] == pattern_image_byte(
        chr_rom@,
        width as int,
        k,
    ) by {
        let p = k / 3;
        if 0 < width && p < width * 128 {
            vstd::arithmetic::div_mod::lemma_fundamental_div_mod(p, width as int);
            let x = p % (width as int);
            let y = p / (width as int);
            assert(0 <= y < 128) by (nonlinear_arith)
                requires
                    p == width * y + x,
                    0 <= x < width,
                    p < width * 128,
                    0 <= p,
            ;
            assert(x / 128 < n);
        }
    }
    return (colors, width, height);
}

} // verus!
