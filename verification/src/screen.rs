//! Display-side data: tiles, tile maps and the display registers a
//! renderer reads. The core only guarantees that these bytes land where
//! they were written; rasterizing them is the host's job.

use vstd::prelude::*;

verus! {

/// One 8x8 tile: sixteen bytes, two per pixel row, low bit plane first.
#[derive(Clone, Copy, Debug)]
pub struct Tile {
    pub data: [u8; 16],
}

/// A snapshot of the display state: three tile-data blocks, two tile
/// maps, and the control and scroll registers.
pub struct Screen {
    /// Tile pixel data, three blocks of 128 tiles.
    pub tiledata: [[Tile; 128]; 3],
    /// Two 32-by-32 maps of tile indices.
    pub tilemaps: [[[u8; 32]; 32]; 2],
    /// Display control register.
    pub lcdc: u8,
    /// Vertical scroll register.
    pub scy: u8,
    /// Horizontal scroll register.
    pub scx: u8,
}

/// The color index (0..4) of the pixel at `row`, `col` of a tile: bit
/// `7 - col` of the row's high-plane byte doubled, plus the same bit of
/// its low-plane byte.
pub open spec fn spec_tile_pixel(t: Tile, row: int, col: int) -> u8
    recommends
        0 <= row < 8,
        0 <= col < 8,
{
    (((t.data[2 * row + 1] >> (7 - col) as u8) & 1) * 2 + ((t.data[2 * row] >> (
    7 - col) as u8) & 1)) as u8
}

/// Decode one pixel of a tile into its color index.
pub fn tile_pixel(t: &Tile, row: usize, col: usize) -> (p: u8)
    requires
        row < 8,
        col < 8,
    ensures
        p == spec_tile_pixel(*t, row as int, col as int),
        p < 4,
{
    let low = (t.data[2 * row] >> (7 - col) as u8) & 1;
    let high = (t.data[2 * row + 1] >> (7 - col) as u8) & 1;
    proof {
        let lb = t.data[2 * row as int];
        let hb = t.data[2 * row as int + 1];
        let sh = (7 - col) as u8;
        assert(((hb >> sh) & 1) * 2 + ((lb >> sh) & 1) < 4) by (bit_vector);
    }
    high * 2 + low
}

/// A blank tile.
pub fn blank_tile() -> (t: Tile)
    ensures
        t.data@ =~= Seq::new(16, |i: int| 0u8),
{
    Tile { data: [0u8; 16] }
}

impl Screen {
    /// A screen with zeroed tile data, tile maps and registers.
    pub fn new() -> (s: Screen)
        ensures
            s.lcdc == 0,
            s.scy == 0,
            s.scx == 0,
            forall|b: int, t: int, i: int|
                0 <= b < 3 && 0 <= t < 128 && 0 <= i < 16 ==> s.tiledata[b][t].data[i] == 0,
            forall|m: int, r: int, c: int|
                0 <= m < 2 && 0 <= r < 32 && 0 <= c < 32 ==> s.tilemaps[m][r][c] == 0,
    {
        Screen {
            tiledata: [[Tile { data: [0u8; 16] }; 128]; 3],
            tilemaps: [[[0u8; 32]; 32]; 2],
            lcdc: 0,
            scy: 0,
            scx: 0,
        }
    }

    /// A fixed demonstration screen: one patterned tile in the first
    /// data block, display enabled, both scroll registers at six.
    pub fn test_screen() -> (s: Screen)
        ensures
            s.lcdc == 0b10010011,
            s.scx == 0b00000110,
            s.scy == 0b00000110,
            s.tiledata[0][0].data@ =~= seq![
                0x3Cu8, 0x7E, 0x42, 0x42, 0x42, 0x42, 0x42, 0x42, 0x7E, 0x5E, 0x7E, 0x0A, 0x7C,
                0x56, 0x38, 0x7C,
            ],
    {
        let mut screen = Screen::new();
        screen.tiledata[0][0] = Tile {
            data: [
                0x3Cu8, 0x7E, 0x42, 0x42, 0x42, 0x42, 0x42, 0x42, 0x7E, 0x5E, 0x7E, 0x0A, 0x7C,
                0x56, 0x38, 0x7C,
            ],
        };
        screen.lcdc = 0b10010011;
        screen.scx = 0b00000110;
        screen.scy = 0b00000110;
        screen
    }
}

} // verus!
