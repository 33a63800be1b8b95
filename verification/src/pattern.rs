//! Pattern-table lookups for the presentation layer: which of its four colour
//! indices a tile has at a pixel.

use vstd::prelude::*;

verus! {

/// Bytes that one 8x8 tile takes in a pattern table: two bit planes of 8 rows.
pub const TILE_BYTES: usize = 16;

/// The bit of a plane's row byte that belongs to column `x` of the tile:
/// column 0 is the byte's bit 7.
pub open spec fn plane_bit(row: u8, x: u8) -> u8 {
    (row >> (7 - x % 8) as u8) & 1
}

/// The colour index of the pixel at column `x`, row `y` of tile `tile`: its
/// bit 0 comes from the first bit plane, its bit 1 from the second, which
/// lies 8 bytes behind the first. Columns and rows repeat every 8.
pub open spec fn spec_pixel(chr: Seq<u8>, tile: u8, x: u8, y: u8) -> u8 {
    let row = tile as int * TILE_BYTES as int + y as int % 8;
    plane_bit(chr[row], x) | (plane_bit(chr[row + 8], x) << 1)
}

/// Looks a pixel of a tile up in a pattern table. The result is 0 to 3, and
/// `None` where the table is too short to hold the tile.
pub fn pixel(chr: &[u8], tile: u8, x: u8, y: u8) -> (colour: Option<u8>)
    ensures
        colour is Some <==> (tile as int + 1) * TILE_BYTES <= chr@.len(),
        colour matches Some(c) ==> c == spec_pixel(chr@, tile, x, y) && c <= 3,
{
    let start: usize = tile as usize * TILE_BYTES;
    if chr.len() < start + TILE_BYTES {
        return None;
    }
    let row: usize = start + (y % 8) as usize;
    let shift: u8 = 7 - x % 8;
    let first: u8 = chr[row];
    let second: u8 = chr[row + 8];
    let low: u8 = (first >> shift) & 1;
    let high: u8 = (second >> shift) & 1;
    assert(low | (high << 1) <= 3) by (bit_vector)
        requires
            low == (first >> shift) & 1,
            high == (second >> shift) & 1,
    ;
    Some(low | (high << 1))
}

} // verus!
