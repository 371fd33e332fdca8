//! Chunk coordinates: from a slot of a region's 32 x 32 grid to the world.

use vstd::prelude::*;

verus! {

/// Column of a slot inside its region.
pub open spec fn local_x(slot: int) -> int {
    slot % 32
}

/// Row of a slot inside its region.
pub open spec fn local_z(slot: int) -> int {
    (slot / 32) % 32
}

/// World coordinates of the chunk at `slot` of region `(region_x, region_z)`.
pub open spec fn chunk_coord(region_x: int, region_z: int, slot: int) -> (int, int) {
    (region_x * 32 + local_x(slot), region_z * 32 + local_z(slot))
}

/// Whether every chunk of the region row or column `region` has a
/// coordinate that an `i64` holds.
pub open spec fn region_in_range(region: int) -> bool {
    i64::MIN <= region * 32 && region * 32 + 31 <= i64::MAX
}

/// Maps a slot of region `(region_x, region_z)` to world chunk coordinates.
/// Only the low ten bits of `chunk` count: five for the column, five for the
/// row.
pub fn coord_normalizer(region_x: i64, region_z: i64, chunk: usize) -> (coord: (i64, i64))
    requires
        region_in_range(region_x as int),
        region_in_range(region_z as int),
    ensures
        (coord.0 as int, coord.1 as int) == chunk_coord(region_x as int, region_z as int, chunk as int),
{
    let column: usize = chunk & 0b11111;
    let row: usize = (chunk >> 5) & 0b11111;
    assert(column == chunk % 32 && row == (chunk / 32) % 32) by (bit_vector)
        requires
            column == chunk & 0b11111,
            row == (chunk >> 5) & 0b11111,
    ;
    (region_x * 32 + column as i64, region_z * 32 + row as i64)
}

/// Whether `(x, z)` is the coordinate of a chunk of region
/// `(region_x, region_z)`.
pub open spec fn in_region(region_x: int, region_z: int, x: int, z: int) -> bool {
    region_x * 32 <= x < region_x * 32 + 32 && region_z * 32 <= z < region_z * 32 + 32
}

/// The slot of row `z` and column `x` of a region lies at `x` and `z` from
/// the region's first chunk.
pub proof fn slot_of_local_lands_there(region_x: int, region_z: int, x: int, z: int)
    requires
        0 <= x < 32,
        0 <= z < 32,
    ensures
        0 <= x + z * 32 < 1024,
        chunk_coord(region_x, region_z, x + z * 32) == (region_x * 32 + x, region_z * 32 + z),
{
}

/// Every slot of a region maps to a chunk of that region.
pub proof fn slot_stays_in_region(region_x: int, region_z: int, slot: int)
    requires
        0 <= slot < 1024,
    ensures
        in_region(
            region_x,
            region_z,
            chunk_coord(region_x, region_z, slot).0,
            chunk_coord(region_x, region_z, slot).1,
        ),
{
}

/// Two slots of a region that map to the same chunk are the same slot.
pub proof fn distinct_slots_distinct_chunks(region_x: int, region_z: int, a: int, b: int)
    requires
        0 <= a < 1024,
        0 <= b < 1024,
        chunk_coord(region_x, region_z, a) == chunk_coord(region_x, region_z, b),
    ensures
        a == b,
{
}

/// Every chunk of a region is the image of one of its slots.
pub proof fn every_chunk_has_a_slot(region_x: int, region_z: int, x: int, z: int)
    requires
        in_region(region_x, region_z, x, z),
    ensures
        exists|slot: int|
            0 <= slot < 1024 && #[trigger] chunk_coord(region_x, region_z, slot) == (x, z),
{
    let slot = (x - region_x * 32) + (z - region_z * 32) * 32;
    slot_of_local_lands_there(region_x, region_z, x - region_x * 32, z - region_z * 32);
    assert(chunk_coord(region_x, region_z, slot) == (x, z));
}

} // verus!
