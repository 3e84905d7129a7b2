//! Which meshes are made again when chunks arrive.

use vstd::prelude::*;
use crate::map::chunk::chunk_coordinates::ChunkCoordinates;

verus! {

/// The steps from a chunk to the chunks beside it: along x and along z, not
/// up or down.
pub const SIDES_OFFSETS: [(i32, i32, i32); 4] = [(1, 0, 0), (-1, 0, 0), (0, 0, 1), (0, 0, -1)];

/// Whether the chunk at `pos` is the one that step number `side` leads to
/// from the chunk at `other`.
pub open spec fn beside(pos: ChunkCoordinates, other: ChunkCoordinates, side: int) -> bool {
    &&& pos.x == other.x + SIDES_OFFSETS@[side].0
    &&& pos.y == other.y + SIDES_OFFSETS@[side].1
    &&& pos.z == other.z + SIDES_OFFSETS@[side].2
}

/// Whether the chunk at `pos` stands beside the chunk at `other`: one step
/// away along x or along z, at the same height.
pub open spec fn spec_is_lateral_neighbour(pos: ChunkCoordinates, other: ChunkCoordinates) -> bool {
    exists|side: int| 0 <= side < 4 && #[trigger] beside(pos, other, side)
}

/// Whether the mesh of the chunk at `pos` is out of date now that the chunks
/// `fresh` have arrived: it stands beside one of them, and may show a side
/// that the new chunk hides.
pub open spec fn spec_needs_remesh(pos: ChunkCoordinates, fresh: Seq<ChunkCoordinates>) -> bool {
    exists|i: int| 0 <= i < fresh.len() && spec_is_lateral_neighbour(pos, #[trigger] fresh[i])
}

/// Standing beside a chunk is being one step away from it in the plane: the
/// heights are the same and the distances along x and z add up to one.
pub proof fn lemma_lateral_neighbours(pos: ChunkCoordinates, other: ChunkCoordinates)
    ensures
        spec_is_lateral_neighbour(pos, other) <==> pos.y == other.y && crate::utils::planar_distance_between(
            pos.x as int,
            pos.z as int,
            other.x as int,
            other.z as int,
        ) == 1,
        spec_is_lateral_neighbour(pos, other) <==> spec_is_lateral_neighbour(other, pos),
{
    if pos.y == other.y {
        if pos.z == other.z && pos.x == other.x + 1 {
            assert(beside(pos, other, 0));
            assert(beside(other, pos, 1));
        }
        if pos.z == other.z && pos.x == other.x - 1 {
            assert(beside(pos, other, 1));
            assert(beside(other, pos, 0));
        }
        if pos.x == other.x && pos.z == other.z + 1 {
            assert(beside(pos, other, 2));
            assert(beside(other, pos, 3));
        }
        if pos.x == other.x && pos.z == other.z - 1 {
            assert(beside(pos, other, 3));
            assert(beside(other, pos, 2));
        }
    }
}

/// Whether the chunk at `pos` stands beside the chunk at `other`.
pub fn is_lateral_neighbour(pos: &ChunkCoordinates, other: &ChunkCoordinates) -> (r: bool)
    ensures
        r == spec_is_lateral_neighbour(*pos, *other),
{
    let mut side: usize = 0;
    while side < 4
        invariant
            side <= 4,
            forall|before: int| 0 <= before < side ==> !#[trigger] beside(*pos, *other, before),
        decreases 4 - side,
    {
        let (x, y, z) = SIDES_OFFSETS[side];
        if pos.x as i64 == other.x as i64 + x as i64 && pos.y as i64 == other.y as i64 + y as i64 && pos.z as i64
            == other.z as i64 + z as i64 {
            assert(beside(*pos, *other, side as int));
            return true;
        }
        side += 1;
    }
    false
}

/// Whether the mesh of the chunk at `pos` is to be made again now that the
/// chunks `fresh` have arrived.
pub fn needs_remesh(pos: &ChunkCoordinates, fresh: &Vec<ChunkCoordinates>) -> (r: bool)
    ensures
        r == spec_needs_remesh(*pos, fresh@),
{
    let mut i: usize = 0;
    while i < fresh.len()
        invariant
            i <= fresh@.len(),
            forall|k: int| 0 <= k < i ==> !spec_is_lateral_neighbour(*pos, #[trigger] fresh@[k]),
        decreases fresh@.len() - i,
    {
        if is_lateral_neighbour(pos, &fresh[i]) {
            return true;
        }
        i += 1;
    }
    false
}

} // verus!
