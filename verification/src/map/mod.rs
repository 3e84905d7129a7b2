//! The voxel world: chunks, the terrain in them, what is drawn of them, and
//! which of them are kept around a viewer.

pub mod chunk;
pub mod generator;
pub mod render;

use vstd::prelude::*;
use crate::utils::{axis_gap, ChunkPos};

verus! {

/// How many chunks away from the viewer, on either axis, chunks are wanted.
pub const VISIBLE_CHUNKS_DISTANCE: usize = 10;

/// How many chunks away from the viewer, on either axis, chunks are not
/// wanted after all. Nothing is cut where this is 0.
pub const CHUNKS_CUT_DISTANCE: usize = 0;

/// How many times the visible distance a chunk may be away before it is
/// removed.
pub const DESPAWN_FACTOR: usize = 3;

/// Whether the chunk column `(x, z)` is no more than `distance` columns away
/// from `(ch_x, ch_z)` on either axis.
pub open spec fn in_square(x: int, z: int, ch_x: int, ch_z: int, distance: int) -> bool {
    axis_gap(x, ch_x) <= distance && axis_gap(z, ch_z) <= distance
}

/// Whether a viewer in the chunk column `(ch_x, ch_z)` wants the chunk
/// column `(x, z)`: it is within `visible` columns, and not within `cut`
/// columns where `cut` is not 0.
pub open spec fn wanted(x: int, z: int, ch_x: int, ch_z: int, visible: int, cut: int) -> bool {
    in_square(x, z, ch_x, ch_z, visible) && !(cut != 0 && in_square(x, z, ch_x, ch_z, cut))
}

/// The order in which chunk columns are listed: by `x`, then by `z`.
pub open spec fn listed_before(a: (i32, i32), b: (i32, i32)) -> bool {
    a.0 < b.0 || (a.0 == b.0 && a.1 < b.1)
}

/// Whether one of the resident chunks stands in the chunk column `(x, z)`.
pub open spec fn column_resident(resident: Seq<ChunkPos>, x: int, z: int) -> bool {
    exists|i: int| 0 <= i < resident.len() && (#[trigger] resident[i]).x == x && resident[i].z == z
}

/// The chunk columns that a viewer in the column `(ch_x, ch_z)` wants, for
/// the given distances, each once, by `x` and then by `z`. Columns beyond
/// the ends of the coordinates do not exist.
pub fn chunks_in_range(ch_x: i32, ch_z: i32, visible: u32, cut: u32) -> (r: Vec<(i32, i32)>)
    ensures
        forall|i: int, j: int| 0 <= i < j < r@.len() ==> listed_before(r@[i], r@[j]),
        forall|p: (i32, i32)|
            r@.contains(p) <==> wanted(p.0 as int, p.1 as int, ch_x as int, ch_z as int, visible as int, cut as int),
{
    let mut result: Vec<(i32, i32)> = Vec::new();
    let first_x: i64 = ch_x as i64 - visible as i64;
    let last_x: i64 = ch_x as i64 + visible as i64;
    let first_z: i64 = ch_z as i64 - visible as i64;
    let last_z: i64 = ch_z as i64 + visible as i64;
    let mut x: i64 = first_x;
    while x <= last_x
        invariant
            first_x == ch_x - visible,
            last_x == ch_x + visible,
            first_z == ch_z - visible,
            last_z == ch_z + visible,
            first_x <= x <= last_x + 1,
            forall|i: int, j: int| 0 <= i < j < result@.len() ==> listed_before(result@[i], result@[j]),
            forall|i: int| 0 <= i < result@.len() ==> (#[trigger] result@[i]).0 < x,
            forall|p: (i32, i32)|
                result@.contains(p) <==> p.0 < x && wanted(
                    p.0 as int,
                    p.1 as int,
                    ch_x as int,
                    ch_z as int,
                    visible as int,
                    cut as int,
                ),
        decreases last_x + 1 - x,
    {
        let mut z: i64 = first_z;
        while z <= last_z
            invariant
                first_x == ch_x - visible,
                last_x == ch_x + visible,
                first_z == ch_z - visible,
                last_z == ch_z + visible,
                    first_x <= x <= last_x,
                first_z <= z <= last_z + 1,
                forall|i: int, j: int| 0 <= i < j < result@.len() ==> listed_before(result@[i], result@[j]),
                forall|i: int|
                    0 <= i < result@.len() ==> (#[trigger] result@[i]).0 < x || (result@[i].0 == x
                        && result@[i].1 < z),
                forall|p: (i32, i32)|
                    result@.contains(p) <==> (p.0 < x || (p.0 == x && p.1 < z)) && wanted(
                        p.0 as int,
                        p.1 as int,
                        ch_x as int,
                        ch_z as int,
                        visible as int,
                        cut as int,
                    ),
            decreases last_z + 1 - z,
        {
            let in_world = i32::MIN as i64 <= x && x <= i32::MAX as i64 && i32::MIN as i64 <= z && z
                <= i32::MAX as i64;
            if in_world {
                let gap_x = if x >= ch_x as i64 {
                    x - ch_x as i64
                } else {
                    ch_x as i64 - x
                };
                let gap_z = if z >= ch_z as i64 {
                    z - ch_z as i64
                } else {
                    ch_z as i64 - z
                };
                let cut_out = cut != 0 && gap_x <= cut as i64 && gap_z <= cut as i64;
                if !cut_out {
                    let ghost before = result@;
                    result.push((x as i32, z as i32));
                    proof {
                        assert forall|p: (i32, i32)|
                            result@.contains(p) <==> (p.0 < x || (p.0 == x && p.1 < z + 1)) && wanted(
                                p.0 as int,
                                p.1 as int,
                                ch_x as int,
                                ch_z as int,
                                visible as int,
                                cut as int,
                            ) by {
                            if result@.contains(p) {
                                let i = choose|i: int| 0 <= i < result@.len() && result@[i] == p;
                                if i < before.len() {
                                    assert(before.contains(p));
                                }
                            }
                            if before.contains(p) {
                                let i = choose|i: int| 0 <= i < before.len() && before[i] == p;
                                assert(result@[i] == p);
                            }
                            if p == (x as i32, z as i32) {
                                assert(result@[before.len() as int] == p);
                            }
                        }
                    }
                }
            }
            z += 1;
        }
        x += 1;
    }
    result
}

/// The chunk columns that a viewer in the chunk column `(ch_x, ch_z)` wants,
/// each once, by `x` and then by `z`.
pub fn get_visible_chunks(ch_x: i32, ch_z: i32) -> (r: Vec<(i32, i32)>)
    ensures
        forall|i: int, j: int| 0 <= i < j < r@.len() ==> listed_before(r@[i], r@[j]),
        forall|p: (i32, i32)|
            r@.contains(p) <==> wanted(
                p.0 as int,
                p.1 as int,
                ch_x as int,
                ch_z as int,
                VISIBLE_CHUNKS_DISTANCE as int,
                CHUNKS_CUT_DISTANCE as int,
            ),
{
    chunks_in_range(ch_x, ch_z, VISIBLE_CHUNKS_DISTANCE as u32, CHUNKS_CUT_DISTANCE as u32)
}

/// The chunk column to make next for a viewer in the chunk column
/// `(ch_x, ch_z)`: the first of the wanted columns in which no resident
/// chunk stands. There is none when every wanted column has a chunk.
pub fn next_chunk_to_spawn(ch_x: i32, ch_z: i32, resident: &Vec<ChunkPos>) -> (r: Option<(i32, i32)>)
    ensures
        match r {
            Some(next) => {
                &&& wanted(
                    next.0 as int,
                    next.1 as int,
                    ch_x as int,
                    ch_z as int,
                    VISIBLE_CHUNKS_DISTANCE as int,
                    CHUNKS_CUT_DISTANCE as int,
                )
                &&& !column_resident(resident@, next.0 as int, next.1 as int)
                &&& forall|p: (i32, i32)|
                    wanted(
                        p.0 as int,
                        p.1 as int,
                        ch_x as int,
                        ch_z as int,
                        VISIBLE_CHUNKS_DISTANCE as int,
                        CHUNKS_CUT_DISTANCE as int,
                    ) && listed_before(p, next) ==> column_resident(resident@, p.0 as int, p.1 as int)
            },
            None => forall|p: (i32, i32)|
                wanted(
                    p.0 as int,
                    p.1 as int,
                    ch_x as int,
                    ch_z as int,
                    VISIBLE_CHUNKS_DISTANCE as int,
                    CHUNKS_CUT_DISTANCE as int,
                ) ==> column_resident(resident@, p.0 as int, p.1 as int),
        },
{
    let chunks = get_visible_chunks(ch_x, ch_z);
    let mut i: usize = 0;
    while i < chunks.len()
        invariant
            i <= chunks@.len(),
            forall|a: int, b: int| 0 <= a < b < chunks@.len() ==> listed_before(chunks@[a], chunks@[b]),
            forall|p: (i32, i32)|
                chunks@.contains(p) <==> wanted(
                    p.0 as int,
                    p.1 as int,
                    ch_x as int,
                    ch_z as int,
                    VISIBLE_CHUNKS_DISTANCE as int,
                    CHUNKS_CUT_DISTANCE as int,
                ),
            forall|k: int|
                0 <= k < i ==> column_resident(resident@, (#[trigger] chunks@[k]).0 as int, chunks@[k].1 as int),
        decreases chunks@.len() - i,
    {
        let (x, z) = chunks[i];
        if !is_column_resident(resident, x, z) {
            proof {
                assert(chunks@.contains(chunks@[i as int]));
                assert forall|p: (i32, i32)|
                    wanted(
                        p.0 as int,
                        p.1 as int,
                        ch_x as int,
                        ch_z as int,
                        VISIBLE_CHUNKS_DISTANCE as int,
                        CHUNKS_CUT_DISTANCE as int,
                    ) && listed_before(p, (x, z)) implies column_resident(
                    resident@,
                    p.0 as int,
                    p.1 as int,
                ) by {
                    assert(chunks@.contains(p));
                    let k = choose|k: int| 0 <= k < chunks@.len() && chunks@[k] == p;
                    if k > i {
                        assert(listed_before(chunks@[i as int], chunks@[k]));
                    }
                }
            }
            return Some((x, z));
        }
        i += 1;
    }
    proof {
        assert forall|p: (i32, i32)|
            wanted(
                p.0 as int,
                p.1 as int,
                ch_x as int,
                ch_z as int,
                VISIBLE_CHUNKS_DISTANCE as int,
                CHUNKS_CUT_DISTANCE as int,
            ) implies column_resident(resident@, p.0 as int, p.1 as int) by {
            assert(chunks@.contains(p));
            let k = choose|k: int| 0 <= k < chunks@.len() && chunks@[k] == p;
            assert(column_resident(resident@, chunks@[k].0 as int, chunks@[k].1 as int));
        }
    }
    None
}

/// Whether one of the resident chunks stands in the chunk column `(x, z)`.
pub fn is_column_resident(resident: &Vec<ChunkPos>, x: i32, z: i32) -> (r: bool)
    ensures
        r == column_resident(resident@, x as int, z as int),
{
    let mut i: usize = 0;
    while i < resident.len()
        invariant
            i <= resident@.len(),
            forall|k: int| 0 <= k < i ==> !((#[trigger] resident@[k]).x == x && resident@[k].z == z),
        decreases resident@.len() - i,
    {
        if resident[i].x == x && resident[i].z == z {
            return true;
        }
        i += 1;
    }
    false
}

/// Whether a resident chunk is to be removed for a viewer in the chunk
/// `viewer`: it is further away in the plane than [`DESPAWN_FACTOR`] times
/// the visible distance, or nearer than the cut distance.
pub open spec fn spec_should_despawn(coords: ChunkPos, viewer: ChunkPos) -> bool {
    coords.spec_planar_distance(&viewer) > VISIBLE_CHUNKS_DISTANCE * DESPAWN_FACTOR
        || coords.spec_planar_distance(&viewer) < CHUNKS_CUT_DISTANCE
}

/// A chunk that the viewer wants is not removed: making and removing never
/// choose the same chunk for the same viewer.
pub proof fn lemma_wanted_chunk_is_kept(coords: ChunkPos, viewer: ChunkPos)
    requires
        wanted(
            coords.x as int,
            coords.z as int,
            viewer.x as int,
            viewer.z as int,
            VISIBLE_CHUNKS_DISTANCE as int,
            CHUNKS_CUT_DISTANCE as int,
        ),
    ensures
        !spec_should_despawn(coords, viewer),
{
}

/// Whether the resident chunk at `coords` is to be removed for a viewer in
/// the chunk `viewer`.
pub fn should_despawn(coords: &ChunkPos, viewer: &ChunkPos) -> (r: bool)
    ensures
        r == spec_should_despawn(*coords, *viewer),
{
    let gap_x: i64 = if coords.x >= viewer.x {
        coords.x as i64 - viewer.x as i64
    } else {
        viewer.x as i64 - coords.x as i64
    };
    let gap_z: i64 = if coords.z >= viewer.z {
        coords.z as i64 - viewer.z as i64
    } else {
        viewer.z as i64 - coords.z as i64
    };
    let distance = gap_x + gap_z;
    distance > (VISIBLE_CHUNKS_DISTANCE * DESPAWN_FACTOR) as i64 || distance < CHUNKS_CUT_DISTANCE as i64
}

} // verus!
