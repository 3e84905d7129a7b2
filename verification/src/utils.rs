//! Coordinate spaces shared by the whole crate: world-block coordinates,
//! chunk coordinates and block coordinates local to one chunk.

use vstd::prelude::*;
use vstd::arithmetic::div_mod::{lemma_fundamental_div_mod, lemma_fundamental_div_mod_converse, lemma_mod_bound};

verus! {

/// Edge length of a chunk, in blocks, on every axis.
pub const CHUNK_SIZE: usize = 32;

/// [`CHUNK_SIZE`] as the signed type that coordinates use.
pub const CHUNK_SIZE_I32: i32 = 32;

/// Number of blocks in one chunk.
pub const CHUNK_VOLUME: usize = 32768;

/// Index of the chunk that owns the world coordinate `v` on an axis whose
/// chunks are `s` blocks long: the floor of `v / s`.
pub open spec fn chunk_of(v: int, s: int) -> int {
    v / s
}

/// Offset of the world coordinate `v` inside its chunk: the remainder of the
/// floor division, always in `[0, s)`.
pub open spec fn local_of(v: int, s: int) -> int {
    v % s
}

/// World coordinate of the block at offset `local` in chunk `chunk`.
pub open spec fn world_of(chunk: int, local: int, s: int) -> int {
    chunk * s + local
}

/// Whether `v` can be held in an `i32`.
pub open spec fn fits_i32(v: int) -> bool {
    i32::MIN <= v <= i32::MAX
}

/// Whether `(x, y, z)` lies inside a chunk's extent.
pub open spec fn in_chunk(x: int, y: int, z: int) -> bool {
    &&& 0 <= x < CHUNK_SIZE
    &&& 0 <= y < CHUNK_SIZE
    &&& 0 <= z < CHUNK_SIZE
}

/// Linear index of the block at `(x, y, z)`: layers of constant `y`, each
/// made of rows of constant `z`.
pub open spec fn index_of(x: int, y: int, z: int) -> int {
    y * (CHUNK_SIZE * CHUNK_SIZE) + z * CHUNK_SIZE + x
}

/// Position `(x, y, z)` of the block stored at linear index `i`.
pub open spec fn position_of(i: int) -> (int, int, int) {
    (i % (CHUNK_SIZE as int), i / (CHUNK_SIZE * CHUNK_SIZE), (i / (CHUNK_SIZE as int)) % (CHUNK_SIZE as int))
}

/// Splitting a world coordinate into chunk index and local offset loses
/// nothing: putting the two back together gives the coordinate again, for
/// negative coordinates as for positive ones, and the offset is in `[0, s)`.
pub proof fn lemma_split_round_trip(v: int, s: int)
    requires
        s > 0,
    ensures
        world_of(chunk_of(v, s), local_of(v, s), s) == v,
        0 <= local_of(v, s) < s,
{
    lemma_fundamental_div_mod(v, s);
    lemma_mod_bound(v, s);
    assert(s * (v / s) == (v / s) * s) by (nonlinear_arith);
}

/// A chunk index and an in-range offset are found again when their world
/// coordinate is split.
pub proof fn lemma_join_round_trip(chunk: int, local: int, s: int)
    requires
        s > 0,
        0 <= local < s,
    ensures
        chunk_of(world_of(chunk, local, s), s) == chunk,
        local_of(world_of(chunk, local, s), s) == local,
{
    lemma_fundamental_div_mod_converse(world_of(chunk, local, s), s, chunk, local);
}

/// For a negative coordinate the floor division is the truncating division
/// of `v + 1`, shifted down by one: `-1` belongs to chunk `-1`, at offset
/// `s - 1`.
pub proof fn lemma_split_negative(v: int, s: int)
    requires
        s > 0,
        v < 0,
    ensures
        chunk_of(v, s) == -((-(v + 1)) / s) - 1,
        local_of(v, s) == s - 1 - (-(v + 1)) % s,
{
    let m = -(v + 1);
    let q = m / s;
    let r = m % s;
    lemma_fundamental_div_mod(m, s);
    lemma_mod_bound(m, s);
    assert(v == (-q - 1) * s + (s - 1 - r)) by (nonlinear_arith)
        requires
            m == s * q + r,
            m == -(v + 1),
    ;
    lemma_fundamental_div_mod_converse(v, s, -q - 1, s - 1 - r);
}

/// The linear index of a position inside the chunk is a valid index, and the
/// position is found again from it.
pub proof fn lemma_index_round_trip(x: int, y: int, z: int)
    requires
        in_chunk(x, y, z),
    ensures
        0 <= index_of(x, y, z) < CHUNK_VOLUME,
        position_of(index_of(x, y, z)) == (x, y, z),
{
    let i = index_of(x, y, z);
    assert(i == (y * 32 + z) * 32 + x);
    lemma_fundamental_div_mod_converse(i, 32, y * 32 + z, x);
    lemma_fundamental_div_mod_converse(y * 32 + z, 32, y, z);
    assert(i == y * 1024 + (z * 32 + x));
    lemma_fundamental_div_mod_converse(i, 1024, y, z * 32 + x);
}

/// Every valid index is the index of a position inside the chunk, the one
/// that `position_of` gives.
pub proof fn lemma_position_round_trip(i: int)
    requires
        0 <= i < CHUNK_VOLUME,
    ensures
        in_chunk(position_of(i).0, position_of(i).1, position_of(i).2),
        index_of(position_of(i).0, position_of(i).1, position_of(i).2) == i,
{
    let row = i / 32;
    lemma_fundamental_div_mod(i, 32);
    lemma_mod_bound(i, 32);
    lemma_fundamental_div_mod(row, 32);
    lemma_mod_bound(row, 32);
    assert(i == (row / 32) * 1024 + (row % 32) * 32 + i % 32);
    lemma_fundamental_div_mod_converse(i, 1024, row / 32, (row % 32) * 32 + i % 32);
}

/// The index law is a bijection between the positions inside a chunk and the
/// indices `[0, CHUNK_VOLUME)`: two different positions never share an index,
/// and every index belongs to a position.
pub proof fn lemma_index_bijection()
    ensures
        forall|x1: int, y1: int, z1: int, x2: int, y2: int, z2: int|
            in_chunk(x1, y1, z1) && in_chunk(x2, y2, z2) && #[trigger] index_of(x1, y1, z1)
                == #[trigger] index_of(x2, y2, z2) ==> x1 == x2 && y1 == y2 && z1 == z2,
        forall|i: int|
            0 <= i < CHUNK_VOLUME ==> ({
                let p = #[trigger] position_of(i);
                in_chunk(p.0, p.1, p.2) && index_of(p.0, p.1, p.2) == i
            }),
{
    assert forall|x1: int, y1: int, z1: int, x2: int, y2: int, z2: int|
        in_chunk(x1, y1, z1) && in_chunk(x2, y2, z2) && #[trigger] index_of(x1, y1, z1)
            == #[trigger] index_of(x2, y2, z2) implies x1 == x2 && y1 == y2 && z1 == z2 by {
        lemma_index_round_trip(x1, y1, z1);
        lemma_index_round_trip(x2, y2, z2);
    }
    assert forall|i: int| 0 <= i < CHUNK_VOLUME implies ({
        let p = #[trigger] position_of(i);
        in_chunk(p.0, p.1, p.2) && index_of(p.0, p.1, p.2) == i
    }) by {
        lemma_position_round_trip(i);
    }
}

/// Splits one world coordinate into chunk index and local offset, for a
/// chunk extent `size`.
pub fn split_axis(x: i32, size: i32) -> (r: (i32, i32))
    requires
        size > 0,
    ensures
        r.0 == chunk_of(x as int, size as int),
        r.1 == local_of(x as int, size as int),
{
    if x >= 0 {
        (x / size, x % size)
    } else {
        // Division rounds towards zero, so a negative coordinate is mirrored
        // to the other side of zero, divided there, and mirrored back.
        let m: i32 = -(x + 1);
        proof {
            lemma_split_negative(x as int, size as int);
            lemma_fundamental_div_mod(m as int, size as int);
            lemma_mod_bound(m as int, size as int);
            assert(0 <= (m as int) / (size as int) <= m) by (nonlinear_arith)
                requires
                    m >= 0,
                    size > 0,
                    m == size * ((m as int) / (size as int)) + (m as int) % (size as int),
                    0 <= (m as int) % (size as int),
            ;
        }
        (-(m / size) - 1, size - 1 - m % size)
    }
}

/// Block coordinates in world space.
#[derive(Copy, Clone, Debug, PartialEq, Eq, Hash, Structural)]
pub struct WorldBlockPos {
    pub x: i32,
    pub y: i32,
    pub z: i32,
}

/// Chunk coordinates in world space.
#[derive(Copy, Clone, Debug, PartialEq, Eq, Hash, Structural)]
pub struct ChunkPos {
    pub x: i32,
    pub y: i32,
    pub z: i32,
}

/// Block coordinates in chunk space.
#[derive(Copy, Clone, Debug, PartialEq, Eq, Hash, Structural)]
pub struct BlockPos {
    pub x: i32,
    pub y: i32,
    pub z: i32,
}

impl WorldBlockPos {
    /// Whether the block at `block` inside the chunk at `chunk` has a world
    /// position, that is, whether its coordinates can be held.
    pub open spec fn spec_in_world(chunk: &ChunkPos, block: &BlockPos) -> bool {
        &&& fits_i32(world_of(chunk.x as int, block.x as int, CHUNK_SIZE as int))
        &&& fits_i32(world_of(chunk.y as int, block.y as int, CHUNK_SIZE as int))
        &&& fits_i32(world_of(chunk.z as int, block.z as int, CHUNK_SIZE as int))
    }

    /// The world position of the block at `block` inside the chunk at
    /// `chunk`, if the world's coordinates reach that far.
    pub fn checked_from(chunk: &ChunkPos, block: &BlockPos) -> (r: Option<WorldBlockPos>)
        ensures
            r is Some <==> Self::spec_in_world(chunk, block),
            r matches Some(pos) ==> {
                &&& pos.x == world_of(chunk.x as int, block.x as int, CHUNK_SIZE as int)
                &&& pos.y == world_of(chunk.y as int, block.y as int, CHUNK_SIZE as int)
                &&& pos.z == world_of(chunk.z as int, block.z as int, CHUNK_SIZE as int)
            },
    {
        match (
            checked_join_axis(chunk.x, block.x),
            checked_join_axis(chunk.y, block.y),
            checked_join_axis(chunk.z, block.z),
        ) {
            (Some(_), Some(_), Some(_)) => Some(Self::from(chunk, block)),
            _ => None,
        }
    }

    /// The world position of the block at `block` inside the chunk at
    /// `chunk`. The block need not lie inside the chunk: an offset of `-1` or
    /// `CHUNK_SIZE` names a block of the neighbouring chunk.
    pub fn from(chunk: &ChunkPos, block: &BlockPos) -> (r: WorldBlockPos)
        requires
            Self::spec_in_world(chunk, block),
        ensures
            r.x == world_of(chunk.x as int, block.x as int, CHUNK_SIZE as int),
            r.y == world_of(chunk.y as int, block.y as int, CHUNK_SIZE as int),
            r.z == world_of(chunk.z as int, block.z as int, CHUNK_SIZE as int),
    {
        WorldBlockPos {
            x: join_axis(chunk.x, block.x),
            y: join_axis(chunk.y, block.y),
            z: join_axis(chunk.z, block.z),
        }
    }
}

/// World coordinate of offset `local` in chunk `chunk`, on one axis, where
/// it can be held in an `i32`.
pub fn checked_join_axis(chunk: i32, local: i32) -> (r: Option<i32>)
    ensures
        r is Some <==> fits_i32(world_of(chunk as int, local as int, CHUNK_SIZE as int)),
        r matches Some(v) ==> v == world_of(chunk as int, local as int, CHUNK_SIZE as int),
{
    assert(-0x8000_0000 * 32 <= chunk * CHUNK_SIZE_I32 <= 0x7fff_ffff * 32) by (nonlinear_arith)
        requires
            CHUNK_SIZE_I32 == 32,
            -0x8000_0000 <= chunk <= 0x7fff_ffff,
    ;
    let wide: i64 = (chunk as i64) * (CHUNK_SIZE_I32 as i64) + (local as i64);
    if wide < i32::MIN as i64 || wide > i32::MAX as i64 {
        None
    } else {
        Some(wide as i32)
    }
}

/// World coordinate of offset `local` in chunk `chunk`, on one axis.
pub fn join_axis(chunk: i32, local: i32) -> (r: i32)
    requires
        fits_i32(world_of(chunk as int, local as int, CHUNK_SIZE as int)),
    ensures
        r == world_of(chunk as int, local as int, CHUNK_SIZE as int),
{
    let wide: i64 = (chunk as i64) * (CHUNK_SIZE_I32 as i64) + (local as i64);
    wide as i32
}

impl ChunkPos {
    pub fn new(x: i32, y: i32, z: i32) -> (r: ChunkPos)
        ensures
            r == (ChunkPos { x, y, z }),
    {
        ChunkPos { x, y, z }
    }

    /// Distance to `pos` in the horizontal plane: the sum of the distances
    /// on the x and z axes. The height is ignored.
    pub open spec fn spec_planar_distance(&self, pos: &ChunkPos) -> int {
        planar_distance_between(self.x as int, self.z as int, pos.x as int, pos.z as int)
    }

    /// Distance to `pos` in the horizontal plane, in chunks.
    pub fn planar_distance(&self, pos: &ChunkPos) -> (r: i32)
        requires
            self.spec_planar_distance(pos) <= i32::MAX,
        ensures
            r == self.spec_planar_distance(pos),
    {
        axis_distance(self.x, pos.x) + axis_distance(self.z, pos.z)
    }
}

/// Sum of the distances on two axes between `(x1, z1)` and `(x2, z2)`.
pub open spec fn planar_distance_between(x1: int, z1: int, x2: int, z2: int) -> int {
    axis_gap(x1, x2) + axis_gap(z1, z2)
}

/// Distance between two coordinates on one axis.
pub open spec fn axis_gap(a: int, b: int) -> int {
    if a >= b {
        a - b
    } else {
        b - a
    }
}

/// Distance between two coordinates on one axis.
pub fn axis_distance(a: i32, b: i32) -> (r: i32)
    requires
        axis_gap(a as int, b as int) <= i32::MAX,
    ensures
        r == axis_gap(a as int, b as int),
{
    if a >= b {
        a - b
    } else {
        b - a
    }
}

impl vstd::std_specs::convert::FromSpecImpl<WorldBlockPos> for ChunkPos {
    open spec fn obeys_from_spec() -> bool {
        true
    }

    open spec fn from_spec(value: WorldBlockPos) -> ChunkPos {
        ChunkPos {
            x: chunk_of(value.x as int, CHUNK_SIZE as int) as i32,
            y: chunk_of(value.y as int, CHUNK_SIZE as int) as i32,
            z: chunk_of(value.z as int, CHUNK_SIZE as int) as i32,
        }
    }
}

impl From<WorldBlockPos> for ChunkPos {
    /// The chunk that owns the block at `value`.
    fn from(value: WorldBlockPos) -> (r: ChunkPos) {
        ChunkPos {
            x: split_axis(value.x, CHUNK_SIZE_I32).0,
            y: split_axis(value.y, CHUNK_SIZE_I32).0,
            z: split_axis(value.z, CHUNK_SIZE_I32).0,
        }
    }
}

impl vstd::std_specs::convert::FromSpecImpl<WorldBlockPos> for BlockPos {
    open spec fn obeys_from_spec() -> bool {
        true
    }

    open spec fn from_spec(value: WorldBlockPos) -> BlockPos {
        BlockPos {
            x: local_of(value.x as int, CHUNK_SIZE as int) as i32,
            y: local_of(value.y as int, CHUNK_SIZE as int) as i32,
            z: local_of(value.z as int, CHUNK_SIZE as int) as i32,
        }
    }
}

impl From<WorldBlockPos> for BlockPos {
    /// The place of the block at `value` inside the chunk that owns it.
    fn from(value: WorldBlockPos) -> (r: BlockPos) {
        BlockPos {
            x: split_axis(value.x, CHUNK_SIZE_I32).1,
            y: split_axis(value.y, CHUNK_SIZE_I32).1,
            z: split_axis(value.z, CHUNK_SIZE_I32).1,
        }
    }
}

impl BlockPos {
    pub fn new(x: i32, y: i32, z: i32) -> (r: BlockPos)
        ensures
            r == (BlockPos { x, y, z }),
    {
        BlockPos { x, y, z }
    }

    /// Whether the position lies inside a chunk's extent.
    pub open spec fn spec_is_valid(&self) -> bool {
        in_chunk(self.x as int, self.y as int, self.z as int)
    }

    /// The position stored at linear index `i`.
    pub fn from_index(i: usize) -> (r: BlockPos)
        requires
            i < CHUNK_VOLUME,
        ensures
            r.spec_is_valid(),
            (r.x as int, r.y as int, r.z as int) == position_of(i as int),
    {
        proof {
            lemma_position_round_trip(i as int);
        }
        BlockPos {
            x: (i % CHUNK_SIZE) as i32,
            y: (i / (CHUNK_SIZE * CHUNK_SIZE)) as i32,
            z: ((i / CHUNK_SIZE) % CHUNK_SIZE) as i32,
        }
    }

    /// The linear index at which a chunk stores the block at this position.
    pub fn to_index(self) -> (r: usize)
        requires
            self.spec_is_valid(),
        ensures
            r == index_of(self.x as int, self.y as int, self.z as int),
            r < CHUNK_VOLUME,
    {
        proof {
            lemma_index_round_trip(self.x as int, self.y as int, self.z as int);
        }
        (self.y as usize) * (CHUNK_SIZE * CHUNK_SIZE) + (self.z as usize) * CHUNK_SIZE + (self.x as usize)
    }

    /// Whether the position lies inside a chunk's extent.
    pub fn is_valid(&self) -> (r: bool)
        ensures
            r == self.spec_is_valid(),
    {
        self.x >= 0 && self.y >= 0 && self.z >= 0 && self.x < CHUNK_SIZE_I32 && self.y
            < CHUNK_SIZE_I32 && self.z < CHUNK_SIZE_I32
    }
}

} // verus!
