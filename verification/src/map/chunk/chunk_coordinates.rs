//! The grid address of a chunk.

use vstd::prelude::*;
use crate::utils::{chunk_of, fits_i32, join_axis, local_of, planar_distance_between, split_axis, axis_distance, world_of, CHUNK_SIZE, CHUNK_SIZE_I32};

verus! {

/// Where a chunk stands in the grid of chunks.
#[derive(Copy, Clone, Debug, PartialEq, Eq, Hash, Structural)]
pub struct ChunkCoordinates {
    pub x: i32,
    pub y: i32,
    pub z: i32,
}

impl ChunkCoordinates {
    pub fn new(x: i32, y: i32, z: i32) -> (r: Self)
        ensures
            r == (ChunkCoordinates { x, y, z }),
    {
        ChunkCoordinates { x, y, z }
    }

    /// Distance in the horizontal plane to the chunk column at `(x, z)`: the
    /// sum of the distances on the two axes.
    pub fn distance(&self, x: i32, z: i32) -> (r: i32)
        requires
            planar_distance_between(self.x as int, self.z as int, x as int, z as int) <= i32::MAX,
        ensures
            r == planar_distance_between(self.x as int, self.z as int, x as int, z as int),
    {
        axis_distance(self.x, x) + axis_distance(self.z, z)
    }

    /// Origin of the chunk in render space, in blocks: the chunk index times
    /// the chunk extent on each axis.
    pub fn global_pos(&self) -> (r: (i64, i64, i64))
        ensures
            r.0 == self.x * CHUNK_SIZE,
            r.1 == self.y * CHUNK_SIZE,
            r.2 == self.z * CHUNK_SIZE,
    {
        (
            (self.x as i64) * (CHUNK_SIZE_I32 as i64),
            (self.y as i64) * (CHUNK_SIZE_I32 as i64),
            (self.z as i64) * (CHUNK_SIZE_I32 as i64),
        )
    }

    /// The chunk that owns the world block `(x, y, z)`, and the block's place
    /// inside that chunk.
    pub fn from_global_block_pos(x: i32, y: i32, z: i32) -> (r: (Self, i32, i32, i32))
        ensures
            r.0.x == chunk_of(x as int, CHUNK_SIZE as int),
            r.0.y == chunk_of(y as int, CHUNK_SIZE as int),
            r.0.z == chunk_of(z as int, CHUNK_SIZE as int),
            r.1 == local_of(x as int, CHUNK_SIZE as int),
            r.2 == local_of(y as int, CHUNK_SIZE as int),
            r.3 == local_of(z as int, CHUNK_SIZE as int),
    {
        let (ch_x, bx) = Self::from_global_block_pos_axis(x, CHUNK_SIZE_I32);
        let (ch_y, by) = Self::from_global_block_pos_axis(y, CHUNK_SIZE_I32);
        let (ch_z, bz) = Self::from_global_block_pos_axis(z, CHUNK_SIZE_I32);
        (ChunkCoordinates::new(ch_x, ch_y, ch_z), bx, by, bz)
    }

    /// Chunk index and local offset of the world coordinate `x`, on an axis
    /// whose chunks are `size` blocks long.
    pub fn from_global_block_pos_axis(x: i32, size: i32) -> (r: (i32, i32))
        requires
            size > 0,
        ensures
            r.0 == chunk_of(x as int, size as int),
            r.1 == local_of(x as int, size as int),
    {
        split_axis(x, size)
    }

    /// World position of the block at offset `(dx, dy, dz)` from the chunk's
    /// first block.
    pub fn get_global_block_pos(&self, dx: i32, dy: i32, dz: i32) -> (r: (i32, i32, i32))
        requires
            fits_i32(world_of(self.x as int, dx as int, CHUNK_SIZE as int)),
            fits_i32(world_of(self.y as int, dy as int, CHUNK_SIZE as int)),
            fits_i32(world_of(self.z as int, dz as int, CHUNK_SIZE as int)),
        ensures
            r.0 == world_of(self.x as int, dx as int, CHUNK_SIZE as int),
            r.1 == world_of(self.y as int, dy as int, CHUNK_SIZE as int),
            r.2 == world_of(self.z as int, dz as int, CHUNK_SIZE as int),
    {
        (join_axis(self.x, dx), join_axis(self.y, dy), join_axis(self.z, dz))
    }
}

} // verus!
