//! The grid address of a chunk column.

use vstd::prelude::*;
use crate::utils::{axis_distance, planar_distance_between};

verus! {

/// Where a chunk column stands in the plane.
#[derive(Copy, Clone, Debug, PartialEq, Eq, Hash, Structural)]
pub struct ChunkCoordinates {
    pub x: i32,
    pub z: i32,
}

impl ChunkCoordinates {
    pub fn new(x: i32, z: i32) -> (r: Self)
        ensures
            r == (ChunkCoordinates { x, z }),
    {
        ChunkCoordinates { x, z }
    }

    /// Distance to the chunk column at `(x, z)`: the sum of the distances on
    /// the two axes.
    pub fn distance(&self, x: i32, z: i32) -> (r: i32)
        requires
            planar_distance_between(self.x as int, self.z as int, x as int, z as int) <= i32::MAX,
        ensures
            r == planar_distance_between(self.x as int, self.z as int, x as int, z as int),
    {
        axis_distance(self.x, x) + axis_distance(self.z, z)
    }
}

} // verus!
