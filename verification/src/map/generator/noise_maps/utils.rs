//! What all noise layers share.

use vstd::prelude::*;
use crate::utils::CHUNK_SIZE;

verus! {

/// Height levels that the full swing of a noise source spans.
pub const VERTICAL_SCALE: u8 = 100;

/// The height level of a column where the noise is zero. Columns outside
/// the sampled area are at this level.
pub const FLAT_LEVEL: u8 = 100;

/// Height of the map, in blocks.
pub const MAP_HEIGHT: usize = 256;

/// The value of a 3D sample whose noise is at its upper end: samples are
/// thousandths of the way from the lower end to the upper end.
pub const NOISE_UNIT: u16 = 1000;

/// The value of a 3D sample where the noise is zero. Places outside the
/// sampled volume have this value.
pub const NOISE_MID: u16 = 500;

/// Whether the column `(x, z)` lies inside a chunk's horizontal extent.
pub open spec fn in_area(x: int, z: int) -> bool {
    0 <= x < CHUNK_SIZE && 0 <= z < CHUNK_SIZE
}

/// Whether `(x, y, z)` lies inside the volume of a chunk column: a chunk's
/// horizontal extent, and the whole height of the map.
pub open spec fn in_volume(x: int, y: int, z: int) -> bool {
    in_area(x, z) && 0 <= y < MAP_HEIGHT
}

/// A layer with one value for every terrain column.
pub trait Noise2D<T> {
    /// What the layer holds for the column `(x, z)`.
    spec fn sample(&self, x: int, z: int) -> T;

    fn get(&self, x: i32, z: i32) -> (r: T)
        ensures
            r == self.sample(x as int, z as int),
    ;
}

/// A layer with one value for every voxel of a chunk column.
pub trait Noise3D<T> {
    /// What the layer holds for the voxel `(x, y, z)`, `y` counted from the
    /// bottom of the map.
    spec fn sample(&self, x: int, y: int, z: int) -> T;

    fn get(&self, x: i32, y: i32, z: i32) -> (r: T)
        ensures
            r == self.sample(x as int, y as int, z as int),
    ;
}

} // verus!
