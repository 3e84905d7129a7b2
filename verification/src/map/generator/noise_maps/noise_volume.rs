//! Samples of one 3D noise source over a chunk column.

use vstd::prelude::*;
use crate::utils::{CHUNK_SIZE, CHUNK_SIZE_I32};
use super::utils::{in_volume, MAP_HEIGHT, NOISE_MID};

verus! {

/// Number of voxels in a chunk column.
pub const COLUMN_VOLUME: usize = 262144;

/// One sample for every voxel of a chunk column, layer after layer of
/// constant `y`, each made of rows of constant `z`. A sample says, in
/// thousandths, how far the noise is from its lower end.
pub struct NoiseVolume {
    samples: Vec<u16>,
}

impl View for NoiseVolume {
    type V = Seq<u16>;

    closed spec fn view(&self) -> Seq<u16> {
        self.samples@
    }
}

/// Where a noise volume keeps the sample of the voxel `(x, y, z)`.
pub open spec fn volume_index(x: int, y: int, z: int) -> int {
    (y * CHUNK_SIZE + z) * CHUNK_SIZE + x
}

impl NoiseVolume {
    #[verifier::type_invariant]
    spec fn well_formed(self) -> bool {
        self.samples@.len() == COLUMN_VOLUME
    }

    /// The sample of the voxel `(x, y, z)`, or [`NOISE_MID`] outside the
    /// sampled volume.
    pub open spec fn density(&self, x: int, y: int, z: int) -> u16 {
        if in_volume(x, y, z) {
            self@[volume_index(x, y, z)]
        } else {
            NOISE_MID
        }
    }

    /// A noise volume of the given samples, which must be one for every
    /// voxel of a chunk column.
    pub fn new(samples: Vec<u16>) -> (r: Option<NoiseVolume>)
        ensures
            r is Some <==> samples@.len() == COLUMN_VOLUME,
            r matches Some(volume) ==> volume@ == samples@,
    {
        if samples.len() == COLUMN_VOLUME {
            Some(NoiseVolume { samples })
        } else {
            None
        }
    }

    pub fn get(&self, x: i32, y: i32, z: i32) -> (r: u16)
        ensures
            r == self.density(x as int, y as int, z as int),
    {
        proof {
            use_type_invariant(self);
        }
        if 0 <= x && x < CHUNK_SIZE_I32 && 0 <= z && z < CHUNK_SIZE_I32 && 0 <= y && y < MAP_HEIGHT as i32 {
            assert(volume_index(x as int, y as int, z as int) < COLUMN_VOLUME) by (nonlinear_arith)
                requires
                    0 <= x < 32,
                    0 <= z < 32,
                    0 <= y < 256,
            ;
            self.samples[((y as usize) * CHUNK_SIZE + (z as usize)) * CHUNK_SIZE + (x as usize)]
        } else {
            NOISE_MID
        }
    }
}

} // verus!
