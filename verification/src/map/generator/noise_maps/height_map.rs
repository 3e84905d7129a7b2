//! A 2D layer of height levels.

use vstd::prelude::*;
use crate::utils::{CHUNK_SIZE, CHUNK_SIZE_I32};
use super::utils::{in_area, Noise2D, FLAT_LEVEL};

verus! {

/// Number of columns in a chunk.
pub const CHUNK_AREA: usize = 1024;

/// One height level for every column of a chunk, row after row of constant
/// `z`.
pub struct HeightMap {
    samples: Vec<u8>,
}

impl View for HeightMap {
    type V = Seq<u8>;

    closed spec fn view(&self) -> Seq<u8> {
        self.samples@
    }
}

impl HeightMap {
    #[verifier::type_invariant]
    spec fn well_formed(self) -> bool {
        self.samples@.len() == CHUNK_AREA
    }

    /// The level of the column `(x, z)`: its sample, or [`FLAT_LEVEL`]
    /// outside the sampled area.
    pub open spec fn level(&self, x: int, z: int) -> u8 {
        if in_area(x, z) {
            self@[z * CHUNK_SIZE + x]
        } else {
            FLAT_LEVEL
        }
    }

    /// A height map of the given samples, which must be one for every column
    /// of a chunk.
    pub fn new(samples: Vec<u8>) -> (r: Option<HeightMap>)
        ensures
            r is Some <==> samples@.len() == CHUNK_AREA,
            r matches Some(map) ==> map@ == samples@,
    {
        if samples.len() == CHUNK_AREA {
            Some(HeightMap { samples })
        } else {
            None
        }
    }
}

impl Noise2D<u8> for HeightMap {
    open spec fn sample(&self, x: int, z: int) -> u8 {
        self.level(x, z)
    }

    fn get(&self, x: i32, z: i32) -> (r: u8) {
        proof {
            use_type_invariant(self);
        }
        let r = if 0 <= x && x < CHUNK_SIZE_I32 && 0 <= z && z < CHUNK_SIZE_I32 {
            assert(in_area(x as int, z as int));
            assert((z as usize) * CHUNK_SIZE + (x as usize) == z * CHUNK_SIZE + x);
            self.samples[(z as usize) * CHUNK_SIZE + (x as usize)]
        } else {
            FLAT_LEVEL
        };
        assert(r == self.level(x as int, z as int));
        assert(self.sample(x as int, z as int) == self.level(x as int, z as int));
        r
    }
}

} // verus!
