//! Which voxels the caves hollow out.

use vstd::prelude::*;
use crate::map::generator::biome::Biome;
use super::biome_map::BiomeMap;
use super::noise_volume::NoiseVolume;
use super::utils::{Noise2D, Noise3D};

verus! {

/// A voxel is hollowed out where its cave sample is below this many
/// thousandths.
pub const CAVE_PROBABILITY: u16 = 300;

/// Whether a cave sample hollows a voxel out.
pub open spec fn carves(density: u16) -> bool {
    density < CAVE_PROBABILITY
}

/// Tells for every voxel of a chunk column whether a cave runs through it.
/// The sample of a voxel is the mean of the two cave noises there. No cave
/// runs under open water.
pub struct CaveMap<'a> {
    density: NoiseVolume,
    biome_map: &'a BiomeMap<'a>,
}

impl<'a> CaveMap<'a> {
    /// The cave samples.
    pub closed spec fn density(&self) -> NoiseVolume {
        self.density
    }

    /// The biomes.
    pub closed spec fn biome_map(&self) -> BiomeMap<'a> {
        *self.biome_map
    }

    /// Whether two cave maps hold the same samples.
    pub open spec fn same_samples(&self, other: &CaveMap) -> bool {
        &&& self.density()@ == other.density()@
        &&& self.biome_map().same_samples(&other.biome_map())
    }

    pub fn new(density: NoiseVolume, biome_map: &'a BiomeMap<'a>) -> (r: CaveMap<'a>)
        ensures
            r.density() == density,
            r.biome_map() == *biome_map,
    {
        CaveMap { density, biome_map }
    }
}

impl<'a> Noise3D<bool> for CaveMap<'a> {
    open spec fn sample(&self, x: int, y: int, z: int) -> bool {
        !self.biome_map().sample(x, z).spec_is_ocean() && carves(self.density().density(x, y, z))
    }

    fn get(&self, x: i32, y: i32, z: i32) -> (r: bool) {
        let biome = self.biome_map.get(x, z);
        if biome == Biome::Ocean || biome == Biome::FrozenOcean {
            return false;
        }
        self.density.get(x, y, z) < CAVE_PROBABILITY
    }
}

} // verus!
