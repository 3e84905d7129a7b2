//! The biome of every column.

use vstd::prelude::*;
use crate::map::generator::biome::{classify, Biome};
use super::height_map::HeightMap;
use super::utils::Noise2D;

verus! {

/// Tells the biome of a column from its temperature and its height.
pub struct BiomeMap<'a> {
    temperature: HeightMap,
    height_map: &'a HeightMap,
}

impl<'a> BiomeMap<'a> {
    /// The temperature layer.
    pub closed spec fn temperature(&self) -> HeightMap {
        self.temperature
    }

    /// The height layer.
    pub closed spec fn height_map(&self) -> HeightMap {
        *self.height_map
    }

    /// Whether two biome maps hold the same samples.
    pub open spec fn same_samples(&self, other: &BiomeMap) -> bool {
        self.temperature()@ == other.temperature()@ && self.height_map()@ == other.height_map()@
    }

    pub fn new(temperature: HeightMap, height_map: &'a HeightMap) -> (r: BiomeMap<'a>)
        ensures
            r.temperature() == temperature,
            r.height_map() == *height_map,
    {
        BiomeMap { temperature, height_map }
    }
}

impl<'a> Noise2D<Biome> for BiomeMap<'a> {
    open spec fn sample(&self, x: int, z: int) -> Biome {
        classify(self.temperature().level(x, z), self.height_map().level(x, z))
    }

    fn get(&self, x: i32, z: i32) -> (r: Biome) {
        Biome::from_map(self.temperature.get(x, z), self.height_map.get(x, z))
    }
}

} // verus!
