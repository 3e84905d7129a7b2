//! What the ground is made of.

use vstd::prelude::*;
use crate::map::chunk::BlockType;
use super::noise_volume::NoiseVolume;
use super::utils::Noise3D;

verus! {

/// Iron lies where its sample is below this many thousandths.
pub const IRON_PROBABILITY: u16 = 100;

/// Copper lies where its sample is below this many thousandths.
pub const COPPER_PROBABILITY: u16 = 100;

/// Coal lies where its sample is below this many thousandths.
pub const COAL_PROBABILITY: u16 = 100;

/// What a voxel of the ground is made of, from its three ore samples: the
/// first ore whose sample is below its threshold, iron before copper before
/// coal, and stone where there is none.
pub open spec fn resource(iron: u16, copper: u16, coal: u16) -> BlockType {
    if iron < IRON_PROBABILITY {
        BlockType::Iron
    } else if copper < COPPER_PROBABILITY {
        BlockType::Copper
    } else if coal < COAL_PROBABILITY {
        BlockType::Coal
    } else {
        BlockType::Stone
    }
}

/// Tells for every voxel of a chunk column which ore lies there, if any.
pub struct ResourceMap {
    iron: NoiseVolume,
    copper: NoiseVolume,
    coal: NoiseVolume,
}

impl ResourceMap {
    /// The iron noise.
    pub closed spec fn iron(&self) -> NoiseVolume {
        self.iron
    }

    /// The copper noise.
    pub closed spec fn copper(&self) -> NoiseVolume {
        self.copper
    }

    /// The coal noise.
    pub closed spec fn coal(&self) -> NoiseVolume {
        self.coal
    }

    /// Whether two resource maps hold the same samples.
    pub open spec fn same_samples(&self, other: &ResourceMap) -> bool {
        &&& self.iron()@ == other.iron()@
        &&& self.copper()@ == other.copper()@
        &&& self.coal()@ == other.coal()@
    }

    pub fn new(iron: NoiseVolume, copper: NoiseVolume, coal: NoiseVolume) -> (r: ResourceMap)
        ensures
            r.iron() == iron,
            r.copper() == copper,
            r.coal() == coal,
    {
        ResourceMap { iron, copper, coal }
    }
}

impl Noise3D<BlockType> for ResourceMap {
    open spec fn sample(&self, x: int, y: int, z: int) -> BlockType {
        resource(self.iron().density(x, y, z), self.copper().density(x, y, z), self.coal().density(x, y, z))
    }

    fn get(&self, x: i32, y: i32, z: i32) -> (r: BlockType) {
        if self.iron.get(x, y, z) < IRON_PROBABILITY {
            return BlockType::Iron;
        }
        if self.copper.get(x, y, z) < COPPER_PROBABILITY {
            return BlockType::Copper;
        }
        if self.coal.get(x, y, z) < COAL_PROBABILITY {
            return BlockType::Coal;
        }
        BlockType::Stone
    }
}

} // verus!
