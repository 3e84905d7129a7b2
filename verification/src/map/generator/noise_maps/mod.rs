//! The noise layers that terrain is made from. Each layer holds samples that
//! were taken and quantised beforehand, and answers lookups from them alone:
//! the same samples always give the same answers.

pub mod biome_map;
pub mod cave_map;
pub mod height_map;
pub mod noise_volume;
pub mod resource_map;
pub mod topping_map;
pub mod utils;

pub use biome_map::BiomeMap;
pub use cave_map::CaveMap;
pub use height_map::HeightMap;
pub use noise_volume::NoiseVolume;
pub use resource_map::ResourceMap;
pub use topping_map::ToppingMap;
pub use utils::{Noise2D, Noise3D, FLAT_LEVEL, MAP_HEIGHT, NOISE_MID, NOISE_UNIT, VERTICAL_SCALE};
