//! The height up to which each column is covered.

use vstd::prelude::*;
use crate::map::generator::biome::{Biome, OCEAN_HEIGHT};
use crate::utils::CHUNK_SIZE;
use super::biome_map::BiomeMap;
use super::height_map::{HeightMap, CHUNK_AREA};
use super::utils::{in_area, Noise2D};

verus! {

/// How many levels of covering noise make one block of covering.
pub const TOPPING_SCALE: u8 = 40;

/// How far the covering reaches above the ground at the least, where there
/// is one.
pub const TOPPING_DEPTH: u8 = 2;

/// How far the open sea stands above the ocean height.
pub const SEA_DEPTH: u8 = 3;

/// The height up to which a column is covered, from its biome, the height of
/// its ground and the three covering noises. Tundra and forest share one
/// noise, desert and plains another, mountain and ice pike a third; the
/// oceans go by the ocean height, not by the ground.
pub open spec fn surface(biome: Biome, height: u8, desert: u8, forest: u8, mountain: u8) -> int {
    match biome {
        Biome::Tundra => height + forest / TOPPING_SCALE + TOPPING_DEPTH,
        Biome::Plains => height + desert / TOPPING_SCALE + TOPPING_DEPTH,
        Biome::Forest => height + forest / TOPPING_SCALE + TOPPING_DEPTH,
        Biome::Desert => height + desert / TOPPING_SCALE + TOPPING_DEPTH,
        Biome::Mountain => height + mountain / TOPPING_SCALE,
        Biome::IcePike => height + mountain / TOPPING_SCALE,
        Biome::FrozenOcean => OCEAN_HEIGHT + desert / TOPPING_SCALE + TOPPING_DEPTH,
        Biome::Ocean => OCEAN_HEIGHT + SEA_DEPTH,
    }
}

/// The surface of the column `(x, z)` as the five layers give it.
pub open spec fn column_surface(
    desert_noise: HeightMap,
    forest_noise: HeightMap,
    mountain_noise: HeightMap,
    height_map: HeightMap,
    biome_map: BiomeMap,
    x: int,
    z: int,
) -> int {
    surface(
        biome_map.sample(x, z),
        height_map.level(x, z),
        desert_noise.level(x, z),
        forest_noise.level(x, z),
        mountain_noise.level(x, z),
    )
}

/// Whether the surface of every column of the chunk can be held in a byte.
pub open spec fn surfaces_fit(
    desert_noise: HeightMap,
    forest_noise: HeightMap,
    mountain_noise: HeightMap,
    height_map: HeightMap,
    biome_map: BiomeMap,
) -> bool {
    forall|x: int, z: int|
        in_area(x, z) ==> #[trigger] column_surface(
            desert_noise,
            forest_noise,
            mountain_noise,
            height_map,
            biome_map,
            x,
            z,
        ) <= u8::MAX
}

fn surface_height(biome: Biome, height: u8, desert: u8, forest: u8, mountain: u8) -> (r: u16)
    ensures
        r == surface(biome, height, desert, forest, mountain),
{
    let height = height as u16;
    match biome {
        Biome::Tundra => height + (forest / TOPPING_SCALE) as u16 + TOPPING_DEPTH as u16,
        Biome::Plains => height + (desert / TOPPING_SCALE) as u16 + TOPPING_DEPTH as u16,
        Biome::Forest => height + (forest / TOPPING_SCALE) as u16 + TOPPING_DEPTH as u16,
        Biome::Desert => height + (desert / TOPPING_SCALE) as u16 + TOPPING_DEPTH as u16,
        Biome::Mountain => height + (mountain / TOPPING_SCALE) as u16,
        Biome::IcePike => height + (mountain / TOPPING_SCALE) as u16,
        Biome::FrozenOcean => OCEAN_HEIGHT as u16 + (desert / TOPPING_SCALE) as u16 + TOPPING_DEPTH as u16,
        Biome::Ocean => OCEAN_HEIGHT as u16 + SEA_DEPTH as u16,
    }
}

/// Tells for every column how high its covering reaches.
pub struct ToppingMap<'a> {
    desert_noise: HeightMap,
    forest_noise: HeightMap,
    mountain_noise: HeightMap,
    height_map: &'a HeightMap,
    biome_map: &'a BiomeMap<'a>,
}

impl<'a> ToppingMap<'a> {
    #[verifier::type_invariant]
    spec fn well_formed(self) -> bool {
        surfaces_fit(
            self.desert_noise,
            self.forest_noise,
            self.mountain_noise,
            *self.height_map,
            *self.biome_map,
        )
    }

    /// The covering noise of deserts and plains.
    pub closed spec fn desert_noise(&self) -> HeightMap {
        self.desert_noise
    }

    /// The covering noise of forests and tundras.
    pub closed spec fn forest_noise(&self) -> HeightMap {
        self.forest_noise
    }

    /// The covering noise of mountains and ice pikes.
    pub closed spec fn mountain_noise(&self) -> HeightMap {
        self.mountain_noise
    }

    /// The height of the ground.
    pub closed spec fn height_map(&self) -> HeightMap {
        *self.height_map
    }

    /// The biomes.
    pub closed spec fn biome_map(&self) -> BiomeMap<'a> {
        *self.biome_map
    }

    /// Whether two topping maps hold the same samples.
    pub open spec fn same_samples(&self, other: &ToppingMap) -> bool {
        &&& self.desert_noise()@ == other.desert_noise()@
        &&& self.forest_noise()@ == other.forest_noise()@
        &&& self.mountain_noise()@ == other.mountain_noise()@
        &&& self.height_map()@ == other.height_map()@
        &&& self.biome_map().same_samples(&other.biome_map())
    }

    /// The surface of the column `(x, z)`, before it is put into a byte.
    pub open spec fn surface_at(&self, x: int, z: int) -> int {
        column_surface(
            self.desert_noise(),
            self.forest_noise(),
            self.mountain_noise(),
            self.height_map(),
            self.biome_map(),
            x,
            z,
        )
    }

    /// A topping map over the given layers. There is none where the surface
    /// of some column would not fit in a byte.
    pub fn new(
        desert_noise: HeightMap,
        forest_noise: HeightMap,
        mountain_noise: HeightMap,
        height_map: &'a HeightMap,
        biome_map: &'a BiomeMap<'a>,
    ) -> (r: Option<ToppingMap<'a>>)
        ensures
            r is Some <==> surfaces_fit(desert_noise, forest_noise, mountain_noise, *height_map, *biome_map),
            r matches Some(map) ==> {
                &&& map.desert_noise() == desert_noise
                &&& map.forest_noise() == forest_noise
                &&& map.mountain_noise() == mountain_noise
                &&& map.height_map() == *height_map
                &&& map.biome_map() == *biome_map
            },
    {
        let mut i: usize = 0;
        while i < CHUNK_AREA
            invariant
                i <= CHUNK_AREA,
                forall|j: int|
                    0 <= j < i ==> #[trigger] column_surface(
                        desert_noise,
                        forest_noise,
                        mountain_noise,
                        *height_map,
                        *biome_map,
                        j % (CHUNK_SIZE as int),
                        j / (CHUNK_SIZE as int),
                    ) <= u8::MAX,
            decreases CHUNK_AREA - i,
        {
            let x = (i % CHUNK_SIZE) as i32;
            let z = (i / CHUNK_SIZE) as i32;
            let top = surface_height(
                biome_map.get(x, z),
                height_map.get(x, z),
                desert_noise.get(x, z),
                forest_noise.get(x, z),
                mountain_noise.get(x, z),
            );
            if top > 255 {
                assert(in_area(x as int, z as int));
                assert(column_surface(
                    desert_noise,
                    forest_noise,
                    mountain_noise,
                    *height_map,
                    *biome_map,
                    x as int,
                    z as int,
                ) > u8::MAX);
                return None;
            }
            i += 1;
        }
        proof {
            assert forall|x: int, z: int| in_area(x, z) implies #[trigger] column_surface(
                desert_noise,
                forest_noise,
                mountain_noise,
                *height_map,
                *biome_map,
                x,
                z,
            ) <= u8::MAX by {
                let j = z * (CHUNK_SIZE as int) + x;
                assert(j % (CHUNK_SIZE as int) == x && j / (CHUNK_SIZE as int) == z) by {
                    vstd::arithmetic::div_mod::lemma_fundamental_div_mod_converse(j, CHUNK_SIZE as int, z, x);
                }
                assert(0 <= j < CHUNK_AREA);
            }
        }
        Some(ToppingMap { desert_noise, forest_noise, mountain_noise, height_map, biome_map })
    }
}

impl<'a> Noise2D<u8> for ToppingMap<'a> {
    open spec fn sample(&self, x: int, z: int) -> u8 {
        self.surface_at(x, z) as u8
    }

    fn get(&self, x: i32, z: i32) -> (r: u8) {
        proof {
            use_type_invariant(self);
        }
        let top = surface_height(
            self.biome_map.get(x, z),
            self.height_map.get(x, z),
            self.desert_noise.get(x, z),
            self.forest_noise.get(x, z),
            self.mountain_noise.get(x, z),
        );
        proof {
            lemma_surface_fits(*self, x as int, z as int);
        }
        top as u8
    }
}

/// The surface of every column, inside the sampled area and outside it, is
/// the height that the topping map gives for it: nothing is cut off when it
/// is put into a byte.
pub proof fn lemma_surface_fits(map: ToppingMap, x: int, z: int)
    requires
        surfaces_fit(
            map.desert_noise(),
            map.forest_noise(),
            map.mountain_noise(),
            map.height_map(),
            map.biome_map(),
        ),
    ensures
        0 <= map.surface_at(x, z) <= u8::MAX,
        map.sample(x, z) == map.surface_at(x, z),
{
}

} // verus!
