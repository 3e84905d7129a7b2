//! Terrain generation: from the noise layers of a chunk column to the voxels
//! of its chunks.

pub mod biome;
pub mod noise_maps;

use vstd::prelude::*;
use crate::map::chunk::{Block, BlockType, Chunk};
use crate::utils::{in_chunk, index_of, lemma_index_bijection, lemma_index_round_trip, position_of, CHUNK_SIZE, CHUNK_SIZE_I32, CHUNK_VOLUME};
use biome::Biome;
use noise_maps::{BiomeMap, CaveMap, HeightMap, Noise2D, Noise3D, ResourceMap, ToppingMap};

verus! {

/// Number of chunks that stand on one another in a chunk column.
pub const CHUNKS_PER_COLUMN: usize = 8;

/// How far below the surface the ice of a frozen ocean reaches.
pub const ICE_CRUST: u8 = 2;

/// What the seed of the terrain height is moved by for the temperature.
pub const TEMPERATURE_SEED_SHIFT: u32 = 100;

/// What the seed is moved by for the covering noises.
pub const TOPPING_SEED_SHIFT: u32 = 200;

/// What the seed is moved by for the second cave noise.
pub const CAVE_SEED_SHIFT: u32 = 758;

/// What the seed is moved by for the copper noise.
pub const COPPER_SEED_SHIFT: u32 = 9865;

/// What the seed is moved by for the coal noise.
pub const COAL_SEED_SHIFT: u32 = 452;

/// The seed of every noise layer.
#[derive(Copy, Clone, Debug, PartialEq, Eq, Structural)]
pub struct LayerSeeds {
    pub height: u32,
    pub temperature: u32,
    pub topping: u32,
    pub cave_first: u32,
    pub cave_second: u32,
    pub iron: u32,
    pub copper: u32,
    pub coal: u32,
}

/// The world seed moved by `shift`, which may be negative, wrapping round at
/// the ends of the 32-bit range.
pub open spec fn shifted_seed(seed: u32, shift: int) -> u32 {
    let moved = seed + shift;
    if moved < 0 {
        (moved + 0x1_0000_0000) as u32
    } else if moved > u32::MAX {
        (moved - 0x1_0000_0000) as u32
    } else {
        moved as u32
    }
}

/// The block that covers a column of the given biome at world height `wy`,
/// where the covering ends below `top`. A frozen ocean is ice down to
/// [`ICE_CRUST`] blocks under its surface and water below.
pub open spec fn topping_block(biome: Biome, wy: int, top: int) -> BlockType {
    match biome {
        Biome::Tundra => BlockType::Ice,
        Biome::Plains => BlockType::Dirt,
        Biome::Forest => BlockType::ForestDirt,
        Biome::Desert => BlockType::Sand,
        Biome::Mountain => BlockType::Stone,
        Biome::IcePike => BlockType::Ice,
        Biome::FrozenOcean => if wy < top - ICE_CRUST {
            BlockType::Water
        } else {
            BlockType::Ice
        },
        Biome::Ocean => BlockType::Water,
    }
}

/// What stands at world height `wy` in a column whose ground ends below
/// `height` and whose covering ends below `top`: bedrock at the very bottom;
/// in the ground, `filler` unless a cave is `carved`; in the covering, the
/// biome's block, which a cave hollows out except under open water; air
/// above.
pub open spec fn voxel_of(
    height: u8,
    top: u8,
    biome: Biome,
    carved: bool,
    filler: BlockType,
    wy: int,
) -> Option<Block> {
    if wy == 0 {
        Some(Block { block_type: BlockType::Unbreakable })
    } else if wy < height {
        if carved {
            None
        } else {
            Some(Block { block_type: filler })
        }
    } else if wy < top {
        if !biome.spec_is_ocean() && carved {
            None
        } else {
            Some(Block { block_type: topping_block(biome, wy, top as int) })
        }
    } else {
        None
    }
}

/// What the five layers put at the column `(x, z)` and the world height
/// `wy`.
pub open spec fn terrain_block(
    base_heights: HeightMap,
    biome_map: BiomeMap,
    topping_map: ToppingMap,
    cave_map: CaveMap,
    resource_map: ResourceMap,
    x: int,
    wy: int,
    z: int,
) -> Option<Block> {
    voxel_of(
        base_heights.sample(x, z),
        topping_map.sample(x, z),
        biome_map.sample(x, z),
        cave_map.sample(x, wy, z),
        resource_map.sample(x, wy, z),
        wy,
    )
}

/// What the five layers put at linear index `i` of the chunk number `ch_y`
/// of the column, counted from the bottom.
pub open spec fn chunk_voxel(
    base_heights: HeightMap,
    biome_map: BiomeMap,
    topping_map: ToppingMap,
    cave_map: CaveMap,
    resource_map: ResourceMap,
    ch_y: int,
    i: int,
) -> Option<Block> {
    let p = position_of(i);
    terrain_block(
        base_heights,
        biome_map,
        topping_map,
        cave_map,
        resource_map,
        p.0,
        ch_y * CHUNK_SIZE + p.1,
        p.2,
    )
}

/// The voxels of the chunk number `ch_y` of the column, as the five layers
/// give them.
pub open spec fn generated(
    base_heights: HeightMap,
    biome_map: BiomeMap,
    topping_map: ToppingMap,
    cave_map: CaveMap,
    resource_map: ResourceMap,
    ch_y: int,
) -> Seq<Option<Block>> {
    Seq::new(
        CHUNK_VOLUME as nat,
        |i: int| chunk_voxel(base_heights, biome_map, topping_map, cave_map, resource_map, ch_y, i),
    )
}

/// The terrain is made of the samples and of nothing else: layers that hold
/// the same samples give the same voxels, whenever and wherever they were
/// built.
pub proof fn lemma_same_samples_same_terrain(
    base_heights: HeightMap,
    biome_map: BiomeMap,
    topping_map: ToppingMap,
    cave_map: CaveMap,
    resource_map: ResourceMap,
    other_base_heights: HeightMap,
    other_biome_map: BiomeMap,
    other_topping_map: ToppingMap,
    other_cave_map: CaveMap,
    other_resource_map: ResourceMap,
    ch_y: int,
)
    requires
        base_heights@ == other_base_heights@,
        biome_map.same_samples(&other_biome_map),
        topping_map.same_samples(&other_topping_map),
        cave_map.same_samples(&other_cave_map),
        resource_map.same_samples(&other_resource_map),
    ensures
        generated(base_heights, biome_map, topping_map, cave_map, resource_map, ch_y) == generated(
            other_base_heights,
            other_biome_map,
            other_topping_map,
            other_cave_map,
            other_resource_map,
            ch_y,
        ),
{
    assert(generated(base_heights, biome_map, topping_map, cave_map, resource_map, ch_y) =~= generated(
        other_base_heights,
        other_biome_map,
        other_topping_map,
        other_cave_map,
        other_resource_map,
        ch_y,
    ));
}

/// Whether the generator, which goes through the chunk row by row and
/// column by column from the bottom up, has dealt with position `p` when it
/// stands at `(x, y, z)`.
spec fn filled(p: (int, int, int), x: int, y: int, z: int) -> bool {
    p.2 < z || (p.2 == z && (p.0 < x || (p.0 == x && p.1 < y)))
}

/// What the generator keeps while it stands at `(x, y, z)`: the voxels that
/// it has dealt with are what the layers give, and the others are air.
spec fn filled_up_to(
    cells: Seq<Option<Block>>,
    base_heights: HeightMap,
    biome_map: BiomeMap,
    topping_map: ToppingMap,
    cave_map: CaveMap,
    resource_map: ResourceMap,
    ch_y: int,
    x: int,
    y: int,
    z: int,
) -> bool {
    forall|j: int|
        0 <= j < CHUNK_VOLUME ==> #[trigger] cells[j] == if filled(position_of(j), x, y, z) {
            chunk_voxel(base_heights, biome_map, topping_map, cave_map, resource_map, ch_y, j)
        } else {
            None
        }
}

/// Writing the voxel at `(x, y, z)` takes the generator one step up.
proof fn lemma_fill_voxel(
    before: Seq<Option<Block>>,
    after: Seq<Option<Block>>,
    base_heights: HeightMap,
    biome_map: BiomeMap,
    topping_map: ToppingMap,
    cave_map: CaveMap,
    resource_map: ResourceMap,
    ch_y: int,
    x: int,
    y: int,
    z: int,
)
    requires
        in_chunk(x, y, z),
        before.len() == CHUNK_VOLUME,
        filled_up_to(before, base_heights, biome_map, topping_map, cave_map, resource_map, ch_y, x, y, z),
        after == before.update(
            index_of(x, y, z),
            chunk_voxel(base_heights, biome_map, topping_map, cave_map, resource_map, ch_y, index_of(x, y, z)),
        ),
    ensures
        filled_up_to(after, base_heights, biome_map, topping_map, cave_map, resource_map, ch_y, x, y + 1, z),
{
    lemma_index_round_trip(x, y, z);
    lemma_index_bijection();
}

/// A column is done when the generator has reached the top of the chunk or
/// the air above the column's surface.
proof fn lemma_fill_column(
    cells: Seq<Option<Block>>,
    base_heights: HeightMap,
    biome_map: BiomeMap,
    topping_map: ToppingMap,
    cave_map: CaveMap,
    resource_map: ResourceMap,
    ch_y: int,
    x: int,
    y: int,
    z: int,
)
    requires
        0 <= x < CHUNK_SIZE,
        0 <= y <= CHUNK_SIZE,
        0 <= z < CHUNK_SIZE,
        filled_up_to(cells, base_heights, biome_map, topping_map, cave_map, resource_map, ch_y, x, y, z),
        y == CHUNK_SIZE || {
            &&& ch_y * CHUNK_SIZE + y >= 1
            &&& ch_y * CHUNK_SIZE + y >= base_heights.sample(x, z)
            &&& ch_y * CHUNK_SIZE + y >= topping_map.sample(x, z)
        },
    ensures
        filled_up_to(cells, base_heights, biome_map, topping_map, cave_map, resource_map, ch_y, x + 1, 0, z),
{
    lemma_index_bijection();
}

/// A row is done with its last column, and the chunk with its last row.
proof fn lemma_fill_row(
    cells: Seq<Option<Block>>,
    base_heights: HeightMap,
    biome_map: BiomeMap,
    topping_map: ToppingMap,
    cave_map: CaveMap,
    resource_map: ResourceMap,
    ch_y: int,
    z: int,
)
    requires
        cells.len() == CHUNK_VOLUME,
        filled_up_to(
            cells,
            base_heights,
            biome_map,
            topping_map,
            cave_map,
            resource_map,
            ch_y,
            CHUNK_SIZE as int,
            0,
            z,
        ),
    ensures
        filled_up_to(cells, base_heights, biome_map, topping_map, cave_map, resource_map, ch_y, 0, 0, z + 1),
        z + 1 == CHUNK_SIZE ==> cells == generated(
            base_heights,
            biome_map,
            topping_map,
            cave_map,
            resource_map,
            ch_y,
        ),
{
    lemma_index_bijection();
    if z + 1 == CHUNK_SIZE {
        assert(cells =~= generated(base_heights, biome_map, topping_map, cave_map, resource_map, ch_y));
    }
}

/// The block at world height `wy` of a column, from what the layers say of
/// the column and of that place in it.
pub fn column_voxel(height: u8, top: u8, biome: Biome, carved: bool, filler: BlockType, wy: i64) -> (r:
    Option<Block>)
    ensures
        r == voxel_of(height, top, biome, carved, filler, wy as int),
{
    if wy == 0 {
        Some(Block { block_type: BlockType::Unbreakable })
    } else if wy < height as i64 {
        if carved {
            None
        } else {
            Some(Block { block_type: filler })
        }
    } else if wy < top as i64 {
        if biome != Biome::Ocean && biome != Biome::FrozenOcean && carved {
            return None;
        }
        let mut block = match biome {
            Biome::Tundra => BlockType::Ice,
            Biome::Plains => BlockType::Dirt,
            Biome::Forest => BlockType::ForestDirt,
            Biome::Desert => BlockType::Sand,
            Biome::Mountain => BlockType::Stone,
            Biome::IcePike => BlockType::Ice,
            Biome::FrozenOcean => BlockType::Ice,
            Biome::Ocean => BlockType::Water,
        };
        if block == BlockType::Ice && biome == Biome::FrozenOcean && wy < top as i64 - ICE_CRUST as i64 {
            block = BlockType::Water;
        }
        Some(Block { block_type: block })
    } else {
        None
    }
}

/// Makes terrain from a world seed.
pub struct Generator {
    pub seed: u32,
}

impl Generator {
    /// The seed of every noise layer: the world seed, moved by the layer's
    /// own shift.
    pub fn layer_seeds(&self) -> (r: LayerSeeds)
        ensures
            r.height == self.seed,
            r.temperature == shifted_seed(self.seed, -TEMPERATURE_SEED_SHIFT),
            r.topping == shifted_seed(self.seed, -TOPPING_SEED_SHIFT),
            r.cave_first == self.seed,
            r.cave_second == shifted_seed(self.seed, -CAVE_SEED_SHIFT),
            r.iron == self.seed,
            r.copper == shifted_seed(self.seed, COPPER_SEED_SHIFT as int),
            r.coal == shifted_seed(self.seed, COAL_SEED_SHIFT as int),
    {
        LayerSeeds {
            height: self.seed,
            temperature: self.seed.wrapping_sub(TEMPERATURE_SEED_SHIFT),
            topping: self.seed.wrapping_sub(TOPPING_SEED_SHIFT),
            cave_first: self.seed,
            cave_second: self.seed.wrapping_sub(CAVE_SEED_SHIFT),
            iron: self.seed,
            copper: self.seed.wrapping_add(COPPER_SEED_SHIFT),
            coal: self.seed.wrapping_add(COAL_SEED_SHIFT),
        }
    }

    /// The chunks of one chunk column, from the bottom up.
    pub fn get_chunk_column(
        &self,
        base_heights: &HeightMap,
        biome_map: &BiomeMap,
        topping_map: &ToppingMap,
        cave_map: &CaveMap,
        resource_map: &ResourceMap,
    ) -> (r: Vec<Chunk>)
        ensures
            r@.len() == CHUNKS_PER_COLUMN,
            forall|ch_y: int|
                0 <= ch_y < CHUNKS_PER_COLUMN ==> {
                    &&& (#[trigger] r@[ch_y]).wf()
                    &&& !r@[ch_y].spec_is_updated()
                    &&& r@[ch_y]@ == generated(
                        *base_heights,
                        *biome_map,
                        *topping_map,
                        *cave_map,
                        *resource_map,
                        ch_y,
                    )
                },
    {
        let mut chunk_column: Vec<Chunk> = Vec::with_capacity(CHUNKS_PER_COLUMN);
        let mut ch_y: usize = 0;
        while ch_y < CHUNKS_PER_COLUMN
            invariant
                ch_y <= CHUNKS_PER_COLUMN,
                chunk_column@.len() == ch_y,
                forall|below: int|
                    0 <= below < ch_y ==> {
                        &&& (#[trigger] chunk_column@[below]).wf()
                        &&& !chunk_column@[below].spec_is_updated()
                        &&& chunk_column@[below]@ == generated(
                            *base_heights,
                            *biome_map,
                            *topping_map,
                            *cave_map,
                            *resource_map,
                            below,
                        )
                    },
            decreases CHUNKS_PER_COLUMN - ch_y,
        {
            let chunk = self.get_chunk(
                ch_y as i32,
                base_heights,
                biome_map,
                topping_map,
                cave_map,
                resource_map,
            );
            chunk_column.push(chunk);
            ch_y += 1;
        }
        chunk_column
    }

    /// The chunk number `ch_y` of a chunk column, counted from the bottom of
    /// the map. Below the map the ground goes on; above it there is air.
    pub fn get_chunk(
        &self,
        ch_y: i32,
        base_heights: &HeightMap,
        biome_map: &BiomeMap,
        topping_map: &ToppingMap,
        cave_map: &CaveMap,
        resource_map: &ResourceMap,
    ) -> (chunk: Chunk)
        ensures
            chunk.wf(),
            !chunk.spec_is_updated(),
            chunk@ == generated(
                *base_heights,
                *biome_map,
                *topping_map,
                *cave_map,
                *resource_map,
                ch_y as int,
            ),
    {
        let mut chunk = Chunk::new();
        let min_y: i64 = (ch_y as i64) * (CHUNK_SIZE_I32 as i64);
        let ghost base = *base_heights;
        let ghost biomes = *biome_map;
        let ghost topping = *topping_map;
        let ghost caves = *cave_map;
        let ghost ores = *resource_map;
        let mut z: i32 = 0;
        while z < CHUNK_SIZE_I32
            invariant
                0 <= z <= CHUNK_SIZE,
                min_y == ch_y * CHUNK_SIZE,
                base == *base_heights && biomes == *biome_map && topping == *topping_map,
                caves == *cave_map && ores == *resource_map,
                chunk.wf(),
                !chunk.spec_is_updated(),
                filled_up_to(chunk@, base, biomes, topping, caves, ores, ch_y as int, 0, 0, z as int),
                z == CHUNK_SIZE ==> chunk@ == generated(base, biomes, topping, caves, ores, ch_y as int),
            decreases CHUNK_SIZE - z,
        {
            let mut x: i32 = 0;
            while x < CHUNK_SIZE_I32
                invariant
                    0 <= z < CHUNK_SIZE,
                    0 <= x <= CHUNK_SIZE,
                    min_y == ch_y * CHUNK_SIZE,
                    base == *base_heights && biomes == *biome_map && topping == *topping_map,
                    caves == *cave_map && ores == *resource_map,
                    chunk.wf(),
                    !chunk.spec_is_updated(),
                    filled_up_to(chunk@, base, biomes, topping, caves, ores, ch_y as int, x as int, 0, z as int),
                decreases CHUNK_SIZE - x,
            {
                let height = base_heights.get(x, z);
                let biome = biome_map.get(x, z);
                let top = topping_map.get(x, z);
                let ground: i64 = if height > top {
                    height as i64
                } else {
                    top as i64
                };
                let ceiling: i64 = if ground < 1 {
                    1
                } else {
                    ground
                };
                let mut y: i32 = 0;
                while y < CHUNK_SIZE_I32 && (y as i64) + min_y < ceiling
                    invariant
                        0 <= z < CHUNK_SIZE,
                        0 <= x < CHUNK_SIZE,
                        0 <= y <= CHUNK_SIZE,
                        min_y == ch_y * CHUNK_SIZE,
                        1 <= ceiling <= 255,
                        height <= ceiling && top <= ceiling,
                        base == *base_heights && biomes == *biome_map && topping == *topping_map,
                        caves == *cave_map && ores == *resource_map,
                        height == base.sample(x as int, z as int),
                        biome == biomes.sample(x as int, z as int),
                        top == topping.sample(x as int, z as int),
                        chunk.wf(),
                        !chunk.spec_is_updated(),
                        filled_up_to(
                            chunk@,
                            base,
                            biomes,
                            topping,
                            caves,
                            ores,
                            ch_y as int,
                            x as int,
                            y as int,
                            z as int,
                        ),
                    decreases CHUNK_SIZE - y,
                {
                    let wy: i64 = (y as i64) + min_y;
                    let carved = if 0 <= wy {
                        cave_map.get(x, wy as i32, z)
                    } else {
                        false
                    };
                    let filler = if 0 <= wy {
                        resource_map.get(x, wy as i32, z)
                    } else {
                        BlockType::Stone
                    };
                    let voxel = column_voxel(height, top, biome, carved, filler, wy);
                    let ghost before = chunk@;
                    let ghost place = index_of(x as int, y as int, z as int);
                    proof {
                        lemma_index_round_trip(x as int, y as int, z as int);
                        assert(before[place] is None);
                        assert(voxel == chunk_voxel(base, biomes, topping, caves, ores, ch_y as int, place));
                    }
                    match voxel {
                        Some(block) => {
                            chunk.spawn_block_unchecked(x, y, z, block.block_type);
                        },
                        None => {
                            assert(before =~= before.update(place, None));
                        },
                    }
                    proof {
                        lemma_fill_voxel(
                            before,
                            chunk@,
                            base,
                            biomes,
                            topping,
                            caves,
                            ores,
                            ch_y as int,
                            x as int,
                            y as int,
                            z as int,
                        );
                    }
                    y += 1;
                }
                proof {
                    lemma_fill_column(
                        chunk@,
                        base,
                        biomes,
                        topping,
                        caves,
                        ores,
                        ch_y as int,
                        x as int,
                        y as int,
                        z as int,
                    );
                }
                x += 1;
            }
            proof {
                lemma_fill_row(chunk@, base, biomes, topping, caves, ores, ch_y as int, z as int);
            }
            z += 1;
        }
        chunk
    }
}

} // verus!
