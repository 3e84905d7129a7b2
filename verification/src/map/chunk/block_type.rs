//! The closed catalogue of block types.

use vstd::prelude::*;

verus! {

/// A display colour, as sRGB bytes.
#[derive(Copy, Clone, Debug, PartialEq, Eq, Hash, Structural)]
pub struct Rgb {
    pub r: u8,
    pub g: u8,
    pub b: u8,
}

/// What a voxel can be made of. Two block types are the same exactly when
/// their identities are.
#[derive(Copy, Clone, Debug, PartialEq, Eq, Hash, Structural)]
pub enum BlockType {
    Unbreakable,
    Stone,
    Dirt,
    Ice,
    ForestDirt,
    Water,
    Sand,
    Iron,
    Copper,
    Coal,
}

impl BlockType {
    pub const ICE: BlockType = BlockType::Ice;

    pub const STONE: BlockType = BlockType::Stone;

    pub const DIRT: BlockType = BlockType::Dirt;

    pub const FOREST_DIRT: BlockType = BlockType::ForestDirt;

    pub const WATER: BlockType = BlockType::Water;

    pub const SAND: BlockType = BlockType::Sand;

    pub const IRON: BlockType = BlockType::Iron;

    pub const COPPER: BlockType = BlockType::Copper;

    pub const COAL: BlockType = BlockType::Coal;

    pub const UNBREAKABLE: BlockType = BlockType::Unbreakable;

    /// The small integer by which a block type is known.
    pub open spec fn spec_id(self) -> usize {
        match self {
            BlockType::Unbreakable => 0,
            BlockType::Stone => 1,
            BlockType::Dirt => 2,
            BlockType::Ice => 3,
            BlockType::ForestDirt => 4,
            BlockType::Water => 5,
            BlockType::Sand => 6,
            BlockType::Iron => 7,
            BlockType::Copper => 8,
            BlockType::Coal => 9,
        }
    }

    /// The human-readable name of a block type.
    pub open spec fn spec_name(self) -> Seq<char> {
        match self {
            BlockType::Unbreakable => "Unbreakable"@,
            BlockType::Stone => "Stone"@,
            BlockType::Dirt => "Dirt"@,
            BlockType::Ice => "Ice"@,
            BlockType::ForestDirt => "ForestDirt"@,
            BlockType::Water => "Water"@,
            BlockType::Sand => "Sand"@,
            BlockType::Iron => "Iron"@,
            BlockType::Copper => "Copper"@,
            BlockType::Coal => "Coal"@,
        }
    }

    /// The colour in which a block type is drawn.
    pub open spec fn spec_color(self) -> Rgb {
        match self {
            BlockType::Unbreakable => Rgb { r: 0, g: 0, b: 0 },
            BlockType::Stone => Rgb { r: 169, g: 169, b: 169 },
            BlockType::Dirt => Rgb { r: 0, g: 128, b: 0 },
            BlockType::Ice => Rgb { r: 127, g: 255, b: 212 },
            BlockType::ForestDirt => Rgb { r: 0, g: 100, b: 0 },
            BlockType::Water => Rgb { r: 0, g: 0, b: 128 },
            BlockType::Sand => Rgb { r: 255, g: 215, b: 0 },
            BlockType::Iron => Rgb { r: 128, g: 128, b: 128 },
            BlockType::Copper => Rgb { r: 255, g: 165, b: 0 },
            BlockType::Coal => Rgb { r: 0, g: 0, b: 0 },
        }
    }

    pub fn id(&self) -> (r: usize)
        ensures
            r == self.spec_id(),
    {
        match self {
            BlockType::Unbreakable => 0,
            BlockType::Stone => 1,
            BlockType::Dirt => 2,
            BlockType::Ice => 3,
            BlockType::ForestDirt => 4,
            BlockType::Water => 5,
            BlockType::Sand => 6,
            BlockType::Iron => 7,
            BlockType::Copper => 8,
            BlockType::Coal => 9,
        }
    }

    pub fn name(&self) -> (r: &'static str)
        ensures
            r@ == self.spec_name(),
    {
        match self {
            BlockType::Unbreakable => "Unbreakable",
            BlockType::Stone => "Stone",
            BlockType::Dirt => "Dirt",
            BlockType::Ice => "Ice",
            BlockType::ForestDirt => "ForestDirt",
            BlockType::Water => "Water",
            BlockType::Sand => "Sand",
            BlockType::Iron => "Iron",
            BlockType::Copper => "Copper",
            BlockType::Coal => "Coal",
        }
    }

    pub fn color(&self) -> (r: Rgb)
        ensures
            r == self.spec_color(),
    {
        match self {
            BlockType::Unbreakable => Rgb { r: 0, g: 0, b: 0 },
            BlockType::Stone => Rgb { r: 169, g: 169, b: 169 },
            BlockType::Dirt => Rgb { r: 0, g: 128, b: 0 },
            BlockType::Ice => Rgb { r: 127, g: 255, b: 212 },
            BlockType::ForestDirt => Rgb { r: 0, g: 100, b: 0 },
            BlockType::Water => Rgb { r: 0, g: 0, b: 128 },
            BlockType::Sand => Rgb { r: 255, g: 215, b: 0 },
            BlockType::Iron => Rgb { r: 128, g: 128, b: 128 },
            BlockType::Copper => Rgb { r: 255, g: 165, b: 0 },
            BlockType::Coal => Rgb { r: 0, g: 0, b: 0 },
        }
    }
}

/// The identity tells block types apart: equal identities mean equal block
/// types.
pub proof fn lemma_id_identifies(a: BlockType, b: BlockType)
    ensures
        a == b <==> a.spec_id() == b.spec_id(),
{
}

/// A named group of block types, used to classify blocks.
pub struct BlockKind(Vec<BlockType>);

impl View for BlockKind {
    type V = Seq<BlockType>;

    closed spec fn view(&self) -> Seq<BlockType> {
        self.0@
    }
}

/// Every block type belongs to exactly one of the four groups.
pub proof fn lemma_groups_partition(block_type: BlockType)
    ensures
        BlockKind::RESOURCES@.contains(block_type) <==> block_type == BlockType::Iron || block_type
            == BlockType::Copper || block_type == BlockType::Coal,
        BlockKind::CRUST@.contains(block_type) <==> block_type == BlockType::Stone || block_type
            == BlockType::Unbreakable,
        BlockKind::TOPPING@.contains(block_type) <==> block_type == BlockType::Ice || block_type
            == BlockType::Dirt || block_type == BlockType::ForestDirt || block_type == BlockType::Sand,
        BlockKind::FLUID@.contains(block_type) <==> block_type == BlockType::Water,
{
    assert(BlockKind::RESOURCES@[0] == BlockType::Iron);
    assert(BlockKind::RESOURCES@[1] == BlockType::Copper);
    assert(BlockKind::RESOURCES@[2] == BlockType::Coal);
    assert(BlockKind::CRUST@[0] == BlockType::Stone);
    assert(BlockKind::CRUST@[1] == BlockType::Unbreakable);
    assert(BlockKind::TOPPING@[0] == BlockType::Ice);
    assert(BlockKind::TOPPING@[1] == BlockType::Dirt);
    assert(BlockKind::TOPPING@[2] == BlockType::ForestDirt);
    assert(BlockKind::TOPPING@[3] == BlockType::Sand);
    assert(BlockKind::FLUID@[0] == BlockType::Water);
}

impl BlockKind {
    /// The ores.
    pub const RESOURCES: [BlockType; 3] = [BlockType::Iron, BlockType::Copper, BlockType::Coal];

    /// What the ground below the surface is made of.
    pub const CRUST: [BlockType; 2] = [BlockType::Stone, BlockType::Unbreakable];

    /// What covers the ground.
    pub const TOPPING: [BlockType; 4] = [BlockType::Ice, BlockType::Dirt, BlockType::ForestDirt, BlockType::Sand];

    /// The liquids.
    pub const FLUID: [BlockType; 1] = [BlockType::Water];

    /// The group of the ores.
    pub fn resources() -> (r: BlockKind)
        ensures
            r@ == BlockKind::RESOURCES@,
    {
        let mut members: Vec<BlockType> = Vec::new();
        members.push(BlockType::Iron);
        members.push(BlockType::Copper);
        members.push(BlockType::Coal);
        BlockKind(members)
    }

    /// The group of what the ground below the surface is made of.
    pub fn crust() -> (r: BlockKind)
        ensures
            r@ == BlockKind::CRUST@,
    {
        let mut members: Vec<BlockType> = Vec::new();
        members.push(BlockType::Stone);
        members.push(BlockType::Unbreakable);
        BlockKind(members)
    }

    /// The group of what covers the ground.
    pub fn topping() -> (r: BlockKind)
        ensures
            r@ == BlockKind::TOPPING@,
    {
        let mut members: Vec<BlockType> = Vec::new();
        members.push(BlockType::Ice);
        members.push(BlockType::Dirt);
        members.push(BlockType::ForestDirt);
        members.push(BlockType::Sand);
        BlockKind(members)
    }

    /// The group of the liquids.
    pub fn fluid() -> (r: BlockKind)
        ensures
            r@ == BlockKind::FLUID@,
    {
        let mut members: Vec<BlockType> = Vec::new();
        members.push(BlockType::Water);
        BlockKind(members)
    }

    /// Whether `block_type` belongs to the group.
    pub fn contains(&self, block_type: &BlockType) -> (r: bool)
        ensures
            r == self@.contains(*block_type),
    {
        let mut i: usize = 0;
        while i < self.0.len()
            invariant
                i <= self.0.len(),
                forall|j: int| 0 <= j < i ==> self.0@[j] != *block_type,
            decreases self.0.len() - i,
        {
            if self.0[i] == *block_type {
                return true;
            }
            i += 1;
        }
        false
    }
}

} // verus!
