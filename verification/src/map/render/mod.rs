//! From voxels to what is drawn.

pub mod chunk_coordinates;
pub mod culled_chunk_mesher;
pub mod static_voxel_render;

use vstd::prelude::*;
use crate::map::chunk::block_type::lemma_groups_partition;
use crate::map::chunk::{Block, BlockKind, BlockType, Chunk};
use crate::utils::{position_of, CHUNK_VOLUME};

verus! {

/// A group of blocks that can be drawn or left out.
#[derive(Copy, Clone, Debug, PartialEq, Eq, Hash, Structural)]
pub enum BlockFilter {
    Stone,
    Topping,
    Resources,
    Water,
}

/// A choice among the groups of [`BlockFilter`].
#[derive(Copy, Clone, Debug, PartialEq, Eq, Hash, Structural)]
pub struct BlockFilters {
    pub stone: bool,
    pub topping: bool,
    pub resources: bool,
    pub water: bool,
}

impl BlockFilters {
    /// Whether `filter` is among the chosen groups.
    pub open spec fn spec_contains(self, filter: BlockFilter) -> bool {
        match filter {
            BlockFilter::Stone => self.stone,
            BlockFilter::Topping => self.topping,
            BlockFilter::Resources => self.resources,
            BlockFilter::Water => self.water,
        }
    }

    /// Whether `filter` is among the chosen groups.
    pub fn contains(&self, filter: BlockFilter) -> (r: bool)
        ensures
            r == self.spec_contains(filter),
    {
        match filter {
            BlockFilter::Stone => self.stone,
            BlockFilter::Topping => self.topping,
            BlockFilter::Resources => self.resources,
            BlockFilter::Water => self.water,
        }
    }
}

impl Default for BlockFilters {
    /// Every group is drawn.
    fn default() -> (r: BlockFilters)
        ensures
            r == (BlockFilters { stone: true, topping: true, resources: true, water: true }),
    {
        BlockFilters { stone: true, topping: true, resources: true, water: true }
    }
}

/// The group that a block type is drawn with.
pub open spec fn filter_of(block: BlockType) -> BlockFilter {
    match block {
        BlockType::Water => BlockFilter::Water,
        BlockType::Ice => BlockFilter::Topping,
        BlockType::Dirt => BlockFilter::Topping,
        BlockType::ForestDirt => BlockFilter::Topping,
        BlockType::Sand => BlockFilter::Topping,
        BlockType::Stone => BlockFilter::Stone,
        BlockType::Unbreakable => BlockFilter::Stone,
        BlockType::Iron => BlockFilter::Resources,
        BlockType::Copper => BlockFilter::Resources,
        BlockType::Coal => BlockFilter::Resources,
    }
}

/// Whether a block of type `block` is drawn under `filter`: its group is
/// among the chosen ones.
pub fn should_render_block(block: &BlockType, filter: BlockFilters) -> (r: bool)
    ensures
        r == filter.spec_contains(filter_of(*block)),
{
    proof {
        lemma_groups_partition(*block);
    }
    if filter.contains(BlockFilter::Water) && BlockKind::fluid().contains(block) {
        return true;
    }
    if filter.contains(BlockFilter::Topping) && BlockKind::topping().contains(block) {
        return true;
    }
    if filter.contains(BlockFilter::Stone) && BlockKind::crust().contains(block) {
        return true;
    }
    if filter.contains(BlockFilter::Resources) && BlockKind::resources().contains(block) {
        return true;
    }
    false
}

/// The blocks among the first `voxels` voxels that are drawn under `filter`,
/// in linear index order, each as the pair of its index and its type.
pub open spec fn rendered_blocks(cells: Seq<Option<Block>>, filter: BlockFilters, voxels: int) -> Seq<
    (int, BlockType),
>
    decreases voxels,
{
    if voxels <= 0 {
        Seq::empty()
    } else {
        let before = rendered_blocks(cells, filter, voxels - 1);
        match cells[voxels - 1] {
            Some(block) => if filter.spec_contains(filter_of(block.block_type)) {
                before.push((voxels - 1, block.block_type))
            } else {
                before
            },
            None => before,
        }
    }
}

/// The blocks of `chunk` that are drawn under `filter`, each with its
/// position, in linear index order.
pub fn blocks_to_render(chunk: &Chunk, filter: BlockFilters) -> (r: Vec<((i32, i32, i32), BlockType)>)
    requires
        chunk.wf(),
    ensures
        r@.len() == rendered_blocks(chunk@, filter, CHUNK_VOLUME as int).len(),
        forall|i: int|
            0 <= i < r@.len() ==> {
                let drawn = rendered_blocks(chunk@, filter, CHUNK_VOLUME as int)[i];
                &&& (#[trigger] r@[i]).1 == drawn.1
                &&& (r@[i].0.0 as int, r@[i].0.1 as int, r@[i].0.2 as int) == position_of(drawn.0)
            },
{
    let cells = chunk.iter_with_pos();
    let mut blocks: Vec<((i32, i32, i32), BlockType)> = Vec::new();
    let mut voxel: usize = 0;
    while voxel < CHUNK_VOLUME
        invariant
            voxel <= CHUNK_VOLUME,
            cells@.len() == CHUNK_VOLUME,
            forall|i: int|
                0 <= i < CHUNK_VOLUME ==> {
                    &&& (cells@[i].0.0 as int, cells@[i].0.1 as int, cells@[i].0.2 as int)
                        == #[trigger] position_of(i)
                    &&& cells@[i].1 == chunk@[i]
                },
            blocks@.len() == rendered_blocks(chunk@, filter, voxel as int).len(),
            forall|i: int|
                0 <= i < blocks@.len() ==> {
                    let drawn = rendered_blocks(chunk@, filter, voxel as int)[i];
                    &&& (#[trigger] blocks@[i]).1 == drawn.1
                    &&& (blocks@[i].0.0 as int, blocks@[i].0.1 as int, blocks@[i].0.2 as int) == position_of(
                        drawn.0,
                    )
                },
        decreases CHUNK_VOLUME - voxel,
    {
        let (pos, cell) = cells[voxel];
        assert(position_of(voxel as int) == (pos.0 as int, pos.1 as int, pos.2 as int));
        match cell {
            Some(block) => {
                if should_render_block(&block.block_type, filter) {
                    blocks.push((pos, block.block_type));
                }
            },
            None => {},
        }
        voxel += 1;
    }
    blocks
}

} // verus!
