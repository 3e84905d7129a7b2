//! One occupied voxel.

use vstd::prelude::*;
use super::block_type::BlockType;

verus! {

/// What occupies a voxel. An empty voxel holds no block.
#[derive(Copy, Clone, Debug, PartialEq, Eq, Hash, Structural)]
pub struct Block {
    pub block_type: BlockType,
}

impl vstd::std_specs::convert::FromSpecImpl<BlockType> for Block {
    open spec fn obeys_from_spec() -> bool {
        true
    }

    open spec fn from_spec(value: BlockType) -> Block {
        Block { block_type: value }
    }
}

impl From<BlockType> for Block {
    fn from(value: BlockType) -> (r: Block) {
        Block { block_type: value }
    }
}

} // verus!
