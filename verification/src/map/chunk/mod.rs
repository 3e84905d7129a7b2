//! The voxel store: a dense grid of optional blocks.

pub mod block;
pub mod block_type;
pub mod chunk_coordinates;
pub mod chunk_map;

use vstd::prelude::*;
use crate::utils::{in_chunk, index_of, position_of, lemma_index_round_trip, lemma_position_round_trip, CHUNK_SIZE, CHUNK_SIZE_I32, CHUNK_VOLUME};
pub use block::Block;
pub use block_type::{BlockKind, BlockType, Rgb};
pub use chunk_map::ChunkMap;

verus! {

/// A cuboid of voxels, each empty or holding one block, together with the
/// number of blocks in it and a flag that says that it was edited.
pub struct Chunk {
    blocks: Vec<Option<Block>>,
    is_updated: bool,
    amount_of_blocks: usize,
}

/// A block was to be spawned where one already is.
#[derive(Debug, PartialEq, Eq)]
pub struct SpawnInOccupiedSpaceError();

/// A position lies outside the chunk's extent.
#[derive(Debug, PartialEq, Eq)]
pub struct PositionNotInChunkError();

/// Why a block could not be spawned.
#[derive(Debug, PartialEq, Eq)]
pub enum SpawnError {
    NotInChunk(PositionNotInChunkError),
    Occupied(SpawnInOccupiedSpaceError),
}

/// Number of voxels in `cells` that hold a block.
pub open spec fn occupied_count(cells: Seq<Option<Block>>) -> nat
    decreases cells.len(),
{
    if cells.len() == 0 {
        0
    } else {
        occupied_count(cells.drop_last()) + if cells.last() is Some {
            1nat
        } else {
            0nat
        }
    }
}

/// No more voxels are occupied than there are.
pub proof fn lemma_occupied_count_bound(cells: Seq<Option<Block>>)
    ensures
        occupied_count(cells) <= cells.len(),
    decreases cells.len(),
{
    if cells.len() > 0 {
        lemma_occupied_count_bound(cells.drop_last());
    }
}

/// Overwriting one voxel changes the count by what the voxel gains or loses:
/// one more where air becomes a block, one less where a block becomes air,
/// and no change otherwise.
pub proof fn lemma_occupied_count_update(cells: Seq<Option<Block>>, i: int, value: Option<Block>)
    requires
        0 <= i < cells.len(),
    ensures
        occupied_count(cells.update(i, value)) == occupied_count(cells) - (if cells[i] is Some {
            1int
        } else {
            0int
        }) + (if value is Some {
            1int
        } else {
            0int
        }),
    decreases cells.len(),
{
    let updated = cells.update(i, value);
    if i == cells.len() - 1 {
        assert(updated.drop_last() =~= cells.drop_last());
    } else {
        assert(updated.drop_last() =~= cells.drop_last().update(i, value));
        lemma_occupied_count_update(cells.drop_last(), i, value);
    }
}

/// Nothing is occupied where every voxel is air.
pub proof fn lemma_occupied_count_of_air(cells: Seq<Option<Block>>)
    requires
        forall|i: int| 0 <= i < cells.len() ==> cells[i] is None,
    ensures
        occupied_count(cells) == 0,
    decreases cells.len(),
{
    if cells.len() > 0 {
        lemma_occupied_count_of_air(cells.drop_last());
    }
}

impl View for Chunk {
    type V = Seq<Option<Block>>;

    /// The voxels in linear index order.
    closed spec fn view(&self) -> Seq<Option<Block>> {
        self.blocks@
    }
}

impl Chunk {
    pub const WIDTH: u8 = 32;

    pub const LENGTH: u8 = 32;

    pub const HEIGHT: u8 = 32;

    pub const SIZE: usize = 32768;

    /// The occupancy counter as stored.
    pub closed spec fn spec_amount_of_blocks(&self) -> usize {
        self.amount_of_blocks
    }

    /// Whether the chunk was edited since the flag was last reset.
    pub closed spec fn spec_is_updated(&self) -> bool {
        self.is_updated
    }

    /// A chunk is well formed when it has a voxel for every position and its
    /// occupancy counter is the number of voxels that hold a block.
    pub open spec fn wf(&self) -> bool {
        &&& self@.len() == CHUNK_VOLUME
        &&& self.spec_amount_of_blocks() == occupied_count(self@)
    }

    /// The voxel at `(x, y, z)`.
    pub open spec fn block_at(&self, x: int, y: int, z: int) -> Option<Block> {
        self@[index_of(x, y, z)]
    }

    /// A chunk of air.
    pub fn new() -> (r: Chunk)
        ensures
            r.wf(),
            forall|i: int| 0 <= i < CHUNK_VOLUME ==> r@[i] is None,
            !r.spec_is_updated(),
            r.spec_amount_of_blocks() == 0,
    {
        let mut blocks: Vec<Option<Block>> = Vec::with_capacity(CHUNK_VOLUME);
        let mut i: usize = 0;
        while i < CHUNK_VOLUME
            invariant
                i <= CHUNK_VOLUME,
                blocks@.len() == i,
                forall|j: int| 0 <= j < i ==> blocks@[j] is None,
            decreases CHUNK_VOLUME - i,
        {
            blocks.push(None);
            i += 1;
        }
        proof {
            lemma_occupied_count_of_air(blocks@);
        }
        Chunk { blocks, is_updated: false, amount_of_blocks: 0 }
    }

    /// Puts a block of type `value` at `(x, y, z)`, which the caller knows to
    /// be inside the chunk and empty. The edit flag is left as it is.
    pub fn spawn_block_unchecked(&mut self, x: i32, y: i32, z: i32, value: BlockType)
        requires
            old(self).wf(),
            in_chunk(x as int, y as int, z as int),
            old(self).block_at(x as int, y as int, z as int) is None,
        ensures
            final(self).wf(),
            final(self)@ == old(self)@.update(
                index_of(x as int, y as int, z as int),
                Some(Block { block_type: value }),
            ),
            final(self).spec_is_updated() == old(self).spec_is_updated(),
            final(self).spec_amount_of_blocks() == old(self).spec_amount_of_blocks() + 1,
    {
        let pos = Self::pos_to_index(x, y, z);
        proof {
            lemma_occupied_count_update(self.blocks@, pos as int, Some(Block { block_type: value }));
            lemma_occupied_count_bound(self.blocks@.update(pos as int, Some(Block { block_type: value })));
        }
        self.blocks.set(pos, Some(Block { block_type: value }));
        self.amount_of_blocks += 1;
    }

    /// Puts a block of type `value` at `(x, y, z)` if that place is inside
    /// the chunk and empty, and says why not otherwise. The edit flag is left
    /// as it is.
    pub fn spawn_block(&mut self, x: i32, y: i32, z: i32, value: BlockType) -> (r: Result<(), SpawnError>)
        requires
            old(self).wf(),
        ensures
            final(self).wf(),
            match r {
                Ok(_) => {
                    &&& in_chunk(x as int, y as int, z as int)
                    &&& old(self).block_at(x as int, y as int, z as int) is None
                    &&& final(self)@ == old(self)@.update(
                        index_of(x as int, y as int, z as int),
                        Some(Block { block_type: value }),
                    )
                    &&& final(self).spec_is_updated() == old(self).spec_is_updated()
                },
                Err(SpawnError::NotInChunk(_)) => {
                    &&& !in_chunk(x as int, y as int, z as int)
                    &&& *final(self) == *old(self)
                },
                Err(SpawnError::Occupied(_)) => {
                    &&& in_chunk(x as int, y as int, z as int)
                    &&& old(self).block_at(x as int, y as int, z as int) is Some
                    &&& *final(self) == *old(self)
                },
            },
    {
        if !Self::contains_pos(x, y, z) {
            return Err(SpawnError::NotInChunk(PositionNotInChunkError()));
        }
        if self.get_unchecked(x, y, z).is_some() {
            return Err(SpawnError::Occupied(SpawnInOccupiedSpaceError()));
        }
        self.spawn_block_unchecked(x, y, z, value);
        Ok(())
    }

    /// Overwrites the voxel at `(x, y, z)` with `value`, whatever it held,
    /// and marks the chunk as edited. A position outside the chunk is
    /// refused and changes nothing.
    pub fn set(&mut self, x: i32, y: i32, z: i32, value: Option<Block>) -> (r: Result<(), PositionNotInChunkError>)
        requires
            old(self).wf(),
        ensures
            final(self).wf(),
            r is Ok <==> in_chunk(x as int, y as int, z as int),
            r is Ok ==> final(self)@ == old(self)@.update(index_of(x as int, y as int, z as int), value)
                && final(self).spec_is_updated(),
            r is Ok ==> final(self).spec_amount_of_blocks() == old(self).spec_amount_of_blocks() - (if old(
                self,
            ).block_at(x as int, y as int, z as int) is Some {
                1int
            } else {
                0int
            }) + (if value is Some {
                1int
            } else {
                0int
            }),
            r is Err ==> *final(self) == *old(self),
    {
        if !Self::contains_pos(x, y, z) {
            return Err(PositionNotInChunkError());
        }
        let pos = Self::pos_to_index(x, y, z);
        proof {
            lemma_occupied_count_update(self.blocks@, pos as int, value);
            lemma_occupied_count_bound(self.blocks@.update(pos as int, value));
            lemma_occupied_count_bound(self.blocks@);
        }
        let was_occupied = self.blocks[pos].is_some();
        let is_occupied = value.is_some();
        self.blocks.set(pos, value);
        if was_occupied && !is_occupied {
            self.amount_of_blocks -= 1;
        } else if !was_occupied && is_occupied {
            self.amount_of_blocks += 1;
        }
        self.is_updated = true;
        Ok(())
    }

    /// Whether the chunk was edited since the flag was last reset.
    pub fn is_updated(&self) -> (r: bool)
        ensures
            r == self.spec_is_updated(),
    {
        self.is_updated
    }

    /// Takes the edit flag down, once the edit has been dealt with. The
    /// voxels stay as they are.
    pub fn reset_updated(&mut self)
        ensures
            !final(self).spec_is_updated(),
            final(self)@ == old(self)@,
            final(self).spec_amount_of_blocks() == old(self).spec_amount_of_blocks(),
    {
        self.is_updated = false;
    }

    /// How many voxels hold a block.
    pub fn get_amount_of_blocks(&self) -> (r: usize)
        requires
            self.wf(),
        ensures
            r == occupied_count(self@),
    {
        self.amount_of_blocks
    }

    /// An iterator over the voxels, which gives them in linear index order
    /// and then ends. Each call gives a new iterator over all of them.
    pub fn iter(&self) -> (r: std::slice::Iter<'_, Option<Block>>)
        ensures
            vstd::std_specs::slice::into_iter_elts(r) == self@,
            vstd::std_specs::iter::IteratorSpec::initial_value_relation(&r, &r),
            vstd::std_specs::iter::IteratorSpec::decrease(&r) is Some,
    {
        self.blocks.iter()
    }

    /// Every voxel with its position, in linear index order.
    pub fn iter_with_pos(&self) -> (r: Vec<((i32, i32, i32), Option<Block>)>)
        requires
            self.wf(),
        ensures
            r@.len() == CHUNK_VOLUME,
            forall|i: int|
                0 <= i < CHUNK_VOLUME ==> {
                    &&& (r@[i].0.0 as int, r@[i].0.1 as int, r@[i].0.2 as int) == #[trigger] position_of(i)
                    &&& r@[i].1 == self@[i]
                },
    {
        let mut pairs: Vec<((i32, i32, i32), Option<Block>)> = Vec::with_capacity(CHUNK_VOLUME);
        let mut i: usize = 0;
        while i < CHUNK_VOLUME
            invariant
                i <= CHUNK_VOLUME,
                self.blocks@.len() == CHUNK_VOLUME,
                pairs@.len() == i,
                forall|j: int|
                    0 <= j < i ==> {
                        &&& (pairs@[j].0.0 as int, pairs@[j].0.1 as int, pairs@[j].0.2 as int)
                            == #[trigger] position_of(j)
                        &&& pairs@[j].1 == self.blocks@[j]
                    },
            decreases CHUNK_VOLUME - i,
        {
            pairs.push((Self::index_to_pos(i), self.blocks[i]));
            i += 1;
        }
        pairs
    }

    /// The position of the voxel stored at linear index `i`.
    pub fn index_to_pos(i: usize) -> (r: (i32, i32, i32))
        requires
            i < CHUNK_VOLUME,
        ensures
            (r.0 as int, r.1 as int, r.2 as int) == position_of(i as int),
            in_chunk(r.0 as int, r.1 as int, r.2 as int),
    {
        proof {
            lemma_position_round_trip(i as int);
        }
        let x = (i % CHUNK_SIZE) as i32;
        let y = (i / (CHUNK_SIZE * CHUNK_SIZE)) as i32;
        let z = ((i / CHUNK_SIZE) % CHUNK_SIZE) as i32;
        (x, y, z)
    }

    /// The linear index of the voxel at `(x, y, z)`.
    pub fn pos_to_index(x: i32, y: i32, z: i32) -> (r: usize)
        requires
            in_chunk(x as int, y as int, z as int),
        ensures
            r == index_of(x as int, y as int, z as int),
            r < CHUNK_VOLUME,
    {
        proof {
            lemma_index_round_trip(x as int, y as int, z as int);
        }
        (y as usize) * (CHUNK_SIZE * CHUNK_SIZE) + (z as usize) * CHUNK_SIZE + (x as usize)
    }

    /// Whether `(x, y, z)` lies inside the chunk's extent.
    pub fn contains_pos(x: i32, y: i32, z: i32) -> (r: bool)
        ensures
            r == in_chunk(x as int, y as int, z as int),
    {
        0 <= x && x < CHUNK_SIZE_I32 && 0 <= y && y < CHUNK_SIZE_I32 && 0 <= z && z < CHUNK_SIZE_I32
    }

    /// The voxel at `(x, y, z)`, or an error for a position outside the
    /// chunk.
    pub fn get_block_at(&self, x: i32, y: i32, z: i32) -> (r: Result<&Option<Block>, PositionNotInChunkError>)
        requires
            self.wf(),
        ensures
            r is Ok <==> in_chunk(x as int, y as int, z as int),
            r matches Ok(block) ==> *block == self.block_at(x as int, y as int, z as int),
    {
        if x < 0 || x >= CHUNK_SIZE_I32 || y < 0 || y >= CHUNK_SIZE_I32 || z < 0 || z >= CHUNK_SIZE_I32 {
            return Err(PositionNotInChunkError());
        }
        Ok(self.get_unchecked(x, y, z))
    }

    fn get_unchecked(&self, x: i32, y: i32, z: i32) -> (r: &Option<Block>)
        requires
            self.wf(),
            in_chunk(x as int, y as int, z as int),
        ensures
            *r == self.block_at(x as int, y as int, z as int),
    {
        &self.blocks[Self::pos_to_index(x, y, z)]
    }
}

impl Clone for Chunk {
    fn clone(&self) -> (r: Chunk)
        ensures
            r@ == self@,
            r.spec_is_updated() == self.spec_is_updated(),
            r.spec_amount_of_blocks() == self.spec_amount_of_blocks(),
    {
        let mut blocks: Vec<Option<Block>> = Vec::with_capacity(self.blocks.len());
        let mut i: usize = 0;
        while i < self.blocks.len()
            invariant
                i <= self.blocks.len(),
                blocks@ == self.blocks@.take(i as int),
            decreases self.blocks.len() - i,
        {
            blocks.push(self.blocks[i]);
            assert(self.blocks@.take(i as int).push(self.blocks@[i as int]) =~= self.blocks@.take(i + 1));
            i += 1;
        }
        assert(blocks@ =~= self.blocks@);
        Chunk { blocks, is_updated: self.is_updated, amount_of_blocks: self.amount_of_blocks }
    }
}

} // verus!
