//! The chunks that are resident, by their position.

use std::collections::HashMap;
use vstd::prelude::*;
use vstd::arithmetic::div_mod::lemma_fundamental_div_mod_converse;
use crate::utils::ChunkPos;
use super::Chunk;

verus! {

broadcast use vstd::std_specs::hash::group_hash_axioms;

/// The number under which a position is kept: its three coordinates, each
/// counted from the least one, as the digits of one number.
spec fn chunk_key(pos: ChunkPos) -> u128 {
    (((pos.x - i32::MIN) * 0x1_0000_0000 + (pos.y - i32::MIN)) * 0x1_0000_0000 + (pos.z - i32::MIN)) as u128
}

/// Different positions are kept under different numbers.
proof fn lemma_chunk_key_injective(a: ChunkPos, b: ChunkPos)
    requires
        chunk_key(a) == chunk_key(b),
    ensures
        a == b,
{
    let high_a = (a.x - i32::MIN) * 0x1_0000_0000 + (a.y - i32::MIN);
    let high_b = (b.x - i32::MIN) * 0x1_0000_0000 + (b.y - i32::MIN);
    assert(0 <= high_a < 0x1_0000_0000_0000_0000 && 0 <= high_b < 0x1_0000_0000_0000_0000);
    lemma_fundamental_div_mod_converse(chunk_key(a) as int, 0x1_0000_0000, high_a, a.z - i32::MIN);
    lemma_fundamental_div_mod_converse(chunk_key(b) as int, 0x1_0000_0000, high_b, b.z - i32::MIN);
    lemma_fundamental_div_mod_converse(high_a, 0x1_0000_0000, a.x - i32::MIN, a.y - i32::MIN);
    lemma_fundamental_div_mod_converse(high_b, 0x1_0000_0000, b.x - i32::MIN, b.y - i32::MIN);
}

fn key_of(pos: &ChunkPos) -> (r: u128)
    ensures
        r == chunk_key(*pos),
{
    let x = ((pos.x as i64) - (i32::MIN as i64)) as u128;
    let y = ((pos.y as i64) - (i32::MIN as i64)) as u128;
    let z = ((pos.z as i64) - (i32::MIN as i64)) as u128;
    (x * 0x1_0000_0000 + y) * 0x1_0000_0000 + z
}

/// A map from chunk positions to chunks that live elsewhere. A position has
/// at most one chunk.
pub struct ChunkMap<'a> {
    chunks: HashMap<u128, &'a Chunk>,
}

impl<'a> View for ChunkMap<'a> {
    type V = Map<ChunkPos, Chunk>;

    closed spec fn view(&self) -> Map<ChunkPos, Chunk> {
        Map::new(
            |pos: ChunkPos| self.chunks@.contains_key(chunk_key(pos)),
            |pos: ChunkPos| *self.chunks@[chunk_key(pos)],
        )
    }
}

impl<'a> ChunkMap<'a> {
    /// A chunk map is well formed when every chunk in it is.
    pub open spec fn wf(&self) -> bool {
        forall|pos: ChunkPos| self@.contains_key(pos) ==> (#[trigger] self@[pos]).wf()
    }

    /// A map without chunks.
    pub fn new() -> (r: ChunkMap<'a>)
        ensures
            r@ == Map::<ChunkPos, Chunk>::empty(),
            r.wf(),
    {
        let map = ChunkMap { chunks: HashMap::new() };
        assert(map@ =~= Map::<ChunkPos, Chunk>::empty());
        map
    }

    /// Puts `chunk` at `pos`, in place of the chunk that was there, if any,
    /// which is handed back.
    pub fn insert(&mut self, pos: ChunkPos, chunk: &'a Chunk) -> (r: Option<&'a Chunk>)
        requires
            old(self).wf(),
            chunk.wf(),
        ensures
            final(self).wf(),
            final(self)@ == old(self)@.insert(pos, *chunk),
            match r {
                Some(before) => old(self)@.contains_key(pos) && *before == old(self)@[pos],
                None => !old(self)@.contains_key(pos),
            },
    {
        let before = self.chunks.insert(key_of(&pos), chunk);
        proof {
            assert forall|other: ChunkPos| other != pos implies chunk_key(other) != chunk_key(pos) by {
                if chunk_key(other) == chunk_key(pos) {
                    lemma_chunk_key_injective(other, pos);
                }
            }
            assert(self@ =~= old(self)@.insert(pos, *chunk));
        }
        before
    }

    /// The chunk at `pos`, if there is one.
    pub fn get(&self, pos: &ChunkPos) -> (r: Option<&'a Chunk>)
        ensures
            match r {
                Some(chunk) => self@.contains_key(*pos) && *chunk == self@[*pos],
                None => !self@.contains_key(*pos),
            },
    {
        let key = key_of(pos);
        match self.chunks.get(&key) {
            Some(chunk) => Some(*chunk),
            None => None,
        }
    }

    /// Whether there is a chunk at `pos`.
    pub fn contains_key(&self, pos: &ChunkPos) -> (r: bool)
        ensures
            r == self@.contains_key(*pos),
    {
        let key = key_of(pos);
        self.chunks.contains_key(&key)
    }
}

} // verus!
