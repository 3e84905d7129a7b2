//! The culled mesh of a chunk: one square for every side of a block that
//! does not touch another block.

use vstd::prelude::*;
use crate::map::chunk::{Block, Chunk, ChunkMap, Rgb};
use crate::utils::{fits_i32, lemma_position_round_trip, position_of, world_of, BlockPos, ChunkPos, WorldBlockPos, CHUNK_SIZE, CHUNK_VOLUME};

verus! {

/// Number of sides of a block.
pub const SIDES: usize = 6;

/// Number of corners of a side.
pub const SIDE_CORNERS: usize = 4;

/// Number of indices that draw a side: two triangles.
pub const SIDE_INDICES: usize = 6;

/// A corner of a side, in half blocks from the centre of the chunk's first
/// block.
#[derive(Copy, Clone, Debug, PartialEq, Eq, Hash, Structural)]
pub struct Vertex {
    pub x: i32,
    pub y: i32,
    pub z: i32,
}

/// The buffers that draw a chunk: four vertices with their colours and six
/// indices for every visible side.
#[derive(Debug)]
pub struct ChunkMesh {
    pub vertices: Vec<Vertex>,
    pub colors: Vec<Rgb>,
    pub indices: Vec<u32>,
    pub sides: usize,
}

/// What a mesh holds.
pub struct MeshView {
    pub vertices: Seq<Vertex>,
    pub colors: Seq<Rgb>,
    pub indices: Seq<u32>,
    pub sides: nat,
}

impl View for ChunkMesh {
    type V = MeshView;

    open spec fn view(&self) -> MeshView {
        MeshView {
            vertices: self.vertices@,
            colors: self.colors@,
            indices: self.indices@,
            sides: self.sides as nat,
        }
    }
}

impl ChunkMesh {
    /// A mesh that draws nothing.
    pub fn new() -> (r: ChunkMesh)
        ensures
            r@ == mesh_of(Seq::<Option<Block>>::empty(), Seq::<(int, int)>::empty()),
    {
        let mesh = ChunkMesh { vertices: Vec::new(), colors: Vec::new(), indices: Vec::new(), sides: 0 };
        assert(mesh@.vertices =~= side_vertices(Seq::<(int, int)>::empty()));
        assert(mesh@.colors =~= side_colors(Seq::<Option<Block>>::empty(), Seq::<(int, int)>::empty()));
        assert(mesh@.indices =~= side_indices(0));
        mesh
    }
}

/// For every side of a block its four corners, in half blocks from the
/// block's centre: top, bottom, right, left, forward, backward.
pub const SIDES_VERTICES: [[(i32, i32, i32); 4]; 6] = [
    [(1, 1, 1), (-1, 1, 1), (-1, 1, -1), (1, 1, -1)],
    [(1, -1, -1), (-1, -1, -1), (-1, -1, 1), (1, -1, 1)],
    [(1, 1, -1), (1, -1, -1), (1, -1, 1), (1, 1, 1)],
    [(-1, 1, 1), (-1, -1, 1), (-1, -1, -1), (-1, 1, -1)],
    [(1, -1, 1), (-1, -1, 1), (-1, 1, 1), (1, 1, 1)],
    [(1, 1, -1), (-1, 1, -1), (-1, -1, -1), (1, -1, -1)],
];

/// The corners of a side's own four that its six indices name: two
/// triangles that share the edge from corner 2 to corner 0.
pub const SIDES_INDICES: [u32; 6] = [2, 1, 0, 3, 2, 0];

/// For every side of a block where the neighbour across it lies.
pub const SIDES_OFFSETS: [(i32, i32, i32); 6] = [(0, 1, 0), (0, -1, 0), (1, 0, 0), (-1, 0, 0), (0, 0, 1), (0, 0, -1)];

/// Where the neighbour across side number `side` lies.
pub open spec fn side_offset(side: int) -> (int, int, int) {
    let offset = SIDES_OFFSETS@[side];
    (offset.0 as int, offset.1 as int, offset.2 as int)
}

/// Corner number `corner` of side number `side` of a block, in half blocks
/// from the block's centre.
pub open spec fn side_corner(side: int, corner: int) -> (int, int, int) {
    let at = SIDES_VERTICES@[side]@[corner];
    (at.0 as int, at.1 as int, at.2 as int)
}

/// The corner of a side's own four that index number `index` of the side's
/// six names.
pub open spec fn side_index(index: int) -> int {
    SIDES_INDICES@[index] as int
}

/// Whether the world holds a block at `pos`, as far as the mesher of the
/// chunk at `current_chunk_pos` knows: the chunk itself answers for its own
/// blocks, the map for the blocks of other chunks, and where the map has no
/// chunk there is no block.
pub open spec fn has_in_map(
    pos: WorldBlockPos,
    current_chunk_pos: ChunkPos,
    current_chunk: Chunk,
    map: Map<ChunkPos, Chunk>,
) -> bool {
    let chunk_pos = <ChunkPos as vstd::std_specs::convert::FromSpec<WorldBlockPos>>::from_spec(pos);
    let block_pos = <BlockPos as vstd::std_specs::convert::FromSpec<WorldBlockPos>>::from_spec(pos);
    if chunk_pos == current_chunk_pos {
        current_chunk.block_at(block_pos.x as int, block_pos.y as int, block_pos.z as int) is Some
    } else if map.contains_key(chunk_pos) {
        map[chunk_pos].block_at(block_pos.x as int, block_pos.y as int, block_pos.z as int) is Some
    } else {
        false
    }
}

/// Whether side number `side` of the voxel at linear index `voxel` touches a
/// block. A neighbour beyond the end of the world's coordinates is no block.
pub open spec fn side_hidden(
    chunk: Chunk,
    chunk_pos: ChunkPos,
    map: Map<ChunkPos, Chunk>,
    voxel: int,
    side: int,
) -> bool {
    let p = position_of(voxel);
    let o = side_offset(side);
    let x = world_of(chunk_pos.x as int, p.0 + o.0, CHUNK_SIZE as int);
    let y = world_of(chunk_pos.y as int, p.1 + o.1, CHUNK_SIZE as int);
    let z = world_of(chunk_pos.z as int, p.2 + o.2, CHUNK_SIZE as int);
    fits_i32(x) && fits_i32(y) && fits_i32(z) && has_in_map(
        WorldBlockPos { x: x as i32, y: y as i32, z: z as i32 },
        chunk_pos,
        chunk,
        map,
    )
}

/// Air shows no sides.
pub proof fn lemma_air_has_no_sides(
    chunk: Chunk,
    chunk_pos: ChunkPos,
    map: Map<ChunkPos, Chunk>,
    voxel: int,
    sides: int,
)
    requires
        chunk@[voxel] is None,
    ensures
        voxel_sides(chunk, chunk_pos, map, voxel, sides) == Seq::<(int, int)>::empty(),
    decreases sides,
{
    if sides > 0 {
        lemma_air_has_no_sides(chunk, chunk_pos, map, voxel, sides - 1);
    }
}

/// Of its first `sides` sides a voxel shows no more than `sides`.
pub proof fn lemma_voxel_sides_bound(
    chunk: Chunk,
    chunk_pos: ChunkPos,
    map: Map<ChunkPos, Chunk>,
    voxel: int,
    sides: int,
)
    requires
        0 <= sides,
    ensures
        voxel_sides(chunk, chunk_pos, map, voxel, sides).len() <= sides,
    decreases sides,
{
    if sides > 0 {
        lemma_voxel_sides_bound(chunk, chunk_pos, map, voxel, sides - 1);
    }
}

/// The visible sides among the first `sides` sides of the voxel at linear
/// index `voxel`, each as the pair of the voxel and the side's number. Air
/// has no sides.
pub open spec fn voxel_sides(
    chunk: Chunk,
    chunk_pos: ChunkPos,
    map: Map<ChunkPos, Chunk>,
    voxel: int,
    sides: int,
) -> Seq<(int, int)>
    decreases sides,
{
    if sides <= 0 {
        Seq::empty()
    } else {
        let before = voxel_sides(chunk, chunk_pos, map, voxel, sides - 1);
        if chunk@[voxel] is Some && !side_hidden(chunk, chunk_pos, map, voxel, sides - 1) {
            before.push((voxel, sides - 1))
        } else {
            before
        }
    }
}

/// The visible sides of the first `voxels` voxels of the chunk, in linear
/// index order, the sides of one voxel in the order of their numbers.
pub open spec fn culled_sides(chunk: Chunk, chunk_pos: ChunkPos, map: Map<ChunkPos, Chunk>, voxels: int) -> Seq<
    (int, int),
>
    decreases voxels,
{
    if voxels <= 0 {
        Seq::empty()
    } else {
        culled_sides(chunk, chunk_pos, map, voxels - 1) + voxel_sides(
            chunk,
            chunk_pos,
            map,
            voxels - 1,
            SIDES as int,
        )
    }
}

/// The vertex at corner number `corner` of the given side of the given
/// voxel.
pub open spec fn corner_vertex(side: (int, int), corner: int) -> Vertex {
    let p = position_of(side.0);
    let c = side_corner(side.1, corner);
    Vertex { x: (c.0 + 2 * p.0) as i32, y: (c.1 + 2 * p.1) as i32, z: (c.2 + 2 * p.2) as i32 }
}

/// The colour of a voxel: that of its block type.
pub open spec fn voxel_color(voxel: Option<Block>) -> Rgb {
    match voxel {
        Some(block) => block.block_type.spec_color(),
        None => Rgb { r: 0, g: 0, b: 0 },
    }
}

/// The vertex buffer of the given sides: the four corners of each, side
/// after side.
pub open spec fn side_vertices(sides: Seq<(int, int)>) -> Seq<Vertex> {
    Seq::new(
        sides.len() * SIDE_CORNERS as nat,
        |i: int| corner_vertex(sides[i / (SIDE_CORNERS as int)], i % (SIDE_CORNERS as int)),
    )
}

/// The colour buffer of the given sides: for every vertex the colour of the
/// block that the side belongs to.
pub open spec fn side_colors(cells: Seq<Option<Block>>, sides: Seq<(int, int)>) -> Seq<Rgb> {
    Seq::new(
        sides.len() * SIDE_CORNERS as nat,
        |i: int| voxel_color(cells[sides[i / (SIDE_CORNERS as int)].0]),
    )
}

/// The index buffer of `sides` sides: six indices for each, into the side's
/// own four vertices.
pub open spec fn side_indices(sides: nat) -> Seq<u32> {
    Seq::new(
        sides * SIDE_INDICES as nat,
        |i: int| (side_index(i % (SIDE_INDICES as int)) + (i / (SIDE_INDICES as int)) * SIDE_CORNERS) as u32,
    )
}

/// The mesh that draws the given sides of the given voxels.
pub open spec fn mesh_of(cells: Seq<Option<Block>>, sides: Seq<(int, int)>) -> MeshView {
    MeshView {
        vertices: side_vertices(sides),
        colors: side_colors(cells, sides),
        indices: side_indices(sides.len()),
        sides: sides.len(),
    }
}

/// Whether side number `side` of the voxel at linear index `voxel` is drawn:
/// the voxel holds a block, and the side does not touch a block.
pub open spec fn side_shown(
    chunk: Chunk,
    chunk_pos: ChunkPos,
    map: Map<ChunkPos, Chunk>,
    voxel: int,
    side: int,
) -> bool {
    &&& 0 <= side < SIDES
    &&& chunk@[voxel] is Some
    &&& !side_hidden(chunk, chunk_pos, map, voxel, side)
}

/// The order of the sides in a mesh: by the voxel's linear index, and for
/// one voxel by the side's number.
pub open spec fn side_before(a: (int, int), b: (int, int)) -> bool {
    a.0 < b.0 || (a.0 == b.0 && a.1 < b.1)
}

/// Among its first `sides` sides a voxel shows those that are drawn, each
/// once, in the order of their numbers.
proof fn lemma_voxel_sides_are_the_shown_sides(
    chunk: Chunk,
    chunk_pos: ChunkPos,
    map: Map<ChunkPos, Chunk>,
    voxel: int,
    sides: int,
)
    requires
        0 <= sides <= SIDES,
    ensures
        forall|k: int|
            0 <= k < voxel_sides(chunk, chunk_pos, map, voxel, sides).len() ==> {
                let shown = #[trigger] voxel_sides(chunk, chunk_pos, map, voxel, sides)[k];
                shown.0 == voxel && shown.1 < sides && side_shown(chunk, chunk_pos, map, voxel, shown.1)
            },
        forall|i: int, j: int|
            0 <= i < j < voxel_sides(chunk, chunk_pos, map, voxel, sides).len() ==> side_before(
                voxel_sides(chunk, chunk_pos, map, voxel, sides)[i],
                voxel_sides(chunk, chunk_pos, map, voxel, sides)[j],
            ),
        forall|side: int|
            0 <= side < sides && side_shown(chunk, chunk_pos, map, voxel, side) ==> voxel_sides(
                chunk,
                chunk_pos,
                map,
                voxel,
                sides,
            ).contains((voxel, side)),
    decreases sides,
{
    if sides > 0 {
        lemma_voxel_sides_are_the_shown_sides(chunk, chunk_pos, map, voxel, sides - 1);
        let before = voxel_sides(chunk, chunk_pos, map, voxel, sides - 1);
        let now = voxel_sides(chunk, chunk_pos, map, voxel, sides);
        assert forall|side: int|
            0 <= side < sides && side_shown(chunk, chunk_pos, map, voxel, side) implies now.contains(
            (voxel, side),
        ) by {
            if side < sides - 1 {
                let k = choose|k: int| 0 <= k < before.len() && before[k] == (voxel, side);
                assert(now[k] == (voxel, side));
            } else {
                assert(now[before.len() as int] == (voxel, side));
            }
        }
    }
}

/// The sides of a culled mesh are the sides that are drawn, and no others:
/// the pair of a voxel and a side is among them exactly when the voxel holds
/// a block and the side does not touch a block. The pairs stand in the order
/// of the voxels' linear indices, those of one voxel in the order of the
/// sides' numbers, so none stands twice.
pub proof fn lemma_culled_sides_are_the_shown_sides(
    chunk: Chunk,
    chunk_pos: ChunkPos,
    map: Map<ChunkPos, Chunk>,
    voxels: int,
)
    requires
        0 <= voxels,
    ensures
        forall|voxel: int, side: int|
            #![trigger culled_sides(chunk, chunk_pos, map, voxels).contains((voxel, side))]
            #![trigger side_shown(chunk, chunk_pos, map, voxel, side)]
            culled_sides(chunk, chunk_pos, map, voxels).contains((voxel, side)) <==> 0 <= voxel < voxels
                && side_shown(chunk, chunk_pos, map, voxel, side),
        forall|i: int, j: int|
            0 <= i < j < culled_sides(chunk, chunk_pos, map, voxels).len() ==> side_before(
                culled_sides(chunk, chunk_pos, map, voxels)[i],
                culled_sides(chunk, chunk_pos, map, voxels)[j],
            ),
    decreases voxels,
{
    if voxels > 0 {
        lemma_culled_sides_are_the_shown_sides(chunk, chunk_pos, map, voxels - 1);
        lemma_voxel_sides_are_the_shown_sides(chunk, chunk_pos, map, voxels - 1, SIDES as int);
        let before = culled_sides(chunk, chunk_pos, map, voxels - 1);
        let last = voxel_sides(chunk, chunk_pos, map, voxels - 1, SIDES as int);
        let now = culled_sides(chunk, chunk_pos, map, voxels);
        assert(now == before + last);
        assert forall|k: int| 0 <= k < before.len() implies (#[trigger] before[k]).0 < voxels - 1 by {
            assert(before.contains((before[k].0, before[k].1)));
        }
        assert forall|voxel: int, side: int|
            #![trigger now.contains((voxel, side))]
            #![trigger side_shown(chunk, chunk_pos, map, voxel, side)]
            now.contains((voxel, side)) <==> 0 <= voxel < voxels && side_shown(
                chunk,
                chunk_pos,
                map,
                voxel,
                side,
            ) by {
            if now.contains((voxel, side)) {
                let k = choose|k: int| 0 <= k < now.len() && now[k] == (voxel, side);
                if k < before.len() {
                    assert(before[k] == (voxel, side));
                    assert(before.contains((voxel, side)));
                } else {
                    assert(last[k - before.len()] == (voxel, side));
                }
            }
            if 0 <= voxel < voxels && side_shown(chunk, chunk_pos, map, voxel, side) {
                if voxel < voxels - 1 {
                    assert(before.contains((voxel, side)));
                    let k = choose|k: int| 0 <= k < before.len() && before[k] == (voxel, side);
                    assert(now[k] == (voxel, side));
                } else {
                    assert(last.contains((voxel, side)));
                    let k = choose|k: int| 0 <= k < last.len() && last[k] == (voxel, side);
                    assert(now[before.len() + k] == (voxel, side));
                }
            }
        }
        assert forall|i: int, j: int| 0 <= i < j < now.len() implies side_before(now[i], now[j]) by {
            if j < before.len() {
                assert(side_before(before[i], before[j]));
            } else if i < before.len() {
                assert(before[i].0 < voxels - 1);
                assert(last[j - before.len()].0 == voxels - 1);
            } else {
                assert(side_before(last[i - before.len()], last[j - before.len()]));
            }
        }
    } else {
        assert(culled_sides(chunk, chunk_pos, map, voxels) =~= Seq::<(int, int)>::empty());
    }
}

/// A block whose six sides all touch blocks shows none of them.
pub proof fn lemma_interior_voxel_shows_nothing(
    chunk: Chunk,
    chunk_pos: ChunkPos,
    map: Map<ChunkPos, Chunk>,
    voxel: int,
)
    requires
        forall|side: int| 0 <= side < SIDES ==> side_hidden(chunk, chunk_pos, map, voxel, side),
    ensures
        voxel_sides(chunk, chunk_pos, map, voxel, SIDES as int) == Seq::<(int, int)>::empty(),
{
    reveal_with_fuel(voxel_sides, 7);
}

/// A block none of whose six sides touches a block shows all six, in the
/// order of their numbers.
pub proof fn lemma_free_voxel_shows_all(
    chunk: Chunk,
    chunk_pos: ChunkPos,
    map: Map<ChunkPos, Chunk>,
    voxel: int,
)
    requires
        chunk@[voxel] is Some,
        forall|side: int| 0 <= side < SIDES ==> !side_hidden(chunk, chunk_pos, map, voxel, side),
    ensures
        voxel_sides(chunk, chunk_pos, map, voxel, SIDES as int) == seq![
            (voxel, 0int),
            (voxel, 1int),
            (voxel, 2int),
            (voxel, 3int),
            (voxel, 4int),
            (voxel, 5int),
        ],
{
    reveal_with_fuel(voxel_sides, 7);
    assert(voxel_sides(chunk, chunk_pos, map, voxel, SIDES as int) =~= seq![
        (voxel, 0int),
        (voxel, 1int),
        (voxel, 2int),
        (voxel, 3int),
        (voxel, 4int),
        (voxel, 5int),
    ]);
}

/// Where the only block of a chunk is the one at `voxel`, the sides that the
/// first `voxels` voxels show are that block's, once it is among them.
proof fn lemma_lone_voxel_sides(
    chunk: Chunk,
    chunk_pos: ChunkPos,
    map: Map<ChunkPos, Chunk>,
    voxel: int,
    voxels: int,
)
    requires
        0 <= voxel,
        forall|other: int| 0 <= other < voxels && other != voxel ==> chunk@[other] is None,
    ensures
        culled_sides(chunk, chunk_pos, map, voxels) == if voxel < voxels {
            voxel_sides(chunk, chunk_pos, map, voxel, SIDES as int)
        } else {
            Seq::<(int, int)>::empty()
        },
    decreases voxels,
{
    if voxels > 0 {
        lemma_lone_voxel_sides(chunk, chunk_pos, map, voxel, voxels - 1);
        if voxels - 1 != voxel {
            lemma_air_has_no_sides(chunk, chunk_pos, map, voxels - 1, SIDES as int);
        }
        assert(culled_sides(chunk, chunk_pos, map, voxels) =~= if voxel < voxels {
            voxel_sides(chunk, chunk_pos, map, voxel, SIDES as int)
        } else {
            Seq::<(int, int)>::empty()
        });
    }
}

/// The mesh of a chunk whose only block touches no block, in this chunk or
/// in a neighbour, has that block's six sides: 24 vertices and 36 indices,
/// which make 12 triangles.
pub proof fn lemma_isolated_voxel_mesh(chunk: Chunk, chunk_pos: ChunkPos, map: Map<ChunkPos, Chunk>, voxel: int)
    requires
        0 <= voxel < CHUNK_VOLUME,
        chunk@[voxel] is Some,
        forall|other: int| 0 <= other < CHUNK_VOLUME && other != voxel ==> chunk@[other] is None,
        forall|side: int| 0 <= side < SIDES ==> !side_hidden(chunk, chunk_pos, map, voxel, side),
    ensures
        culled_sides(chunk, chunk_pos, map, CHUNK_VOLUME as int).len() == 6,
        mesh_of(chunk@, culled_sides(chunk, chunk_pos, map, CHUNK_VOLUME as int)).sides == 6,
        mesh_of(chunk@, culled_sides(chunk, chunk_pos, map, CHUNK_VOLUME as int)).vertices.len() == 24,
        mesh_of(chunk@, culled_sides(chunk, chunk_pos, map, CHUNK_VOLUME as int)).colors.len() == 24,
        mesh_of(chunk@, culled_sides(chunk, chunk_pos, map, CHUNK_VOLUME as int)).indices.len() == 36,
{
    lemma_lone_voxel_sides(chunk, chunk_pos, map, voxel, CHUNK_VOLUME as int);
    lemma_free_voxel_shows_all(chunk, chunk_pos, map, voxel);
}

/// A chunk of air has the empty mesh.
pub proof fn lemma_air_mesh(chunk: Chunk, chunk_pos: ChunkPos, map: Map<ChunkPos, Chunk>, voxels: int)
    requires
        forall|voxel: int| 0 <= voxel < voxels ==> chunk@[voxel] is None,
    ensures
        culled_sides(chunk, chunk_pos, map, voxels) == Seq::<(int, int)>::empty(),
    decreases voxels,
{
    if voxels > 0 {
        lemma_air_mesh(chunk, chunk_pos, map, voxels - 1);
        lemma_air_has_no_sides(chunk, chunk_pos, map, voxels - 1, SIDES as int);
    }
}

/// Whether the world holds a block at `pos`, as far as the mesher of
/// `current_chunk` knows.
pub fn has_in_map_at(
    pos: &WorldBlockPos,
    current_chunk_pos: &ChunkPos,
    current_chunk: &Chunk,
    map: &ChunkMap,
) -> (r: bool)
    requires
        current_chunk.wf(),
        map.wf(),
    ensures
        r == has_in_map(*pos, *current_chunk_pos, *current_chunk, map@),
{
    let chunk_pos = ChunkPos::from(*pos);
    let block_pos = BlockPos::from(*pos);
    if chunk_pos == *current_chunk_pos {
        return matches!(current_chunk.get_block_at(block_pos.x, block_pos.y, block_pos.z), Ok(Some(_)));
    }
    let chunk_op = map.get(&chunk_pos);
    if chunk_op.is_none() {
        return false;
    }
    let chunk = chunk_op.unwrap();
    matches!(chunk.get_block_at(block_pos.x, block_pos.y, block_pos.z), Ok(Some(_)))
}

/// Whether the given side of the voxel at `(x, y, z)` of `chunk` touches a
/// block.
fn side_hidden_at(
    chunk: &Chunk,
    chunk_pos: &ChunkPos,
    map: &ChunkMap,
    voxel: usize,
    x: i32,
    y: i32,
    z: i32,
    side: usize,
) -> (r: bool)
    requires
        chunk.wf(),
        map.wf(),
        voxel < CHUNK_VOLUME,
        (x as int, y as int, z as int) == position_of(voxel as int),
        side < SIDES,
    ensures
        r == side_hidden(*chunk, *chunk_pos, map@, voxel as int, side as int),
{
    proof {
        lemma_position_round_trip(voxel as int);
    }
    let (ox, oy, oz) = SIDES_OFFSETS[side];
    let side_pos = BlockPos::new(x + ox, y + oy, z + oz);
    match WorldBlockPos::checked_from(chunk_pos, &side_pos) {
        Some(pos) => has_in_map_at(&pos, chunk_pos, chunk, map),
        None => false,
    }
}

/// What can make the culled mesh of itself, given its place and its
/// neighbours.
pub trait CulledChunkMesher {
    /// Whether a mesh can be made with this map of neighbours.
    spec fn meshable(&self, map: &ChunkMap) -> bool;

    /// The culled mesh.
    spec fn culled_mesh(&self, pos: &ChunkPos, map: &ChunkMap) -> MeshView;

    /// A new mesh that draws the visible sides.
    fn create_mesh_culled(&self, pos: &ChunkPos, map: &ChunkMap) -> (mesh: ChunkMesh)
        requires
            self.meshable(map),
        ensures
            mesh@ == self.culled_mesh(pos, map),
    ;

    /// Overwrites the buffers of `mesh` so that it draws the visible sides.
    fn update_mesh_culled(&self, mesh: &mut ChunkMesh, pos: &ChunkPos, map: &ChunkMap)
        requires
            self.meshable(map),
        ensures
            final(mesh)@ == self.culled_mesh(pos, map),
    ;
}

impl CulledChunkMesher for Chunk {
    open spec fn meshable(&self, map: &ChunkMap) -> bool {
        self.wf() && map.wf()
    }

    open spec fn culled_mesh(&self, pos: &ChunkPos, map: &ChunkMap) -> MeshView {
        mesh_of(self@, culled_sides(*self, *pos, map@, CHUNK_VOLUME as int))
    }

    fn create_mesh_culled(&self, pos: &ChunkPos, map: &ChunkMap) -> (mesh: ChunkMesh) {
        let mut mesh = ChunkMesh::new();
        self.update_mesh_culled(&mut mesh, pos, map);
        mesh
    }

    fn update_mesh_culled(&self, mesh: &mut ChunkMesh, chunk_pos: &ChunkPos, map: &ChunkMap) {
        let mut vertices: Vec<Vertex> = Vec::new();
        let mut indices: Vec<u32> = Vec::new();
        let mut colors: Vec<Rgb> = Vec::new();
        let mut current_index: u32 = 0;
        let ghost mut shown: Seq<(int, int)> = Seq::empty();
        let cells = self.iter_with_pos();
        let mut voxel: usize = 0;
        while voxel < CHUNK_VOLUME
            invariant
                voxel <= CHUNK_VOLUME,
                self.wf(),
                map.wf(),
                cells@.len() == CHUNK_VOLUME,
                forall|i: int|
                    0 <= i < CHUNK_VOLUME ==> {
                        &&& (cells@[i].0.0 as int, cells@[i].0.1 as int, cells@[i].0.2 as int)
                            == #[trigger] position_of(i)
                        &&& cells@[i].1 == self@[i]
                    },
                shown == culled_sides(*self, *chunk_pos, map@, voxel as int),
                shown.len() <= SIDES * voxel,
                current_index == shown.len(),
                vertices@ == side_vertices(shown),
                colors@ == side_colors(self@, shown),
                indices@ == side_indices(shown.len()),
            decreases CHUNK_VOLUME - voxel,
        {
            let ((x, y, z), cell) = cells[voxel];
            proof {
                lemma_position_round_trip(voxel as int);
            }
            match cell {
                Some(block) => {
                    let color = block.block_type.color();
                    let ghost before = shown;
                    let mut side: usize = 0;
                    while side < SIDES
                        invariant
                            voxel < CHUNK_VOLUME,
                            side <= SIDES,
                            self.wf(),
                            map.wf(),
                            self@[voxel as int] == Some(block),
                            color == voxel_color(self@[voxel as int]),
                            (x as int, y as int, z as int) == position_of(voxel as int),
                            0 <= x < CHUNK_SIZE && 0 <= y < CHUNK_SIZE && 0 <= z < CHUNK_SIZE,
                            shown == before + voxel_sides(*self, *chunk_pos, map@, voxel as int, side as int),
                            before.len() <= SIDES * voxel,
                            shown.len() <= SIDES * voxel + side,
                            current_index == shown.len(),
                            vertices@ == side_vertices(shown),
                            colors@ == side_colors(self@, shown),
                            indices@ == side_indices(shown.len()),
                        decreases SIDES - side,
                    {
                        let hidden = side_hidden_at(self, chunk_pos, map, voxel, x, y, z, side);
                        proof {
                            lemma_voxel_sides_bound(*self, *chunk_pos, map@, voxel as int, side as int);
                        }
                        if !hidden {
                            let ghost next = shown.push((voxel as int, side as int));
                            let mut corner: usize = 0;
                            while corner < SIDE_CORNERS
                                invariant
                                    corner <= SIDE_CORNERS,
                                    side < SIDES,
                                    voxel < CHUNK_VOLUME,
                                    next == shown.push((voxel as int, side as int)),
                                    (x as int, y as int, z as int) == position_of(voxel as int),
                                    0 <= x < CHUNK_SIZE && 0 <= y < CHUNK_SIZE && 0 <= z < CHUNK_SIZE,
                                    color == voxel_color(self@[voxel as int]),
                                    vertices@ == side_vertices(shown) + side_vertices(next).subrange(
                                        shown.len() * SIDE_CORNERS,
                                        shown.len() * SIDE_CORNERS + corner,
                                    ),
                                    colors@ == side_colors(self@, shown) + side_colors(self@, next).subrange(
                                        shown.len() * SIDE_CORNERS,
                                        shown.len() * SIDE_CORNERS + corner,
                                    ),
                                decreases SIDE_CORNERS - corner,
                            {
                                let (cx, cy, cz) = SIDES_VERTICES[side][corner];
                                vertices.push(Vertex { x: cx + 2 * x, y: cy + 2 * y, z: cz + 2 * z });
                                colors.push(color);
                                corner += 1;
                            }
                            assert(vertices@ =~= side_vertices(next));
                            assert(colors@ =~= side_colors(self@, next));
                            let mut index: usize = 0;
                            while index < SIDE_INDICES
                                invariant
                                    index <= SIDE_INDICES,
                                    current_index == shown.len(),
                                    shown.len() <= SIDES * CHUNK_VOLUME,
                                    indices@ == side_indices(shown.len()) + side_indices(
                                        shown.len() + 1,
                                    ).subrange(
                                        shown.len() * SIDE_INDICES,
                                        shown.len() * SIDE_INDICES + index,
                                    ),
                                decreases SIDE_INDICES - index,
                            {
                                indices.push(SIDES_INDICES[index] + current_index * 4);
                                index += 1;
                            }
                            assert(indices@ =~= side_indices(next.len()));
                            current_index += 1;
                            proof {
                                shown = next;
                            }
                        }
                        side += 1;
                        assert(shown == before + voxel_sides(
                            *self,
                            *chunk_pos,
                            map@,
                            voxel as int,
                            side as int,
                        ));
                    }
                },
                None => {
                    proof {
                        lemma_air_has_no_sides(*self, *chunk_pos, map@, voxel as int, SIDES as int);
                    }
                },
            }
            voxel += 1;
        }
        mesh.vertices = vertices;
        mesh.colors = colors;
        mesh.indices = indices;
        mesh.sides = current_index as usize;
    }
}

} // verus!
