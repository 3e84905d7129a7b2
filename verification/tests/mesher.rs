use yamc::map::chunk::{Block, BlockType, Chunk, ChunkMap, Rgb};
use yamc::map::render::culled_chunk_mesher::{
    has_in_map_at, ChunkMesh, CulledChunkMesher, Vertex, SIDES_INDICES, SIDES_OFFSETS, SIDES_VERTICES,
};
use yamc::utils::{ChunkPos, WorldBlockPos};

fn put(chunk: &mut Chunk, x: i32, y: i32, z: i32, block_type: BlockType) {
    assert_eq!(chunk.set(x, y, z, Some(Block { block_type })), Ok(()));
}

fn quad(corners: [(i32, i32, i32); 4]) -> Vec<Vertex> {
    corners.iter().map(|(x, y, z)| Vertex { x: *x, y: *y, z: *z }).collect()
}

fn quads_of(centre: (i32, i32, i32)) -> Vec<Vec<Vertex>> {
    let signs: [[(i32, i32, i32); 4]; 6] = [
        [(1, 1, 1), (-1, 1, 1), (-1, 1, -1), (1, 1, -1)],
        [(1, -1, -1), (-1, -1, -1), (-1, -1, 1), (1, -1, 1)],
        [(1, 1, -1), (1, -1, -1), (1, -1, 1), (1, 1, 1)],
        [(-1, 1, 1), (-1, -1, 1), (-1, -1, -1), (-1, 1, -1)],
        [(1, -1, 1), (-1, -1, 1), (-1, 1, 1), (1, 1, 1)],
        [(1, 1, -1), (-1, 1, -1), (-1, -1, -1), (1, -1, -1)],
    ];
    signs
        .iter()
        .map(|side| {
            quad([
                (side[0].0 + 2 * centre.0, side[0].1 + 2 * centre.1, side[0].2 + 2 * centre.2),
                (side[1].0 + 2 * centre.0, side[1].1 + 2 * centre.1, side[1].2 + 2 * centre.2),
                (side[2].0 + 2 * centre.0, side[2].1 + 2 * centre.1, side[2].2 + 2 * centre.2),
                (side[3].0 + 2 * centre.0, side[3].1 + 2 * centre.1, side[3].2 + 2 * centre.2),
            ])
        })
        .collect()
}

fn shape_holds(mesh: &ChunkMesh) {
    assert_eq!(mesh.vertices.len(), 4 * mesh.sides);
    assert_eq!(mesh.colors.len(), 4 * mesh.sides);
    assert_eq!(mesh.indices.len(), 6 * mesh.sides);
    for (side, six) in mesh.indices.chunks(6).enumerate() {
        let base = 4 * side as u32;
        assert_eq!(six, [base + 2, base + 1, base, base + 3, base + 2, base]);
    }
}

#[test]
fn a_chunk_of_air_has_the_empty_mesh() {
    let mesh = Chunk::new().create_mesh_culled(&ChunkPos::new(0, 0, 0), &ChunkMap::new());
    assert_eq!(mesh.sides, 0);
    assert!(mesh.vertices.is_empty());
    assert!(mesh.colors.is_empty());
    assert!(mesh.indices.is_empty());
    let fresh = ChunkMesh::new();
    assert_eq!(fresh.sides, 0);
    assert!(fresh.vertices.is_empty() && fresh.colors.is_empty() && fresh.indices.is_empty());
}

#[test]
fn a_lone_block_shows_six_sides() {
    let mut chunk = Chunk::new();
    put(&mut chunk, 1, 2, 3, BlockType::Sand);
    let mesh = chunk.create_mesh_culled(&ChunkPos::new(5, -6, 7), &ChunkMap::new());
    assert_eq!(mesh.sides, 6);
    assert_eq!(mesh.vertices.len(), 24);
    assert_eq!(mesh.colors.len(), 24);
    assert_eq!(mesh.indices.len(), 36);
    assert_eq!(mesh.indices.len() / 3, 12);
    shape_holds(&mesh);
    let expected: Vec<Vertex> = quads_of((1, 2, 3)).concat();
    assert_eq!(mesh.vertices, expected);
    assert_eq!(mesh.vertices[0], Vertex { x: 3, y: 5, z: 7 });
    assert_eq!(mesh.vertices[4], Vertex { x: 3, y: 3, z: 5 });
    assert_eq!(&mesh.indices[0..12], [2, 1, 0, 3, 2, 0, 6, 5, 4, 7, 6, 4]);
    assert!(mesh.colors.iter().all(|c| *c == Rgb { r: 255, g: 215, b: 0 }));
}

#[test]
fn a_lone_block_in_a_corner_shows_six_sides() {
    for corner in [(0, 0, 0), (31, 31, 31), (0, 31, 0), (31, 0, 31)] {
        let mut chunk = Chunk::new();
        put(&mut chunk, corner.0, corner.1, corner.2, BlockType::Stone);
        let mesh = chunk.create_mesh_culled(&ChunkPos::new(0, 0, 0), &ChunkMap::new());
        assert_eq!(mesh.sides, 6);
        assert_eq!(mesh.vertices, quads_of(corner).concat());
        shape_holds(&mesh);
    }
}

#[test]
fn a_block_inside_shows_nothing() {
    let mut chunk = Chunk::new();
    put(&mut chunk, 10, 10, 10, BlockType::Iron);
    for (x, y, z) in [(10, 11, 10), (10, 9, 10), (11, 10, 10), (9, 10, 10), (10, 10, 11), (10, 10, 9)] {
        put(&mut chunk, x, y, z, BlockType::Stone);
    }
    let mesh = chunk.create_mesh_culled(&ChunkPos::new(0, 0, 0), &ChunkMap::new());
    assert_eq!(mesh.sides, 30);
    shape_holds(&mesh);
    assert!(mesh.colors.iter().all(|c| *c == Rgb { r: 169, g: 169, b: 169 }));
    let hidden = quads_of((10, 10, 10));
    for shown in mesh.vertices.chunks(4) {
        assert!(!hidden.iter().any(|h| h.as_slice() == shown));
    }
}

#[test]
fn a_solid_cube_shows_its_outside() {
    let mut chunk = Chunk::new();
    for x in 10..13 {
        for y in 10..13 {
            for z in 10..13 {
                put(&mut chunk, x, y, z, BlockType::Dirt);
            }
        }
    }
    let mesh = chunk.create_mesh_culled(&ChunkPos::new(0, 0, 0), &ChunkMap::new());
    assert_eq!(mesh.sides, 54);
    shape_holds(&mesh);
}

#[test]
fn a_full_chunk_alone_shows_its_six_walls() {
    let mut chunk = Chunk::new();
    for x in 0..32 {
        for y in 0..32 {
            for z in 0..32 {
                chunk.spawn_block_unchecked(x, y, z, BlockType::Stone);
            }
        }
    }
    let mesh = chunk.create_mesh_culled(&ChunkPos::new(0, 0, 0), &ChunkMap::new());
    assert_eq!(mesh.sides, 6 * 32 * 32);
    shape_holds(&mesh);
    assert_eq!(*mesh.indices.last().unwrap(), 4 * (6 * 32 * 32 - 1));
}

#[test]
fn sides_come_voxel_by_voxel_in_index_order() {
    let mut chunk = Chunk::new();
    put(&mut chunk, 0, 1, 0, BlockType::Water);
    put(&mut chunk, 5, 0, 0, BlockType::Coal);
    put(&mut chunk, 4, 0, 0, BlockType::Ice);
    let mesh = chunk.create_mesh_culled(&ChunkPos::new(0, 0, 0), &ChunkMap::new());
    assert_eq!(mesh.sides, 16);
    shape_holds(&mesh);
    let ice = quads_of((4, 0, 0));
    let coal = quads_of((5, 0, 0));
    let water = quads_of((0, 1, 0));
    let expected: Vec<Vertex> = [
        ice[0].clone(),
        ice[1].clone(),
        ice[3].clone(),
        ice[4].clone(),
        ice[5].clone(),
        coal[0].clone(),
        coal[1].clone(),
        coal[2].clone(),
        coal[4].clone(),
        coal[5].clone(),
        water.concat(),
    ]
    .concat();
    assert_eq!(mesh.vertices, expected);
    let mut colors = vec![Rgb { r: 127, g: 255, b: 212 }; 20];
    colors.extend(vec![Rgb { r: 0, g: 0, b: 0 }; 20]);
    colors.extend(vec![Rgb { r: 0, g: 0, b: 128 }; 24]);
    assert_eq!(mesh.colors, colors);
}

#[test]
fn a_side_at_the_border_shows_until_the_neighbour_hides_it() {
    let mut a = Chunk::new();
    put(&mut a, 31, 5, 5, BlockType::Stone);
    let here = ChunkPos::new(0, 0, 0);
    let alone = a.create_mesh_culled(&here, &ChunkMap::new());
    assert_eq!(alone.sides, 6);
    assert_eq!(alone.vertices, quads_of((31, 5, 5)).concat());
    assert_eq!(alone.vertices[8..12], quad([(63, 11, 9), (63, 9, 9), (63, 9, 11), (63, 11, 11)])[..]);

    let mut b = Chunk::new();
    put(&mut b, 0, 5, 5, BlockType::Stone);
    let mut map = ChunkMap::new();
    map.insert(here, &a);
    map.insert(ChunkPos::new(1, 0, 0), &b);
    let beside = a.create_mesh_culled(&here, &map);
    assert_eq!(beside.sides, 5);
    shape_holds(&beside);
    let all = quads_of((31, 5, 5));
    let expected: Vec<Vertex> =
        [all[0].clone(), all[1].clone(), all[3].clone(), all[4].clone(), all[5].clone()].concat();
    assert_eq!(beside.vertices, expected);
    assert_eq!(beside.vertices[8..12], quad([(61, 11, 11), (61, 9, 11), (61, 9, 9), (61, 11, 9)])[..]);

    let other = b.create_mesh_culled(&ChunkPos::new(1, 0, 0), &map);
    assert_eq!(other.sides, 5);
    let all = quads_of((0, 5, 5));
    let expected: Vec<Vertex> =
        [all[0].clone(), all[1].clone(), all[2].clone(), all[4].clone(), all[5].clone()].concat();
    assert_eq!(other.vertices, expected);
}

#[test]
fn a_neighbour_of_air_hides_nothing() {
    let mut a = Chunk::new();
    put(&mut a, 31, 5, 5, BlockType::Stone);
    let mut b = Chunk::new();
    put(&mut b, 0, 5, 6, BlockType::Stone);
    put(&mut b, 1, 5, 5, BlockType::Stone);
    let mut map = ChunkMap::new();
    map.insert(ChunkPos::new(1, 0, 0), &b);
    map.insert(ChunkPos::new(-1, 0, 0), &b);
    map.insert(ChunkPos::new(1, 1, 0), &b);
    assert_eq!(a.create_mesh_culled(&ChunkPos::new(0, 0, 0), &map).sides, 6);
}

#[test]
fn neighbours_on_all_six_sides() {
    let mut centre = Chunk::new();
    let mut around = Chunk::new();
    for (x, y, z) in [(0, 7, 7), (31, 7, 7), (7, 0, 7), (7, 31, 7), (7, 7, 0), (7, 7, 31)] {
        put(&mut centre, x, y, z, BlockType::Copper);
        put(&mut around, x, y, z, BlockType::Copper);
    }
    let here = ChunkPos::new(-3, 2, 9);
    let mut map = ChunkMap::new();
    assert_eq!(centre.create_mesh_culled(&here, &map).sides, 36);
    let steps = [(1, 0, 0), (-1, 0, 0), (0, 1, 0), (0, -1, 0), (0, 0, 1), (0, 0, -1)];
    for (count, (dx, dy, dz)) in steps.iter().enumerate() {
        map.insert(ChunkPos::new(-3 + dx, 2 + dy, 9 + dz), &around);
        assert_eq!(centre.create_mesh_culled(&here, &map).sides, 36 - (count + 1));
    }
}

#[test]
fn the_chunk_answers_for_itself_whatever_the_map_holds() {
    let mut a = Chunk::new();
    put(&mut a, 3, 3, 3, BlockType::Stone);
    put(&mut a, 4, 3, 3, BlockType::Stone);
    let air = Chunk::new();
    let mut map = ChunkMap::new();
    map.insert(ChunkPos::new(0, 0, 0), &air);
    assert_eq!(a.create_mesh_culled(&ChunkPos::new(0, 0, 0), &map).sides, 10);
}

#[test]
fn update_overwrites_the_buffers() {
    let mut full = Chunk::new();
    put(&mut full, 1, 1, 1, BlockType::Stone);
    put(&mut full, 9, 9, 9, BlockType::Stone);
    let map = ChunkMap::new();
    let here = ChunkPos::new(0, 0, 0);
    let mut mesh = full.create_mesh_culled(&here, &map);
    assert_eq!(mesh.sides, 12);
    let mut one = Chunk::new();
    put(&mut one, 2, 2, 2, BlockType::Water);
    one.update_mesh_culled(&mut mesh, &here, &map);
    assert_eq!(mesh.sides, 6);
    assert_eq!(mesh.vertices, quads_of((2, 2, 2)).concat());
    assert_eq!(mesh.colors, vec![Rgb { r: 0, g: 0, b: 128 }; 24]);
    shape_holds(&mesh);
    Chunk::new().update_mesh_culled(&mut mesh, &here, &map);
    assert_eq!(mesh.sides, 0);
    assert!(mesh.vertices.is_empty() && mesh.colors.is_empty() && mesh.indices.is_empty());
}

#[test]
fn the_mesh_at_the_end_of_the_world() {
    let mut chunk = Chunk::new();
    put(&mut chunk, 31, 31, 31, BlockType::Stone);
    put(&mut chunk, 0, 0, 0, BlockType::Stone);
    let map = ChunkMap::new();
    assert_eq!(chunk.create_mesh_culled(&ChunkPos::new(67108863, 67108863, 67108863), &map).sides, 12);
    assert_eq!(chunk.create_mesh_culled(&ChunkPos::new(-67108864, -67108864, -67108864), &map).sides, 12);
    assert_eq!(chunk.create_mesh_culled(&ChunkPos::new(i32::MAX, i32::MIN, i32::MAX), &map).sides, 12);
}

#[test]
fn has_in_map_looks_in_the_owning_chunk() {
    let mut a = Chunk::new();
    put(&mut a, 31, 5, 5, BlockType::Stone);
    let mut b = Chunk::new();
    put(&mut b, 0, 5, 5, BlockType::Stone);
    let here = ChunkPos::new(0, 0, 0);
    let mut map = ChunkMap::new();
    let at = |x, y, z| WorldBlockPos { x, y, z };
    assert!(has_in_map_at(&at(31, 5, 5), &here, &a, &map));
    assert!(!has_in_map_at(&at(30, 5, 5), &here, &a, &map));
    assert!(!has_in_map_at(&at(32, 5, 5), &here, &a, &map));
    assert!(!has_in_map_at(&at(-1, 5, 5), &here, &a, &map));
    map.insert(ChunkPos::new(1, 0, 0), &b);
    assert!(has_in_map_at(&at(32, 5, 5), &here, &a, &map));
    assert!(!has_in_map_at(&at(33, 5, 5), &here, &a, &map));
    assert!(!has_in_map_at(&at(32, 5, 6), &here, &a, &map));
    map.insert(ChunkPos::new(-1, 0, 0), &a);
    assert!(has_in_map_at(&at(-1, 5, 5), &here, &a, &map));
    assert!(!has_in_map_at(&at(-32, 5, 5), &here, &a, &map));
    assert!(has_in_map_at(&at(-1, 5, 5), &ChunkPos::new(-1, 0, 0), &a, &ChunkMap::new()));
    assert!(!has_in_map_at(&at(-1, 5, 5), &ChunkPos::new(-1, 0, 0), &b, &map));
}

#[test]
fn the_tables_of_the_sides() {
    assert_eq!(SIDES_INDICES, [2, 1, 0, 3, 2, 0]);
    assert_eq!(SIDES_OFFSETS, [(0, 1, 0), (0, -1, 0), (1, 0, 0), (-1, 0, 0), (0, 0, 1), (0, 0, -1)]);
    for (side, corners) in SIDES_VERTICES.iter().enumerate() {
        let (ox, oy, oz) = SIDES_OFFSETS[side];
        for (x, y, z) in corners {
            assert!(x.abs() == 1 && y.abs() == 1 && z.abs() == 1);
            assert_eq!(x * ox + y * oy + z * oz, 1);
        }
        for a in 0..4 {
            for b in 0..a {
                assert_ne!(corners[a], corners[b]);
            }
        }
    }
    let centre = quads_of((0, 0, 0));
    for (side, corners) in SIDES_VERTICES.iter().enumerate() {
        assert_eq!(centre[side], quad(*corners));
    }
}
