use yamc::map::chunk::chunk_coordinates::ChunkCoordinates;
use yamc::map::chunk::Chunk;
use yamc::map::render::chunk_coordinates::ChunkCoordinates as ColumnCoordinates;
use yamc::utils::{
    axis_distance, checked_join_axis, join_axis, split_axis, BlockPos, ChunkPos, WorldBlockPos, CHUNK_SIZE,
    CHUNK_SIZE_I32, CHUNK_VOLUME,
};

#[test]
fn minus_one_belongs_to_the_chunk_before_zero() {
    assert_eq!(split_axis(-1, 32), (-1, 31));
    assert_eq!(join_axis(-1, 31), -1);
}

#[test]
fn split_axis_on_both_sides_of_zero() {
    assert_eq!(split_axis(0, 32), (0, 0));
    assert_eq!(split_axis(31, 32), (0, 31));
    assert_eq!(split_axis(32, 32), (1, 0));
    assert_eq!(split_axis(-32, 32), (-1, 0));
    assert_eq!(split_axis(-33, 32), (-2, 31));
    assert_eq!(split_axis(-64, 32), (-2, 0));
    assert_eq!(split_axis(100, 7), (14, 2));
    assert_eq!(split_axis(-100, 7), (-15, 5));
}

#[test]
fn split_then_join_gives_the_coordinate_back() {
    for v in -200..200 {
        let (chunk, local) = split_axis(v, CHUNK_SIZE_I32);
        assert!(0 <= local && local < CHUNK_SIZE_I32);
        assert_eq!(join_axis(chunk, local), v);
    }
    for size in 1..40 {
        for v in -90..90 {
            let (chunk, local) = split_axis(v, size);
            assert!(0 <= local && local < size);
            assert_eq!(chunk * size + local, v);
        }
    }
}

#[test]
fn split_axis_at_the_ends_of_the_range() {
    assert_eq!(split_axis(i32::MIN, 32), (-67108864, 0));
    assert_eq!(split_axis(i32::MAX, 32), (67108863, 31));
    assert_eq!(split_axis(i32::MIN, 1), (i32::MIN, 0));
    assert_eq!(split_axis(i32::MAX, 1), (i32::MAX, 0));
    assert_eq!(split_axis(i32::MIN, i32::MAX), (-2, i32::MAX - 1));
}

#[test]
fn checked_join_axis_refuses_what_does_not_fit() {
    assert_eq!(checked_join_axis(67108863, 31), Some(i32::MAX));
    assert_eq!(checked_join_axis(67108863, 32), None);
    assert_eq!(checked_join_axis(-67108864, 0), Some(i32::MIN));
    assert_eq!(checked_join_axis(-67108864, -1), None);
    assert_eq!(checked_join_axis(i32::MAX, 0), None);
    assert_eq!(checked_join_axis(2, 5), Some(69));
}

#[test]
fn world_position_of_a_block_in_a_chunk() {
    let world = WorldBlockPos::from(&ChunkPos::new(-1, 0, 2), &BlockPos::new(31, 5, 0));
    assert_eq!(world, WorldBlockPos { x: -1, y: 5, z: 64 });
    assert_eq!(ChunkPos::from(world), ChunkPos::new(-1, 0, 2));
    assert_eq!(BlockPos::from(world), BlockPos::new(31, 5, 0));
}

#[test]
fn world_position_of_a_block_beside_the_chunk() {
    let world = WorldBlockPos::from(&ChunkPos::new(0, 0, 0), &BlockPos::new(-1, 32, 0));
    assert_eq!(world, WorldBlockPos { x: -1, y: 32, z: 0 });
    assert_eq!(ChunkPos::from(world), ChunkPos::new(-1, 1, 0));
    assert_eq!(BlockPos::from(world), BlockPos::new(31, 0, 0));
}

#[test]
fn checked_world_position_ends_with_the_coordinates() {
    let last = ChunkPos::new(67108863, 0, 0);
    assert_eq!(
        WorldBlockPos::checked_from(&last, &BlockPos::new(31, 0, 0)),
        Some(WorldBlockPos { x: i32::MAX, y: 0, z: 0 })
    );
    assert_eq!(WorldBlockPos::checked_from(&last, &BlockPos::new(32, 0, 0)), None);
    assert_eq!(WorldBlockPos::checked_from(&ChunkPos::new(0, i32::MIN, 0), &BlockPos::new(0, 0, 0)), None);
}

#[test]
fn chunk_coordinates_of_a_world_block() {
    let (coordinates, bx, by, bz) = ChunkCoordinates::from_global_block_pos(-1, 40, 95);
    assert_eq!(coordinates, ChunkCoordinates::new(-1, 1, 2));
    assert_eq!((bx, by, bz), (31, 8, 31));
    assert_eq!(coordinates.get_global_block_pos(bx, by, bz), (-1, 40, 95));
    assert_eq!(ChunkCoordinates::from_global_block_pos_axis(-1, 32), (-1, 31));
    assert_eq!(ChunkCoordinates::from_global_block_pos_axis(-33, 16), (-3, 15));
}

#[test]
fn chunk_coordinates_round_trip_over_a_region() {
    for x in -70..70 {
        for y in [-33, -1, 0, 31, 32, 100] {
            let (coordinates, bx, by, bz) = ChunkCoordinates::from_global_block_pos(x, y, -x);
            assert_eq!(coordinates.get_global_block_pos(bx, by, bz), (x, y, -x));
        }
    }
}

#[test]
fn global_position_is_the_chunk_index_times_the_extent() {
    assert_eq!(ChunkCoordinates::new(0, 0, 0).global_pos(), (0, 0, 0));
    assert_eq!(ChunkCoordinates::new(1, 2, -3).global_pos(), (32, 64, -96));
    assert_eq!(ChunkCoordinates::new(2, 3, -1).global_pos(), (64, 96, -32));
    assert_eq!(
        ChunkCoordinates::new(i32::MAX, i32::MIN, 0).global_pos(),
        (68719476704, -68719476736, 0)
    );
}

#[test]
fn distance_is_the_sum_on_both_axes() {
    let coordinates = ChunkCoordinates::new(3, 100, -4);
    assert_eq!(coordinates.distance(3, -4), 0);
    assert_eq!(coordinates.distance(0, 0), 7);
    assert_eq!(coordinates.distance(-2, 6), 15);
    assert_eq!(ChunkCoordinates::new(i32::MAX, 0, 0).distance(0, 0), i32::MAX);
    let column = ColumnCoordinates::new(3, -4);
    assert_eq!(column, ColumnCoordinates { x: 3, z: -4 });
    assert_eq!(column.distance(-2, 6), 15);
    assert_eq!(column.distance(3, -4), 0);
}

#[test]
fn planar_distance_ignores_the_height() {
    let a = ChunkPos::new(1, 50, 1);
    let b = ChunkPos::new(-2, -50, 5);
    assert_eq!(a.planar_distance(&b), 7);
    assert_eq!(b.planar_distance(&a), 7);
    assert_eq!(a.planar_distance(&a), 0);
    assert_eq!(axis_distance(-5, 5), 10);
    assert_eq!(axis_distance(i32::MIN + 1, 0), i32::MAX);
}

#[test]
fn index_law_is_layers_of_rows() {
    assert_eq!(Chunk::pos_to_index(0, 0, 0), 0);
    assert_eq!(Chunk::pos_to_index(1, 0, 0), 1);
    assert_eq!(Chunk::pos_to_index(0, 0, 1), 32);
    assert_eq!(Chunk::pos_to_index(0, 1, 0), 1024);
    assert_eq!(Chunk::pos_to_index(5, 6, 7), 6 * 1024 + 7 * 32 + 5);
    assert_eq!(Chunk::pos_to_index(31, 31, 31), CHUNK_VOLUME - 1);
    assert_eq!(Chunk::index_to_pos(0), (0, 0, 0));
    assert_eq!(Chunk::index_to_pos(6 * 1024 + 7 * 32 + 5), (5, 6, 7));
    assert_eq!(Chunk::index_to_pos(CHUNK_VOLUME - 1), (31, 31, 31));
}

#[test]
fn index_law_is_a_bijection() {
    let mut seen = vec![false; CHUNK_VOLUME];
    for x in 0..CHUNK_SIZE_I32 {
        for y in 0..CHUNK_SIZE_I32 {
            for z in 0..CHUNK_SIZE_I32 {
                let index = Chunk::pos_to_index(x, y, z);
                assert!(index < CHUNK_VOLUME);
                assert!(!seen[index]);
                seen[index] = true;
                assert_eq!(Chunk::index_to_pos(index), (x, y, z));
            }
        }
    }
    assert!(seen.iter().all(|s| *s));
    for index in 0..CHUNK_VOLUME {
        let (x, y, z) = Chunk::index_to_pos(index);
        assert_eq!(Chunk::pos_to_index(x, y, z), index);
    }
}

#[test]
fn block_pos_and_index() {
    assert_eq!(CHUNK_SIZE, 32);
    assert_eq!(CHUNK_VOLUME, 32 * 32 * 32);
    assert_eq!(Chunk::SIZE, CHUNK_VOLUME);
    assert_eq!((Chunk::WIDTH, Chunk::HEIGHT, Chunk::LENGTH), (32, 32, 32));
    assert_eq!(BlockPos::new(5, 6, 7).to_index(), 6 * 1024 + 7 * 32 + 5);
    assert_eq!(BlockPos::from_index(6 * 1024 + 7 * 32 + 5), BlockPos::new(5, 6, 7));
    for index in 0..CHUNK_VOLUME {
        let pos = BlockPos::from_index(index);
        assert!(pos.is_valid());
        assert_eq!(pos.to_index(), index);
    }
}

#[test]
fn block_pos_validity() {
    assert!(BlockPos::new(0, 0, 0).is_valid());
    assert!(BlockPos::new(31, 31, 31).is_valid());
    assert!(!BlockPos::new(-1, 0, 0).is_valid());
    assert!(!BlockPos::new(0, -1, 0).is_valid());
    assert!(!BlockPos::new(0, 0, -1).is_valid());
    assert!(!BlockPos::new(32, 0, 0).is_valid());
    assert!(!BlockPos::new(0, 32, 0).is_valid());
    assert!(!BlockPos::new(0, 0, 32).is_valid());
}
