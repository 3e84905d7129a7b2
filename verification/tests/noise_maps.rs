use yamc::map::chunk::BlockType;
use yamc::map::generator::biome::Biome;
use yamc::map::generator::noise_maps::{
    BiomeMap, CaveMap, HeightMap, Noise2D, Noise3D, NoiseVolume, ResourceMap, ToppingMap, FLAT_LEVEL,
    MAP_HEIGHT, NOISE_MID, NOISE_UNIT, VERTICAL_SCALE,
};

const AREA: usize = 32 * 32;
const VOLUME: usize = 32 * 32 * 256;

fn flat(level: u8) -> HeightMap {
    HeightMap::new(vec![level; AREA]).unwrap()
}

fn even(sample: u16) -> NoiseVolume {
    NoiseVolume::new(vec![sample; VOLUME]).unwrap()
}

fn place(x: usize, y: usize, z: usize) -> usize {
    (y * 32 + z) * 32 + x
}

#[test]
fn constants_of_the_layers() {
    assert_eq!(VERTICAL_SCALE, 100);
    assert_eq!(FLAT_LEVEL, 100);
    assert_eq!(MAP_HEIGHT, 256);
    assert_eq!(NOISE_UNIT, 1000);
    assert_eq!(NOISE_MID, 500);
}

#[test]
fn a_height_map_needs_a_sample_for_every_column() {
    assert!(HeightMap::new(vec![0; AREA]).is_some());
    assert!(HeightMap::new(vec![0; AREA - 1]).is_none());
    assert!(HeightMap::new(vec![0; AREA + 1]).is_none());
    assert!(HeightMap::new(Vec::new()).is_none());
}

#[test]
fn a_height_map_gives_its_samples_row_by_row() {
    let mut samples = vec![0u8; AREA];
    for (i, sample) in samples.iter_mut().enumerate() {
        *sample = (i % 251) as u8;
    }
    let map = HeightMap::new(samples.clone()).unwrap();
    for z in 0..32 {
        for x in 0..32 {
            assert_eq!(map.get(x, z), samples[(z * 32 + x) as usize]);
        }
    }
    assert_eq!(map.get(1, 0), 1);
    assert_eq!(map.get(0, 1), 32);
}

#[test]
fn outside_the_area_the_ground_is_flat() {
    let map = flat(7);
    assert_eq!(map.get(0, 0), 7);
    assert_eq!(map.get(-1, 0), 100);
    assert_eq!(map.get(0, -1), 100);
    assert_eq!(map.get(32, 0), 100);
    assert_eq!(map.get(0, 32), 100);
    assert_eq!(map.get(i32::MIN, i32::MAX), 100);
}

#[test]
fn a_noise_volume_needs_a_sample_for_every_voxel() {
    assert!(NoiseVolume::new(vec![0; VOLUME]).is_some());
    assert!(NoiseVolume::new(vec![0; VOLUME - 1]).is_none());
    assert!(NoiseVolume::new(vec![0; 32 * 32 * 32]).is_none());
}

#[test]
fn a_noise_volume_gives_its_samples_layer_by_layer() {
    let mut samples = vec![0u16; VOLUME];
    samples[place(1, 0, 0)] = 11;
    samples[place(0, 0, 1)] = 22;
    samples[place(0, 1, 0)] = 33;
    samples[place(31, 255, 31)] = 44;
    samples[place(3, 200, 5)] = 55;
    let volume = NoiseVolume::new(samples).unwrap();
    assert_eq!(volume.get(1, 0, 0), 11);
    assert_eq!(volume.get(0, 0, 1), 22);
    assert_eq!(volume.get(0, 1, 0), 33);
    assert_eq!(volume.get(31, 255, 31), 44);
    assert_eq!(volume.get(3, 200, 5), 55);
    assert_eq!(volume.get(5, 200, 3), 0);
}

#[test]
fn outside_the_volume_the_noise_is_at_its_middle() {
    let volume = even(7);
    assert_eq!(volume.get(0, 0, 0), 7);
    assert_eq!(volume.get(0, 255, 0), 7);
    assert_eq!(volume.get(0, 256, 0), 500);
    assert_eq!(volume.get(0, -1, 0), 500);
    assert_eq!(volume.get(-1, 0, 0), 500);
    assert_eq!(volume.get(32, 0, 0), 500);
    assert_eq!(volume.get(0, 0, 32), 500);
    assert_eq!(volume.get(0, 0, -1), 500);
}

#[test]
fn the_biome_map_classifies_temperature_and_height() {
    let heights = flat(120);
    let biomes = BiomeMap::new(flat(60), &heights);
    assert_eq!(biomes.get(0, 0), Biome::Forest);
    assert_eq!(biomes.get(31, 31), Biome::Forest);
    let mut temperature = vec![60u8; AREA];
    temperature[5 * 32 + 4] = 10;
    temperature[6 * 32 + 4] = 110;
    temperature[7 * 32 + 4] = 200;
    let biomes = BiomeMap::new(HeightMap::new(temperature).unwrap(), &heights);
    assert_eq!(biomes.get(4, 5), Biome::Tundra);
    assert_eq!(biomes.get(4, 6), Biome::Plains);
    assert_eq!(biomes.get(4, 7), Biome::Desert);
    assert_eq!(biomes.get(5, 4), Biome::Forest);
    assert_eq!(biomes.get(-1, 0), Biome::Ocean);
}

fn surface(temperature: u8, height: u8, desert: u8, forest: u8, mountain: u8) -> Option<u8> {
    let heights = flat(height);
    let biomes = BiomeMap::new(flat(temperature), &heights);
    let topping = ToppingMap::new(flat(desert), flat(forest), flat(mountain), &heights, &biomes);
    topping.map(|t| t.get(3, 4))
}

#[test]
fn the_surface_of_every_biome() {
    assert_eq!(surface(10, 120, 0, 80, 0), Some(124));
    assert_eq!(surface(60, 120, 0, 119, 0), Some(124));
    assert_eq!(surface(60, 120, 255, 120, 255), Some(125));
    assert_eq!(surface(110, 120, 81, 0, 0), Some(124));
    assert_eq!(surface(200, 120, 255, 0, 0), Some(128));
    assert_eq!(surface(200, 200, 0, 0, 90), Some(202));
    assert_eq!(surface(200, 210, 0, 0, 39), Some(210));
    assert_eq!(surface(10, 50, 200, 0, 0), Some(109));
    assert_eq!(surface(10, 50, 0, 255, 255), Some(104));
    assert_eq!(surface(100, 50, 255, 255, 255), Some(105));
    assert_eq!(surface(100, 0, 0, 0, 0), Some(105));
}

#[test]
fn a_surface_that_does_not_fit_in_a_byte_is_refused() {
    assert_eq!(surface(60, 255, 0, 0, 0), Some(255));
    assert_eq!(surface(60, 255, 0, 0, 39), Some(255));
    assert_eq!(surface(60, 255, 0, 0, 40), None);
    assert_eq!(surface(60, 250, 0, 0, 255), None);
    assert_eq!(surface(60, 249, 0, 0, 255), Some(255));
}

#[test]
fn one_column_too_high_refuses_the_map() {
    let mut samples = vec![120u8; AREA];
    samples[31 * 32 + 31] = 254;
    let heights = HeightMap::new(samples).unwrap();
    let biomes = BiomeMap::new(flat(60), &heights);
    assert!(ToppingMap::new(flat(0), flat(0), flat(80), &heights, &biomes).is_none());
    assert!(ToppingMap::new(flat(0), flat(0), flat(79), &heights, &biomes).is_some());
}

#[test]
fn outside_the_area_the_surface_is_that_of_flat_ground() {
    let heights = flat(120);
    let biomes = BiomeMap::new(flat(60), &heights);
    let topping = ToppingMap::new(flat(0), flat(0), flat(0), &heights, &biomes).unwrap();
    assert_eq!(topping.get(0, 0), 122);
    assert_eq!(topping.get(-1, 0), 105);
    assert_eq!(topping.get(0, 32), 105);
}

fn carved(temperature: u8, height: u8, density: u16) -> bool {
    let heights = flat(height);
    let biomes = BiomeMap::new(flat(temperature), &heights);
    CaveMap::new(even(density), &biomes).get(1, 2, 3)
}

#[test]
fn a_cave_is_where_the_cave_sample_is_low() {
    assert!(carved(60, 120, 0));
    assert!(carved(60, 120, 1));
    assert!(carved(60, 120, 299));
    assert!(!carved(60, 120, 300));
    assert!(!carved(60, 120, 301));
    assert!(!carved(60, 120, 500));
    assert!(!carved(60, 120, 1000));
    assert!(!carved(60, 120, 65535));
}

#[test]
fn no_cave_runs_under_open_water() {
    assert!(!carved(100, 50, 0));
    assert!(!carved(10, 50, 0));
    assert!(carved(10, 120, 0));
}

#[test]
fn no_cave_runs_outside_the_volume() {
    let heights = flat(120);
    let biomes = BiomeMap::new(flat(60), &heights);
    let caves = CaveMap::new(even(0), &biomes);
    assert!(caves.get(0, 0, 0));
    assert!(caves.get(31, 255, 31));
    assert!(!caves.get(0, 256, 0));
    assert!(!caves.get(0, -1, 0));
    assert!(!caves.get(32, 0, 0));
}

fn ore(iron: u16, copper: u16, coal: u16) -> BlockType {
    ResourceMap::new(even(iron), even(copper), even(coal)).get(1, 2, 3)
}

#[test]
fn the_first_ore_below_its_threshold_wins() {
    assert_eq!(ore(99, 99, 99), BlockType::Iron);
    assert_eq!(ore(99, 500, 500), BlockType::Iron);
    assert_eq!(ore(100, 99, 99), BlockType::Copper);
    assert_eq!(ore(500, 0, 500), BlockType::Copper);
    assert_eq!(ore(100, 100, 99), BlockType::Coal);
    assert_eq!(ore(500, 500, 0), BlockType::Coal);
    assert_eq!(ore(100, 100, 100), BlockType::Stone);
    assert_eq!(ore(500, 500, 500), BlockType::Stone);
}

#[test]
fn outside_the_volume_there_is_stone() {
    let ores = ResourceMap::new(even(0), even(0), even(0));
    assert_eq!(ores.get(0, 0, 0), BlockType::Iron);
    assert_eq!(ores.get(0, 256, 0), BlockType::Stone);
    assert_eq!(ores.get(-1, 0, 0), BlockType::Stone);
}
