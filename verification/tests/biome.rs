use yamc::map::chunk::Rgb;
use yamc::map::generator::biome::{
    Biome, FOREST_TEMP, FREEZE_TEMP, ICE_PIKE_HEIGHT, MAX_DESERT_HEIGHT, MOUNTAIN_HEIGHT, OCEAN_HEIGHT,
    PLAINS_TEMP,
};

fn by_the_table(temperature: u8, vertical: u8) -> Biome {
    match (temperature, vertical) {
        (0..=49, 0..=101) => Biome::FrozenOcean,
        (50..=255, 0..=101) => Biome::Ocean,
        (0..=49, _) => Biome::Tundra,
        (_, 197..=206) => Biome::Mountain,
        (_, 207..=255) => Biome::IcePike,
        (50..=99, _) => Biome::Forest,
        (100..=126, _) => Biome::Plains,
        (127..=255, 102..=186) => Biome::Desert,
        _ => Biome::Forest,
    }
}

#[test]
fn thresholds() {
    assert_eq!(OCEAN_HEIGHT, 102);
    assert_eq!(MOUNTAIN_HEIGHT, 197);
    assert_eq!(ICE_PIKE_HEIGHT, 207);
    assert_eq!(MAX_DESERT_HEIGHT, 187);
    assert_eq!(FREEZE_TEMP, 50);
    assert_eq!(FOREST_TEMP, 100);
    assert_eq!(PLAINS_TEMP, 127);
}

#[test]
fn cold_and_low_is_frozen_ocean() {
    assert_eq!(Biome::from_map(FREEZE_TEMP - 1, OCEAN_HEIGHT - 1), Biome::FrozenOcean);
    assert_eq!(Biome::from_map(0, 0), Biome::FrozenOcean);
}

#[test]
fn hot_above_the_ocean_is_desert_below_the_desert_height() {
    assert_eq!(Biome::from_map(PLAINS_TEMP, OCEAN_HEIGHT + 1), Biome::Desert);
    assert_eq!(Biome::from_map(PLAINS_TEMP, MAX_DESERT_HEIGHT - 1), Biome::Desert);
    assert_eq!(Biome::from_map(PLAINS_TEMP, MAX_DESERT_HEIGHT), Biome::Forest);
    assert_eq!(Biome::from_map(255, MOUNTAIN_HEIGHT - 1), Biome::Forest);
}

#[test]
fn every_rule_at_its_borders() {
    assert_eq!(Biome::from_map(FREEZE_TEMP, OCEAN_HEIGHT - 1), Biome::Ocean);
    assert_eq!(Biome::from_map(255, 0), Biome::Ocean);
    assert_eq!(Biome::from_map(FREEZE_TEMP - 1, OCEAN_HEIGHT), Biome::Tundra);
    assert_eq!(Biome::from_map(0, 255), Biome::Tundra);
    assert_eq!(Biome::from_map(0, MOUNTAIN_HEIGHT), Biome::Tundra);
    assert_eq!(Biome::from_map(FREEZE_TEMP, MOUNTAIN_HEIGHT), Biome::Mountain);
    assert_eq!(Biome::from_map(255, ICE_PIKE_HEIGHT - 1), Biome::Mountain);
    assert_eq!(Biome::from_map(FREEZE_TEMP, ICE_PIKE_HEIGHT), Biome::IcePike);
    assert_eq!(Biome::from_map(255, 255), Biome::IcePike);
    assert_eq!(Biome::from_map(FREEZE_TEMP, OCEAN_HEIGHT), Biome::Forest);
    assert_eq!(Biome::from_map(FOREST_TEMP - 1, MOUNTAIN_HEIGHT - 1), Biome::Forest);
    assert_eq!(Biome::from_map(FOREST_TEMP, OCEAN_HEIGHT), Biome::Plains);
    assert_eq!(Biome::from_map(PLAINS_TEMP - 1, MOUNTAIN_HEIGHT - 1), Biome::Plains);
    assert_eq!(Biome::from_map(PLAINS_TEMP, OCEAN_HEIGHT), Biome::Desert);
}

#[test]
fn every_pair_has_the_biome_of_the_first_matching_rule() {
    for temperature in 0..=255u8 {
        for vertical in 0..=255u8 {
            assert_eq!(Biome::from_map(temperature, vertical), by_the_table(temperature, vertical));
        }
    }
}

#[test]
fn biome_colours() {
    assert_eq!(Biome::Tundra.color(), Rgb { r: 255, g: 255, b: 255 });
    assert_eq!(Biome::Plains.color(), Rgb { r: 147, g: 183, b: 104 });
    assert_eq!(Biome::Forest.color(), Rgb { r: 59, g: 123, b: 78 });
    assert_eq!(Biome::Desert.color(), Rgb { r: 250, g: 154, b: 36 });
    assert_eq!(Biome::Mountain.color(), Rgb { r: 128, g: 128, b: 128 });
    assert_eq!(Biome::IcePike.color(), Rgb { r: 255, g: 255, b: 255 });
    assert_eq!(Biome::FrozenOcean.color(), Rgb { r: 180, g: 180, b: 255 });
    assert_eq!(Biome::Ocean.color(), Rgb { r: 0, g: 0, b: 255 });
}
