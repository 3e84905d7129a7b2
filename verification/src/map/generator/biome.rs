//! Biomes and the rule table that tells them apart.

use vstd::prelude::*;
use crate::map::chunk::Rgb;

verus! {

/// The kind of landscape of a terrain column.
#[derive(Copy, Clone, Debug, PartialEq, Eq, Hash, Structural)]
pub enum Biome {
    Tundra,
    Plains,
    Forest,
    Desert,
    Mountain,
    IcePike,
    FrozenOcean,
    Ocean,
}

/// Columns lower than this are under water.
pub const OCEAN_HEIGHT: u8 = 102;

/// Columns from this height up are mountains.
pub const MOUNTAIN_HEIGHT: u8 = 197;

/// Columns from this height up are ice pikes.
pub const ICE_PIKE_HEIGHT: u8 = 207;

/// Deserts end below this height.
pub const MAX_DESERT_HEIGHT: u8 = 187;

/// Below this temperature everything freezes.
pub const FREEZE_TEMP: u8 = 50;

/// Forests grow below this temperature.
pub const FOREST_TEMP: u8 = 100;

/// Plains lie below this temperature, deserts from it up.
pub const PLAINS_TEMP: u8 = 127;

/// Number of rules in the table.
pub const RULES: usize = 9;

/// Whether rule number `rule` of the table admits a column of the given
/// temperature and height. The last rule admits every column.
pub open spec fn rule_matches(rule: int, temperature: u8, vertical: u8) -> bool {
    if rule == 0 {
        temperature < FREEZE_TEMP && vertical < OCEAN_HEIGHT
    } else if rule == 1 {
        temperature >= FREEZE_TEMP && vertical < OCEAN_HEIGHT
    } else if rule == 2 {
        temperature < FREEZE_TEMP
    } else if rule == 3 {
        MOUNTAIN_HEIGHT <= vertical < ICE_PIKE_HEIGHT
    } else if rule == 4 {
        vertical >= ICE_PIKE_HEIGHT
    } else if rule == 5 {
        FREEZE_TEMP <= temperature < FOREST_TEMP
    } else if rule == 6 {
        FOREST_TEMP <= temperature < PLAINS_TEMP
    } else if rule == 7 {
        temperature >= PLAINS_TEMP && OCEAN_HEIGHT <= vertical < MAX_DESERT_HEIGHT
    } else {
        rule == 8
    }
}

/// The biome that rule number `rule` gives.
pub open spec fn rule_biome(rule: int) -> Biome {
    if rule == 0 {
        Biome::FrozenOcean
    } else if rule == 1 {
        Biome::Ocean
    } else if rule == 2 {
        Biome::Tundra
    } else if rule == 3 {
        Biome::Mountain
    } else if rule == 4 {
        Biome::IcePike
    } else if rule == 5 {
        Biome::Forest
    } else if rule == 6 {
        Biome::Plains
    } else if rule == 7 {
        Biome::Desert
    } else {
        Biome::Forest
    }
}

/// Whether `rule` is the first rule of the table that admits the column.
pub open spec fn first_match(rule: int, temperature: u8, vertical: u8) -> bool {
    &&& 0 <= rule < RULES
    &&& rule_matches(rule, temperature, vertical)
    &&& forall|earlier: int| 0 <= earlier < rule ==> !rule_matches(earlier, temperature, vertical)
}

/// The biome of a column of the given temperature and height: the rules are
/// tried from the top, and the first that admits the column decides.
pub open spec fn classify(temperature: u8, vertical: u8) -> Biome {
    if rule_matches(0, temperature, vertical) {
        rule_biome(0)
    } else if rule_matches(1, temperature, vertical) {
        rule_biome(1)
    } else if rule_matches(2, temperature, vertical) {
        rule_biome(2)
    } else if rule_matches(3, temperature, vertical) {
        rule_biome(3)
    } else if rule_matches(4, temperature, vertical) {
        rule_biome(4)
    } else if rule_matches(5, temperature, vertical) {
        rule_biome(5)
    } else if rule_matches(6, temperature, vertical) {
        rule_biome(6)
    } else if rule_matches(7, temperature, vertical) {
        rule_biome(7)
    } else {
        rule_biome(8)
    }
}

/// Every column has exactly one first matching rule, and its biome is the
/// one that `classify` gives: the table leaves no column out and gives none
/// two biomes.
pub proof fn lemma_classification_total(temperature: u8, vertical: u8)
    ensures
        exists|rule: int| first_match(rule, temperature, vertical),
        forall|rule: int| #[trigger]
            first_match(rule, temperature, vertical) ==> rule_biome(rule) == classify(
                temperature,
                vertical,
            ),
        forall|a: int, b: int|
            first_match(a, temperature, vertical) && first_match(b, temperature, vertical) ==> a == b,
{
    let rule: int = if rule_matches(0, temperature, vertical) {
        0
    } else if rule_matches(1, temperature, vertical) {
        1
    } else if rule_matches(2, temperature, vertical) {
        2
    } else if rule_matches(3, temperature, vertical) {
        3
    } else if rule_matches(4, temperature, vertical) {
        4
    } else if rule_matches(5, temperature, vertical) {
        5
    } else if rule_matches(6, temperature, vertical) {
        6
    } else if rule_matches(7, temperature, vertical) {
        7
    } else {
        8
    };
    assert(first_match(rule, temperature, vertical));
    assert forall|a: int, b: int|
        first_match(a, temperature, vertical) && first_match(b, temperature, vertical) implies a
        == b by {
        if a < b {
            assert(!rule_matches(a, temperature, vertical));
        } else if b < a {
            assert(!rule_matches(b, temperature, vertical));
        }
    }
    assert forall|other: int| #[trigger] first_match(other, temperature, vertical) implies rule_biome(
        other,
    ) == classify(temperature, vertical) by {
        if other < rule {
            assert(!rule_matches(other, temperature, vertical));
        } else if rule < other {
            assert(!rule_matches(rule, temperature, vertical));
        }
    }
}

impl Biome {
    /// The biome of a column of the given temperature and height.
    pub fn from_map(temperature: u8, vertical: u8) -> (r: Biome)
        ensures
            r == classify(temperature, vertical),
    {
        if temperature < FREEZE_TEMP && vertical < OCEAN_HEIGHT {
            Biome::FrozenOcean
        } else if vertical < OCEAN_HEIGHT {
            Biome::Ocean
        } else if temperature < FREEZE_TEMP {
            Biome::Tundra
        } else if MOUNTAIN_HEIGHT <= vertical && vertical < ICE_PIKE_HEIGHT {
            Biome::Mountain
        } else if vertical >= ICE_PIKE_HEIGHT {
            Biome::IcePike
        } else if temperature < FOREST_TEMP {
            Biome::Forest
        } else if temperature < PLAINS_TEMP {
            Biome::Plains
        } else if vertical < MAX_DESERT_HEIGHT {
            Biome::Desert
        } else {
            Biome::Forest
        }
    }

    /// Whether the biome is open water, frozen over or not.
    pub open spec fn spec_is_ocean(self) -> bool {
        self == Biome::Ocean || self == Biome::FrozenOcean
    }

    /// The colour that stands for the biome on a map.
    pub open spec fn spec_color(self) -> Rgb {
        match self {
            Biome::Tundra => Rgb { r: 255, g: 255, b: 255 },
            Biome::Plains => Rgb { r: 147, g: 183, b: 104 },
            Biome::Forest => Rgb { r: 59, g: 123, b: 78 },
            Biome::Desert => Rgb { r: 250, g: 154, b: 36 },
            Biome::Mountain => Rgb { r: 128, g: 128, b: 128 },
            Biome::IcePike => Rgb { r: 255, g: 255, b: 255 },
            Biome::FrozenOcean => Rgb { r: 180, g: 180, b: 255 },
            Biome::Ocean => Rgb { r: 0, g: 0, b: 255 },
        }
    }

    /// The colour that stands for the biome on a map.
    pub fn color(&self) -> (r: Rgb)
        ensures
            r == self.spec_color(),
    {
        match self {
            Biome::Tundra => Rgb { r: 255, g: 255, b: 255 },
            Biome::Plains => Rgb { r: 147, g: 183, b: 104 },
            Biome::Forest => Rgb { r: 59, g: 123, b: 78 },
            Biome::Desert => Rgb { r: 250, g: 154, b: 36 },
            Biome::Mountain => Rgb { r: 128, g: 128, b: 128 },
            Biome::IcePike => Rgb { r: 255, g: 255, b: 255 },
            Biome::FrozenOcean => Rgb { r: 180, g: 180, b: 255 },
            Biome::Ocean => Rgb { r: 0, g: 0, b: 255 },
        }
    }
}

} // verus!
