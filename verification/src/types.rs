//! Identifiers of map tiles, regions and chunks.
use vstd::prelude::*;

verus! {

/// Biome of one terrain cell.
#[derive(Debug, Clone, Copy, PartialEq, Eq, Structural)]
pub enum TileType {
    DeepWater,
    Water,
    Sand,
    Grass,
    Forest,
    Mountain,
    Snow,
    RockyShore,
    Desert,
    Savanna,
    Swamp,
    Shrubland,
    Rainforest,
    Tundra,
}

/// Number of biomes.
pub const TILE_TYPE_COUNT: usize = 14usize;

/// The stable numeric code of a biome (`DeepWater` = 0 … `Tundra` = 13).
pub open spec fn spec_tile_index(t: TileType) -> nat {
    match t {
        TileType::DeepWater => 0,
        TileType::Water => 1,
        TileType::Sand => 2,
        TileType::Grass => 3,
        TileType::Forest => 4,
        TileType::Mountain => 5,
        TileType::Snow => 6,
        TileType::RockyShore => 7,
        TileType::Desert => 8,
        TileType::Savanna => 9,
        TileType::Swamp => 10,
        TileType::Shrubland => 11,
        TileType::Rainforest => 12,
        TileType::Tundra => 13,
    }
}

/// The biome with numeric code `i`; codes past the last biome give `Tundra`.
pub open spec fn spec_tile_from_index(i: nat) -> TileType {
    if i == 0 {
        TileType::DeepWater
    } else if i == 1 {
        TileType::Water
    } else if i == 2 {
        TileType::Sand
    } else if i == 3 {
        TileType::Grass
    } else if i == 4 {
        TileType::Forest
    } else if i == 5 {
        TileType::Mountain
    } else if i == 6 {
        TileType::Snow
    } else if i == 7 {
        TileType::RockyShore
    } else if i == 8 {
        TileType::Desert
    } else if i == 9 {
        TileType::Savanna
    } else if i == 10 {
        TileType::Swamp
    } else if i == 11 {
        TileType::Shrubland
    } else if i == 12 {
        TileType::Rainforest
    } else {
        TileType::Tundra
    }
}

pub fn tile_index(t: TileType) -> (i: usize)
    ensures
        i == spec_tile_index(t),
        i < TILE_TYPE_COUNT,
{
    match t {
        TileType::DeepWater => 0,
        TileType::Water => 1,
        TileType::Sand => 2,
        TileType::Grass => 3,
        TileType::Forest => 4,
        TileType::Mountain => 5,
        TileType::Snow => 6,
        TileType::RockyShore => 7,
        TileType::Desert => 8,
        TileType::Savanna => 9,
        TileType::Swamp => 10,
        TileType::Shrubland => 11,
        TileType::Rainforest => 12,
        TileType::Tundra => 13,
    }
}

pub fn tile_type_from_index(i: usize) -> (t: TileType)
    ensures
        t == spec_tile_from_index(i as nat),
{
    match i {
        0 => TileType::DeepWater,
        1 => TileType::Water,
        2 => TileType::Sand,
        3 => TileType::Grass,
        4 => TileType::Forest,
        5 => TileType::Mountain,
        6 => TileType::Snow,
        7 => TileType::RockyShore,
        8 => TileType::Desert,
        9 => TileType::Savanna,
        10 => TileType::Swamp,
        11 => TileType::Shrubland,
        12 => TileType::Rainforest,
        _ => TileType::Tundra,
    }
}

/// Biome codes and biomes correspond one to one.
pub proof fn law_tile_index_roundtrip(t: TileType, i: nat)
    ensures
        spec_tile_from_index(spec_tile_index(t)) == t,
        i < 14 ==> spec_tile_index(spec_tile_from_index(i)) == i,
        spec_tile_index(t) < 14,
{
}

#[derive(Debug, Clone, Copy, PartialEq, Eq, Hash, Structural)]
pub struct RegionId {
    pub rx: u32,
    pub ry: u32,
}

#[derive(Debug, Clone, Copy, PartialEq, Eq, Hash, Structural)]
pub struct ChunkId {
    pub cx: u32,
    pub cy: u32,
}

/// Open water biomes: deep and shallow water.
pub open spec fn water_tile(t: TileType) -> bool {
    t == TileType::Water || t == TileType::DeepWater
}

/// Whether a biome is open water.
pub fn is_water_biome(biome: TileType) -> (r: bool)
    ensures
        r == water_tile(biome),
{
    match biome {
        TileType::Water | TileType::DeepWater => true,
        _ => false,
    }
}

} // verus!
