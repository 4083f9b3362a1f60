//! Biome legend: display label and colour of every biome.
use vstd::prelude::*;
use crate::types::TileType;

verus! {

#[derive(Clone, Copy)]
pub struct BiomeInfo {
    pub label: &'static str,
    pub rgb: [u8; 3],
}

/// Number of rows of the biome legend.
pub const BIOME_LEGEND_LEN: usize = 14usize;

/// The biome shown in row `i` of the legend.
pub open spec fn legend_tile(i: nat) -> TileType {
    if i == 0 {
        TileType::DeepWater
    } else if i == 1 {
        TileType::Water
    } else if i == 2 {
        TileType::Sand
    } else if i == 3 {
        TileType::RockyShore
    } else if i == 4 {
        TileType::Desert
    } else if i == 5 {
        TileType::Savanna
    } else if i == 6 {
        TileType::Grass
    } else if i == 7 {
        TileType::Swamp
    } else if i == 8 {
        TileType::Shrubland
    } else if i == 9 {
        TileType::Forest
    } else if i == 10 {
        TileType::Rainforest
    } else if i == 11 {
        TileType::Mountain
    } else if i == 12 {
        TileType::Tundra
    } else {
        TileType::Snow
    }
}

/// The Polish display name of a biome.
pub open spec fn biome_name(t: TileType) -> Seq<char> {
    match t {
        TileType::DeepWater => "Głęboka woda"@,
        TileType::Water => "Woda"@,
        TileType::Sand => "Piasek"@,
        TileType::RockyShore => "Skaliste wybrzeże"@,
        TileType::Desert => "Pustynia"@,
        TileType::Savanna => "Sawanna"@,
        TileType::Grass => "Trawa"@,
        TileType::Swamp => "Bagno"@,
        TileType::Shrubland => "Krzewiasta stepa"@,
        TileType::Forest => "Las"@,
        TileType::Rainforest => "Las deszczowy"@,
        TileType::Mountain => "Góry"@,
        TileType::Tundra => "Tundra"@,
        TileType::Snow => "Śnieg"@,
    }
}

/// The display colour of a biome as `[r, g, b]`.
pub open spec fn biome_color(t: TileType) -> Seq<u8> {
    match t {
        TileType::DeepWater => seq![0x1au8, 0x3au8, 0x5cu8],
        TileType::Water => seq![0x2bu8, 0x6cu8, 0xb0u8],
        TileType::Sand => seq![0xe8u8, 0xd5u8, 0xa3u8],
        TileType::RockyShore => seq![0x9au8, 0x9au8, 0x8au8],
        TileType::Desert => seq![0xd4u8, 0xb4u8, 0x83u8],
        TileType::Savanna => seq![0xb8u8, 0xa8u8, 0x4au8],
        TileType::Grass => seq![0x5au8, 0xa4u8, 0x4au8],
        TileType::Swamp => seq![0x3du8, 0x5cu8, 0x3au8],
        TileType::Shrubland => seq![0x8au8, 0x9au8, 0x4au8],
        TileType::Forest => seq![0x2du8, 0x5au8, 0x27u8],
        TileType::Rainforest => seq![0x1au8, 0x4au8, 0x20u8],
        TileType::Mountain => seq![0x6bu8, 0x6bu8, 0x6bu8],
        TileType::Tundra => seq![0xb8u8, 0xc4u8, 0xb8u8],
        TileType::Snow => seq![0xf0u8, 0xf0u8, 0xf5u8],
    }
}

/// Label and colour of a biome.
pub fn biome_info(t: TileType) -> (info: BiomeInfo)
    ensures
        info.label@ == biome_name(t),
        info.rgb@ == biome_color(t),
{
    let (label, rgb): (&'static str, [u8; 3]) = match t {
        TileType::DeepWater => ("Głęboka woda", [0x1a, 0x3a, 0x5c]),
        TileType::Water => ("Woda", [0x2b, 0x6c, 0xb0]),
        TileType::Sand => ("Piasek", [0xe8, 0xd5, 0xa3]),
        TileType::RockyShore => ("Skaliste wybrzeże", [0x9a, 0x9a, 0x8a]),
        TileType::Desert => ("Pustynia", [0xd4, 0xb4, 0x83]),
        TileType::Savanna => ("Sawanna", [0xb8, 0xa8, 0x4a]),
        TileType::Grass => ("Trawa", [0x5a, 0xa4, 0x4a]),
        TileType::Swamp => ("Bagno", [0x3d, 0x5c, 0x3a]),
        TileType::Shrubland => ("Krzewiasta stepa", [0x8a, 0x9a, 0x4a]),
        TileType::Forest => ("Las", [0x2d, 0x5a, 0x27]),
        TileType::Rainforest => ("Las deszczowy", [0x1a, 0x4a, 0x20]),
        TileType::Mountain => ("Góry", [0x6b, 0x6b, 0x6b]),
        TileType::Tundra => ("Tundra", [0xb8, 0xc4, 0xb8]),
        TileType::Snow => ("Śnieg", [0xf0, 0xf0, 0xf5]),
    };
    assert(rgb@ =~= biome_color(t));
    BiomeInfo { label, rgb }
}

/// The biome of legend row `i`.
pub fn legend_tile_at(i: usize) -> (t: TileType)
    requires
        i < BIOME_LEGEND_LEN,
    ensures
        t == legend_tile(i as nat),
{
    match i {
        0 => TileType::DeepWater,
        1 => TileType::Water,
        2 => TileType::Sand,
        3 => TileType::RockyShore,
        4 => TileType::Desert,
        5 => TileType::Savanna,
        6 => TileType::Grass,
        7 => TileType::Swamp,
        8 => TileType::Shrubland,
        9 => TileType::Forest,
        10 => TileType::Rainforest,
        11 => TileType::Mountain,
        12 => TileType::Tundra,
        _ => TileType::Snow,
    }
}

/// The whole legend, in display order.
pub fn biomes() -> (v: Vec<(TileType, BiomeInfo)>)
    ensures
        v.len() == BIOME_LEGEND_LEN,
        forall|i: int|
            0 <= i < BIOME_LEGEND_LEN ==> {
                &&& (#[trigger] v@[i]).0 == legend_tile(i as nat)
                &&& v@[i].1.label@ == biome_name(legend_tile(i as nat))
                &&& v@[i].1.rgb@ == biome_color(legend_tile(i as nat))
            },
{
    let mut v: Vec<(TileType, BiomeInfo)> = Vec::new();
    for i in 0..BIOME_LEGEND_LEN
        invariant
            v.len() == i,
            forall|j: int|
                0 <= j < i ==> {
                    &&& (#[trigger] v@[j]).0 == legend_tile(j as nat)
                    &&& v@[j].1.label@ == biome_name(legend_tile(j as nat))
                    &&& v@[j].1.rgb@ == biome_color(legend_tile(j as nat))
                },
    {
        let t = legend_tile_at(i);
        v.push((t, biome_info(t)));
    }
    v
}

/// Legend row of a biome: the first row that shows it.
pub fn legend_row(biome: TileType) -> (r: Option<usize>)
    ensures
        match r {
            Some(i) => i < BIOME_LEGEND_LEN && legend_tile(i as nat) == biome && forall|j: nat|
                j < i ==> legend_tile(j) != biome,
            None => forall|j: nat| j < BIOME_LEGEND_LEN ==> legend_tile(j) != biome,
        },
{
    let mut i: usize = 0;
    while i < BIOME_LEGEND_LEN
        invariant
            i <= BIOME_LEGEND_LEN,
            forall|j: nat| j < i ==> legend_tile(j) != biome,
        decreases BIOME_LEGEND_LEN - i,
    {
        if legend_tile_at(i) == biome {
            return Some(i);
        }
        i = i + 1;
    }
    None
}

/// Colour of a biome as listed in the legend; magenta for a biome it does not list.
pub fn biome_rgb(biome: TileType) -> (rgb: [u8; 3])
    ensures
        rgb@ == biome_color(biome),
{
    proof {
        law_legend_lists_every_biome_once(biome, 0, 0);
    }
    match legend_row(biome) {
        Some(i) => biome_info(legend_tile_at(i)).rgb,
        None => [0xff, 0x00, 0xff],
    }
}

/// Label of a biome as listed in the legend; `?` for a biome it does not list.
pub fn biome_label(biome: TileType) -> (label: &'static str)
    ensures
        label@ == biome_name(biome),
{
    proof {
        law_legend_lists_every_biome_once(biome, 0, 0);
    }
    match legend_row(biome) {
        Some(i) => biome_info(legend_tile_at(i)).label,
        None => "?",
    }
}

/// The legend shows every biome, each in exactly one row.
pub proof fn law_legend_lists_every_biome_once(t: TileType, i: nat, j: nat)
    ensures
        exists|k: nat| k < BIOME_LEGEND_LEN && legend_tile(k) == t,
        i < BIOME_LEGEND_LEN && j < BIOME_LEGEND_LEN && legend_tile(i) == legend_tile(j) ==> i
            == j,
{
    let k: nat = match t {
        TileType::DeepWater => 0,
        TileType::Water => 1,
        TileType::Sand => 2,
        TileType::RockyShore => 3,
        TileType::Desert => 4,
        TileType::Savanna => 5,
        TileType::Grass => 6,
        TileType::Swamp => 7,
        TileType::Shrubland => 8,
        TileType::Forest => 9,
        TileType::Rainforest => 10,
        TileType::Mountain => 11,
        TileType::Tundra => 12,
        TileType::Snow => 13,
    };
    assert(legend_tile(k) == t);
}

} // verus!
