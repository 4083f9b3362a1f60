//! Legend data, pixel helpers and labels of the settlement overlay.
use vstd::prelude::*;
use vstd::string::StringExecFns;
use crate::settlement::{DistrictKind, RoadKind, SettlementKind};
use crate::text::{decimal, group_thousands, push_grouped};

verus! {

/// How much of the road network to draw.
#[derive(Debug, Clone, Copy, PartialEq, Eq, Structural)]
pub enum RoadDetail {
    Main,
    Region,
    Close,
}

/// Settlements drawn as markers (world view) or as district plans.
#[derive(Debug, Clone, Copy, PartialEq, Eq, Structural)]
pub enum SettlementDrawStyle {
    Marker,
    Plan,
}

/// A settlement (and possibly one of its districts) under the cursor.
#[derive(Debug, Clone, Copy, PartialEq, Eq)]
pub struct SettlementHit {
    pub settlement_index: usize,
    pub district_index: Option<usize>,
}

#[derive(Debug, Clone, Copy)]
pub struct Rgba {
    pub r: u8,
    pub g: u8,
    pub b: u8,
    pub a: u8,
}

impl Rgba {
    pub fn rgb(r: u8, g: u8, b: u8) -> (c: Self)
        ensures
            c.r == r && c.g == g && c.b == b && c.a == 255,
    {
        Rgba { r, g, b, a: 255 }
    }

    pub fn rgba(r: u8, g: u8, b: u8, a: u8) -> (c: Self)
        ensures
            c.r == r && c.g == g && c.b == b && c.a == a,
    {
        Rgba { r, g, b, a }
    }
}

#[derive(Debug, Clone, Copy)]
pub struct DistrictInfo {
    pub label: &'static str,
    pub fill: Rgba,
}

#[derive(Debug, Clone, Copy)]
pub struct RoadInfo {
    pub label: &'static str,
    pub stroke: Rgba,
}

/// Legend order of settlement kinds.
pub const SETTLEMENT_KIND_ORDER: [SettlementKind; 4] = [
    SettlementKind::City,
    SettlementKind::Town,
    SettlementKind::Village,
    SettlementKind::Hamlet,
];

/// Legend order of district kinds.
pub const DISTRICT_KIND_ORDER: [DistrictKind; 9] = [
    DistrictKind::Center,
    DistrictKind::Market,
    DistrictKind::Craft,
    DistrictKind::Port,
    DistrictKind::Temple,
    DistrictKind::Noble,
    DistrictKind::Residential,
    DistrictKind::Forest,
    DistrictKind::Outskirts,
];

/// Legend order of road classes.
pub const ROAD_KIND_ORDER: [RoadKind; 3] = [RoadKind::Highway, RoadKind::Secondary, RoadKind::Local];

/// Settlements are painted smallest first so larger markers stay on top.
pub const DRAW_ORDER: [SettlementKind; 4] = [
    SettlementKind::Hamlet,
    SettlementKind::Village,
    SettlementKind::Town,
    SettlementKind::City,
];

/// Legend label of a district kind.
pub open spec fn district_label(kind: DistrictKind) -> Seq<char> {
    match kind {
        DistrictKind::Center => "Centrum / rynek"@,
        DistrictKind::Market => "Handlowa"@,
        DistrictKind::Craft => "Rzemieślnicza"@,
        DistrictKind::Port => "Portowa"@,
        DistrictKind::Temple => "Świątynna"@,
        DistrictKind::Noble => "Zamożna"@,
        DistrictKind::Residential => "Mieszkaniowa"@,
        DistrictKind::Forest => "Leśna / park"@,
        DistrictKind::Outskirts => "Obrzeża"@,
    }
}

/// Fill colour `(r, g, b)` of a district kind (always opaque).
pub open spec fn district_fill(kind: DistrictKind) -> (u8, u8, u8) {
    match kind {
        DistrictKind::Center => (0x7a, 0x4e, 0x36),
        DistrictKind::Market => (0xc9, 0xa2, 0x4a),
        DistrictKind::Craft => (0x8c, 0x5a, 0x3c),
        DistrictKind::Port => (0x6a, 0x84, 0x90),
        DistrictKind::Temple => (0xd4, 0xc8, 0xae),
        DistrictKind::Noble => (0xc4, 0xa0, 0x7a),
        DistrictKind::Residential => (0xcb, 0xb8, 0x9a),
        DistrictKind::Forest => (0x5d, 0x7a, 0x48),
        DistrictKind::Outskirts => (0xb5, 0x9a, 0x72),
    }
}

pub fn district_info(kind: DistrictKind) -> (info: DistrictInfo)
    ensures
        info.label@ == district_label(kind),
        (info.fill.r, info.fill.g, info.fill.b) == district_fill(kind),
        info.fill.a == 255,
{
    match kind {
        DistrictKind::Center => DistrictInfo {
            label: "Centrum / rynek",
            fill: Rgba::rgb(0x7a, 0x4e, 0x36),
        },
        DistrictKind::Market => DistrictInfo { label: "Handlowa", fill: Rgba::rgb(0xc9, 0xa2, 0x4a) },
        DistrictKind::Craft => DistrictInfo {
            label: "Rzemieślnicza",
            fill: Rgba::rgb(0x8c, 0x5a, 0x3c),
        },
        DistrictKind::Port => DistrictInfo { label: "Portowa", fill: Rgba::rgb(0x6a, 0x84, 0x90) },
        DistrictKind::Temple => DistrictInfo {
            label: "Świątynna",
            fill: Rgba::rgb(0xd4, 0xc8, 0xae),
        },
        DistrictKind::Noble => DistrictInfo { label: "Zamożna", fill: Rgba::rgb(0xc4, 0xa0, 0x7a) },
        DistrictKind::Residential => DistrictInfo {
            label: "Mieszkaniowa",
            fill: Rgba::rgb(0xcb, 0xb8, 0x9a),
        },
        DistrictKind::Forest => DistrictInfo {
            label: "Leśna / park",
            fill: Rgba::rgb(0x5d, 0x7a, 0x48),
        },
        DistrictKind::Outskirts => DistrictInfo {
            label: "Obrzeża",
            fill: Rgba::rgb(0xb5, 0x9a, 0x72),
        },
    }
}

/// Legend label of a road class.
pub open spec fn road_label(kind: RoadKind) -> Seq<char> {
    match kind {
        RoadKind::Highway => "Szlak główny"@,
        RoadKind::Secondary => "Droga boczna"@,
        RoadKind::Local => "Droga poboczna"@,
    }
}

/// Stroke colour `(r, g, b)` of a road class (always opaque).
pub open spec fn road_stroke(kind: RoadKind) -> (u8, u8, u8) {
    match kind {
        RoadKind::Highway => (0xc4, 0xa3, 0x6a),
        RoadKind::Secondary => (0x8a, 0x6a, 0x48),
        RoadKind::Local => (0x6a, 0x53, 0x40),
    }
}

pub fn road_info(kind: RoadKind) -> (info: RoadInfo)
    ensures
        info.label@ == road_label(kind),
        (info.stroke.r, info.stroke.g, info.stroke.b) == road_stroke(kind),
        info.stroke.a == 255,
{
    match kind {
        RoadKind::Highway => RoadInfo {
            label: "Szlak główny",
            stroke: Rgba::rgb(0xc4, 0xa3, 0x6a),
        },
        RoadKind::Secondary => RoadInfo {
            label: "Droga boczna",
            stroke: Rgba::rgb(0x8a, 0x6a, 0x48),
        },
        RoadKind::Local => RoadInfo {
            label: "Droga poboczna",
            stroke: Rgba::rgb(0x6a, 0x53, 0x40),
        },
    }
}

/// Makes pixel `(x, y)` of an RGBA buffer `width` pixels wide fully transparent.
pub fn clear_alpha(pixels: &mut [u8], width: usize, x: usize, y: usize)
    requires
        (y * width + x) * 4 + 3 < old(pixels)@.len(),
    ensures
        final(pixels)@ == old(pixels)@.update((y * width + x) * 4 + 3, 0u8),
{
    let len = pixels.len();
    assert(y * width <= y * width + x) by (nonlinear_arith)
        requires
            x >= 0,
    ;
    let i = (y * width + x) * 4;
    pixels[i + 3] = 0;
}

/// The integer hash behind the per-marker jitter of settlement plans.
pub open spec fn spec_u32hash(n: i32) -> u32 {
    let x = n.wrapping_mul(1597334677i32);
    let xu = x as u32;
    let y = (xu ^ (xu >> 16u32)) as i32;
    y.wrapping_mul(-2048144777i32) as u32
}

pub fn u32hash(n: i32) -> (r: u32)
    ensures
        r == spec_u32hash(n),
{
    let mut x = n.wrapping_mul(1597334677i32);
    let xu = x as u32;
    x = (xu ^ (xu >> 16u32)) as i32;
    x = x.wrapping_mul(2246822519u32 as i32);
    proof {
        assert(2246822519u32 as i32 == -2048144777i32) by (bit_vector);
    }
    x as u32
}

/// A population with thousands separated by spaces, e.g. `12 500`.
pub fn format_population(n: u32) -> (s: String)
    ensures
        s@ == group_thousands(decimal(n as nat)),
{
    let mut s = String::new();
    push_grouped(&mut s, n as u64);
    s
}

/// The info line of a settlement: its name, the district name when a
/// district is selected, and the population followed by ` mieszk.`,
/// separated by ` · `.
pub open spec fn settlement_caption(name: Seq<char>, district: Option<Seq<char>>, population: u32) -> Seq<
    char,
> {
    match district {
        Some(d) => name + " · "@ + d + " · "@ + group_thousands(decimal(population as nat))
            + " mieszk."@,
        None => name + " · "@ + group_thousands(decimal(population as nat)) + " mieszk."@,
    }
}

pub fn settlement_label(name: &str, district: Option<&str>, population: u32) -> (s: String)
    ensures
        s@ == settlement_caption(
            name@,
            match district {
                Some(d) => Some(d@),
                None => None,
            },
            population,
        ),
{
    let mut s = String::from_str(name);
    s.append(" · ");
    if let Some(d) = district {
        s.append(d);
        s.append(" · ");
    }
    push_grouped(&mut s, population as u64);
    s.append(" mieszk.");
    s
}

} // verus!
