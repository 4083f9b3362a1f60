use map_tests::colors::{biome_info, biome_label, biome_rgb, biomes, BIOME_LEGEND_LEN};
use map_tests::config::{resolve_shape_profile, LodLevel as Detail, ShapeProfile};
use map_tests::settlement::{DistrictKind, RoadKind, SettlementKind};
use map_tests::settlements_draw::{
    clear_alpha, district_info, format_population, road_info, settlement_label, u32hash, Rgba,
    DISTRICT_KIND_ORDER, ROAD_KIND_ORDER, SETTLEMENT_KIND_ORDER,
};
use map_tests::text::decimal_string;
use map_tests::types::{tile_index, tile_type_from_index, TileType};
use map_tests::view::format_pop;

#[test]
fn population_is_grouped_by_thousands() {
    assert_eq!(format_population(0), "0");
    assert_eq!(format_population(999), "999");
    assert_eq!(format_population(1_000), "1 000");
    assert_eq!(format_population(8_000), "8 000");
    assert_eq!(format_population(50_000), "50 000");
    assert_eq!(format_population(1_234_567), "1 234 567");
    assert_eq!(format_population(u32::MAX), "4 294 967 295");
}

#[test]
fn both_population_formats_agree() {
    for n in [0u32, 7, 20, 150, 1_200, 12_500, 1_000_001, u32::MAX] {
        assert_eq!(format_pop(n), format_population(n));
    }
}

#[test]
fn decimal_strings() {
    assert_eq!(decimal_string(0), "0");
    assert_eq!(decimal_string(10), "10");
    assert_eq!(decimal_string(u64::MAX), u64::MAX.to_string());
}

#[test]
fn settlement_labels() {
    assert_eq!(
        settlement_label("Białogród", None, 12_500),
        "Białogród · 12 500 mieszk."
    );
    assert_eq!(
        settlement_label("Białogród", Some("Targ"), 12_500),
        "Białogród · Targ · 12 500 mieszk."
    );
}

#[test]
fn legend_info_tables() {
    let d = district_info(DistrictKind::Port);
    assert_eq!(d.label, "Portowa");
    assert_eq!((d.fill.r, d.fill.g, d.fill.b, d.fill.a), (0x6a, 0x84, 0x90, 255));
    let r = road_info(RoadKind::Highway);
    assert_eq!(r.label, "Szlak główny");
    assert_eq!((r.stroke.r, r.stroke.g, r.stroke.b), (0xc4, 0xa3, 0x6a));
    assert_eq!(DISTRICT_KIND_ORDER.len(), 9);
    assert_eq!(ROAD_KIND_ORDER[0], RoadKind::Highway);
    assert_eq!(SETTLEMENT_KIND_ORDER[0], SettlementKind::City);
    let c = Rgba::rgba(1, 2, 3, 4);
    assert_eq!((c.r, c.g, c.b, c.a), (1, 2, 3, 4));
    assert_eq!(Rgba::rgb(9, 8, 7).a, 255);
}

#[test]
fn biome_legend_covers_every_biome() {
    let legend = biomes();
    assert_eq!(legend.len(), BIOME_LEGEND_LEN);
    for i in 0..14 {
        let t = tile_type_from_index(i);
        assert_eq!(tile_index(t), i);
        assert_eq!(legend.iter().filter(|(tile, _)| *tile == t).count(), 1);
        assert_eq!(biome_rgb(t), biome_info(t).rgb);
        assert_eq!(biome_label(t), biome_info(t).label);
    }
    assert_eq!(biome_rgb(TileType::Grass), [0x5a, 0xa4, 0x4a]);
    assert_eq!(biome_label(TileType::Snow), "Śnieg");
    assert_eq!(tile_type_from_index(99), TileType::Tundra);
}

#[test]
fn shape_profile_follows_seed_modulo_six() {
    assert_eq!(ShapeProfile::from_index(0), ShapeProfile::Radial);
    assert_eq!(ShapeProfile::from_index(2), ShapeProfile::SquareBump);
    assert_eq!(ShapeProfile::from_index(11 % 6), ShapeProfile::Continents);
    assert_eq!(resolve_shape_profile(None, 11), ShapeProfile::Continents);
    assert_eq!(resolve_shape_profile(None, 6), ShapeProfile::Radial);
    assert_eq!(resolve_shape_profile(None, 7), ShapeProfile::Ellipse);
    assert_eq!(
        resolve_shape_profile(Some(ShapeProfile::Archipelago), 0),
        ShapeProfile::Archipelago
    );
    assert_ne!(Detail::Macro, Detail::Micro);
}

#[test]
fn pixel_helpers() {
    let mut px = vec![9u8; 2 * 2 * 4];
    clear_alpha(&mut px, 2, 1, 1);
    assert_eq!(px[15], 0);
    assert_eq!(px.iter().filter(|v| **v == 9).count(), 15);
    assert_eq!(u32hash(0), 0);
    assert_eq!(u32hash(1), 514_520_928);
    assert_eq!(u32hash(12_345), 2_117_015_518);
    assert_eq!(u32hash(-7), 3_727_838_177);
}
