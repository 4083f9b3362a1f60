use map_tests::ecology::{FaunaGroup, SpeciesSighting};
use map_tests::ecology_view::{
    fauna_group_info, region_tile_summary, species_summary, uniq_species, RegionTileExpect, VEGETATION_RGB,
};
use map_tests::types::{is_water_biome, TileType};

fn sight(species: &str, sub: &str) -> SpeciesSighting {
    SpeciesSighting { species: species.to_string(), subspecies: sub.to_string(), group: None }
}

fn beast(species: &str, sub: &str) -> SpeciesSighting {
    SpeciesSighting { species: species.to_string(), subspecies: sub.to_string(), group: Some(FaunaGroup::Bird) }
}

#[test]
fn uniq_species_keeps_first_four_distinct() {
    let items = vec![
        sight("Dąb", "szypułkowy"),
        sight("Buk", "zwyczajny"),
        sight("Dąb", "szypułkowy"),
        sight("Dąb", "bezszypułkowy"),
        sight("Sosna", "limba"),
        sight("Brzoza", "omszona"),
    ];
    assert_eq!(
        uniq_species(&items),
        vec!["Dąb (szypułkowy)", "Buk (zwyczajny)", "Dąb (bezszypułkowy)", "Sosna (limba)"]
    );
    assert!(uniq_species(&[]).is_empty());
}

#[test]
fn species_summary_parts() {
    let flora = vec![sight("Dąb", "szypułkowy"), sight("Buk", "czerwony")];
    let fauna = vec![beast("Puszczyk", "szary")];
    assert_eq!(species_summary(&flora, &fauna), "Flora: Dąb (szypułkowy), Buk (czerwony) · Fauna: Puszczyk (szary)");
    assert_eq!(species_summary(&flora, &[]), "Flora: Dąb (szypułkowy), Buk (czerwony)");
    assert_eq!(species_summary(&[], &fauna), "Fauna: Puszczyk (szary)");
    assert_eq!(species_summary(&[], &[]), "");
}

fn tile(flora: &[&str], fauna: &[&str]) -> RegionTileExpect {
    RegionTileExpect {
        flora: flora.iter().map(|s| s.to_string()).collect(),
        fauna: fauna.iter().map(|s| s.to_string()).collect(),
    }
}

#[test]
fn region_tile_summaries() {
    let tiles = vec![tile(&["Dąb"], &[]), tile(&[], &[]), tile(&["Trzcina", "Skrzyp"], &["Żaba", "Bocian"]), tile(&[], &["Wilk"])];
    assert_eq!(region_tile_summary(&tiles, 2, 0, 0).as_deref(), Some("Kafel (0, 0) — Flora: Dąb"));
    assert_eq!(region_tile_summary(&tiles, 2, 1, 0).as_deref(), Some("Kafel (1, 0) — brak spodziewanego życia"));
    assert_eq!(
        region_tile_summary(&tiles, 2, 0, 1).as_deref(),
        Some("Kafel (0, 1) — Flora: Trzcina, Skrzyp · Fauna: Żaba, Bocian")
    );
    assert_eq!(region_tile_summary(&tiles, 2, 1, 1).as_deref(), Some("Kafel (1, 1) — Fauna: Wilk"));
    assert_eq!(region_tile_summary(&tiles, 2, 2, 0), None);
    assert_eq!(region_tile_summary(&tiles, 0, 0, 0), None);
    assert_eq!(region_tile_summary(&[], 2, 0, 0), None);
    assert_eq!(region_tile_summary(&tiles, 3, 2, 2), None);
}

#[test]
fn fauna_group_legend() {
    let large = fauna_group_info(FaunaGroup::LargeMammal);
    assert_eq!((large.label, large.rgb), ("Duże ssaki", [0xc4, 0x7a, 0x2c]));
    let bird = fauna_group_info(FaunaGroup::Bird);
    assert_eq!((bird.label, bird.rgb), ("Ptaki", [0x3a, 0x7c, 0xb8]));
    let small = fauna_group_info(FaunaGroup::SmallFauna);
    assert_eq!((small.label, small.rgb), ("Mała fauna", [0x8a, 0x4a, 0x9a]));
    assert_eq!(VEGETATION_RGB, [0x4a, 0x8a, 0x5a]);
}

#[test]
fn water_biomes() {
    assert!(is_water_biome(TileType::Water));
    assert!(is_water_biome(TileType::DeepWater));
    assert!(!is_water_biome(TileType::Sand));
    assert!(!is_water_biome(TileType::Swamp));
}
