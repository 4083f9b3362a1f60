use map_tests::ecology::{
    chunk_fauna_sighting, chunk_flora_sighting, fauna_expectation, fauna_for, flora_expectation, flora_for,
    majority_biome, preferred_fauna_group, region_tile_index, FaunaGroup,
};
use map_tests::types::TileType;

const ALL_BIOMES: [TileType; 14] = [
    TileType::DeepWater,
    TileType::Water,
    TileType::Sand,
    TileType::RockyShore,
    TileType::Desert,
    TileType::Savanna,
    TileType::Grass,
    TileType::Swamp,
    TileType::Shrubland,
    TileType::Forest,
    TileType::Rainforest,
    TileType::Mountain,
    TileType::Tundra,
    TileType::Snow,
];

#[test]
fn each_biome_has_ten_species() {
    for biome in ALL_BIOMES {
        assert_eq!(flora_for(biome).len(), 10);
        assert_eq!(fauna_for(biome).len(), 10);
    }
}

#[test]
fn flora_expectation_picks_by_noise() {
    assert_eq!(flora_expectation(6, 10, TileType::Forest, 4), vec!["Brzoza", "Leszczyna", "Świerk", "Dąb"]);
    assert_eq!(flora_expectation(7, 100, TileType::Desert, 2), vec!["Aloes", "Saksauł"]);
    assert!(flora_expectation(7, 100, TileType::Desert, 0).is_empty());
}

#[test]
fn ten_flora_picks_cover_the_catalog() {
    let all = flora_expectation(42, 3, TileType::Swamp, 10);
    assert_eq!(
        all,
        vec![
            "Rosiczka", "Bluszcz bagienny", "Olcha bagienna", "Skrzyp", "Kosaciec", "Grzyb bagienny",
            "Torfowiec", "Wierzba bagienna", "Pałka wodna", "Trzcina"
        ]
    );
    let mut sorted = all.clone();
    sorted.sort();
    sorted.dedup();
    assert_eq!(sorted.len(), 10);
}

#[test]
fn fauna_expectation_follows_the_plan() {
    let plan = [(FaunaGroup::LargeMammal, 2), (FaunaGroup::Bird, 2), (FaunaGroup::SmallFauna, 1)];
    assert_eq!(fauna_expectation(6, 10, TileType::Forest, &plan), vec!["Wilk", "Dzik", "Puszczyk", "Dzięcioł"]);
    let plan = [(FaunaGroup::SmallFauna, 2), (FaunaGroup::Bird, 2), (FaunaGroup::LargeMammal, 2)];
    assert_eq!(fauna_expectation(6, 11, TileType::Savanna, &plan), vec!["Waran", "Struś", "Sekretarz", "Antylopa"]);
    let plan = [(FaunaGroup::Bird, 1), (FaunaGroup::LargeMammal, 0), (FaunaGroup::SmallFauna, 2)];
    assert_eq!(fauna_expectation(9, 5, TileType::DeepWater, &plan), vec!["Krab kominowy", "Ośmiornica głębinowa"]);
}

#[test]
fn fauna_expectation_lists_at_most_four_distinct() {
    for seed in 0..20u64 {
        for biome in ALL_BIOMES {
            let plan = [(FaunaGroup::Bird, 2), (FaunaGroup::LargeMammal, 2), (FaunaGroup::SmallFauna, 2)];
            let names = fauna_expectation(seed, seed * 7 + 1, biome, &plan);
            assert!(names.len() <= 4);
            let mut sorted = names.clone();
            sorted.sort();
            sorted.dedup();
            assert_eq!(sorted.len(), names.len());
        }
    }
    assert!(fauna_expectation(6, 10, TileType::Forest, &[]).is_empty());
}

#[test]
fn chunk_sightings() {
    let f = chunk_flora_sighting(6, 12345, TileType::Grass);
    assert_eq!((f.species.as_str(), f.subspecies.as_str()), ("Koniczyna", "biała"));
    assert_eq!(f.group, None);
    let a = chunk_fauna_sighting(6, 12345, TileType::Grass, FaunaGroup::Bird);
    assert_eq!((a.species.as_str(), a.subspecies.as_str()), ("Myszołów", "ciemny"));
    assert_eq!(a.group, Some(FaunaGroup::Bird));
    let d = chunk_fauna_sighting(6, 777, TileType::DeepWater, FaunaGroup::LargeMammal);
    assert_eq!((d.species.as_str(), d.subspecies.as_str()), ("Rekin głębinowy", "mały"));
    assert_eq!(d.group, Some(FaunaGroup::LargeMammal));
}

#[test]
fn preferred_group_rolls() {
    assert_eq!(preferred_fauna_group(6, 3, true, true), FaunaGroup::LargeMammal);
    assert_eq!(preferred_fauna_group(6, 3, false, true), FaunaGroup::Bird);
    assert_eq!(preferred_fauna_group(6, 3, false, false), FaunaGroup::SmallFauna);
    assert_eq!(preferred_fauna_group(6, 6, true, true), FaunaGroup::Bird);
    assert_eq!(preferred_fauna_group(6, 0, true, true), FaunaGroup::SmallFauna);
}

#[test]
fn majority_biome_and_tile_index() {
    let mut votes = [0u32; 14];
    votes[4] = 6;
    votes[3] = 6;
    votes[12] = 4;
    assert_eq!(majority_biome(&votes), TileType::Grass);
    assert_eq!(majority_biome(&[0u32; 14]), TileType::DeepWater);
    assert_eq!(region_tile_index(3, 2, 8), 19);
}
