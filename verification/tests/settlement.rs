use map_tests::settlement::{
    compose_name, convert_slot, district_name, first_residential, has_pair, housing_count,
    inner_ring_kinds, is_forest_biome, kind_rank, outer_ring_kinds, pick, pick_surface,
    place_nearest, river_bridge_allowed, stems_for, target_count, tier_limits, unique_district_name,
    unique_name, wants_districts, DistrictKind, RoadKind, RoadSurface, SettlementKind,
    CHANNEL_LAYOUT,
};
use map_tests::types::TileType;


fn has(kinds: &[DistrictKind], k: DistrictKind) -> bool {
    kinds.iter().any(|x| *x == k)
}

#[test]
fn composed_names_are_prefix_and_stem() {
    assert_eq!(compose_name(6, 3, SettlementKind::City, 0), "Sosnowozamek");
    assert_eq!(compose_name(6, 3, SettlementKind::City, 1), "Wilczobrzeg");
    assert_eq!(compose_name(6, 0, SettlementKind::Hamlet, 0), "Polnoostrów");
    assert_eq!(compose_name(42, 17, SettlementKind::Town, 2), "Piaskowomłyn");
    assert_eq!(compose_name(6, 3, SettlementKind::Village, 0), "Sosnowopole");
    assert!(stems_for(SettlementKind::City).contains(&"zamek"));
}

#[test]
fn unique_names_skip_taken_ones() {
    let mut taken: Vec<String> = Vec::new();
    let a = unique_name(6, 3, SettlementKind::City, &mut taken);
    assert_eq!(a, "Sosnowozamek");
    let b = unique_name(6, 3, SettlementKind::City, &mut taken);
    assert_eq!(b, "Wilczobrzeg");
    let c = unique_name(6, 3, SettlementKind::City, &mut taken);
    assert_eq!(c, "Piaskowogóra");
    assert_eq!(taken.len(), 3);
}

#[test]
fn unique_name_falls_back_to_index_suffix() {
    let mut taken: Vec<String> = (0..64)
        .map(|salt| compose_name(6, 3, SettlementKind::City, salt))
        .collect();
    let name = unique_name(6, 3, SettlementKind::City, &mut taken);
    assert_eq!(name, "Sosnowozamek-3");
    assert!(taken.contains(&name));
}

#[test]
fn pick_stays_in_list() {
    let items = ["a", "b", "c"];
    for i in 0..200u64 {
        let p = pick(&items, 9, 5, i);
        assert!(items.contains(&p));
    }
    assert_eq!(pick(&["only"], 1, 2, 3), "only");
}

#[test]
fn tiers_and_targets() {
    let city = tier_limits(SettlementKind::City);
    assert_eq!((city.pop_min, city.pop_max), (8_000, 50_000));
    assert_eq!(target_count(0, &city), 0);
    assert_eq!(target_count(100, &city), 1);
    assert_eq!(target_count(1_400, &city), 4);
    assert_eq!(target_count(100_000, &city), 6);
    let hamlet = tier_limits(SettlementKind::Hamlet);
    assert_eq!(target_count(1_000, &hamlet), 45);
}

#[test]
fn district_predicates() {
    assert!(wants_districts(SettlementKind::City, 0));
    assert!(wants_districts(SettlementKind::Village, 500));
    assert!(!wants_districts(SettlementKind::Village, 499));
    assert!(!wants_districts(SettlementKind::Hamlet, 150));
    assert!(is_forest_biome(TileType::Shrubland));
    assert!(!is_forest_biome(TileType::Grass));
}

#[test]
fn slot_conversion_keeps_minimum_housing() {
    let mut kinds = vec![DistrictKind::Residential, DistrictKind::Residential, DistrictKind::Residential];
    assert_eq!(first_residential(&kinds), Some(0));
    assert!(convert_slot(&mut kinds, 0, DistrictKind::Market, 2));
    assert_eq!(housing_count(&kinds), 2);
    assert!(!convert_slot(&mut kinds, 1, DistrictKind::Craft, 2));
    assert!(convert_slot(&mut kinds, 1, DistrictKind::Noble, 2));
    assert_eq!(kinds, vec![DistrictKind::Market, DistrictKind::Noble, DistrictKind::Residential]);
    assert!(!convert_slot(&mut kinds, 0, DistrictKind::Temple, 0));
}

#[test]
fn nearest_placement_follows_order() {
    let mut kinds = vec![DistrictKind::Outskirts, DistrictKind::Port, DistrictKind::Outskirts, DistrictKind::Outskirts];
    place_nearest(&mut kinds, &[1, 3, 0, 2], DistrictKind::Forest, 2);
    assert_eq!(kinds, vec![DistrictKind::Forest, DistrictKind::Port, DistrictKind::Outskirts, DistrictKind::Forest]);
    place_nearest(&mut kinds, &[0, 1], DistrictKind::Forest, 5);
    assert_eq!(kinds, vec![DistrictKind::Forest, DistrictKind::Port, DistrictKind::Outskirts, DistrictKind::Forest]);
}

#[test]
fn city_rings_have_civic_quarters() {
    let inner = inner_ring_kinds(SettlementKind::City, 6, 6, 3, None);
    assert!(has(&inner, DistrictKind::Market));
    assert!(has(&inner, DistrictKind::Craft));
    assert!(has(&inner, DistrictKind::Noble));
    assert!(has(&inner, DistrictKind::Residential));
    assert!(!has(&inner, DistrictKind::Port));
    assert!(housing_count(&inner) >= 3);
    let outer = outer_ring_kinds(SettlementKind::City, 6, &None, &None);
    assert!(has(&outer, DistrictKind::Outskirts));
    assert!(has(&outer, DistrictKind::Residential));
}

#[test]
fn street_rings_port_outer_forest_requires_biome() {
    let water = Some(vec![2usize, 1, 3, 0, 4, 5]);
    let forest_order = vec![0usize, 1, 5, 2, 4, 3];
    let inner = inner_ring_kinds(SettlementKind::City, 6, 6, 3, None);
    let outer = outer_ring_kinds(SettlementKind::City, 6, &water, &None);
    assert!(has(&outer, DistrictKind::Port));
    assert_eq!(outer[2], DistrictKind::Port);
    assert!(!has(&inner, DistrictKind::Port));
    assert!(!has(&inner, DistrictKind::Forest) && !has(&outer, DistrictKind::Forest));

    let inner = inner_ring_kinds(SettlementKind::City, 6, 6, 3, Some(0));
    let outer = outer_ring_kinds(SettlementKind::City, 6, &None, &Some(forest_order));
    assert!(has(&inner, DistrictKind::Forest) || has(&outer, DistrictKind::Forest));
    assert_eq!(outer.iter().filter(|k| **k == DistrictKind::Forest).count(), 2);
    assert!(!has(&inner, DistrictKind::Port) && !has(&outer, DistrictKind::Port));

    let inner = inner_ring_kinds(SettlementKind::City, 6, 6, 3, None);
    let outer = outer_ring_kinds(SettlementKind::City, 6, &None, &None);
    assert!(!has(&inner, DistrictKind::Port) && !has(&outer, DistrictKind::Port));
    assert!(!has(&inner, DistrictKind::Forest) && !has(&outer, DistrictKind::Forest));
}

#[test]
fn village_rings_keep_one_outskirts_wedge() {
    let outer = outer_ring_kinds(SettlementKind::Village, 4, &None, &None);
    assert_eq!(outer, vec![DistrictKind::Residential, DistrictKind::Residential, DistrictKind::Residential, DistrictKind::Outskirts]);
    let inner = inner_ring_kinds(SettlementKind::Village, 4, 1, 1, None);
    assert!(inner.iter().all(|k| *k == DistrictKind::Residential));
    let town = outer_ring_kinds(SettlementKind::Town, 3, &None, &None);
    assert_eq!(town, vec![DistrictKind::Residential, DistrictKind::Outskirts, DistrictKind::Outskirts]);
}

#[test]
fn road_rules() {
    assert!(kind_rank(RoadKind::Highway) > kind_rank(RoadKind::Secondary));
    assert!(kind_rank(RoadKind::Secondary) > kind_rank(RoadKind::Local));
    let links = [(RoadKind::Local, 4usize, 9usize)];
    assert!(has_pair(&links, 9, 4));
    assert!(!has_pair(&links, 4, 8));
    assert_eq!(pick_surface(6, 0, RoadKind::Highway, 3000, 3000), RoadSurface::Paved);
    assert_eq!(pick_surface(6, 0, RoadKind::Secondary, 3000, 3000), RoadSurface::Packed);
    assert_eq!(pick_surface(6, 0, RoadKind::Secondary, 100, 3000), RoadSurface::Dirt);
    assert_eq!(pick_surface(6, 3, RoadKind::Highway, 3000, 3000), RoadSurface::Packed);
    assert_eq!(pick_surface(6, 3, RoadKind::Local, 1, 1), RoadSurface::Packed);
    assert_eq!(pick_surface(6, 6, RoadKind::Secondary, 9000, 9000), RoadSurface::Dirt);
    let secondary: Vec<bool> = (-3..5).map(|gx| river_bridge_allowed(RoadKind::Secondary, 6, gx, 3)).collect();
    assert_eq!(secondary, vec![true, false, false, true, true, true, true, true]);
    let local: Vec<bool> = (-3..5).map(|gx| river_bridge_allowed(RoadKind::Local, 6, gx, 3)).collect();
    assert_eq!(local, vec![false, true, false, true, true, false, false, true]);
    assert!((-3..5).all(|gx| river_bridge_allowed(RoadKind::Highway, 6, gx, 3)));
}

#[test]
fn district_names() {
    assert_eq!(CHANNEL_LAYOUT + 2, 47);
    assert_eq!(district_name(6, 3, DistrictKind::Center, 0, 0), "Stare Miasto");
    assert_eq!(district_name(6, 3, DistrictKind::Market, 0, 1), "Jatki");
    assert_eq!(district_name(6, 3, DistrictKind::Forest, 0, 3), "Dzielnica leśna");
    assert_eq!(district_name(6, 3, DistrictKind::Residential, 2, 0), "Dzielnica mieszkaniowa południowa");
    assert_eq!(district_name(6, 3, DistrictKind::Outskirts, 6, 0), "Przedmieście północne");
    let mut taken = Vec::new();
    let a = unique_district_name(6, 3, DistrictKind::Outskirts, 6, 20, &mut taken);
    let b = unique_district_name(6, 3, DistrictKind::Outskirts, 6, 21, &mut taken);
    let c = unique_district_name(6, 3, DistrictKind::Outskirts, 6, 22, &mut taken);
    assert_eq!(a, "Przedmieście północne");
    assert_eq!(b, "Przedmieście północne (północne)");
    assert_eq!(c, "Przedmieście północne-22");
}
