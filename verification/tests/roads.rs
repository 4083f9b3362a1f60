use map_tests::road_links::{
    add_hamlet_roads, add_town_feeders, add_town_highways, add_town_pair_roads, add_village_roads,
};
use map_tests::road_network::city_highways;
use map_tests::settlement::RoadKind;

fn pairs_of(links: &[(RoadKind, usize, usize)]) -> Vec<(usize, usize)> {
    links.iter().map(|l| (l.1, l.2)).collect()
}

#[test]
fn spanning_highways_join_every_city() {
    // seed 1 adds no extra highway on these pairs: a spanning tree remains
    let pairs = [(0, 1, true), (1, 2, true), (0, 2, true), (2, 3, true), (0, 3, true), (1, 3, true)];
    let links = city_highways(1, 4, &pairs);
    assert_eq!(pairs_of(&links), vec![(0, 1), (1, 2), (2, 3)]);
    assert!(links.iter().all(|l| l.0 == RoadKind::Highway));
    for city in 0..4 {
        assert!(links.iter().any(|l| l.1 == city || l.2 == city), "city {city} has no highway");
    }
}

#[test]
fn nearby_connected_cities_may_get_a_second_highway() {
    let pairs = [(0, 1, true), (1, 2, true), (0, 2, true), (2, 3, true), (0, 3, true), (1, 3, true)];
    assert_eq!(pairs_of(&city_highways(6, 4, &pairs)), vec![(0, 1), (1, 2), (0, 2), (2, 3)]);
    assert_eq!(
        pairs_of(&city_highways(29, 4, &pairs)),
        vec![(0, 1), (1, 2), (0, 2), (2, 3), (0, 3)]
    );
}

#[test]
fn distant_pairs_never_add_loops() {
    let pairs = [(0, 1, false), (1, 2, false), (0, 2, false), (2, 3, false), (0, 3, false), (1, 3, false)];
    assert_eq!(pairs_of(&city_highways(29, 4, &pairs)), vec![(0, 1), (1, 2), (2, 3)]);
}

#[test]
fn no_cities_no_highways() {
    assert!(city_highways(6, 0, &[]).is_empty());
}

#[test]
fn large_towns_get_highways_to_cities() {
    let mut links = vec![(RoadKind::Highway, 11, 0)];
    add_town_highways(6, &mut links, &[(1, 0, 4000, true), (6, 0, 3999, true), (9, 0, 5000, false), (11, 0, 9000, true)]);
    assert_eq!(pairs_of(&links), vec![(11, 0), (1, 0)]);
    assert_eq!(links[1].0, RoadKind::Highway);
}

#[test]
fn towns_feed_their_hubs() {
    let mut links = vec![(RoadKind::Highway, 9, 1)];
    add_town_feeders(6, &mut links, &[(3, 0, true, true), (5, 0, false, true), (1, 0, false, true), (9, 1, true, true)]);
    assert_eq!(pairs_of(&links), vec![(9, 1), (3, 0), (1, 0)]);
    assert_eq!(links[1].0, RoadKind::Secondary);
}

#[test]
fn nearby_towns_pair_up() {
    let mut links = Vec::new();
    add_town_pair_roads(6, &mut links, &[(0, 4, true), (0, 5, false), (0, 1, true), (4, 0, true)]);
    assert_eq!(links, vec![(RoadKind::Secondary, 0, 4)]);
}

#[test]
fn villages_and_hamlets_get_local_roads() {
    let mut links = Vec::new();
    add_village_roads(6, &mut links, &[(0, 3, true, true), (1, 3, true, true), (2, 4, false, true), (2, 4, true, true), (9, 4, false, true)]);
    assert_eq!(pairs_of(&links), vec![(1, 3), (2, 4), (9, 4)]);
    add_hamlet_roads(6, &mut links, &[(8, 2, true), (0, 2, true), (8, 1, false)]);
    assert_eq!(pairs_of(&links), vec![(1, 3), (2, 4), (9, 4), (8, 2)]);
    assert!(links.iter().all(|l| l.0 == RoadKind::Local));
}
