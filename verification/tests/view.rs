use map_tests::settlement::SettlementKind;
use map_tests::settlements_draw::{RoadDetail, SettlementDrawStyle};
use map_tests::types::{ChunkId, RegionId};
use map_tests::view::{seed_from_clock, settlement_counts, LodCache, LodLevel};

fn region(rx: u32, ry: u32) -> LodLevel {
    LodLevel::Region(RegionId { rx, ry })
}

fn chunk(rx: u32, ry: u32, cx: u32, cy: u32) -> LodLevel {
    LodLevel::Chunk {
        region: RegionId { rx, ry },
        chunk: ChunkId { cx, cy },
    }
}

#[test]
fn idle_and_back_labels() {
    assert_eq!(
        LodLevel::Global.idle_label(),
        "Mapa świata — kliknij region · kliknij miasto po info"
    );
    assert_eq!(
        region(3, 4).idle_label(),
        "Region (3, 4) — kliknij obszar · kliknij miasto po info"
    );
    assert_eq!(
        chunk(3, 4, 5, 6).idle_label(),
        "Obszar (5, 6) — kliknij biom/miasto lub gatunki"
    );
    assert_eq!(LodLevel::Global.back_label(), None);
    assert_eq!(region(1, 2).back_label().as_deref(), Some("← Mapa świata"));
    assert_eq!(chunk(1, 2, 0, 7).back_label().as_deref(), Some("← Region (1, 2)"));
}

#[test]
fn back_navigation_reaches_world() {
    assert_eq!(chunk(1, 2, 3, 4).parent(), Some(region(1, 2)));
    assert_eq!(region(1, 2).parent(), Some(LodLevel::Global));
    assert_eq!(LodLevel::Global.parent(), None);
}

#[test]
fn styles_per_level() {
    assert_eq!(LodLevel::Global.road_detail(), RoadDetail::Main);
    assert_eq!(region(0, 0).road_detail(), RoadDetail::Region);
    assert_eq!(chunk(0, 0, 0, 0).road_detail(), RoadDetail::Close);
    assert_eq!(LodLevel::Global.settlement_style(), SettlementDrawStyle::Marker);
    assert_eq!(region(0, 0).settlement_style(), SettlementDrawStyle::Plan);
    assert!(LodLevel::Global.shows_settlement(SettlementKind::Town));
    assert!(!LodLevel::Global.shows_settlement(SettlementKind::Village));
    assert!(region(0, 0).shows_settlement(SettlementKind::Hamlet));
}

#[test]
fn cache_reads_back_what_was_stored() {
    let mut cache: LodCache<&str> = LodCache::new();
    assert_eq!(cache.get(LodLevel::Global), None);
    cache.store(LodLevel::Global, "world");
    cache.store(region(1, 1), "r11");
    cache.store(chunk(1, 1, 2, 2), "c");
    assert_eq!(cache.get(LodLevel::Global), Some(&"world"));
    assert_eq!(cache.get(region(1, 1)), Some(&"r11"));
    assert_eq!(cache.get(region(1, 2)), None);
    assert_eq!(cache.get(chunk(1, 1, 2, 2)), Some(&"c"));
    cache.store(region(1, 2), "r12");
    assert_eq!(cache.get(region(1, 1)), None);
    assert_eq!(cache.get(region(1, 2)), Some(&"r12"));
    assert_eq!(cache.get(LodLevel::Global), Some(&"world"));
    assert_eq!(cache.get(chunk(1, 1, 2, 2)), Some(&"c"));
    cache.clear();
    assert_eq!(cache.get(LodLevel::Global), None);
    assert_eq!(cache.get(chunk(1, 1, 2, 2)), None);
}

#[test]
fn counts_per_kind() {
    let kinds = [
        SettlementKind::City,
        SettlementKind::Town,
        SettlementKind::Town,
        SettlementKind::Village,
        SettlementKind::Hamlet,
        SettlementKind::Hamlet,
        SettlementKind::Hamlet,
    ];
    assert_eq!(settlement_counts(&kinds), [1, 2, 1, 3]);
    assert_eq!(settlement_counts(&[]), [0, 0, 0, 0]);
}

#[test]
fn clock_seed_values() {
    assert_eq!(seed_from_clock(1), 4_283_543_511);
    assert_eq!(seed_from_clock(1_700_000_000_000_000_000), 2_046_072_637);
}
