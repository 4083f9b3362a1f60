//! Map viewer navigation: the zoom level shown, its labels, and the cache of
//! views already generated for each zoom level.
use vstd::prelude::*;
use vstd::string::StringExecFns;
use crate::settlement::SettlementKind;
use crate::settlements_draw::{RoadDetail, SettlementDrawStyle};
use crate::text::{decimal, group_thousands, push_decimal, push_grouped};
use crate::types::{ChunkId, RegionId};

verus! {

/// The zoom level shown: the whole world, one region, or one chunk of a region.
#[derive(Debug, Clone, Copy, PartialEq, Eq, Structural)]
pub enum LodLevel {
    Global,
    Region(RegionId),
    Chunk { region: RegionId, chunk: ChunkId },
}

/// The status line shown when nothing is selected.
pub open spec fn idle_text(lod: LodLevel) -> Seq<char> {
    match lod {
        LodLevel::Global => "Mapa świata — kliknij region · kliknij miasto po info"@,
        LodLevel::Region(r) => "Region ("@ + decimal(r.rx as nat) + ", "@ + decimal(r.ry as nat)
            + ") — kliknij obszar · kliknij miasto po info"@,
        LodLevel::Chunk { chunk, .. } => "Obszar ("@ + decimal(chunk.cx as nat) + ", "@ + decimal(
            chunk.cy as nat,
        ) + ") — kliknij biom/miasto lub gatunki"@,
    }
}

/// The caption of the button that zooms out, if there is a level above.
pub open spec fn back_text(lod: LodLevel) -> Option<Seq<char>> {
    match lod {
        LodLevel::Global => None,
        LodLevel::Region(_) => Some("← Mapa świata"@),
        LodLevel::Chunk { region, .. } => Some(
            "← Region ("@ + decimal(region.rx as nat) + ", "@ + decimal(region.ry as nat) + ")"@,
        ),
    }
}

/// The level one zoom step out: a chunk's region, a region's world view.
pub open spec fn parent_level(lod: LodLevel) -> Option<LodLevel> {
    match lod {
        LodLevel::Global => None,
        LodLevel::Region(_) => Some(LodLevel::Global),
        LodLevel::Chunk { region, .. } => Some(LodLevel::Region(region)),
    }
}

/// Whether two levels are of the same kind (and so share one cache slot).
pub open spec fn same_tier(a: LodLevel, b: LodLevel) -> bool {
    match (a, b) {
        (LodLevel::Global, LodLevel::Global) => true,
        (LodLevel::Region(_), LodLevel::Region(_)) => true,
        (LodLevel::Chunk { .. }, LodLevel::Chunk { .. }) => true,
        _ => false,
    }
}

impl LodLevel {
    pub fn idle_label(self) -> (s: String)
        ensures
            s@ == idle_text(self),
    {
        match self {
            LodLevel::Global => String::from_str(
                "Mapa świata — kliknij region · kliknij miasto po info",
            ),
            LodLevel::Region(r) => {
                let mut s = String::from_str("Region (");
                push_decimal(&mut s, r.rx as u64);
                s.append(", ");
                push_decimal(&mut s, r.ry as u64);
                s.append(") — kliknij obszar · kliknij miasto po info");
                s
            },
            LodLevel::Chunk { chunk, .. } => {
                let mut s = String::from_str("Obszar (");
                push_decimal(&mut s, chunk.cx as u64);
                s.append(", ");
                push_decimal(&mut s, chunk.cy as u64);
                s.append(") — kliknij biom/miasto lub gatunki");
                s
            },
        }
    }

    pub fn back_label(self) -> (s: Option<String>)
        ensures
            match s {
                Some(t) => back_text(self) == Some(t@),
                None => back_text(self) is None,
            },
    {
        match self {
            LodLevel::Global => None,
            LodLevel::Region(_) => Some(String::from_str("← Mapa świata")),
            LodLevel::Chunk { region, .. } => {
                let mut s = String::from_str("← Region (");
                push_decimal(&mut s, region.rx as u64);
                s.append(", ");
                push_decimal(&mut s, region.ry as u64);
                s.append(")");
                Some(s)
            },
        }
    }

    /// The level the back button leads to.
    pub fn parent(self) -> (p: Option<LodLevel>)
        ensures
            p == parent_level(self),
    {
        match self {
            LodLevel::Global => None,
            LodLevel::Region(_) => Some(LodLevel::Global),
            LodLevel::Chunk { region, .. } => Some(LodLevel::Region(region)),
        }
    }

    /// Road detail drawn at this level.
    pub fn road_detail(self) -> (d: RoadDetail)
        ensures
            d == (match self {
                LodLevel::Global => RoadDetail::Main,
                LodLevel::Region(_) => RoadDetail::Region,
                LodLevel::Chunk { .. } => RoadDetail::Close,
            }),
    {
        match self {
            LodLevel::Global => RoadDetail::Main,
            LodLevel::Region(_) => RoadDetail::Region,
            LodLevel::Chunk { .. } => RoadDetail::Close,
        }
    }

    /// Settlements are markers on the world map and plans once zoomed in.
    pub fn settlement_style(self) -> (s: SettlementDrawStyle)
        ensures
            s == (if self is Global {
                SettlementDrawStyle::Marker
            } else {
                SettlementDrawStyle::Plan
            }),
    {
        match self {
            LodLevel::Global => SettlementDrawStyle::Marker,
            _ => SettlementDrawStyle::Plan,
        }
    }

    /// Whether settlements of `kind` are listed at this level: the world map
    /// lists only cities and towns.
    pub fn shows_settlement(self, kind: SettlementKind) -> (r: bool)
        ensures
            r == (!(self is Global) || kind == SettlementKind::City || kind == SettlementKind::Town),
    {
        match self {
            LodLevel::Global => kind == SettlementKind::City || kind == SettlementKind::Town,
            _ => true,
        }
    }
}

/// Zooming out from any level reaches the world view in at most two steps,
/// and the world view has no level above it.
pub proof fn law_back_leads_to_world(lod: LodLevel)
    ensures
        parent_level(LodLevel::Global) is None,
        lod !is Global ==> parent_level(lod) is Some,
        parent_level(lod) matches Some(p) ==> (p is Global || parent_level(p) == Some(
            LodLevel::Global,
        )),
        back_text(lod) is Some <==> parent_level(lod) is Some,
{
}

/// The views generated so far: one world view, the last region view and the
/// last chunk view, each with the level it shows.
pub struct LodCache<V> {
    global: Option<V>,
    region: Option<(RegionId, V)>,
    chunk: Option<(RegionId, ChunkId, V)>,
}

impl<V> LodCache<V> {
    /// The view cached for `lod`, if any.
    pub closed spec fn cached(&self, lod: LodLevel) -> Option<V> {
        match lod {
            LodLevel::Global => self.global,
            LodLevel::Region(r) => match self.region {
                Some((rr, v)) => if rr == r {
                    Some(v)
                } else {
                    None
                },
                None => None,
            },
            LodLevel::Chunk { region, chunk } => match self.chunk {
                Some((rr, cc, v)) => if rr == region && cc == chunk {
                    Some(v)
                } else {
                    None
                },
                None => None,
            },
        }
    }

    pub fn new() -> (c: Self)
        ensures
            forall|l: LodLevel| #[trigger] c.cached(l) is None,
    {
        LodCache { global: None, region: None, chunk: None }
    }

    /// Forgets every cached view.
    pub fn clear(&mut self)
        ensures
            forall|l: LodLevel| #[trigger] final(self).cached(l) is None,
    {
        self.global = None;
        self.region = None;
        self.chunk = None;
    }

    /// Caches `view` for `lod`, replacing the view of the same kind of level.
    pub fn store(&mut self, lod: LodLevel, view: V)
        ensures
            forall|l: LodLevel|
                #[trigger] final(self).cached(l) == if l == lod {
                    Some(view)
                } else if same_tier(l, lod) {
                    None
                } else {
                    old(self).cached(l)
                },
    {
        match lod {
            LodLevel::Global => {
                self.global = Some(view);
            },
            LodLevel::Region(region) => {
                self.region = Some((region, view));
            },
            LodLevel::Chunk { region, chunk } => {
                self.chunk = Some((region, chunk, view));
            },
        }
    }

    /// The view cached for `lod`.
    pub fn get(&self, lod: LodLevel) -> (r: Option<&V>)
        ensures
            match r {
                Some(v) => self.cached(lod) == Some(*v),
                None => self.cached(lod) is None,
            },
    {
        match lod {
            LodLevel::Global => match &self.global {
                Some(v) => Some(v),
                None => None,
            },
            LodLevel::Region(region) => match &self.region {
                Some((r, v)) => {
                    if *r == region {
                        Some(v)
                    } else {
                        None
                    }
                },
                None => None,
            },
            LodLevel::Chunk { region, chunk } => match &self.chunk {
                Some((r, c, v)) => {
                    if *r == region && *c == chunk {
                        Some(v)
                    } else {
                        None
                    }
                },
                None => None,
            },
        }
    }
}

/// Reading a level right after storing a view for it gives that view back;
/// storing never disturbs the views of the other kinds of level.
pub proof fn law_cache_read_after_write<V>(
    before: LodCache<V>,
    after: LodCache<V>,
    lod: LodLevel,
    view: V,
    other: LodLevel,
)
    requires
        forall|l: LodLevel|
            #[trigger] after.cached(l) == if l == lod {
                Some(view)
            } else if same_tier(l, lod) {
                None
            } else {
                before.cached(l)
            },
    ensures
        after.cached(lod) == Some(view),
        !same_tier(other, lod) ==> after.cached(other) == before.cached(other),
{
    assert(after.cached(lod) == Some(view));
    assert(after.cached(other) == if other == lod {
        Some(view)
    } else if same_tier(other, lod) {
        None
    } else {
        before.cached(other)
    });
}

/// Number of settlements of `kind` in `kinds`.
pub open spec fn kind_count(kinds: Seq<SettlementKind>, kind: SettlementKind) -> nat
    decreases kinds.len(),
{
    if kinds.len() == 0 {
        0
    } else {
        kind_count(kinds.drop_last(), kind) + if kinds.last() == kind {
            1nat
        } else {
            0nat
        }
    }
}

/// Numbers of cities, towns, villages and hamlets, in that order.
pub fn settlement_counts(kinds: &[SettlementKind]) -> (counts: [usize; 4])
    ensures
        counts@[0] == kind_count(kinds@, SettlementKind::City),
        counts@[1] == kind_count(kinds@, SettlementKind::Town),
        counts@[2] == kind_count(kinds@, SettlementKind::Village),
        counts@[3] == kind_count(kinds@, SettlementKind::Hamlet),
{
    let mut city: usize = 0;
    let mut town: usize = 0;
    let mut village: usize = 0;
    let mut hamlet: usize = 0;
    let mut i: usize = 0;
    while i < kinds.len()
        invariant
            i <= kinds@.len(),
            city == kind_count(kinds@.take(i as int), SettlementKind::City),
            town == kind_count(kinds@.take(i as int), SettlementKind::Town),
            village == kind_count(kinds@.take(i as int), SettlementKind::Village),
            hamlet == kind_count(kinds@.take(i as int), SettlementKind::Hamlet),
            city + town + village + hamlet <= i,
        decreases kinds.len() - i,
    {
        assert(kinds@.take(i as int + 1).drop_last() =~= kinds@.take(i as int));
        match kinds[i] {
            SettlementKind::City => {
                city = city + 1;
            },
            SettlementKind::Town => {
                town = town + 1;
            },
            SettlementKind::Village => {
                village = village + 1;
            },
            SettlementKind::Hamlet => {
                hamlet = hamlet + 1;
            },
        }
        i = i + 1;
    }
    assert(kinds@.take(kinds@.len() as int) =~= kinds@);
    [city, town, village, hamlet]
}

/// A population for the legend, thousands separated by spaces.
pub fn format_pop(n: u32) -> (s: String)
    ensures
        s@ == group_thousands(decimal(n as nat)),
{
    let mut s = String::new();
    push_grouped(&mut s, n as u64);
    s
}

/// A 32-bit seed drawn from a clock reading in nanoseconds.
pub open spec fn clock_seed(t: u64) -> u32 {
    ((t ^ (t >> 33u64)).wrapping_mul(0xff51afd7ed558ccdu64) >> 32u64) as u32
}

pub fn seed_from_clock(t: u64) -> (r: u32)
    ensures
        r == clock_seed(t),
{
    let m = (t ^ (t >> 33u64)).wrapping_mul(0xff51afd7ed558ccdu64) >> 32u64;
    assert(m >> 32u64 == 0) by (bit_vector)
        requires
            m == (t ^ (t >> 33u64)).wrapping_mul(0xff51afd7ed558ccdu64) >> 32u64,
    ;
    m as u32
}

} // verus!
