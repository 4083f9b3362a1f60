//! Which secondary links join the road network once the city highways are
//! laid: town feeders to cities, town to hub roads, roads between nearby
//! towns, and local roads of villages and hamlets.  Distances are measured by
//! the caller; each candidate arrives with the distance bands it falls in.
use vstd::prelude::*;
use crate::prng::{noise_bits, spec_noise_bits};
use crate::settlement::{
    has_pair, linked, RoadKind, CHANNEL_ROAD, NOISE_BELOW_0_20, NOISE_BELOW_0_26, NOISE_BELOW_0_32,
    NOISE_BELOW_0_38, NOISE_BELOW_0_40, NOISE_BELOW_0_55, NOISE_BELOW_0_78,
};

verus! {

/// Smallest town population that may get a highway of its own.
pub const HIGHWAY_TOWN_POP_MIN: u32 = 4000u32;

/// Links `i` and `j` join the same two settlements, in either order.
pub open spec fn same_pair(x: (RoadKind, usize, usize), y: (RoadKind, usize, usize)) -> bool {
    (x.1 == y.1 && x.2 == y.2) || (x.1 == y.2 && x.2 == y.1)
}

/// No two links join the same two settlements.
pub open spec fn pairs_unique(links: Seq<(RoadKind, usize, usize)>) -> bool {
    forall|i: int, j: int|
        0 <= i < j < links.len() ==> !same_pair(#[trigger] links[i], #[trigger] links[j])
}

/// Links after the first `k` towns of `towns`, each `(town, nearest city,
/// town population, within highway reach)`: a town of at least 4000 people
/// within reach gets a highway to its city on a roll of channel
/// `3000 + town` below 0.32, unless the two are linked already.
pub open spec fn town_highways_after(
    seed: u64,
    links: Seq<(RoadKind, usize, usize)>,
    towns: Seq<(usize, usize, u32, bool)>,
    k: nat,
) -> Seq<(RoadKind, usize, usize)>
    decreases k,
{
    if k == 0 {
        links
    } else {
        let prev = town_highways_after(seed, links, towns, (k - 1) as nat);
        let (t, c, pop, near) = towns[k - 1];
        if pop >= HIGHWAY_TOWN_POP_MIN && near && spec_noise_bits(seed, CHANNEL_ROAD, (3000 + t) as u64)
            < NOISE_BELOW_0_32 && !linked(prev, t, c) {
            prev.push((RoadKind::Highway, t, c))
        } else {
            prev
        }
    }
}

/// Links after the first `k` towns of `towns`, each `(town, nearest hub,
/// within 70, within 95)`: an unlinked town gets a secondary road to its hub
/// when the roll of channel `4000 + town` is below 0.78 within 70, or below
/// 0.40 within 95.
pub open spec fn town_feeders_after(
    seed: u64,
    links: Seq<(RoadKind, usize, usize)>,
    towns: Seq<(usize, usize, bool, bool)>,
    k: nat,
) -> Seq<(RoadKind, usize, usize)>
    decreases k,
{
    if k == 0 {
        links
    } else {
        let prev = town_feeders_after(seed, links, towns, (k - 1) as nat);
        let (t, h, near, far) = towns[k - 1];
        let roll = spec_noise_bits(seed, CHANNEL_ROAD, (4000 + t) as u64);
        if !linked(prev, t, h) && ((near && roll < NOISE_BELOW_0_78) || (far && roll
            < NOISE_BELOW_0_40)) {
            prev.push((RoadKind::Secondary, t, h))
        } else {
            prev
        }
    }
}

/// Links after the first `k` town pairs, each `(a, b, within 48)`: two
/// unlinked towns within reach get a secondary road on a roll of channel
/// `5000 + 17a + b` below 0.2.
pub open spec fn town_pairs_after(
    seed: u64,
    links: Seq<(RoadKind, usize, usize)>,
    pairs: Seq<(usize, usize, bool)>,
    k: nat,
) -> Seq<(RoadKind, usize, usize)>
    decreases k,
{
    if k == 0 {
        links
    } else {
        let prev = town_pairs_after(seed, links, pairs, (k - 1) as nat);
        let (a, b, near) = pairs[k - 1];
        if !linked(prev, a, b) && near && spec_noise_bits(seed, CHANNEL_ROAD, (5000 + a * 17 + b) as u64)
            < NOISE_BELOW_0_20 {
            prev.push((RoadKind::Secondary, a, b))
        } else {
            prev
        }
    }
}

/// Links after the first `k` villages, each `(village, nearest hub, within
/// 28, within 40)`: a local road on a roll of channel `7000 + village` below
/// 0.55 within 28, or below 0.38 within 40.
pub open spec fn village_roads_after(
    seed: u64,
    links: Seq<(RoadKind, usize, usize)>,
    villages: Seq<(usize, usize, bool, bool)>,
    k: nat,
) -> Seq<(RoadKind, usize, usize)>
    decreases k,
{
    if k == 0 {
        links
    } else {
        let prev = village_roads_after(seed, links, villages, (k - 1) as nat);
        let (v, h, near, far) = villages[k - 1];
        let roll = spec_noise_bits(seed, CHANNEL_ROAD, (7000 + v) as u64);
        if (near && roll < NOISE_BELOW_0_55) || (far && roll < NOISE_BELOW_0_38) {
            prev.push((RoadKind::Local, v, h))
        } else {
            prev
        }
    }
}

/// Links after the first `k` hamlets, each `(hamlet, nearest larger
/// settlement, within 14)`: a local road on a roll of channel `9000 +
/// hamlet` below 0.26.
pub open spec fn hamlet_roads_after(
    seed: u64,
    links: Seq<(RoadKind, usize, usize)>,
    hamlets: Seq<(usize, usize, bool)>,
    k: nat,
) -> Seq<(RoadKind, usize, usize)>
    decreases k,
{
    if k == 0 {
        links
    } else {
        let prev = hamlet_roads_after(seed, links, hamlets, (k - 1) as nat);
        let (v, j, near) = hamlets[k - 1];
        if near && spec_noise_bits(seed, CHANNEL_ROAD, (9000 + v) as u64) < NOISE_BELOW_0_26 {
            prev.push((RoadKind::Local, v, j))
        } else {
            prev
        }
    }
}

/// Adds the highways of large towns to their nearest cities.
pub fn add_town_highways(seed: u64, links: &mut Vec<(RoadKind, usize, usize)>, towns: &[(usize, usize, u32, bool)])
    requires
        forall|k: int| 0 <= k < towns@.len() ==> (#[trigger] towns@[k]).0 + 3000 <= u64::MAX,
    ensures
        final(links)@ == town_highways_after(seed, old(links)@, towns@, towns@.len()),
{
    let ghost start = links@;
    let mut k: usize = 0;
    while k < towns.len()
        invariant
            k <= towns@.len(),
            links@ == town_highways_after(seed, start, towns@, k as nat),
            forall|q: int| 0 <= q < towns@.len() ==> (#[trigger] towns@[q]).0 + 3000 <= u64::MAX,
        decreases towns.len() - k,
    {
        let (t, c, pop, near) = towns[k];
        if pop >= HIGHWAY_TOWN_POP_MIN && near && noise_bits(seed, CHANNEL_ROAD, 3000 + t as u64)
            < NOISE_BELOW_0_32 {
            if !has_pair(links.as_slice(), t, c) {
                links.push((RoadKind::Highway, t, c));
            }
        }
        k = k + 1;
    }
}

/// Adds the secondary roads from towns to their nearest hubs.
pub fn add_town_feeders(seed: u64, links: &mut Vec<(RoadKind, usize, usize)>, towns: &[(usize, usize, bool, bool)])
    requires
        forall|k: int| 0 <= k < towns@.len() ==> (#[trigger] towns@[k]).0 + 4000 <= u64::MAX,
    ensures
        final(links)@ == town_feeders_after(seed, old(links)@, towns@, towns@.len()),
{
    let ghost start = links@;
    let mut k: usize = 0;
    while k < towns.len()
        invariant
            k <= towns@.len(),
            links@ == town_feeders_after(seed, start, towns@, k as nat),
            forall|q: int| 0 <= q < towns@.len() ==> (#[trigger] towns@[q]).0 + 4000 <= u64::MAX,
        decreases towns.len() - k,
    {
        let (t, h, near, far) = towns[k];
        if !has_pair(links.as_slice(), t, h) {
            let roll = noise_bits(seed, CHANNEL_ROAD, 4000 + t as u64);
            if (near && roll < NOISE_BELOW_0_78) || (far && roll < NOISE_BELOW_0_40) {
                links.push((RoadKind::Secondary, t, h));
            }
        }
        k = k + 1;
    }
}

/// Adds the secondary roads between nearby towns.
pub fn add_town_pair_roads(seed: u64, links: &mut Vec<(RoadKind, usize, usize)>, pairs: &[(usize, usize, bool)])
    requires
        forall|k: int|
            0 <= k < pairs@.len() ==> 5000 + (#[trigger] pairs@[k]).0 * 17 + pairs@[k].1 <= u64::MAX,
    ensures
        final(links)@ == town_pairs_after(seed, old(links)@, pairs@, pairs@.len()),
{
    let ghost start = links@;
    let mut k: usize = 0;
    while k < pairs.len()
        invariant
            k <= pairs@.len(),
            links@ == town_pairs_after(seed, start, pairs@, k as nat),
            forall|q: int|
                0 <= q < pairs@.len() ==> 5000 + (#[trigger] pairs@[q]).0 * 17 + pairs@[q].1 <= u64::MAX,
        decreases pairs.len() - k,
    {
        let (a, b, near) = pairs[k];
        if !has_pair(links.as_slice(), a, b) {
            if near && noise_bits(seed, CHANNEL_ROAD, 5000 + a as u64 * 17 + b as u64) < NOISE_BELOW_0_20 {
                links.push((RoadKind::Secondary, a, b));
            }
        }
        k = k + 1;
    }
}

/// Adds the local roads of villages to their nearest hubs.
pub fn add_village_roads(seed: u64, links: &mut Vec<(RoadKind, usize, usize)>, villages: &[(usize, usize, bool, bool)])
    requires
        forall|k: int| 0 <= k < villages@.len() ==> (#[trigger] villages@[k]).0 + 7000 <= u64::MAX,
    ensures
        final(links)@ == village_roads_after(seed, old(links)@, villages@, villages@.len()),
{
    let ghost start = links@;
    let mut k: usize = 0;
    while k < villages.len()
        invariant
            k <= villages@.len(),
            links@ == village_roads_after(seed, start, villages@, k as nat),
            forall|q: int| 0 <= q < villages@.len() ==> (#[trigger] villages@[q]).0 + 7000 <= u64::MAX,
        decreases villages.len() - k,
    {
        let (v, h, near, far) = villages[k];
        let roll = noise_bits(seed, CHANNEL_ROAD, 7000 + v as u64);
        if (near && roll < NOISE_BELOW_0_55) || (far && roll < NOISE_BELOW_0_38) {
            links.push((RoadKind::Local, v, h));
        }
        k = k + 1;
    }
}

/// Adds the local roads of hamlets to their nearest larger settlements.
pub fn add_hamlet_roads(seed: u64, links: &mut Vec<(RoadKind, usize, usize)>, hamlets: &[(usize, usize, bool)])
    requires
        forall|k: int| 0 <= k < hamlets@.len() ==> (#[trigger] hamlets@[k]).0 + 9000 <= u64::MAX,
    ensures
        final(links)@ == hamlet_roads_after(seed, old(links)@, hamlets@, hamlets@.len()),
{
    let ghost start = links@;
    let mut k: usize = 0;
    while k < hamlets.len()
        invariant
            k <= hamlets@.len(),
            links@ == hamlet_roads_after(seed, start, hamlets@, k as nat),
            forall|q: int| 0 <= q < hamlets@.len() ==> (#[trigger] hamlets@[q]).0 + 9000 <= u64::MAX,
        decreases hamlets.len() - k,
    {
        let (v, j, near) = hamlets[k];
        if near && noise_bits(seed, CHANNEL_ROAD, 9000 + v as u64) < NOISE_BELOW_0_26 {
            links.push((RoadKind::Local, v, j));
        }
        k = k + 1;
    }
}

proof fn lemma_push_unlinked(links: Seq<(RoadKind, usize, usize)>, x: (RoadKind, usize, usize))
    requires
        pairs_unique(links),
        !linked(links, x.1, x.2),
    ensures
        pairs_unique(links.push(x)),
{
    let l2 = links.push(x);
    assert forall|i: int, j: int| 0 <= i < j < l2.len() implies !same_pair(#[trigger] l2[i], #[trigger] l2[j]) by {
        if j == links.len() {
            if same_pair(l2[i], l2[j]) {
                assert(links[i] == l2[i]);
                assert(linked(links, x.1, x.2));
            }
        } else {
            assert(l2[i] == links[i] && l2[j] == links[j]);
        }
    }
}

proof fn lemma_town_highways_after_prefix(seed: u64, links: Seq<(RoadKind, usize, usize)>, towns: Seq<(usize, usize, u32, bool)>, k: nat)
    ensures
        links.is_prefix_of(town_highways_after(seed, links, towns, k)),
    decreases k,
{
    if k > 0 {
        lemma_town_highways_after_prefix(seed, links, towns, (k - 1) as nat);
    }
}

proof fn lemma_town_feeders_after_prefix(seed: u64, links: Seq<(RoadKind, usize, usize)>, towns: Seq<(usize, usize, bool, bool)>, k: nat)
    ensures
        links.is_prefix_of(town_feeders_after(seed, links, towns, k)),
    decreases k,
{
    if k > 0 {
        lemma_town_feeders_after_prefix(seed, links, towns, (k - 1) as nat);
    }
}

proof fn lemma_town_pairs_after_prefix(seed: u64, links: Seq<(RoadKind, usize, usize)>, pairs: Seq<(usize, usize, bool)>, k: nat)
    ensures
        links.is_prefix_of(town_pairs_after(seed, links, pairs, k)),
    decreases k,
{
    if k > 0 {
        lemma_town_pairs_after_prefix(seed, links, pairs, (k - 1) as nat);
    }
}

proof fn lemma_village_roads_after_prefix(seed: u64, links: Seq<(RoadKind, usize, usize)>, villages: Seq<(usize, usize, bool, bool)>, k: nat)
    ensures
        links.is_prefix_of(village_roads_after(seed, links, villages, k)),
    decreases k,
{
    if k > 0 {
        lemma_village_roads_after_prefix(seed, links, villages, (k - 1) as nat);
    }
}

proof fn lemma_hamlet_roads_after_prefix(seed: u64, links: Seq<(RoadKind, usize, usize)>, hamlets: Seq<(usize, usize, bool)>, k: nat)
    ensures
        links.is_prefix_of(hamlet_roads_after(seed, links, hamlets, k)),
    decreases k,
{
    if k > 0 {
        lemma_hamlet_roads_after_prefix(seed, links, hamlets, (k - 1) as nat);
    }
}

proof fn lemma_town_highways_after_unique(seed: u64, links: Seq<(RoadKind, usize, usize)>, towns: Seq<(usize, usize, u32, bool)>, k: nat)
    requires
        pairs_unique(links),
    ensures
        pairs_unique(town_highways_after(seed, links, towns, k)),
    decreases k,
{
    if k > 0 {
        lemma_town_highways_after_unique(seed, links, towns, (k - 1) as nat);
        let prev = town_highways_after(seed, links, towns, (k - 1) as nat);
        let c = towns[k - 1];
        if !linked(prev, c.0, c.1) {
            lemma_push_unlinked(prev, (RoadKind::Highway, c.0, c.1));
        }
    }
}

proof fn lemma_town_feeders_after_unique(seed: u64, links: Seq<(RoadKind, usize, usize)>, towns: Seq<(usize, usize, bool, bool)>, k: nat)
    requires
        pairs_unique(links),
    ensures
        pairs_unique(town_feeders_after(seed, links, towns, k)),
    decreases k,
{
    if k > 0 {
        lemma_town_feeders_after_unique(seed, links, towns, (k - 1) as nat);
        let prev = town_feeders_after(seed, links, towns, (k - 1) as nat);
        let c = towns[k - 1];
        if !linked(prev, c.0, c.1) {
            lemma_push_unlinked(prev, (RoadKind::Secondary, c.0, c.1));
        }
    }
}

proof fn lemma_town_pairs_after_unique(seed: u64, links: Seq<(RoadKind, usize, usize)>, pairs: Seq<(usize, usize, bool)>, k: nat)
    requires
        pairs_unique(links),
    ensures
        pairs_unique(town_pairs_after(seed, links, pairs, k)),
    decreases k,
{
    if k > 0 {
        lemma_town_pairs_after_unique(seed, links, pairs, (k - 1) as nat);
        let prev = town_pairs_after(seed, links, pairs, (k - 1) as nat);
        let c = pairs[k - 1];
        if !linked(prev, c.0, c.1) {
            lemma_push_unlinked(prev, (RoadKind::Secondary, c.0, c.1));
        }
    }
}

/// The link rules only ever add roads: every link laid before a rule runs
/// is still there, in place, after it.
pub proof fn law_link_rules_only_append(
    seed: u64,
    links: Seq<(RoadKind, usize, usize)>,
    highway_towns: Seq<(usize, usize, u32, bool)>,
    feeder_towns: Seq<(usize, usize, bool, bool)>,
    town_pairs: Seq<(usize, usize, bool)>,
    villages: Seq<(usize, usize, bool, bool)>,
    hamlets: Seq<(usize, usize, bool)>,
)
    ensures
        links.is_prefix_of(town_highways_after(seed, links, highway_towns, highway_towns.len())),
        links.is_prefix_of(town_feeders_after(seed, links, feeder_towns, feeder_towns.len())),
        links.is_prefix_of(town_pairs_after(seed, links, town_pairs, town_pairs.len())),
        links.is_prefix_of(village_roads_after(seed, links, villages, villages.len())),
        links.is_prefix_of(hamlet_roads_after(seed, links, hamlets, hamlets.len())),
{
    lemma_town_highways_after_prefix(seed, links, highway_towns, highway_towns.len());
    lemma_town_feeders_after_prefix(seed, links, feeder_towns, feeder_towns.len());
    lemma_town_pairs_after_prefix(seed, links, town_pairs, town_pairs.len());
    lemma_village_roads_after_prefix(seed, links, villages, villages.len());
    lemma_hamlet_roads_after_prefix(seed, links, hamlets, hamlets.len());
}

/// The town rules, which look for an existing link first, never join two
/// settlements twice: on links without a repeated pair they keep it so.
pub proof fn law_town_rules_keep_pairs_unique(
    seed: u64,
    links: Seq<(RoadKind, usize, usize)>,
    highway_towns: Seq<(usize, usize, u32, bool)>,
    feeder_towns: Seq<(usize, usize, bool, bool)>,
    town_pairs: Seq<(usize, usize, bool)>,
)
    requires
        pairs_unique(links),
    ensures
        pairs_unique(town_highways_after(seed, links, highway_towns, highway_towns.len())),
        pairs_unique(town_feeders_after(seed, links, feeder_towns, feeder_towns.len())),
        pairs_unique(town_pairs_after(seed, links, town_pairs, town_pairs.len())),
{
    lemma_town_highways_after_unique(seed, links, highway_towns, highway_towns.len());
    lemma_town_feeders_after_unique(seed, links, feeder_towns, feeder_towns.len());
    lemma_town_pairs_after_unique(seed, links, town_pairs, town_pairs.len());
}

} // verus!
